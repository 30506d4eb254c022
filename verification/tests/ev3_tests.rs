use ev3rt_kit::buttons::{transpose_buttons, Button, ButtonFlags, ButtonsController};
use ev3rt_kit::devices::{
    Led, LedColor, Motor, MotorCommand, MotorConfig, MotorCounterValue, MotorLarge, MotorLargeBrake, MotorNone,
    MotorPortA, MotorPortProvider, MotorPort, Sensor, SensorColor, SensorConfig, SensorGyro, SensorNone,
    SensorNxtUltrasonic, SensorPort, SensorPort1, SensorPort3, SensorPortProvider, SensorType, SensorValue,
    MotorUnregulated,
};
use ev3rt_kit::layout::{LcdTopSideDown, LcdTopSideLeft, LcdTopSideRight, LcdTopSideUp};
use ev3rt_kit::time::{Duration, Instant, Time};
use ev3rt_kit::value::{NextValue, ValueCell};

fn flags(bs: &[Button]) -> ButtonFlags {
    bs.iter().fold(ButtonFlags::empty(), |acc, b| acc.union(ButtonFlags::from_button(*b)))
}

#[test]
fn durations() {
    assert_eq!(Duration::from_us(7).us, 7);
    assert_eq!(Duration::from_ms(3).us, 3000);
    assert_eq!(Duration::from_secs(2).us, 2_000_000);
    assert_eq!(Duration::zero().us, 0);
    assert_eq!(Duration::one_ms().us, 1000);
}

#[test]
fn instants() {
    let a = Instant::absolute(1000);
    let b = a.at(Duration::from_ms(2));
    assert_eq!(b.us, 3000);
    assert_eq!(b.elapsed(&a).us, 2000);
    assert_eq!(a.elapsed(&b).us, 0);
    assert_eq!(a.elapsed(&a).us, 0);
    assert!(b.is_after(&a));
    assert!(!a.is_after(&b));
    assert!(!a.is_after(&a));
    // elapsed times keep their low 32 bits
    let far = Instant::absolute((1u64 << 32) + 5);
    assert_eq!(far.elapsed(&Instant::zero()).us, 5);
    assert_eq!(Instant::zero(), Instant::default());
}

#[test]
fn clock_and_timers() {
    let mut time = Time::new();
    assert_eq!(time.now().us, 0);
    time.reset(5_000);
    assert_eq!(time.start().us, 5_000);
    assert_eq!(time.elapsed().us, 0);
    time.update(7_500);
    assert_eq!(time.now().us, 7_500);
    assert_eq!(time.elapsed().us, 2_500);
    let timer = time.timer_ms(2);
    assert_eq!(timer.at.us, 9_500);
    assert!(!timer.is_expired(&time));
    time.update(9_500);
    assert!(!timer.is_expired(&time));
    time.update(9_501);
    assert!(timer.is_expired(&time));
    assert_eq!(time.timer_in(Duration::from_us(10)).at.us, 9_511);
}

#[test]
fn value_cell_updates_and_waits() {
    let mut cell: ValueCell<i32> = ValueCell::new();
    assert_eq!(cell.get(), 0);
    let wait = cell.next();
    assert_eq!(wait, NextValue { counter: 1 });
    assert_eq!(wait.poll(&cell), None);
    cell.update(42);
    assert_eq!(cell.get(), 42);
    assert_eq!(wait.poll(&cell), Some(42));
    cell.update(43);
    assert_eq!(wait.poll(&cell), Some(43));
}

#[test]
fn value_stream_sees_each_update() {
    let mut cell: ValueCell<u8> = ValueCell::new();
    cell.update(1);
    let mut stream = cell.stream();
    assert_eq!(stream.counter, 1);
    let first = stream.next(&cell);
    // the value present when the stream was made is seen first
    assert_eq!(first.poll(&cell), Some(1));
    let second = stream.next(&cell);
    assert_eq!(second.poll(&cell), None);
    cell.update(2);
    assert_eq!(second.poll(&cell), Some(2));
    cell.update(3);
    cell.update(4);
    // a stream that fell behind resumes at the latest update
    let third = stream.next(&cell);
    assert_eq!(third.counter, 4);
    assert_eq!(third.poll(&cell), Some(4));
}

#[test]
fn button_flags() {
    let ud = flags(&[Button::UP, Button::DOWN]);
    assert_eq!(ud.bits, 0b11);
    assert!(ud.contains(ButtonFlags::from_button(Button::UP)));
    assert!(!ud.contains(ButtonFlags::from_button(Button::LEFT)));
    assert_eq!(ud.intersection(ButtonFlags::from_button(Button::DOWN).complement()).bits, 1);
    assert!(ButtonFlags::empty().is_empty());
    assert_eq!(ButtonFlags::default(), ButtonFlags::empty());
    assert_eq!(ButtonFlags::from_button(Button::BACK).bits, 32);
}

#[test]
fn buttons_turn_with_the_brick() {
    let pressed = flags(&[Button::UP, Button::ENTER]);
    assert_eq!(transpose_buttons::<LcdTopSideUp>(pressed), pressed);
    assert_eq!(transpose_buttons::<LcdTopSideRight>(pressed), flags(&[Button::LEFT, Button::ENTER]));
    assert_eq!(transpose_buttons::<LcdTopSideDown>(pressed), flags(&[Button::DOWN, Button::ENTER]));
    assert_eq!(transpose_buttons::<LcdTopSideLeft>(pressed), flags(&[Button::RIGHT, Button::ENTER]));
    assert_eq!(transpose_buttons::<LcdTopSideRight>(ButtonFlags::from_button(Button::RIGHT)), ButtonFlags::from_button(Button::UP));
    // bits that are no button are dropped
    assert_eq!(transpose_buttons::<LcdTopSideUp>(ButtonFlags { bits: 0xC0 }), ButtonFlags::empty());
    // turning for the right side and then the left side gives the buttons back
    for bits in 0u8..64 {
        let b = ButtonFlags { bits };
        let back = transpose_buttons::<LcdTopSideLeft>(transpose_buttons::<LcdTopSideRight>(b));
        assert_eq!(back, b);
        let twice = transpose_buttons::<LcdTopSideDown>(transpose_buttons::<LcdTopSideDown>(b));
        assert_eq!(twice, b);
    }
}

#[test]
fn button_events() {
    let mut buttons: ButtonsController<LcdTopSideRight> = ButtonsController::new();
    let filtered = buttons.flltered_pressed_event.next();
    buttons.update(flags(&[Button::RIGHT]));
    assert_eq!(buttons.down.get(), flags(&[Button::UP]));
    assert_eq!(buttons.pressed_event.get(), flags(&[Button::UP]));
    assert_eq!(buttons.released_event.get(), ButtonFlags::empty());
    assert_eq!(filtered.poll(&buttons.flltered_pressed_event), Some(()));
    let filtered = buttons.flltered_pressed_event.next();
    buttons.update(ButtonFlags::empty());
    assert_eq!(buttons.down.get(), ButtonFlags::empty());
    assert_eq!(filtered.poll(&buttons.flltered_pressed_event), None);
    assert_eq!(buttons.previous, ButtonFlags::empty());
}

#[test]
fn sensor_values() {
    let v = SensorValue { dt: Duration::one_ms(), value: 17 };
    assert!(v.check_actual_read());
    assert!(!SensorValue { dt: Duration::one_ms(), value: 255 }.check_actual_read());
    assert!(!SensorValue { dt: Duration::one_ms(), value: 100 }.check_actual_read());
    assert!(!SensorValue::default().check_actual_read());
    assert_eq!(SensorValue::default().dt.us, 1000);
}

#[test]
fn sensor_reads_once_per_period() {
    let mut s: Sensor<SensorNxtUltrasonic, SensorPort3> = Sensor::new();
    assert_eq!(s.next_read.us, 20_000);
    assert!(s.is_configured());
    assert!(!s.read_due(Instant::absolute(20_000)));
    s.update(Instant::absolute(20_000), 9);
    assert_eq!(s.value.get().value, 0);
    assert!(s.read_due(Instant::absolute(20_001)));
    s.update(Instant::absolute(20_001), 9);
    assert_eq!(s.value.get(), SensorValue { dt: Duration::from_us(20_001), value: 9 });
    assert_eq!(s.next_read.us, 40_001);
    s.update(Instant::absolute(30_000), 11);
    assert_eq!(s.value.get().value, 9);
    let mut none: Sensor<SensorNone, SensorPort1> = Sensor::new();
    assert!(!none.is_configured());
    none.update(Instant::absolute(5_000), 123);
    assert_eq!(none.value.get().value, 0);
    assert_eq!(SensorColor::kind(), SensorType::COLOR);
    assert_eq!(SensorGyro::period().us, 500);
    assert_eq!(SensorPort3::id(), SensorPort::S3);
}

#[test]
fn motor_power_brake_and_commands() {
    let mut m: Motor<MotorLargeBrake, MotorPortA> = Motor::new(Instant::absolute(10));
    assert!(m.is_configured());
    assert!(m.brake);
    assert_eq!(m.init(), MotorCommand { power: 0, stop: Some(true), reset_counts: true });
    m.set_power(40);
    assert_eq!(m.get_power(), 40);
    assert!(!m.brake);
    assert_eq!(m.apply(), MotorCommand { power: 40, stop: None, reset_counts: false });
    m.stop();
    assert!(m.brake);
    m.set_brake(false);
    m.reset();
    assert_eq!(m.apply(), MotorCommand { power: 0, stop: Some(false), reset_counts: true });
    assert_eq!(m.apply(), MotorCommand { power: 0, stop: Some(false), reset_counts: false });
    m.update(Instant::absolute(1010), 360, 7);
    assert_eq!(m.counter.get(), MotorCounterValue { dt: Duration::from_ms(1), ticks: 7, value: 360 });
    let mut u: Motor<MotorUnregulated, MotorPortA> = Motor::new(Instant::zero());
    u.update(Instant::absolute(5), 360, 7);
    assert_eq!(u.counter.get(), MotorCounterValue { dt: Duration::from_us(5), ticks: 0, value: 0 });
    let n: Motor<MotorNone, MotorPortA> = Motor::new(Instant::zero());
    assert!(!n.is_configured());
    let mut l: Motor<MotorLarge, MotorPortA> = Motor::new(Instant::zero());
    l.stop();
    assert!(!l.brake);
    assert_eq!(MotorPortA::id(), MotorPort::A);
    assert!(MotorLargeBrake::brake());
    assert_eq!(MotorCounterValue::default().dt.us, 1000);
}

#[test]
fn led_sends_only_changes() {
    let mut led = Led::new();
    assert_eq!(led.apply(), None);
    led.set(LedColor::RED);
    assert_eq!(led.apply(), Some(LedColor::RED));
    assert_eq!(led.apply(), None);
    led.set(LedColor::RED);
    assert_eq!(led.apply(), None);
    // only the last color asked for before an apply is sent
    led.set(LedColor::GREEN);
    led.set(LedColor::OFF);
    assert_eq!(led.apply(), Some(LedColor::OFF));
    led.set(LedColor::GREEN);
    led.set(LedColor::OFF);
    assert_eq!(led.apply(), None);
}
