use ev3rt_kit::brick::{
    draw_load_bars, show_check_mark, show_setup_screen, BtAction, BtConnect, BtPhase, DiagnosticTicker,
    MotorCheck, MotorCheckAction, RefreshSchedule, SensorCheck, MOTOR_MARK_ROW, SENSOR_MARK_ROW,
};
use ev3rt_kit::devices::{Led, LedColor, SensorType, SensorValue};
use ev3rt_kit::font::{build_font, Font};
use ev3rt_kit::glyph_code::GlyphCode;
use ev3rt_kit::lcd::Lcd;
use ev3rt_kit::layout::{LcdTopSideDown, LcdTopSideProvider, LcdTopSideUp, LCD_FRAMEBUFFER_SIZE};
use ev3rt_kit::time::{Duration, Instant};

fn leak_font<TOP: LcdTopSideProvider>() -> &'static Font<TOP> {
    Box::leak(Box::new(build_font::<TOP>()))
}

fn row_of<TOP: LcdTopSideProvider + 'static>(lcd: &Lcd<TOP>, y: usize, xs: std::ops::Range<usize>) -> Vec<GlyphCode> {
    xs.map(|x| lcd.next_screen.get(x, y)).collect()
}

fn blank_row<TOP: LcdTopSideProvider + 'static>(lcd: &Lcd<TOP>, y: usize) -> bool {
    (0..10).all(|x| lcd.next_screen.get(x, y) == GlyphCode::Space)
}

#[test]
fn motor_check_swings_eight_times_then_stops() {
    let mut check = MotorCheck::new(true);
    let wait = Duration::from_ms(125);
    assert_eq!(check.step(), MotorCheckAction::Begin { power: -50, wait });
    for i in 1..8 {
        let power = if i % 2 == 0 { -50 } else { 50 };
        assert_eq!(check.step(), MotorCheckAction::Swing { power, wait });
    }
    assert_eq!(check.step(), MotorCheckAction::Finish);
    assert_eq!(check.step(), MotorCheckAction::Done);
    assert_eq!(check.step(), MotorCheckAction::Done);
}

#[test]
fn motor_check_of_no_motor_does_nothing() {
    let mut check = MotorCheck::new(false);
    assert_eq!(check.step(), MotorCheckAction::Done);
    assert_eq!(check.swings, 0);
}

#[test]
fn sensor_check_waits_for_an_actual_reading() {
    let mut check = SensorCheck::new(SensorType::COLOR);
    assert!(check.pending);
    let dt = Duration::one_ms();
    assert_eq!(check.step(SensorValue { dt, value: 0 }), Some(false));
    assert_eq!(check.step(SensorValue { dt, value: 255 }), Some(false));
    assert_eq!(check.step(SensorValue { dt, value: 100 }), Some(false));
    assert!(check.pending);
    assert_eq!(check.step(SensorValue { dt, value: 42 }), Some(true));
    assert!(!check.pending);
    assert_eq!(check.step(SensorValue { dt, value: 7 }), None);
}

#[test]
fn sensor_checks_skipped_without_a_first_sensor() {
    let mut check = SensorCheck::new(SensorType::NONE);
    assert!(!check.pending);
    assert_eq!(check.step(SensorValue { dt: Duration::one_ms(), value: 42 }), None);
}

#[test]
fn refresh_schedule() {
    let mut schedule = RefreshSchedule::new(Instant::zero(), Duration::from_ms(50));
    assert_eq!(schedule.next.us, 50_000);
    assert!(!schedule.due(Instant::absolute(50_000)));
    assert_eq!(schedule.next.us, 50_000);
    assert!(schedule.due(Instant::absolute(50_001)));
    assert_eq!(schedule.next.us, 100_001);
    assert_eq!(schedule.rate.us, 50_000);
}

#[test]
fn diagnostic_ticker_cycles_every_thousand_turns() {
    let mut ticker = DiagnosticTicker::new();
    let mut drawn = Vec::new();
    for turn in 1..=2000 {
        if let Some(bars) = ticker.step() {
            drawn.push((turn, bars));
        }
    }
    let expected: Vec<(usize, usize)> =
        (1..=20).map(|k| (k * 100, if k <= 10 { k } else { k - 10 })).collect();
    assert_eq!(drawn, expected);
}

#[test]
fn load_bars_fill_the_bottom_rows() {
    let mut fb = [0xAAu8; LCD_FRAMEBUFFER_SIZE];
    draw_load_bars(&mut fb, 3);
    // rows above the bars are untouched
    assert!(fb[..123 * 60].iter().all(|b| *b == 0xAA));
    for row in 123..128 {
        let start = row * 60;
        assert!(fb[start..start + 18].iter().all(|b| *b == 0xFF));
        assert!(fb[start + 18..start + 60].iter().all(|b| *b == 0x00));
    }
    draw_load_bars(&mut fb, 10);
    assert!(fb[123 * 60..].iter().all(|b| *b == 0xFF));
    draw_load_bars(&mut fb, 0);
    assert!(fb[123 * 60..].iter().all(|b| *b == 0x00));
}

#[test]
fn setup_screen_labels() {
    let mut lcd = Lcd::new(leak_font::<LcdTopSideUp>());
    lcd.print(2, "XXXXXXX");
    show_setup_screen(&mut lcd);
    assert_eq!(row_of(&lcd, 0, 0..7), vec![GlyphCode::Space, GlyphCode::Space, GlyphCode::C, GlyphCode::F, GlyphCode::G, GlyphCode::Space, GlyphCode::Space]);
    assert_eq!(row_of(&lcd, 1, 0..7), vec![GlyphCode::Space, GlyphCode::S, GlyphCode::E, GlyphCode::T, GlyphCode::U, GlyphCode::P, GlyphCode::Space]);
    assert!(blank_row(&lcd, 2));
    assert_eq!(row_of(&lcd, 3, 0..7), vec![GlyphCode::Minus, GlyphCode::Space, GlyphCode::Minus, GlyphCode::Space, GlyphCode::Minus, GlyphCode::Space, GlyphCode::Minus]);
    assert_eq!(row_of(&lcd, 4, 0..7), vec![GlyphCode::D1, GlyphCode::Space, GlyphCode::D2, GlyphCode::Space, GlyphCode::D3, GlyphCode::Space, GlyphCode::D4]);
    assert_eq!(row_of(&lcd, 6, 0..7), vec![GlyphCode::A, GlyphCode::Space, GlyphCode::B, GlyphCode::Space, GlyphCode::C, GlyphCode::Space, GlyphCode::D]);
    // the side windows stay blank
    assert_eq!(row_of(&lcd, 0, 7..10), vec![GlyphCode::Space, GlyphCode::Space, GlyphCode::Space]);
}

#[test]
fn check_marks_go_under_their_labels() {
    let mut lcd = Lcd::new(leak_font::<LcdTopSideUp>());
    show_setup_screen(&mut lcd);
    show_check_mark(&mut lcd, SENSOR_MARK_ROW, 2, false);
    assert_eq!(lcd.next_screen.get(4, 3), GlyphCode::No);
    show_check_mark(&mut lcd, SENSOR_MARK_ROW, 2, true);
    assert_eq!(lcd.next_screen.get(4, 3), GlyphCode::Yes);
    show_check_mark(&mut lcd, MOTOR_MARK_ROW, 3, true);
    assert_eq!(lcd.next_screen.get(6, 5), GlyphCode::Yes);
}

#[test]
fn check_marks_turn_with_the_brick() {
    let mut lcd = Lcd::new(leak_font::<LcdTopSideDown>());
    show_check_mark(&mut lcd, MOTOR_MARK_ROW, 0, true);
    // the main window sits at column 3 and is turned upside down
    assert_eq!(lcd.next_screen.get(3 + 6, 6 - 5), GlyphCode::Yes);
}

#[test]
fn bt_connection_to_a_device() {
    let mut lcd = Lcd::new(leak_font::<LcdTopSideUp>());
    let mut led = Led::new();
    let mut bt = BtConnect::new(false);

    assert_eq!(bt.step(&mut lcd, &mut led, false), BtAction::Wait(Duration::from_us(500)));
    assert_eq!(led.required, LedColor::RED);
    assert_eq!(row_of(&lcd, 1, 0..7), vec![GlyphCode::Space, GlyphCode::Space, GlyphCode::B, GlyphCode::T, GlyphCode::Space, GlyphCode::Space, GlyphCode::Space]);
    assert_eq!(row_of(&lcd, 2, 0..7), vec![GlyphCode::Space, GlyphCode::C, GlyphCode::O, GlyphCode::N, GlyphCode::N, GlyphCode::Space, GlyphCode::No]);

    assert_eq!(bt.step(&mut lcd, &mut led, false), BtAction::Connect);
    assert_eq!(row_of(&lcd, 3, 1..6), vec![GlyphCode::Space, GlyphCode::Space, GlyphCode::Space, GlyphCode::Space, GlyphCode::D1]);
    assert_eq!(bt.step(&mut lcd, &mut led, false), BtAction::Wait(Duration::from_ms(25)));
    assert_eq!(bt.phase, BtPhase::Waiting { attempts: 1 });
    assert_eq!(bt.step(&mut lcd, &mut led, false), BtAction::Connect);
    assert_eq!(row_of(&lcd, 3, 1..6), vec![GlyphCode::Space, GlyphCode::Space, GlyphCode::Space, GlyphCode::Space, GlyphCode::D2]);

    assert_eq!(bt.step(&mut lcd, &mut led, true), BtAction::Wait(Duration::from_secs(1)));
    assert_eq!(led.required, LedColor::GREEN);
    assert_eq!(row_of(&lcd, 2, 0..7), vec![GlyphCode::Space, GlyphCode::C, GlyphCode::O, GlyphCode::N, GlyphCode::N, GlyphCode::Space, GlyphCode::Yes]);
    assert!(blank_row(&lcd, 3));

    assert_eq!(bt.step(&mut lcd, &mut led, false), BtAction::Wait(Duration::from_us(500)));
    assert_eq!(led.required, LedColor::OFF);
    assert!((0..7).all(|y| blank_row(&lcd, y)));
    assert_eq!(bt.step(&mut lcd, &mut led, false), BtAction::Done);
    assert_eq!(bt.phase, BtPhase::Done);
    assert_eq!(bt.step(&mut lcd, &mut led, false), BtAction::Done);
}

#[test]
fn bt_connection_to_a_host_pauses_before_the_second() {
    let mut lcd = Lcd::new(leak_font::<LcdTopSideUp>());
    let mut led = Led::new();
    let mut bt = BtConnect::new(true);
    assert_eq!(bt.step(&mut lcd, &mut led, false), BtAction::Wait(Duration::from_us(500)));
    assert_eq!(bt.step(&mut lcd, &mut led, false), BtAction::Connect);
    assert_eq!(bt.step(&mut lcd, &mut led, true), BtAction::Wait(Duration::from_us(500)));
    assert_eq!(bt.phase, BtPhase::Shown);
    assert_eq!(bt.step(&mut lcd, &mut led, false), BtAction::Wait(Duration::from_secs(1)));
    assert_eq!(bt.phase, BtPhase::Connected);
    assert_eq!(led.required, LedColor::GREEN);
    assert_eq!(bt.step(&mut lcd, &mut led, false), BtAction::Wait(Duration::from_us(500)));
    assert_eq!(led.required, LedColor::OFF);
    assert_eq!(bt.step(&mut lcd, &mut led, false), BtAction::Done);
}
