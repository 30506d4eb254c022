//! Sensors, motors and the status light: what the brick reads and commands,
//! when it reads, and what it sends.
use vstd::prelude::*;
use core::marker::PhantomData;
use crate::time::{elapsed_us, Duration, Instant};
use crate::value::ValueCell;

verus! {

/// The EV3RT sensor types.
#[allow(non_camel_case_types)]
#[derive(Clone, Copy, PartialEq, Eq, Structural, Debug)]
pub enum SensorType {
    NONE,
    ULTRASONIC,
    GYRO,
    TOUCH,
    COLOR,
    INFRARED,
    HtNxtACCEL,
    HtNxtCOLOR,
    NxtULTRASONIC,
    NxtTEMP,
}

/// The EV3 sensor ports.
#[derive(Clone, Copy, PartialEq, Eq, Structural, Debug)]
pub enum SensorPort {
    S1,
    S2,
    S3,
    S4,
}

/// The EV3RT motor types.
#[derive(Clone, Copy, PartialEq, Eq, Structural, Debug)]
pub enum MotorType {
    NONE,
    MEDIUM,
    LARGE,
    UNDEGULATED,
}

/// The EV3 motor ports.
#[derive(Clone, Copy, PartialEq, Eq, Structural, Debug)]
pub enum MotorPort {
    A,
    B,
    C,
    D,
}

/// A reading of a sensor and the time since the reading before it.
#[derive(Clone, Copy, PartialEq, Eq, Structural, Debug)]
pub struct SensorValue {
    pub dt: Duration,
    pub value: i32,
}

impl SensorValue {
    /// The reading is neither 0 nor one of the values (100, 255) a sensor
    /// gives before it works.
    pub fn check_actual_read(&self) -> (r: bool)
        ensures
            r == (self.value != 100 && self.value != 255 && self.value != 0),
    {
        self.value != 100 && self.value != 255 && self.value != 0
    }
}

impl Default for SensorValue {
    fn default() -> (r: Self)
        ensures
            r.dt.us == 1000,
            r.value == 0,
    {
        SensorValue { dt: Duration::one_ms(), value: 0 }
    }
}

pub trait SensorPortProvider {
    spec fn port() -> SensorPort;

    fn id() -> (r: SensorPort)
        ensures
            r == Self::port(),
    ;
}

pub struct SensorPort1 {}

impl SensorPortProvider for SensorPort1 {
    open spec fn port() -> SensorPort {
        SensorPort::S1
    }

    fn id() -> (r: SensorPort) {
        SensorPort::S1
    }
}

pub struct SensorPort2 {}

impl SensorPortProvider for SensorPort2 {
    open spec fn port() -> SensorPort {
        SensorPort::S2
    }

    fn id() -> (r: SensorPort) {
        SensorPort::S2
    }
}

pub struct SensorPort3 {}

impl SensorPortProvider for SensorPort3 {
    open spec fn port() -> SensorPort {
        SensorPort::S3
    }

    fn id() -> (r: SensorPort) {
        SensorPort::S3
    }
}

pub struct SensorPort4 {}

impl SensorPortProvider for SensorPort4 {
    open spec fn port() -> SensorPort {
        SensorPort::S4
    }

    fn id() -> (r: SensorPort) {
        SensorPort::S4
    }
}

/// What kind of sensor sits on a port, and how often it is read.
pub trait SensorConfig {
    spec fn period_spec() -> Duration;

    spec fn kind_spec() -> SensorType;

    /// A configured sensor is one whose readings the brick takes: the
    /// configuration names a kind that is read, or none.
    proof fn lemma_read_when_configured()
        ensures
            sensor_kind_reads(Self::kind_spec()) == (Self::kind_spec() != SensorType::NONE),
    ;

    fn period() -> (r: Duration)
        ensures
            r == Self::period_spec(),
    ;

    fn kind() -> (r: SensorType)
        ensures
            r == Self::kind_spec(),
    ;
}

pub struct SensorNone {}

impl SensorConfig for SensorNone {
    proof fn lemma_read_when_configured() {
    }

    open spec fn period_spec() -> Duration {
        Duration { us: 1000 }
    }

    open spec fn kind_spec() -> SensorType {
        SensorType::NONE
    }

    fn period() -> (r: Duration) {
        Duration::one_ms()
    }

    fn kind() -> (r: SensorType) {
        SensorType::NONE
    }
}

pub struct SensorColor {}

impl SensorConfig for SensorColor {
    proof fn lemma_read_when_configured() {
    }

    open spec fn period_spec() -> Duration {
        Duration { us: 500 }
    }

    open spec fn kind_spec() -> SensorType {
        SensorType::COLOR
    }

    fn period() -> (r: Duration) {
        Duration::from_us(500)
    }

    fn kind() -> (r: SensorType) {
        SensorType::COLOR
    }
}

pub struct SensorNxtUltrasonic {}

impl SensorConfig for SensorNxtUltrasonic {
    proof fn lemma_read_when_configured() {
    }

    open spec fn period_spec() -> Duration {
        Duration { us: 20_000 }
    }

    open spec fn kind_spec() -> SensorType {
        SensorType::NxtULTRASONIC
    }

    fn period() -> (r: Duration) {
        Duration::from_ms(20)
    }

    fn kind() -> (r: SensorType) {
        SensorType::NxtULTRASONIC
    }
}

pub struct SensorTouchAnalog {}

impl SensorConfig for SensorTouchAnalog {
    proof fn lemma_read_when_configured() {
    }

    open spec fn period_spec() -> Duration {
        Duration { us: 500 }
    }

    open spec fn kind_spec() -> SensorType {
        SensorType::TOUCH
    }

    fn period() -> (r: Duration) {
        Duration::from_us(500)
    }

    fn kind() -> (r: SensorType) {
        SensorType::TOUCH
    }
}

pub struct SensorGyro {}

impl SensorConfig for SensorGyro {
    proof fn lemma_read_when_configured() {
    }

    open spec fn period_spec() -> Duration {
        Duration { us: 500 }
    }

    open spec fn kind_spec() -> SensorType {
        SensorType::GYRO
    }

    fn period() -> (r: Duration) {
        Duration::from_us(500)
    }

    fn kind() -> (r: SensorType) {
        SensorType::GYRO
    }
}

/// The sensor kinds whose readings the brick takes; the others read as 0.
pub open spec fn sensor_kind_reads(kind: SensorType) -> bool {
    kind == SensorType::COLOR || kind == SensorType::NxtULTRASONIC || kind == SensorType::TOUCH
        || kind == SensorType::GYRO
}

/// A sensor of kind `CFG` on port `PORT`, read once per period.
pub struct Sensor<CFG: SensorConfig, PORT: SensorPortProvider> {
    pub config: PhantomData<CFG>,
    pub port: PhantomData<PORT>,
    pub last_read: Instant,
    pub next_read: Instant,
    pub value: ValueCell<SensorValue>,
}

impl<CFG: SensorConfig, PORT: SensorPortProvider> Sensor<CFG, PORT> {
    pub fn new() -> (r: Self)
        ensures
            r.last_read.us == 0,
            r.next_read.us == CFG::period_spec().us,
            r.value.count() == 0,
            r.value.current() == (SensorValue { dt: Duration { us: 1000 }, value: 0 }),
    {
        Sensor {
            config: PhantomData,
            port: PhantomData,
            last_read: Instant::zero(),
            next_read: Instant::zero() + CFG::period(),
            value: ValueCell::new(),
        }
    }

    /// A reading is due at `now`: the time for the next one has passed.
    pub fn read_due(&self, now: Instant) -> (r: bool)
        ensures
            r == (now.us > self.next_read.us),
    {
        now.is_after(&self.next_read)
    }

    /// Takes the sensor's `reading` at `now` when a reading is due: records
    /// it with the time since the last one and schedules the next one a
    /// period later; does nothing otherwise.
    pub fn update(&mut self, now: Instant, reading: i32)
        requires
            now.us > old(self).next_read.us ==> now.us + CFG::period_spec().us <= u64::MAX && old(
                self,
            ).value.count() < usize::MAX,
        ensures
            if now.us > old(self).next_read.us {
                &&& final(self).last_read == now
                &&& final(self).next_read.us == now.us + CFG::period_spec().us
                &&& final(self).value.count() == old(self).value.count() + 1
                &&& final(self).value.current().value == if CFG::kind_spec() != SensorType::NONE {
                    reading
                } else {
                    0
                }
                &&& final(self).value.current() == (SensorValue {
                    dt: Duration { us: elapsed_us(now.us, old(self).last_read.us) },
                    value: if sensor_kind_reads(CFG::kind_spec()) {
                        reading
                    } else {
                        0
                    },
                })
            } else {
                *final(self) == *old(self)
            },
    {
        proof {
            CFG::lemma_read_when_configured();
        }
        if now.is_after(&self.next_read) {
            let dt = now.elapsed(&self.last_read);
            let next_read = now + CFG::period();
            let value = match CFG::kind() {
                SensorType::COLOR => reading,
                SensorType::NxtULTRASONIC => reading,
                SensorType::TOUCH => reading,
                SensorType::GYRO => reading,
                _ => 0,
            };
            self.last_read = now;
            self.next_read = next_read;
            self.value.update(SensorValue { dt, value });
        }
    }

    /// A sensor is attached unless the configuration says none is.
    pub fn is_configured(&self) -> (r: bool)
        ensures
            r == (CFG::kind_spec() != SensorType::NONE),
    {
        match CFG::kind() {
            SensorType::NONE => false,
            _ => true,
        }
    }
}

pub trait MotorPortProvider {
    spec fn port() -> MotorPort;

    fn id() -> (r: MotorPort)
        ensures
            r == Self::port(),
    ;
}

pub struct MotorPortA {}

impl MotorPortProvider for MotorPortA {
    open spec fn port() -> MotorPort {
        MotorPort::A
    }

    fn id() -> (r: MotorPort) {
        MotorPort::A
    }
}

pub struct MotorPortB {}

impl MotorPortProvider for MotorPortB {
    open spec fn port() -> MotorPort {
        MotorPort::B
    }

    fn id() -> (r: MotorPort) {
        MotorPort::B
    }
}

pub struct MotorPortC {}

impl MotorPortProvider for MotorPortC {
    open spec fn port() -> MotorPort {
        MotorPort::C
    }

    fn id() -> (r: MotorPort) {
        MotorPort::C
    }
}

pub struct MotorPortD {}

impl MotorPortProvider for MotorPortD {
    open spec fn port() -> MotorPort {
        MotorPort::D
    }

    fn id() -> (r: MotorPort) {
        MotorPort::D
    }
}

/// What kind of motor sits on a port, and whether it brakes when stopped.
pub trait MotorConfig {
    spec fn kind_spec() -> MotorType;

    spec fn brake_spec() -> bool;

    fn kind() -> (r: MotorType)
        ensures
            r == Self::kind_spec(),
    ;

    fn brake() -> (r: bool)
        ensures
            r == Self::brake_spec(),
    ;
}

pub struct MotorNone {}

impl MotorConfig for MotorNone {
    open spec fn kind_spec() -> MotorType {
        MotorType::NONE
    }

    open spec fn brake_spec() -> bool {
        false
    }

    fn kind() -> (r: MotorType) {
        MotorType::NONE
    }

    fn brake() -> (r: bool) {
        false
    }
}

pub struct MotorLarge {}

impl MotorConfig for MotorLarge {
    open spec fn kind_spec() -> MotorType {
        MotorType::LARGE
    }

    open spec fn brake_spec() -> bool {
        false
    }

    fn kind() -> (r: MotorType) {
        MotorType::LARGE
    }

    fn brake() -> (r: bool) {
        false
    }
}

pub struct MotorLargeBrake {}

impl MotorConfig for MotorLargeBrake {
    open spec fn kind_spec() -> MotorType {
        MotorType::LARGE
    }

    open spec fn brake_spec() -> bool {
        true
    }

    fn kind() -> (r: MotorType) {
        MotorType::LARGE
    }

    fn brake() -> (r: bool) {
        true
    }
}

pub struct MotorMedium {}

impl MotorConfig for MotorMedium {
    open spec fn kind_spec() -> MotorType {
        MotorType::MEDIUM
    }

    open spec fn brake_spec() -> bool {
        false
    }

    fn kind() -> (r: MotorType) {
        MotorType::MEDIUM
    }

    fn brake() -> (r: bool) {
        false
    }
}

pub struct MotorMediumBrake {}

impl MotorConfig for MotorMediumBrake {
    open spec fn kind_spec() -> MotorType {
        MotorType::MEDIUM
    }

    open spec fn brake_spec() -> bool {
        true
    }

    fn kind() -> (r: MotorType) {
        MotorType::MEDIUM
    }

    fn brake() -> (r: bool) {
        true
    }
}

pub struct MotorUnregulated {}

impl MotorConfig for MotorUnregulated {
    open spec fn kind_spec() -> MotorType {
        MotorType::UNDEGULATED
    }

    open spec fn brake_spec() -> bool {
        false
    }

    fn kind() -> (r: MotorType) {
        MotorType::UNDEGULATED
    }

    fn brake() -> (r: bool) {
        false
    }
}

pub struct MotorUnregulatedBrake {}

impl MotorConfig for MotorUnregulatedBrake {
    open spec fn kind_spec() -> MotorType {
        MotorType::UNDEGULATED
    }

    open spec fn brake_spec() -> bool {
        true
    }

    fn kind() -> (r: MotorType) {
        MotorType::UNDEGULATED
    }

    fn brake() -> (r: bool) {
        true
    }
}

/// A reading of a motor's tachometer: counts, ticks, and the time since the
/// reading before it.
#[derive(Clone, Copy, PartialEq, Eq, Structural, Debug)]
pub struct MotorCounterValue {
    pub dt: Duration,
    pub ticks: u32,
    pub value: i32,
}

impl Default for MotorCounterValue {
    fn default() -> (r: Self)
        ensures
            r.dt.us == 1000,
            r.ticks == 0,
            r.value == 0,
    {
        MotorCounterValue { dt: Duration::one_ms(), ticks: 0, value: 0 }
    }
}

/// The motor kinds that have a tachometer the brick reads.
pub open spec fn motor_kind_counts(kind: MotorType) -> bool {
    kind == MotorType::MEDIUM || kind == MotorType::LARGE
}

/// The large and medium motors, with or without brake, have their
/// tachometers read; an unregulated motor, and no motor, record zeros.
pub proof fn lemma_motor_configs_count()
    ensures
        motor_kind_counts(MotorLarge::kind_spec()),
        motor_kind_counts(MotorLargeBrake::kind_spec()),
        motor_kind_counts(MotorMedium::kind_spec()),
        motor_kind_counts(MotorMediumBrake::kind_spec()),
        !motor_kind_counts(MotorUnregulated::kind_spec()),
        !motor_kind_counts(MotorUnregulatedBrake::kind_spec()),
        !motor_kind_counts(MotorNone::kind_spec()),
{
}

/// What the brick sends a motor port: the power, a stop (with or without
/// braking) when the power is zero, and whether to reset the tachometer.
#[derive(Clone, Copy, PartialEq, Eq, Structural, Debug)]
pub struct MotorCommand {
    pub power: i32,
    pub stop: Option<bool>,
    pub reset_counts: bool,
}

/// A motor of kind `CFG` on port `PORT`: the power and brake setting to
/// send, and its tachometer readings.
pub struct Motor<CFG: MotorConfig, PORT: MotorPortProvider> {
    pub cfg: PhantomData<CFG>,
    pub port: PhantomData<PORT>,
    pub power: i32,
    pub brake: bool,
    pub reset: bool,
    pub last_read: Instant,
    pub counter: ValueCell<MotorCounterValue>,
}

impl<CFG: MotorConfig, PORT: MotorPortProvider> Motor<CFG, PORT> {
    pub fn new(now: Instant) -> (r: Self)
        ensures
            r.power == 0,
            r.brake == CFG::brake_spec(),
            !r.reset,
            r.last_read == now,
            r.counter.count() == 0,
            r.counter.current() == (MotorCounterValue { dt: Duration { us: 1000 }, ticks: 0, value: 0 }),
    {
        Self {
            cfg: PhantomData,
            port: PhantomData,
            power: 0,
            brake: CFG::brake(),
            reset: false,
            last_read: now,
            counter: ValueCell::new(),
        }
    }

    /// A motor is attached unless the configuration says none is.
    pub fn is_configured(&self) -> (r: bool)
        ensures
            r == (CFG::kind_spec() != MotorType::NONE),
    {
        match CFG::kind() {
            MotorType::NONE => false,
            _ => true,
        }
    }

    /// Resets the motor's settings once it is configured: no power, the
    /// configured brake, and a tachometer reset; returns what to send.
    pub fn init(&mut self) -> (r: MotorCommand)
        ensures
            final(self).power == 0,
            final(self).brake == CFG::brake_spec(),
            !final(self).reset,
            final(self).last_read == old(self).last_read,
            final(self).counter == old(self).counter,
            r == (MotorCommand { power: 0, stop: Some(CFG::brake_spec()), reset_counts: true }),
    {
        self.power = 0;
        self.brake = CFG::brake();
        self.reset = true;
        self.apply()
    }

    pub fn stop(&mut self)
        ensures
            final(self).power == 0,
            final(self).brake == CFG::brake_spec(),
            final(self).reset == old(self).reset,
            final(self).last_read == old(self).last_read,
            final(self).counter == old(self).counter,
    {
        self.set_power(0);
    }

    pub fn get_power(&self) -> (r: i32)
        ensures
            r == self.power,
    {
        self.power
    }

    /// Sets the power; a motor at zero power holds with the configured
    /// brake, a running one does not brake.
    pub fn set_power(&mut self, power: i32)
        ensures
            final(self).power == power,
            final(self).brake == if power == 0 {
                CFG::brake_spec()
            } else {
                false
            },
            final(self).reset == old(self).reset,
            final(self).last_read == old(self).last_read,
            final(self).counter == old(self).counter,
    {
        self.power = power;
        self.brake = if power == 0 {
            CFG::brake()
        } else {
            false
        };
    }

    pub fn set_brake(&mut self, brake: bool)
        ensures
            *final(self) == (Motor::<CFG, PORT> { brake, ..*old(self) }),
    {
        self.brake = brake;
    }

    /// Asks for a tachometer reset with the next command.
    pub fn reset(&mut self)
        ensures
            *final(self) == (Motor::<CFG, PORT> { reset: true, ..*old(self) }),
    {
        self.reset = true;
    }

    /// Records the tachometer reading (`counts`, `ticks`) taken at `now`;
    /// motors without a tachometer record zeros.
    pub fn update(&mut self, now: Instant, counts: i32, ticks: u32)
        requires
            old(self).counter.count() < usize::MAX,
        ensures
            final(self).last_read == now,
            final(self).counter.count() == old(self).counter.count() + 1,
            final(self).counter.current() == (MotorCounterValue {
                dt: Duration { us: elapsed_us(now.us, old(self).last_read.us) },
                ticks: if motor_kind_counts(CFG::kind_spec()) {
                    ticks
                } else {
                    0
                },
                value: if motor_kind_counts(CFG::kind_spec()) {
                    counts
                } else {
                    0
                },
            }),
            final(self).power == old(self).power,
            final(self).brake == old(self).brake,
            final(self).reset == old(self).reset,
    {
        let dt = now.elapsed(&self.last_read);
        let (counter, ticks) = match CFG::kind() {
            MotorType::MEDIUM | MotorType::LARGE => (counts, ticks),
            MotorType::NONE | MotorType::UNDEGULATED => (0, 0),
        };
        let value = MotorCounterValue { dt, ticks, value: counter };
        self.last_read = now;
        self.counter.update(value);
    }

    /// What to send the motor now: its power, a stop with its brake setting
    /// when the power is zero, and a pending tachometer reset, which is then
    /// no longer pending.
    pub fn apply(&mut self) -> (r: MotorCommand)
        ensures
            r.power == old(self).power,
            r.stop == if old(self).power == 0 {
                Some(old(self).brake)
            } else {
                None
            },
            r.reset_counts == old(self).reset,
            *final(self) == (Motor::<CFG, PORT> { reset: false, ..*old(self) }),
    {
        let power = self.power;
        let brake = self.brake;
        let reset = self.reset;
        let stop = if power == 0 {
            Some(brake)
        } else {
            None
        };
        if reset {
            self.reset = false;
        }
        MotorCommand { power, stop, reset_counts: reset }
    }
}

/// The colors of the status light.
#[derive(Clone, Copy, PartialEq, Eq, Structural, Debug)]
pub enum LedColor {
    OFF,
    RED,
    GREEN,
    ORANGE,
}

/// The status light: the color asked for and the color last sent.
pub struct Led {
    pub previous: LedColor,
    pub required: LedColor,
}

impl Led {
    /// A light that is off (the brick switches it off as it starts).
    pub fn new() -> (r: Self)
        ensures
            r.previous == LedColor::OFF,
            r.required == LedColor::OFF,
    {
        Led { previous: LedColor::OFF, required: LedColor::OFF }
    }

    pub fn set(&mut self, color: LedColor)
        ensures
            final(self).required == color,
            final(self).previous == old(self).previous,
    {
        self.required = color;
    }

    /// The color to send, when it differs from the one last sent.
    pub fn apply(&mut self) -> (r: Option<LedColor>)
        ensures
            r == if old(self).required != old(self).previous {
                Some(old(self).required)
            } else {
                None
            },
            final(self).required == old(self).required,
            final(self).previous == old(self).required,
    {
        let required = self.required;
        if required != self.previous {
            self.previous = required;
            Some(required)
        } else {
            None
        }
    }
}

} // verus!
