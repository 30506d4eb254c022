//! The brick's routines: the start-up checks of sensors and motors, the
//! display refresh schedule, and the diagnostic load bars. Each is a step
//! function that the run loop calls between its waits.
use vstd::prelude::*;
use vstd::string::StringSliceAdditionalSpecFns;
use crate::devices::{Led, LedColor, SensorType, SensorValue};
use crate::glyph_code::{glyph_for_byte, GlyphCode};
use crate::layout::{
    layout_fits, Framebuffer, LcdLayout, LcdTopSideProvider, WindowId, LCD_FRAMEBUFFER_ROWS,
    LCD_FRAMEBUFFER_ROW_BYTES, LCD_FRAMEBUFFER_SIZE, LCD_GLYPHS_PER_COLUMN,
};
use crate::lcd::Lcd;
use crate::screen::all_cells;
use crate::time::{Duration, Instant};
use crate::window::{
    print_row_ok, print_row_writes, print_value_ok, print_value_writes, window_cell_ok, window_write,
    window_writes, writes_ok,
};

verus! {

/// Swings of a motor check.
pub const MOTOR_CHECK_SWINGS: u8 = 8;

/// The power of swing `i` of a motor check: backward on even swings,
/// forward on odd ones.
pub open spec fn check_swing_power(i: int) -> i32 {
    if i % 2 == 0 {
        -50i32
    } else {
        50i32
    }
}

/// What the run loop does next in a motor check.
#[derive(Clone, Copy, PartialEq, Eq, Structural, Debug)]
pub enum MotorCheckAction {
    /// Mark the motor as not yet checked, set `power`, and wait `wait`.
    Begin { power: i32, wait: Duration },
    /// Set `power` and wait `wait`.
    Swing { power: i32, wait: Duration },
    /// Stop the motor and mark it as checked.
    Finish,
    /// Nothing is left to do.
    Done,
}

/// A motor check: a configured motor swings back and forth
/// `MOTOR_CHECK_SWINGS` times, an eighth of a second each, and stops.
#[derive(Clone, Copy, PartialEq, Eq, Structural, Debug)]
pub struct MotorCheck {
    pub configured: bool,
    /// Swings started so far; one more once the motor is stopped.
    pub swings: u8,
}

impl MotorCheck {
    pub fn new(configured: bool) -> (r: Self)
        ensures
            r.configured == configured,
            r.swings == 0,
    {
        MotorCheck { configured, swings: 0 }
    }

    /// The next action of the check.
    pub fn step(&mut self) -> (r: MotorCheckAction)
        ensures
            final(self).configured == old(self).configured,
            !old(self).configured || old(self).swings > 8 ==> r == MotorCheckAction::Done && *final(self)
                == *old(self),
            old(self).configured && old(self).swings == 0 ==> r == (MotorCheckAction::Begin {
                power: check_swing_power(0),
                wait: Duration { us: 125_000 },
            }) && final(self).swings == 1,
            old(self).configured && 1 <= old(self).swings < 8 ==> r == (MotorCheckAction::Swing {
                power: check_swing_power(old(self).swings as int),
                wait: Duration { us: 125_000 },
            }) && final(self).swings == old(self).swings + 1,
            old(self).configured && old(self).swings == 8 ==> r == MotorCheckAction::Finish
                && final(self).swings == 9,
    {
        if !self.configured || self.swings > MOTOR_CHECK_SWINGS {
            return MotorCheckAction::Done;
        }
        if self.swings == MOTOR_CHECK_SWINGS {
            self.swings = self.swings + 1;
            return MotorCheckAction::Finish;
        }
        let i = self.swings as i32;
        let power = 50 * (i % 2 * 2 - 1);
        let wait = Duration::from_ms(125);
        self.swings = self.swings + 1;
        if i == 0 {
            MotorCheckAction::Begin { power, wait }
        } else {
            MotorCheckAction::Swing { power, wait }
        }
    }
}

/// A sensor check: it waits for the sensor's first actual reading.
#[derive(Clone, Copy, PartialEq, Eq, Structural, Debug)]
pub struct SensorCheck {
    pub pending: bool,
}

impl SensorCheck {
    /// The check of a sensor of a brick whose first sensor is of kind
    /// `first`: the brick checks its sensors only when its first sensor is
    /// configured.
    pub fn new(first: SensorType) -> (r: Self)
        ensures
            r.pending == (first != SensorType::NONE),
    {
        let pending = match first {
            SensorType::NONE => false,
            _ => true,
        };
        SensorCheck { pending }
    }

    /// Takes the sensor's next value: while the check is pending, whether
    /// the value is an actual reading, which ends the check; nothing once
    /// the check is over.
    pub fn step(&mut self, value: SensorValue) -> (r: Option<bool>)
        ensures
            !old(self).pending ==> r is None && !final(self).pending,
            old(self).pending ==> r == Some(value.value != 100 && value.value != 255 && value.value != 0)
                && final(self).pending == !r->0,
    {
        if !self.pending {
            return None;
        }
        let actual = value.check_actual_read();
        if actual {
            self.pending = false;
        }
        Some(actual)
    }
}

/// When the display is next refreshed, and how often.
#[derive(Clone, Copy, PartialEq, Eq, Structural, Debug)]
pub struct RefreshSchedule {
    pub rate: Duration,
    pub next: Instant,
}

impl RefreshSchedule {
    /// The first refresh comes `rate` after `now`.
    pub fn new(now: Instant, rate: Duration) -> (r: Self)
        requires
            now.us + rate.us <= u64::MAX,
        ensures
            r.rate == rate,
            r.next.us == now.us + rate.us,
    {
        RefreshSchedule { rate, next: now + rate }
    }

    /// A refresh is due at `now` once `now` is past the time set for it;
    /// the next one then comes `rate` after `now`.
    pub fn due(&mut self, now: Instant) -> (r: bool)
        requires
            now.us > old(self).next.us ==> now.us + old(self).rate.us <= u64::MAX,
        ensures
            r == (now.us > old(self).next.us),
            final(self).rate == old(self).rate,
            r ==> final(self).next.us == now.us + old(self).rate.us,
            !r ==> final(self).next == old(self).next,
    {
        if now.is_after(&self.next) {
            self.next = now + self.rate;
            true
        } else {
            false
        }
    }
}

/// The display is refreshed at most once per refresh period: after a
/// refresh at `first`, the next one is due only more than `rate` later.
pub proof fn lemma_refreshes_spaced(after_first: RefreshSchedule, first: Instant, later: Instant)
    requires
        after_first.next.us == first.us + after_first.rate.us,
        later.us > after_first.next.us,
    ensures
        later.us - first.us > after_first.rate.us,
{
}

/// Counts the run loop's turns for the diagnostic load bars: every hundredth
/// turn draws the bars, a tenth longer each time, over a cycle of a thousand
/// turns.
pub struct DiagnosticTicker {
    tick: usize,
}

impl DiagnosticTicker {
    #[verifier::type_invariant]
    spec fn within_cycle(self) -> bool {
        self.tick < 1000
    }

    /// Turns counted in the current cycle.
    pub closed spec fn ticks(self) -> nat {
        self.tick as nat
    }

    pub fn new() -> (r: Self)
        ensures
            r.ticks() == 0,
    {
        DiagnosticTicker { tick: 0 }
    }

    /// Counts one turn; on every hundredth turn, the number of tenths to
    /// draw.
    pub fn step(&mut self) -> (r: Option<usize>)
        ensures
            old(self).ticks() < 1000,
            final(self).ticks() == (old(self).ticks() + 1) % 1000,
            r == if (old(self).ticks() + 1) % 100 == 0 {
                Some(((old(self).ticks() + 1) / 100) as usize)
            } else {
                None
            },
    {
        proof {
            use_type_invariant(&*self);
        }
        let tick = self.tick + 1;
        let bars = if tick % 100 == 0 {
            Some(tick / 100)
        } else {
            None
        };
        self.tick = tick % 1000;
        bars
    }
}

/// Pixel rows at the bottom of the display that hold the load bars.
pub const LOAD_BAR_ROWS: usize = 5;

/// `after` is `before` with load bars of `bars` tenths drawn: each of the
/// bottom `LOAD_BAR_ROWS` pixel rows is dark for its first `bars` tenths and
/// blank after; every other byte is unchanged.
pub open spec fn load_bars_drawn(before: Seq<u8>, after: Seq<u8>, bars: int) -> bool {
    &&& after.len() == before.len()
    &&& forall|p: int|
        0 <= p < before.len() ==> #[trigger] after[p] == if p >= (LCD_FRAMEBUFFER_ROWS - LOAD_BAR_ROWS)
            * LCD_FRAMEBUFFER_ROW_BYTES {
            if p % (LCD_FRAMEBUFFER_ROW_BYTES as int) < LCD_FRAMEBUFFER_ROW_BYTES * bars / 10 {
                0xffu8
            } else {
                0u8
            }
        } else {
            before[p]
        }
}

proof fn lemma_row_offset(m: int, k: int)
    requires
        0 <= m,
        0 <= k < 60,
    ensures
        (60 * m + k) % 60 == k,
{
    assert((60 * m + k) % 60 == k) by (nonlinear_arith)
        requires
            0 <= m,
            0 <= k < 60,
    ;
}

/// Draws load bars of `bars` tenths into the bottom pixel rows of `fb`.
pub fn draw_load_bars(fb: &mut Framebuffer, bars: usize)
    requires
        bars <= 10,
    ensures
        load_bars_drawn(old(fb)@, final(fb)@, bars as int),
{
    let ghost before = fb@;
    for r in 1..LOAD_BAR_ROWS + 1
        invariant
            bars <= 10,
            before.len() == LCD_FRAMEBUFFER_SIZE,
            fb@.len() == LCD_FRAMEBUFFER_SIZE,
            forall|p: int|
                0 <= p < LCD_FRAMEBUFFER_SIZE ==> #[trigger] fb@[p] == if p >= 60 * (129 - r) {
                    if p % 60 < 60 * bars / 10 {
                        0xffu8
                    } else {
                        0u8
                    }
                } else {
                    before[p]
                },
    {
        let start = LCD_FRAMEBUFFER_ROW_BYTES * (LCD_FRAMEBUFFER_ROWS - r);
        let middle = start + (LCD_FRAMEBUFFER_ROW_BYTES * bars / 10);
        let end = start + LCD_FRAMEBUFFER_ROW_BYTES;
        let ghost row_start = fb@;
        for p in start..end
            invariant
                bars <= 10,
                start == 60 * (128 - r),
                middle == start + 60 * bars / 10,
                end == start + 60,
                end <= LCD_FRAMEBUFFER_SIZE,
                fb@.len() == LCD_FRAMEBUFFER_SIZE,
                row_start.len() == LCD_FRAMEBUFFER_SIZE,
                forall|q: int|
                    0 <= q < LCD_FRAMEBUFFER_SIZE ==> #[trigger] fb@[q] == if start <= q < p {
                        if q < middle {
                            0xffu8
                        } else {
                            0u8
                        }
                    } else {
                        row_start[q]
                    },
        {
            fb[p] = if p < middle {
                0xff
            } else {
                0
            };
        }
        proof {
            assert forall|p: int| 0 <= p < LCD_FRAMEBUFFER_SIZE implies #[trigger] fb@[p] == if p >= 60 * (128
                - r) {
                if p % 60 < 60 * bars / 10 {
                    0xffu8
                } else {
                    0u8
                }
            } else {
                before[p]
            } by {
                if start <= p < end {
                    lemma_row_offset(128 - r, p - start);
                }
            }
        }
    }
    assert(load_bars_drawn(before, fb@, bars as int));
}


/// The screen after printing the text `bytes` into row `row` of the main
/// window.
pub open spec fn main_text(screen: Seq<GlyphCode>, l: LcdLayout, row: int, bytes: Seq<u8>) -> Seq<GlyphCode> {
    window_writes(screen, l, WindowId::Main, print_row_writes(l.placement(WindowId::Main).size as int, row, bytes))
}

/// Every cell inside a window of a layout that fits can be written.
proof fn lemma_cell_ok(l: LcdLayout, id: WindowId, x: int, y: int)
    requires
        layout_fits(l),
        0 <= x < l.placement(id).size,
        0 <= y < l.placement(id).size,
    ensures
        window_cell_ok(l, id, x, y),
{
}

/// A text of at most a line fits on any row of the main window.
proof fn lemma_main_line_ok(l: LcdLayout, row: int, bytes: Seq<u8>)
    requires
        layout_fits(l),
        l.main.size == 7,
        0 <= row < 7,
        bytes.len() <= 7,
    ensures
        print_row_ok(l, WindowId::Main, row, bytes),
{
    let w = print_row_writes(7, row, bytes);
    assert forall|i: int| 0 <= i < w.len() implies window_cell_ok(l, WindowId::Main, #[trigger] w[i].0, w[i].1) by {
        lemma_cell_ok(l, WindowId::Main, i, row);
    }
}

/// A string of seven ASCII characters is seven bytes long.
proof fn lemma_line_bytes(s: &str)
    requires
        vstd::string::is_ascii(s),
        s@.len() == 7,
    ensures
        s.spec_bytes().len() == 7,
{
    vstd::string::is_ascii_spec_bytes(s);
}

/// Prints a line of text into row `row` of the main window.
fn print_line<TOP: LcdTopSideProvider + 'static>(lcd: &mut Lcd<TOP>, row: usize, text: &str)
    requires
        row < 7,
        text.spec_bytes().len() <= 7,
    ensures
        final(lcd).next_screen@ == main_text(old(lcd).next_screen@, TOP::layout(), row as int, text.spec_bytes()),
        final(lcd).current_screen == old(lcd).current_screen,
{
    proof {
        TOP::lemma_layout_fits();
        TOP::lemma_main_window_full_height();
        crate::layout::lemma_geometry();
        lemma_main_line_ok(TOP::layout(), row as int, text.spec_bytes());
    }
    lcd.print(row, text);
}

/// The setup screen: its title, and the labels of the sensor and motor
/// checks.
pub open spec fn setup_screen(l: LcdLayout) -> Seq<GlyphCode> {
    let s0 = main_text(all_cells(GlyphCode::Space), l, 0, "  CFG  ".spec_bytes());
    let s1 = main_text(s0, l, 1, " SETUP ".spec_bytes());
    let s3 = main_text(s1, l, 3, "- - - -".spec_bytes());
    let s4 = main_text(s3, l, 4, "1 2 3 4".spec_bytes());
    let s5 = main_text(s4, l, 5, "- - - -".spec_bytes());
    main_text(s5, l, 6, "A B C D".spec_bytes())
}

/// Shows the setup screen.
pub fn show_setup_screen<TOP: LcdTopSideProvider + 'static>(lcd: &mut Lcd<TOP>)
    ensures
        final(lcd).next_screen@ == setup_screen(TOP::layout()),
        final(lcd).current_screen == old(lcd).current_screen,
{
    proof {
        reveal_strlit("  CFG  ");
        reveal_strlit(" SETUP ");
        reveal_strlit("- - - -");
        reveal_strlit("1 2 3 4");
        reveal_strlit("A B C D");
        lemma_line_bytes("  CFG  ");
        lemma_line_bytes(" SETUP ");
        lemma_line_bytes("- - - -");
        lemma_line_bytes("1 2 3 4");
        lemma_line_bytes("A B C D");
    }
    lcd.clear();
    print_line(lcd, 0, "  CFG  ");
    print_line(lcd, 1, " SETUP ");
    print_line(lcd, 3, "- - - -");
    print_line(lcd, 4, "1 2 3 4");
    print_line(lcd, 5, "- - - -");
    print_line(lcd, 6, "A B C D");
}

/// The mark of a check: `y` once passed, `n` before.
pub open spec fn check_mark(passed: bool) -> GlyphCode {
    glyph_for_byte(if passed { 121u8 } else { 110u8 })
}

/// Row of the setup screen with the sensor checks' marks.
pub const SENSOR_MARK_ROW: usize = 3;

/// Row of the setup screen with the motor checks' marks.
pub const MOTOR_MARK_ROW: usize = 5;

/// Shows the mark of the check of sensor or motor `index` (counted from
/// 0) in row `row`, under its label.
pub fn show_check_mark<TOP: LcdTopSideProvider + 'static>(lcd: &mut Lcd<TOP>, row: usize, index: usize, passed: bool)
    requires
        row == SENSOR_MARK_ROW || row == MOTOR_MARK_ROW,
        index < 4,
    ensures
        final(lcd).next_screen@ == window_write(
            old(lcd).next_screen@,
            TOP::layout(),
            WindowId::Main,
            2 * index as int,
            row as int,
            check_mark(passed),
        ),
        final(lcd).current_screen == old(lcd).current_screen,
{
    proof {
        TOP::lemma_layout_fits();
        TOP::lemma_main_window_full_height();
        crate::layout::lemma_geometry();
        lemma_cell_ok(TOP::layout(), WindowId::Main, 2 * index as int, row as int);
    }
    lcd.print_char(2 * index, row, if passed { 'y' } else { 'n' });
}


/// The Bluetooth screen: its title, and whether the connection is made.
pub open spec fn bt_screen(l: LcdLayout, connected: bool) -> Seq<GlyphCode> {
    main_text(
        main_text(all_cells(GlyphCode::Space), l, 1, "  BT   ".spec_bytes()),
        l,
        2,
        if connected {
            " CONN y".spec_bytes()
        } else {
            " CONN n".spec_bytes()
        },
    )
}

/// Shows the Bluetooth screen.
fn show_bt_screen<TOP: LcdTopSideProvider + 'static>(lcd: &mut Lcd<TOP>, connected: bool)
    ensures
        final(lcd).next_screen@ == bt_screen(TOP::layout(), connected),
        final(lcd).current_screen == old(lcd).current_screen,
{
    proof {
        reveal_strlit("  BT   ");
        reveal_strlit(" CONN y");
        reveal_strlit(" CONN n");
        lemma_line_bytes("  BT   ");
        lemma_line_bytes(" CONN y");
        lemma_line_bytes(" CONN n");
    }
    lcd.clear();
    print_line(lcd, 1, "  BT   ");
    if connected {
        print_line(lcd, 2, " CONN y");
    } else {
        print_line(lcd, 2, " CONN n");
    }
}

/// The screen after the count of connection attempts is shown: right-aligned
/// in five cells of row 3 from column 1.
pub open spec fn bt_attempts_shown(screen: Seq<GlyphCode>, l: LcdLayout, attempts: int) -> Seq<GlyphCode> {
    window_writes(screen, l, WindowId::Main, print_value_writes(3, 1, 5, attempts))
}

/// Where a Bluetooth connection sequence stands.
#[derive(Clone, Copy, PartialEq, Eq, Structural, Debug)]
pub enum BtPhase {
    /// Nothing shown yet.
    Start,
    /// `attempts` attempts failed; the next step makes another.
    Waiting { attempts: i32 },
    /// Attempt number `attempts` is under way; the next step takes its
    /// outcome.
    Trying { attempts: i32 },
    /// Connected, and the short pause before the one-second display of the
    /// connection is over (only when connecting to a host).
    Shown,
    /// The connection has been shown; the next step clears the screen.
    Connected,
    /// The screen is cleared; the sequence ends after a short pause.
    Closing,
    Done,
}

/// What the run loop does next in a Bluetooth connection sequence.
#[derive(Clone, Copy, PartialEq, Eq, Structural, Debug)]
pub enum BtAction {
    /// Wait this long, then step again.
    Wait(Duration),
    /// Attempt to connect, then step again with the outcome.
    Connect,
    /// The sequence is over.
    Done,
}

/// The short pause after a change of screen or light.
pub open spec fn short_pause() -> Duration {
    Duration { us: 500 }
}

/// A Bluetooth connection sequence: the screen shows that the brick is not
/// connected and the light turns red; attempts follow every 25 ms, their
/// count on the screen, until one succeeds; then the screen shows the
/// connection and the light turns green for a second (after a short pause
/// too when connecting to a host); then the screen is cleared and the light
/// switched off.
#[derive(Clone, Copy, PartialEq, Eq, Structural, Debug)]
pub struct BtConnect {
    pub to_host: bool,
    pub phase: BtPhase,
}

impl BtConnect {
    pub fn new(to_host: bool) -> (r: Self)
        ensures
            r.to_host == to_host,
            r.phase == BtPhase::Start,
    {
        BtConnect { to_host, phase: BtPhase::Start }
    }

    /// The next step of the sequence; `connected` is the outcome of the
    /// attempt the last step asked for, and is not read otherwise.
    pub fn step<TOP: LcdTopSideProvider + 'static>(&mut self, lcd: &mut Lcd<TOP>, led: &mut Led, connected: bool) -> (r: BtAction)
        requires
            old(self).phase matches BtPhase::Waiting { attempts } ==> attempts < i32::MAX,
        ensures
            final(self).to_host == old(self).to_host,
            final(lcd).current_screen == old(lcd).current_screen,
            final(led).previous == old(led).previous,
            match old(self).phase {
                BtPhase::Start => {
                    &&& final(lcd).next_screen@ == bt_screen(TOP::layout(), false)
                    &&& final(led).required == LedColor::RED
                    &&& r == BtAction::Wait(short_pause())
                    &&& final(self).phase == (BtPhase::Waiting { attempts: 0 })
                },
                BtPhase::Waiting { attempts } => {
                    &&& final(lcd).next_screen@ == bt_attempts_shown(old(lcd).next_screen@, TOP::layout(), attempts + 1)
                    &&& final(led).required == old(led).required
                    &&& r == BtAction::Connect
                    &&& final(self).phase == (BtPhase::Trying { attempts: (attempts + 1) as i32 })
                },
                BtPhase::Trying { attempts } => if connected {
                    &&& final(lcd).next_screen@ == bt_screen(TOP::layout(), true)
                    &&& final(led).required == LedColor::GREEN
                    &&& r == BtAction::Wait(if old(self).to_host { short_pause() } else { Duration { us: 1_000_000 } })
                    &&& final(self).phase == if old(self).to_host { BtPhase::Shown } else { BtPhase::Connected }
                } else {
                    &&& final(lcd).next_screen@ == old(lcd).next_screen@
                    &&& final(led).required == old(led).required
                    &&& r == BtAction::Wait(Duration { us: 25_000 })
                    &&& final(self).phase == (BtPhase::Waiting { attempts })
                },
                BtPhase::Shown => {
                    &&& final(lcd).next_screen@ == old(lcd).next_screen@
                    &&& final(led).required == old(led).required
                    &&& r == BtAction::Wait(Duration { us: 1_000_000 })
                    &&& final(self).phase == BtPhase::Connected
                },
                BtPhase::Connected => {
                    &&& final(lcd).next_screen@ == all_cells(GlyphCode::Space)
                    &&& final(led).required == LedColor::OFF
                    &&& r == BtAction::Wait(short_pause())
                    &&& final(self).phase == BtPhase::Closing
                },
                _ => {
                    &&& final(lcd).next_screen@ == old(lcd).next_screen@
                    &&& final(led).required == old(led).required
                    &&& r == BtAction::Done
                    &&& final(self).phase == BtPhase::Done
                },
            },
    {
        match self.phase {
            BtPhase::Start => {
                show_bt_screen(lcd, false);
                led.set(LedColor::RED);
                self.phase = BtPhase::Waiting { attempts: 0 };
                BtAction::Wait(Duration::from_us(500))
            },
            BtPhase::Waiting { attempts } => {
                let attempts = attempts + 1;
                proof {
                    TOP::lemma_layout_fits();
                    TOP::lemma_main_window_full_height();
                    crate::layout::lemma_geometry();
                    let w = print_value_writes(3, 1, 5, attempts as int);
                    assert forall|i: int| 0 <= i < w.len() implies window_cell_ok(
                        TOP::layout(),
                        WindowId::Main,
                        #[trigger] w[i].0,
                        w[i].1,
                    ) by {
                        lemma_cell_ok(TOP::layout(), WindowId::Main, 5 - i, 3);
                    }
                }
                lcd.print_value(3, 1, 5, attempts);
                self.phase = BtPhase::Trying { attempts };
                BtAction::Connect
            },
            BtPhase::Trying { attempts } => {
                if connected {
                    show_bt_screen(lcd, true);
                    led.set(LedColor::GREEN);
                    if self.to_host {
                        self.phase = BtPhase::Shown;
                        BtAction::Wait(Duration::from_us(500))
                    } else {
                        self.phase = BtPhase::Connected;
                        BtAction::Wait(Duration::from_secs(1))
                    }
                } else {
                    self.phase = BtPhase::Waiting { attempts };
                    BtAction::Wait(Duration::from_ms(25))
                }
            },
            BtPhase::Shown => {
                self.phase = BtPhase::Connected;
                BtAction::Wait(Duration::from_secs(1))
            },
            BtPhase::Connected => {
                lcd.clear();
                led.set(LedColor::OFF);
                self.phase = BtPhase::Closing;
                BtAction::Wait(Duration::from_us(500))
            },
            _ => {
                self.phase = BtPhase::Done;
                BtAction::Done
            },
        }
    }
}

} // verus!
