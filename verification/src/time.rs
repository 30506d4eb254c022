//! Durations and instants in microseconds, the brick's clock, and timers.
use vstd::prelude::*;

verus! {

/// A span of time in microseconds.
#[derive(Clone, Copy, PartialEq, Eq, Structural, Debug)]
pub struct Duration {
    pub us: u32,
}

impl Duration {
    /// The empty duration.
    pub fn zero() -> (r: Self)
        ensures
            r.us == 0,
    {
        Duration { us: 0 }
    }

    /// One millisecond.
    pub fn one_ms() -> (r: Self)
        ensures
            r.us == 1000,
    {
        Duration { us: 1000 }
    }

    pub fn from_us(micros: u32) -> (r: Self)
        ensures
            r.us == micros,
    {
        Duration { us: micros }
    }

    pub fn from_ms(millis: u32) -> (r: Self)
        requires
            millis * 1000 <= u32::MAX,
        ensures
            r.us == millis * 1000,
    {
        Duration { us: millis * 1000 }
    }

    pub fn from_secs(secs: u32) -> (r: Self)
        requires
            secs * 1_000_000 <= u32::MAX,
        ensures
            r.us == secs * 1_000_000,
    {
        Duration { us: secs * 1_000_000 }
    }
}

/// A point in time, in microseconds since the clock's origin.
#[derive(Clone, Copy, PartialEq, Eq, Structural, PartialOrd, Ord, Default, Debug)]
pub struct Instant {
    pub us: u64,
}

/// Microseconds from `since` to `until`, or 0 when `until` is not later, cut
/// to the low 32 bits as a `Duration` holds them.
pub open spec fn elapsed_us(until: u64, since: u64) -> u32 {
    if until > since {
        ((until - since) % 0x1_0000_0000) as u32
    } else {
        0
    }
}

impl Instant {
    /// The clock's origin.
    pub fn zero() -> (r: Self)
        ensures
            r.us == 0,
    {
        Instant { us: 0 }
    }

    pub fn absolute(us: u64) -> (r: Self)
        ensures
            r.us == us,
    {
        Instant { us }
    }

    /// Time from `since` to `self`; zero when `self` is not later.
    pub fn elapsed(&self, since: &Self) -> (r: Duration)
        ensures
            r.us == elapsed_us(self.us, since.us),
    {
        Duration {
            us: if self.us > since.us {
                let d = self.us - since.us;
                assert(d as u32 == d % 0x1_0000_0000) by (bit_vector);
                d as u32
            } else {
                0
            },
        }
    }

    /// The instant `duration` after `self`.
    pub fn at(&self, duration: Duration) -> (r: Self)
        requires
            self.us + duration.us <= u64::MAX,
        ensures
            r.us == self.us + duration.us,
    {
        Instant { us: self.us + duration.us as u64 }
    }

    pub fn is_after(&self, other: &Self) -> (r: bool)
        ensures
            r == (self.us > other.us),
    {
        self.us > other.us
    }
}

/// The instant `rhs` after `self`.
impl core::ops::Add<Duration> for Instant {
    type Output = Instant;

    fn add(self, rhs: Duration) -> (r: Instant) {
        Instant { us: self.us + rhs.us as u64 }
    }
}

impl vstd::std_specs::ops::AddSpecImpl<Duration> for Instant {
    open spec fn obeys_add_spec() -> bool {
        true
    }

    open spec fn add_req(self, rhs: Duration) -> bool {
        self.us + rhs.us <= u64::MAX
    }

    open spec fn add_spec(self, rhs: Duration) -> Instant {
        Instant { us: (self.us + rhs.us) as u64 }
    }
}

/// What comes `duration` after an instant comes back as `duration` when the
/// time elapsed from that instant is asked for.
pub proof fn lemma_elapsed_of_at(start: Instant, duration: Duration)
    requires
        start.us + duration.us <= u64::MAX,
    ensures
        elapsed_us((start.us + duration.us) as u64, start.us) == duration.us,
{
}

/// The brick's clock: when the program started and the time of the last
/// update.
#[derive(Clone, Copy, PartialEq, Eq, Structural, Debug)]
pub struct Time {
    start: Instant,
    now: Instant,
}

impl Time {
    pub closed spec fn start_spec(&self) -> Instant {
        self.start
    }

    pub closed spec fn now_spec(&self) -> Instant {
        self.now
    }

    pub fn new() -> (r: Self)
        ensures
            r.start_spec().us == 0,
            r.now_spec().us == 0,
    {
        Time { start: Instant::zero(), now: Instant::zero() }
    }

    /// Restarts the clock at the reading `now_us` of the system clock.
    pub fn reset(&mut self, now_us: u64)
        ensures
            final(self).start_spec().us == now_us,
            final(self).now_spec().us == now_us,
    {
        self.start = Instant::absolute(now_us);
        self.now = Instant::absolute(now_us);
    }

    /// Records the reading `now_us` of the system clock.
    pub fn update(&mut self, now_us: u64)
        ensures
            final(self).start_spec() == old(self).start_spec(),
            final(self).now_spec().us == now_us,
    {
        self.now = Instant::absolute(now_us);
    }

    /// Time from the start to the last update.
    pub fn elapsed(&self) -> (r: Duration)
        ensures
            r.us == elapsed_us(self.now_spec().us, self.start_spec().us),
    {
        self.now.elapsed(&self.start)
    }

    pub fn start(&self) -> (r: Instant)
        ensures
            r == self.start_spec(),
    {
        self.start
    }

    pub fn now(&self) -> (r: Instant)
        ensures
            r == self.now_spec(),
    {
        self.now
    }

    /// A timer that expires once the clock is past `at` from now.
    pub fn timer_in(&self, at: Duration) -> (r: Timer)
        requires
            self.now_spec().us + at.us <= u64::MAX,
        ensures
            r.at.us == self.now_spec().us + at.us,
    {
        Timer { at: self.now().at(at) }
    }

    /// A timer that expires once the clock is past `ms` milliseconds from now.
    pub fn timer_ms(&self, ms: u32) -> (r: Timer)
        requires
            ms * 1000 <= u32::MAX,
            self.now_spec().us + ms * 1000 <= u64::MAX,
        ensures
            r.at.us == self.now_spec().us + ms * 1000,
    {
        self.timer_in(Duration::from_ms(ms))
    }
}

/// A deadline on the brick's clock.
#[derive(Clone, Copy, PartialEq, Eq, Structural, Debug)]
pub struct Timer {
    pub at: Instant,
}

impl Timer {
    /// The clock's last update is past the deadline.
    pub fn is_expired(&self, time: &Time) -> (r: bool)
        ensures
            r == (time.now_spec().us > self.at.us),
    {
        time.now().is_after(&self.at)
    }
}

} // verus!
