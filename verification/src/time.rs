//! Spans of time in nanoseconds.

use vstd::prelude::*;

verus! {

/// The number of nanoseconds per microsecond.
pub const NSEC_PER_USEC: i64 = 1_000;

/// The number of nanoseconds per millisecond.
pub const NSEC_PER_MSEC: i64 = 1_000_000;

/// The number of nanoseconds per second.
pub const NSEC_PER_SEC: i64 = 1_000_000_000;

/// `v` clamped into the range of `i64`.
pub open spec fn saturate(v: int) -> int {
    if v > i64::MAX {
        i64::MAX as int
    } else if v < i64::MIN {
        i64::MIN as int
    } else {
        v
    }
}

/// The quotient of `a` by a positive `b`, rounded toward zero.
pub open spec fn div_toward_zero(a: int, b: int) -> int {
    if a >= 0 {
        a / b
    } else {
        -((-a) / b)
    }
}

fn saturating_scale(value: i64, unit: i64) -> (scaled: i64)
    requires
        unit > 0,
    ensures
        scaled == saturate(value * unit),
{
    match value.checked_mul(unit) {
        Some(v) => v,
        None => {
            assert(value < 0 ==> value * unit < 0) by (nonlinear_arith)
                requires
                    unit > 0,
            ;
            assert(value >= 0 ==> value * unit >= 0) by (nonlinear_arith)
                requires
                    unit > 0,
            ;
            if value < 0 {
                i64::MIN
            } else {
                i64::MAX
            }
        },
    }
}

/// A span of time.
#[derive(Clone, Copy, Debug, PartialEq, Eq, Structural)]
pub struct Delta {
    /// The span's length in nanoseconds.
    pub nanos: i64,
}

impl Delta {
    /// The span's length in nanoseconds.
    pub open spec fn nanos(self) -> int {
        self.nanos as int
    }

    /// Create a new `Delta` from a number of nanoseconds.
    pub fn from_nanos(nanos: i64) -> (delta: Delta)
        ensures
            delta.nanos() == nanos,
    {
        Delta { nanos }
    }

    /// Create a new `Delta` from a number of microseconds, saturating at the
    /// bounds of the nanosecond count.
    pub fn from_micros(micros: i64) -> (delta: Delta)
        ensures
            delta.nanos() == saturate(micros * NSEC_PER_USEC),
    {
        Delta { nanos: saturating_scale(micros, NSEC_PER_USEC) }
    }

    /// Create a new `Delta` from a number of milliseconds, saturating at the
    /// bounds of the nanosecond count.
    pub fn from_millis(millis: i64) -> (delta: Delta)
        ensures
            delta.nanos() == saturate(millis * NSEC_PER_MSEC),
    {
        Delta { nanos: saturating_scale(millis, NSEC_PER_MSEC) }
    }

    /// Create a new `Delta` from a number of seconds, saturating at the bounds
    /// of the nanosecond count.
    pub fn from_secs(secs: i64) -> (delta: Delta)
        ensures
            delta.nanos() == saturate(secs * NSEC_PER_SEC),
    {
        Delta { nanos: saturating_scale(secs, NSEC_PER_SEC) }
    }

    /// Return `true` if the `Delta` spans no time.
    pub fn is_zero(self) -> (zero: bool)
        ensures
            zero == (self.nanos() == 0),
    {
        self.nanos == 0
    }

    /// Return the number of nanoseconds in the `Delta`.
    pub fn as_nanos(self) -> (nanos: i64)
        ensures
            nanos == self.nanos(),
    {
        self.nanos
    }

    /// Return the number of whole microseconds in the `Delta`, rounded toward zero.
    pub fn as_micros(self) -> (micros: i64)
        ensures
            micros == div_toward_zero(self.nanos(), NSEC_PER_USEC as int),
    {
        self.nanos / NSEC_PER_USEC
    }

    /// Return the number of whole milliseconds in the `Delta`, rounded toward zero.
    pub fn as_millis(self) -> (millis: i64)
        ensures
            millis == div_toward_zero(self.nanos(), NSEC_PER_MSEC as int),
    {
        self.nanos / NSEC_PER_MSEC
    }

    /// Return the number of whole seconds in the `Delta`, rounded toward zero.
    pub fn as_secs(self) -> (secs: i64)
        ensures
            secs == div_toward_zero(self.nanos(), NSEC_PER_SEC as int),
    {
        self.nanos / NSEC_PER_SEC
    }

    /// The number of microseconds a sleep of at least this span takes:
    /// the nanoseconds plus 999, divided by 1000 toward zero.
    pub fn as_micros_ceil(self) -> (micros: i64)
        ensures
            micros == div_toward_zero(self.nanos() + NSEC_PER_USEC - 1, NSEC_PER_USEC as int),
            self.nanos() >= 0 ==> micros * NSEC_PER_USEC >= self.nanos() > (micros - 1)
                * NSEC_PER_USEC,
    {
        if self.nanos >= 0 {
            let whole: i64 = self.nanos / NSEC_PER_USEC;
            if self.nanos % NSEC_PER_USEC > 0 {
                whole + 1
            } else {
                whole
            }
        } else {
            (self.nanos + (NSEC_PER_USEC - 1)) / NSEC_PER_USEC
        }
    }
}

/// A point in time, counted in nanoseconds on a monotonic clock.
#[derive(Clone, Copy, Debug, PartialEq, Eq, Structural)]
pub struct Ktime {
    /// Nanoseconds on the clock.
    pub inner: i64,
}

impl Ktime {
    /// Create a `Ktime` from a count of nanoseconds.
    pub fn from_raw(inner: i64) -> (time: Ktime)
        ensures
            time == (Ktime { inner }),
    {
        Ktime { inner }
    }

    /// Returns the number of nanoseconds.
    pub fn to_ns(self) -> (nanos: i64)
        ensures
            nanos == self.inner,
    {
        self.inner
    }

    /// Returns the number of whole milliseconds, rounded toward zero.
    pub fn to_ms(self) -> (millis: i64)
        ensures
            millis == div_toward_zero(self.inner as int, NSEC_PER_MSEC as int),
    {
        self.inner / NSEC_PER_MSEC
    }
}

impl core::ops::Sub for Ktime {
    type Output = Ktime;

    /// The span from `other` to this time. The two times must lie no further
    /// apart than a count of nanoseconds can tell.
    fn sub(self, other: Ktime) -> (span: Ktime) {
        Ktime { inner: self.inner - other.inner }
    }
}

impl vstd::std_specs::ops::SubSpecImpl for Ktime {
    open spec fn obeys_sub_spec() -> bool {
        true
    }

    open spec fn sub_req(self, other: Ktime) -> bool {
        i64::MIN <= self.inner - other.inner <= i64::MAX
    }

    open spec fn sub_spec(self, other: Ktime) -> Ktime {
        Ktime { inner: (self.inner - other.inner) as i64 }
    }
}

/// Returns the number of milliseconds between two ktimes.
pub fn ktime_ms_delta(later: Ktime, earlier: Ktime) -> (millis: i64)
    requires
        i64::MIN <= later.inner - earlier.inner <= i64::MAX,
    ensures
        millis == div_toward_zero(later.inner - earlier.inner, NSEC_PER_MSEC as int),
{
    (later - earlier).to_ms()
}

} // verus!
