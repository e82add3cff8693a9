//! Signed spans of time and points in time as the protocol messages carry them.
//!
//! A span is kept as a whole number of nanoseconds, within the bounds of a span of the
//! `chrono` crate: at most `i64::MAX` milliseconds either way. A point in time is kept as
//! the number of nanoseconds since the unix epoch, in an `i128`.

use vstd::prelude::*;

verus! {

/// The largest length of a span, in nanoseconds: `i64::MAX` milliseconds.
pub const MAX_SPAN_NANOS: i128 = 9_223_372_036_854_775_807_000_000i128;

/// The earliest point in time that the `chrono` crate represents, in nanoseconds since the
/// unix epoch.
pub const MIN_TIME_NANOS: i128 = -8_334_601_228_800_000_000_000i128;

/// The quotient of `a` by a positive `b`, rounded toward zero.
pub open spec fn div_toward_zero(a: int, b: int) -> int {
    if a >= 0 {
        a / b
    } else {
        -((-a) / b)
    }
}

/// Whether `v` fits in an `i64`.
pub open spec fn fits_i64(v: int) -> bool {
    i64::MIN <= v <= i64::MAX
}

/// A signed span of time.
#[derive(Clone, Copy, PartialEq, Eq, Debug, Structural)]
pub struct TimeDelta {
    nanos: i128,
}

impl TimeDelta {
    /// The length of the span in nanoseconds.
    pub closed spec fn total(&self) -> int {
        self.nanos as int
    }

    /// The span stays within `i64::MAX` milliseconds either way.
    pub open spec fn wf(&self) -> bool {
        -MAX_SPAN_NANOS <= self.total() <= MAX_SPAN_NANOS
    }

    /// Every span stays within its bounds.
    #[verifier::type_invariant]
    spec fn within_bounds(self) -> bool {
        -MAX_SPAN_NANOS <= self.nanos <= MAX_SPAN_NANOS
    }


    /// The empty span.
    pub fn zero() -> (r: TimeDelta)
        ensures
            r.wf(),
            r.total() == 0,
    {
        TimeDelta { nanos: 0 }
    }

    /// A span of whole seconds; the seconds must stay within the bounds of a span.
    pub fn seconds(secs: i64) -> (r: TimeDelta)
        requires
            -(i64::MAX / 1000) <= secs <= i64::MAX / 1000,
        ensures
            r.wf(),
            r.total() == secs * 1_000_000_000,
    {
        assert(-MAX_SPAN_NANOS <= secs * 1_000_000_000 <= MAX_SPAN_NANOS) by (nonlinear_arith)
            requires
                -(i64::MAX / 1000) <= secs <= i64::MAX / 1000,
        ;
        TimeDelta { nanos: (secs as i128) * 1_000_000_000 }
    }

    /// A span of milliseconds; `i64::MIN` milliseconds is out of bounds.
    pub fn milliseconds(millis: i64) -> (r: TimeDelta)
        requires
            millis > i64::MIN,
        ensures
            r.wf(),
            r.total() == millis * 1_000_000,
    {
        assert(-MAX_SPAN_NANOS <= millis * 1_000_000 <= MAX_SPAN_NANOS) by (nonlinear_arith)
            requires
                i64::MIN < millis <= i64::MAX,
        ;
        TimeDelta { nanos: (millis as i128) * 1_000_000 }
    }

    /// A span of nanoseconds.
    pub fn nanoseconds(nanos: i64) -> (r: TimeDelta)
        ensures
            r.wf(),
            r.total() == nanos,
    {
        TimeDelta { nanos: nanos as i128 }
    }

    /// The whole seconds of the span, rounded toward zero.
    pub fn num_seconds(&self) -> (r: i64)
        ensures
            r == div_toward_zero(self.total(), 1_000_000_000),
    {
        proof {
            use_type_invariant(self);
        }
        let q: i128 = if self.nanos >= 0 {
            self.nanos / 1_000_000_000
        } else {
            -((-self.nanos) / 1_000_000_000)
        };
        q as i64
    }

    /// The whole milliseconds of the span, rounded toward zero.
    pub fn num_milliseconds(&self) -> (r: i64)
        ensures
            r == div_toward_zero(self.total(), 1_000_000),
    {
        proof {
            use_type_invariant(self);
        }
        let q: i128 = if self.nanos >= 0 {
            self.nanos / 1_000_000
        } else {
            -((-self.nanos) / 1_000_000)
        };
        q as i64
    }

    /// The span in nanoseconds, where that fits in an `i64`.
    pub fn num_nanoseconds(&self) -> (r: Option<i64>)
        ensures
            r is Some <==> fits_i64(self.total()),
            r matches Some(n) ==> n == self.total(),
    {
        if i64::MIN as i128 <= self.nanos && self.nanos <= i64::MAX as i128 {
            Some(self.nanos as i64)
        } else {
            None
        }
    }
}

/// The whole seconds of a span, as the low 32 bits that the wire carries.
pub open spec fn wire_secs(d: TimeDelta) -> u32 {
    (div_toward_zero(d.total(), 1_000_000_000) as i64) as u32
}

/// The whole milliseconds of a span, as the low 32 bits that the wire carries.
pub open spec fn wire_millis(d: TimeDelta) -> u32 {
    (div_toward_zero(d.total(), 1_000_000) as i64) as u32
}

/// The point in time of a wire timestamp, read as whole seconds and the nanoseconds beyond
/// them: a time before the epoch that is not a whole second reads as the epoch.
pub open spec fn wire_time_read(t: i64) -> int {
    if t >= 0 || t % 1_000_000_000 == 0 {
        t as int
    } else {
        0
    }
}

/// The wire timestamp of a point in time: the epoch where the time does not fit in an `i64`.
pub open spec fn wire_time_written(t: i128) -> i64 {
    if fits_i64(t as int) {
        t as i64
    } else {
        0
    }
}

/// Reads a wire timestamp as a point in time.
pub fn time_from_wire(t: i64) -> (r: i128)
    ensures
        r == wire_time_read(t),
{
    if t >= 0 {
        t as i128
    } else {
        let back: i128 = -(t as i128);
        if back % 1_000_000_000 == 0 {
            assert(t % 1_000_000_000 == 0) by (nonlinear_arith)
                requires
                    back == -t,
                    back % 1_000_000_000 == 0,
            ;
            t as i128
        } else {
            assert(t % 1_000_000_000 != 0) by (nonlinear_arith)
                requires
                    back == -t,
                    back % 1_000_000_000 != 0,
            ;
            0
        }
    }
}

/// Writes a point in time as a wire timestamp.
pub fn time_to_wire(t: i128) -> (r: i64)
    ensures
        r == wire_time_written(t),
{
    if i64::MIN as i128 <= t && t <= i64::MAX as i128 {
        t as i64
    } else {
        0
    }
}

/// Whether a span is a whole number of seconds that fits in a `u32`.
pub open spec fn whole_secs_in_u32(d: TimeDelta) -> bool {
    0 <= d.total() <= u32::MAX as int * 1_000_000_000 && d.total() % 1_000_000_000 == 0
}

/// Whether a span is a whole number of milliseconds that fits in a `u32`.
pub open spec fn whole_millis_in_u32(d: TimeDelta) -> bool {
    0 <= d.total() <= u32::MAX as int * 1_000_000 && d.total() % 1_000_000 == 0
}

/// Whether a point in time is one that the wire carries exactly: it fits in an `i64` of
/// nanoseconds, and is not a time before the epoch that falls within a second.
pub open spec fn time_exact(t: i128) -> bool {
    fits_i64(t as int) && (t >= 0 || t % 1_000_000_000 == 0)
}

/// A point in time written on the wire reads back as itself, where it fits in an `i64` of
/// nanoseconds and is not a time before the epoch that falls within a second.
pub proof fn lemma_time_read_back(t: i128)
    requires
        time_exact(t),
    ensures
        wire_time_read(wire_time_written(t)) == t,
{
}

/// A span of whole seconds that fit in a `u32`, written on the wire, reads back as itself.
pub proof fn lemma_secs_read_back(d: TimeDelta)
    requires
        whole_secs_in_u32(d),
    ensures
        wire_secs(d) as int * 1_000_000_000 == d.total(),
{
    let k = d.total() / 1_000_000_000;
    assert(k * 1_000_000_000 == d.total());
    assert(0 <= k <= u32::MAX);
    assert((k as i64) as u32 == k);
}

/// A span of whole milliseconds that fit in a `u32`, written on the wire, reads back as
/// itself.
pub proof fn lemma_millis_read_back(d: TimeDelta)
    requires
        whole_millis_in_u32(d),
    ensures
        wire_millis(d) as int * 1_000_000 == d.total(),
{
    let k = d.total() / 1_000_000;
    assert(k * 1_000_000 == d.total());
    assert(0 <= k <= u32::MAX);
    assert((k as i64) as u32 == k);
}

} // verus!
