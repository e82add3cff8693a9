use vstd::prelude::*;

verus! {

/// A span of time: whole seconds and the nanoseconds beyond them.
#[derive(Clone, Copy, PartialEq, Eq, Hash, Debug, Default, Structural)]
pub struct Duration {
    secs: u64,
    nanos: u32,
}

/// Nanoseconds in a second.
pub const NANOS_PER_SEC: u32 = 1_000_000_000;

impl Duration {
    /// The well-formedness of a duration: the nanoseconds stay below one second.
    pub open spec fn wf(&self) -> bool {
        self.nanos_part() < NANOS_PER_SEC
    }

    /// The whole seconds.
    pub closed spec fn secs_part(&self) -> u64 {
        self.secs
    }

    /// The nanoseconds beyond the whole seconds.
    pub closed spec fn nanos_part(&self) -> u32 {
        self.nanos
    }

    /// The length of the span in nanoseconds.
    pub open spec fn total_nanos(&self) -> nat {
        self.secs_part() as nat * 1_000_000_000 + self.nanos_part() as nat
    }

    /// A span of whole seconds.
    pub fn from_secs(secs: u64) -> (r: Duration)
        ensures
            r.wf(),
            r.secs_part() == secs,
            r.nanos_part() == 0,
    {
        Duration { secs, nanos: 0 }
    }

    /// A span of milliseconds.
    pub fn from_millis(millis: u64) -> (r: Duration)
        ensures
            r.wf(),
            r.secs_part() == millis / 1000,
            r.nanos_part() == (millis % 1000) * 1_000_000,
    {
        Duration { secs: millis / 1000, nanos: ((millis % 1000) as u32) * 1_000_000 }
    }

    /// A span of nanoseconds.
    pub fn from_nanos(nanos: u64) -> (r: Duration)
        ensures
            r.wf(),
            r.total_nanos() == nanos,
    {
        let secs = nanos / 1_000_000_000;
        let rest = (nanos % 1_000_000_000) as u32;
        assert(secs * 1_000_000_000 + rest == nanos);
        Duration { secs, nanos: rest }
    }

    /// A span of whole seconds and extra nanoseconds; the nanoseconds must stay below a second.
    pub fn new(secs: u64, nanos: u32) -> (r: Duration)
        requires
            nanos < NANOS_PER_SEC,
        ensures
            r.wf(),
            r.secs_part() == secs,
            r.nanos_part() == nanos,
    {
        Duration { secs, nanos }
    }

    /// The whole seconds of the span.
    pub fn as_secs(&self) -> (r: u64)
        ensures
            r == self.secs_part(),
    {
        self.secs
    }

    /// The nanoseconds beyond the whole seconds.
    pub fn subsec_nanos(&self) -> (r: u32)
        ensures
            r == self.nanos_part(),
    {
        self.nanos
    }

    /// The whole milliseconds of the span.
    pub fn as_millis(&self) -> (r: u128)
        ensures
            r == self.secs_part() as nat * 1000 + self.nanos_part() as nat / 1_000_000,
    {
        self.secs as u128 * 1000 + (self.nanos / 1_000_000) as u128
    }

    /// The length of the span in nanoseconds.
    pub fn as_nanos(&self) -> (r: u128)
        ensures
            r == self.total_nanos(),
    {
        self.secs as u128 * 1_000_000_000 + self.nanos as u128
    }

    /// Whether the span is empty.
    pub fn is_zero(&self) -> (r: bool)
        ensures
            r == (self.total_nanos() == 0),
    {
        self.secs == 0 && self.nanos == 0
    }

    /// Two durations of the same length are the same duration.
    pub proof fn lemma_same_length_same_duration(a: Duration, b: Duration)
        requires
            a.wf(),
            b.wf(),
            a.total_nanos() == b.total_nanos(),
        ensures
            a == b,
    {
        let (x, y, u, v) = (a.secs as int, a.nanos as int, b.secs as int, b.nanos as int);
        assert(x == u && y == v) by (nonlinear_arith)
            requires
                x * 1_000_000_000 + y == u * 1_000_000_000 + v,
                0 <= y < 1_000_000_000,
                0 <= v < 1_000_000_000,
                x >= 0,
                u >= 0,
        ;
    }
}

} // verus!
