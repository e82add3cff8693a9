use vstd::prelude::*;

use crate::duration::Duration;

verus! {

/// When an upstream sends the data points it buffers.
#[derive(Clone, Copy, PartialEq, Eq, Hash, Debug, Structural)]
pub enum FlushPolicy {
    /// Only on an explicit flush.
    NoFlush,
    /// Every interval.
    IntervalOnly { interval: Duration },
    /// When the buffered payload reaches the buffer size.
    BufferSizeOnly { buffer_size: u64 },
    /// Every interval, or earlier when the buffered payload reaches the buffer size.
    IntervalOrBufferSize { interval: Duration, buffer_size: u64 },
    /// At once, on every write.
    Immediately,
}

/// Whether `p` calls for a flush once `size` bytes of payload are buffered.
pub open spec fn flush_needed(p: FlushPolicy, size: usize) -> bool {
    match p {
        FlushPolicy::Immediately => true,
        FlushPolicy::BufferSizeOnly { buffer_size } => (buffer_size as usize) <= size,
        FlushPolicy::IntervalOrBufferSize { buffer_size, .. } => (buffer_size as usize) <= size,
        _ => false,
    }
}

impl Default for FlushPolicy {
    /// The default policy: every 100 milliseconds.
    fn default() -> (r: FlushPolicy)
        ensures
            (r matches FlushPolicy::IntervalOnly { interval } && interval.total_nanos()
                == 100_000_000 && interval.wf()),
    {
        FlushPolicy::IntervalOnly { interval: Duration::from_millis(100) }
    }
}

impl FlushPolicy {
    /// The flush interval, for the policies that have one.
    pub fn interval(&self) -> (r: Option<Duration>)
        ensures
            r == match *self {
                FlushPolicy::IntervalOnly { interval } => Some(interval),
                FlushPolicy::IntervalOrBufferSize { interval, .. } => Some(interval),
                _ => None,
            },
    {
        match self {
            FlushPolicy::IntervalOnly { interval } => Some(*interval),
            FlushPolicy::IntervalOrBufferSize { interval, .. } => Some(*interval),
            _ => None,
        }
    }

    /// The buffer size, for the policies that have one.
    pub fn buffer_size(&self) -> (r: Option<u64>)
        ensures
            r == match *self {
                FlushPolicy::BufferSizeOnly { buffer_size } => Some(buffer_size),
                FlushPolicy::IntervalOrBufferSize { buffer_size, .. } => Some(buffer_size),
                _ => None,
            },
    {
        match self {
            FlushPolicy::BufferSizeOnly { buffer_size } => Some(*buffer_size),
            FlushPolicy::IntervalOrBufferSize { buffer_size, .. } => Some(*buffer_size),
            _ => None,
        }
    }

    /// Whether a write that leaves `current_buffer_size` bytes of payload buffered calls for a
    /// flush: always when immediate, when the buffer size (read as a `usize`) is reached for the
    /// policies with a buffer size, never otherwise.
    pub fn need_flush(&self, current_buffer_size: usize) -> (r: bool)
        ensures
            r == flush_needed(*self, current_buffer_size),
    {
        match self {
            FlushPolicy::Immediately => true,
            FlushPolicy::BufferSizeOnly { buffer_size } => (*buffer_size as usize)
                <= current_buffer_size,
            FlushPolicy::IntervalOrBufferSize { buffer_size, .. } => (*buffer_size as usize)
                <= current_buffer_size,
            _ => false,
        }
    }
}


/// What each policy decides on a write: the immediate policy flushes on every write whatever
/// is buffered; a policy with a buffer size flushes exactly once the payload buffered reaches
/// that size, so a flush called for stays called for as more is buffered; the policies
/// without a buffer size, other than the immediate one, never flush on a write.
pub proof fn lemma_flush_policy_decides(p: FlushPolicy, size: usize, more: usize)
    ensures
        flush_needed(FlushPolicy::Immediately, size),
        !flush_needed(FlushPolicy::NoFlush, size),
        p matches FlushPolicy::IntervalOnly { .. } ==> !flush_needed(p, size),
        p matches FlushPolicy::BufferSizeOnly { buffer_size } ==> (flush_needed(p, size) <==> (
        buffer_size as usize) <= size),
        p matches FlushPolicy::IntervalOrBufferSize { buffer_size, .. } ==> (flush_needed(p, size)
            <==> (buffer_size as usize) <= size),
        flush_needed(p, size) && size <= more ==> flush_needed(p, more),
{
}

} // verus!
