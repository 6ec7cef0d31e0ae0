//! One throughput measurement: how many messages moved and how long it took.

use vstd::prelude::*;

verus! {

/// One timed measurement of a fixed configuration. Throughput is the ratio
/// of `messages` to the elapsed time; keeping the two integers instead of a
/// quotient loses nothing and keeps the value exact.
#[derive(Clone, Copy, PartialEq, Eq, Structural, Debug)]
pub struct Sample {
    /// Total messages moved during the measurement window.
    pub messages: u64,
    /// Length of the measurement window in nanoseconds.
    pub elapsed_nanos: u64,
}

impl Sample {
    /// A sample is meaningful only if work was done and time passed:
    /// both components are strictly positive.
    pub open spec fn wf(self) -> bool {
        &&& 1 <= self.messages
        &&& 1 <= self.elapsed_nanos
    }

    pub fn new(messages: u64, elapsed_nanos: u64) -> (s: Sample)
        requires
            1 <= messages,
            1 <= elapsed_nanos,
        ensures
            s.wf(),
            s.messages == messages,
            s.elapsed_nanos == elapsed_nanos,
    {
        Sample { messages, elapsed_nanos }
    }

    /// Throughput in whole messages per second, rounded toward zero.
    pub fn messages_per_second(&self) -> (r: u128)
        requires
            self.wf(),
        ensures
            r == self.messages as int * 1_000_000_000 / self.elapsed_nanos as int,
    {
        let scaled: u128 = (self.messages as u128) * 1_000_000_000u128;
        scaled / (self.elapsed_nanos as u128)
    }
}

/// Law: the throughput of a well-formed sample is a strictly positive,
/// finite number — the numerator of the messages-per-second ratio is
/// positive and its denominator is nonzero.
pub proof fn lemma_throughput_positive(s: Sample)
    requires
        s.wf(),
    ensures
        s.messages as int * 1_000_000_000 > 0,
        s.elapsed_nanos as int > 0,
{
}

} // verus!
