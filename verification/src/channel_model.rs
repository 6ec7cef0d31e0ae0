//! A model of the measured workload over one bounded
//! single-producer/single-consumer pair, run to completion under
//! cooperative scheduling. The producer sends sequentially numbered
//! messages and suspends under back-pressure; the consumer receives until
//! it has seen the whole workload. Running the model proves that the
//! workload always completes — at any capacity of at least one — and that
//! the consumer observes every message exactly once, in the order sent.

use vstd::prelude::*;

verus! {

/// Drives one producer/consumer pair over a bounded queue of `capacity`
/// slots until the consumer has received all `workload` messages, and
/// returns `(sent, received)`: the messages in the order the producer sent
/// them and in the order the consumer observed them.
///
/// The producer makes progress whenever it still has messages and the
/// queue has room; otherwise the consumer takes the front of the queue.
/// The result shows exactly-once, order-preserving delivery: the consumer
/// observes the full workload, element for element as sent.
pub fn run_pair(capacity: usize, workload: usize) -> (r: (Vec<usize>, Vec<usize>))
    requires
        1 <= capacity,
    ensures
        r.0@.len() == workload,
        r.1@ == r.0@,
        forall|i: int| 0 <= i < workload ==> #[trigger] r.0@[i] == i,
{
    let mut queue: Vec<usize> = Vec::new();
    let mut sent: Vec<usize> = Vec::new();
    let mut received: Vec<usize> = Vec::new();
    while received.len() < workload
        invariant
            1 <= capacity,
            sent@.len() <= workload,
            queue@.len() <= capacity,
            queue@.len() == sent@.len() - received@.len(),
            forall|i: int| 0 <= i < sent@.len() ==> #[trigger] sent@[i] == i,
            forall|i: int| 0 <= i < received@.len() ==> #[trigger] received@[i] == i,
            forall|j: int|
                0 <= j < queue@.len() ==> #[trigger] queue@[j] == received@.len() + j,
        decreases 2 * workload - sent@.len() - received@.len(),
    {
        if sent.len() < workload && queue.len() < capacity {
            // The producer's send completes: there is room in the queue.
            queue.push(sent.len());
            sent.push(sent.len());
        } else {
            // Back-pressure or a finished producer: the consumer's recv
            // completes with the oldest in-flight message.
            let msg = queue.remove(0);
            received.push(msg);
        }
    }
    proof {
        assert(received@ =~= sent@);
    }
    (sent, received)
}

/// Runs `width` independent pairs at the same capacity and workload — the
/// fan-out of one timed repetition — and returns how many messages the
/// consumers observed in all. Every pair completes, so the total is
/// exactly `width` times `workload`, for any width of at least one pair
/// and any capacity of at least one slot.
pub fn run_pairs(width: usize, capacity: usize, workload: usize) -> (total: u64)
    requires
        1 <= capacity,
        width * workload <= u64::MAX,
    ensures
        total == width * workload,
{
    let mut total: u64 = 0;
    let mut p: usize = 0;
    while p < width
        invariant
            1 <= capacity,
            p <= width,
            width * workload <= u64::MAX,
            total == p * workload,
        decreases width - p,
    {
        let pair = run_pair(capacity, workload);
        let received = pair.1;
        proof {
            assert((p + 1) * workload == p * workload + workload) by (nonlinear_arith);
            assert(p * workload + workload <= width * workload) by (nonlinear_arith)
                requires
                    p + 1 <= width,
                    0 <= workload,
            ;
        }
        total = total + received.len() as u64;
        p += 1;
    }
    total
}

} // verus!
