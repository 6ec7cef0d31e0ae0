//! The result model: one sweep point per swept value, delivered once,
//! in sweep order.

use vstd::prelude::*;

use crate::sample::Sample;

verus! {

/// One point of the sweep: the name of the swept parameter, its value
/// rendered as text, and the samples measured at that value, in
/// repetition order. Write-once: nothing mutates a result after `new`.
pub struct BenchResult {
    /// Name of the swept parameter.
    pub name: String,
    /// Value of the swept parameter, rendered as text.
    pub value: String,
    /// The repeated throughput measurements for this point.
    pub samples: Vec<Sample>,
}

impl BenchResult {
    pub fn new(name: String, value: String, samples: Vec<Sample>) -> (r: BenchResult)
        ensures
            r.name@ == name@,
            r.value@ == value@,
            r.samples@ == samples@,
    {
        BenchResult { name, value, samples }
    }
}

/// A finite, non-restartable stream of sweep points. `next` hands each
/// point out exactly once, front to back; once the stream is exhausted it
/// stays exhausted.
pub struct BenchIterator {
    /// The points not yet handed out, in sweep order.
    pub points: Vec<BenchResult>,
}

impl BenchIterator {
    /// How many sweep points are still to come.
    pub fn remaining(&self) -> (n: usize)
        ensures
            n == self.points@.len(),
    {
        self.points.len()
    }

    /// The next sweep point, or nothing once every point has been yielded.
    pub fn next(&mut self) -> (r: Option<BenchResult>)
        ensures
            (match r {
                Some(p) => {
                    &&& old(self).points@.len() > 0
                    &&& p == old(self).points@[0]
                    &&& final(self).points@ == old(self).points@.drop_first()
                },
                None => {
                    &&& old(self).points@.len() == 0
                    &&& final(self).points@ == old(self).points@
                },
            }),
    {
        if self.points.len() == 0 {
            None
        } else {
            let p = self.points.remove(0);
            Some(p)
        }
    }
}

} // verus!
