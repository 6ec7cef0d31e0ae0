//! The experiment driver: sweeps the capacity parameter, repeats each
//! configuration for a fixed number of samples, and assembles the result
//! stream. The driver makes every decision of the sweep; actually running
//! one timed repetition (spawning tasks, moving messages, reading a clock)
//! is its caller's job, which hands the measured elapsed time back through
//! [`Driver::record`].

use vstd::prelude::*;

use crate::render::dec_str;
use crate::render::to_decimal;
use crate::result_model::BenchIterator;
use crate::result_model::BenchResult;
use crate::sample::Sample;

verus! {

/// Messages each producer sends (and each consumer receives) per pair.
pub const MESSAGES_PER_CHANNEL: u64 = 1_000_000;

/// Concurrent producer/consumer pairs per timed repetition.
pub const CHANNELS: u64 = 61;

/// What a well-formed sweep point at capacity `cap` looks like: labeled
/// "capacity", its value the decimal rendering of `cap`, holding exactly
/// `sample_count` samples, each well formed and each counting exactly the
/// `messages` moved per repetition.
pub open spec fn point_ok(p: BenchResult, cap: usize, sample_count: nat, messages: u64) -> bool {
    &&& p.name@ == "capacity"@
    &&& p.value@ == dec_str(cap as nat)
    &&& p.samples@.len() == sample_count
    &&& forall|j: int|
        0 <= j < p.samples@.len() ==> (#[trigger] p.samples@[j]).wf() && p.samples@[j].messages
            == messages
}

/// What a well-formed result sequence looks like: exactly one sweep point
/// per capacity, in sweep order, each point well formed for its capacity.
pub open spec fn sweep_shape_ok(
    rs: Seq<BenchResult>,
    caps: Seq<usize>,
    sample_count: nat,
    messages: u64,
) -> bool {
    &&& rs.len() == caps.len()
    &&& forall|i: int|
        0 <= i < rs.len() ==> point_ok(#[trigger] rs[i], caps[i], sample_count, messages)
}

/// A configuration the driver refuses before any work is scheduled.
#[derive(Clone, Copy, PartialEq, Eq, Structural, Debug)]
pub enum ConfigError {
    /// The sample count was zero: no repetition would ever be measured.
    ZeroSampleCount,
    /// A swept capacity was zero: a bounded channel needs room for at
    /// least one in-flight message.
    ZeroCapacity,
}

/// The sweep in progress. Capacities are visited front to back; for each,
/// `sample_count` repetitions are recorded; a finished capacity becomes one
/// [`BenchResult`] in `results`.
pub struct Driver {
    /// The capacity values to sweep, in sweep order.
    pub capacities: Vec<usize>,
    /// Timed repetitions per capacity.
    pub sample_count: usize,
    /// Messages moved by one timed repetition (pairs times messages per pair).
    pub messages_per_run: u64,
    /// Samples recorded so far for the capacity currently being swept.
    pub pending: Vec<Sample>,
    /// One finished sweep point per fully sampled capacity, in sweep order.
    pub results: Vec<BenchResult>,
}

impl Driver {
    /// The driver's invariant: the configuration is meaningful, every
    /// finished point matches its capacity, and the pending samples all
    /// belong to the capacity currently being swept.
    pub open spec fn wf(self) -> bool {
        &&& 1 <= self.sample_count
        &&& 1 <= self.messages_per_run
        &&& forall|i: int|
            0 <= i < self.capacities@.len() ==> 1 <= #[trigger] self.capacities@[i]
        &&& self.results@.len() <= self.capacities@.len()
        &&& self.pending@.len() < self.sample_count
        &&& (self.done() ==> self.pending@.len() == 0)
        &&& sweep_shape_ok(
            self.results@,
            self.capacities@.take(self.results@.len() as int),
            self.sample_count as nat,
            self.messages_per_run,
        )
        &&& forall|j: int|
            0 <= j < self.pending@.len() ==> (#[trigger] self.pending@[j]).wf()
                && self.pending@[j].messages == self.messages_per_run
    }

    /// The sweep is done once every capacity has its finished point.
    pub open spec fn done(self) -> bool {
        self.results@.len() == self.capacities@.len()
    }

    /// Starts a sweep over `capacities`, with `sample_count` repetitions
    /// per capacity, `messages_per_run` messages moved per repetition.
    pub fn new(capacities: Vec<usize>, sample_count: usize, messages_per_run: u64) -> (d: Driver)
        requires
            1 <= sample_count,
            1 <= messages_per_run,
            forall|i: int| 0 <= i < capacities@.len() ==> 1 <= #[trigger] capacities@[i],
        ensures
            d.wf(),
            d.capacities@ == capacities@,
            d.sample_count == sample_count,
            d.messages_per_run == messages_per_run,
            d.results@.len() == 0,
            d.pending@.len() == 0,
    {
        let d = Driver {
            capacities,
            sample_count,
            messages_per_run,
            pending: Vec::new(),
            results: Vec::new(),
        };
        proof {
            assert(d.capacities@.take(0) =~= Seq::<usize>::empty());
        }
        d
    }

    /// Like [`Driver::new`], but validates the configuration instead of
    /// requiring it: a zero sample count or a zero capacity is rejected
    /// before any work is scheduled, and nothing else is.
    pub fn try_new(capacities: Vec<usize>, sample_count: usize, messages_per_run: u64) -> (r:
        Result<Driver, ConfigError>)
        requires
            1 <= messages_per_run,
        ensures
            (match r {
                Ok(d) => {
                    &&& sample_count >= 1
                    &&& forall|i: int|
                        0 <= i < capacities@.len() ==> 1 <= #[trigger] capacities@[i]
                    &&& d.wf()
                    &&& d.capacities@ == capacities@
                    &&& d.sample_count == sample_count
                    &&& d.messages_per_run == messages_per_run
                    &&& d.results@.len() == 0
                    &&& d.pending@.len() == 0
                },
                Err(e) => {
                    &&& (e == ConfigError::ZeroSampleCount <==> sample_count == 0)
                    &&& (e == ConfigError::ZeroCapacity ==> sample_count >= 1 && exists|i: int|
                        0 <= i < capacities@.len() && capacities@[i] == 0)
                },
            }),
            (r is Err) <==> (sample_count == 0 || exists|i: int|
                0 <= i < capacities@.len() && #[trigger] capacities@[i] == 0),
    {
        if sample_count == 0 {
            return Err(ConfigError::ZeroSampleCount);
        }
        let mut i: usize = 0;
        while i < capacities.len()
            invariant
                1 <= sample_count,
                i <= capacities@.len(),
                forall|j: int| 0 <= j < i ==> 1 <= #[trigger] capacities@[j],
            decreases capacities@.len() - i,
        {
            if capacities[i] == 0 {
                return Err(ConfigError::ZeroCapacity);
            }
            i += 1;
        }
        Ok(Driver::new(capacities, sample_count, messages_per_run))
    }

    /// The capacity the next timed repetition must run at, or nothing once
    /// the sweep is done.
    pub fn next_capacity(&self) -> (r: Option<usize>)
        requires
            self.wf(),
        ensures
            r == (if self.done() {
                None::<usize>
            } else {
                Some(self.capacities@[self.results@.len() as int])
            }),
    {
        if self.results.len() == self.capacities.len() {
            None
        } else {
            Some(self.capacities[self.results.len()])
        }
    }

    /// Records the elapsed time of one finished repetition at the current
    /// capacity. The new sample counts the configured messages per run
    /// against the measured time; once the capacity has all its samples
    /// they become its sweep point, in repetition order, and the sweep
    /// moves to the next capacity. Returns whether a point was finished.
    pub fn record(&mut self, elapsed_nanos: u64) -> (completed: bool)
        requires
            old(self).wf(),
            !old(self).done(),
            1 <= elapsed_nanos,
        ensures
            final(self).wf(),
            final(self).capacities@ == old(self).capacities@,
            final(self).sample_count == old(self).sample_count,
            final(self).messages_per_run == old(self).messages_per_run,
            ({
                let s = Sample { messages: old(self).messages_per_run, elapsed_nanos };
                if old(self).pending@.len() + 1 < old(self).sample_count {
                    &&& !completed
                    &&& final(self).pending@ == old(self).pending@.push(s)
                    &&& final(self).results@ == old(self).results@
                } else {
                    &&& completed
                    &&& final(self).pending@.len() == 0
                    &&& final(self).results@.len() == old(self).results@.len() + 1
                    &&& final(self).results@ == old(self).results@.push(
                        final(self).results@.last(),
                    )
                    &&& final(self).results@.last().samples@ == old(self).pending@.push(s)
                    &&& point_ok(
                        final(self).results@.last(),
                        old(self).capacities@[old(self).results@.len() as int],
                        old(self).sample_count as nat,
                        old(self).messages_per_run,
                    )
                }
            }),
    {
        let s = Sample::new(self.messages_per_run, elapsed_nanos);
        self.pending.push(s);
        if self.pending.len() < self.sample_count {
            proof {
                assert(final(self).pending@ == old(self).pending@.push(s));
            }
            false
        } else {
            let idx = self.results.len();
            let cap = self.capacities[idx];
            let samples = self.pending.split_off(0);
            proof {
                assert(samples@ =~= old(self).pending@.push(s));
                assert(self.pending@ =~= Seq::<Sample>::empty());
            }
            let point = BenchResult::new(String::from_str("capacity"), to_decimal(cap as u64), samples);
            self.results.push(point);
            proof {
                let caps = self.capacities@;
                let n = self.results@.len() as int;
                assert(caps.take(n) =~= caps.take(n - 1).push(caps[n - 1]));
                assert(self.results@ =~= old(self).results@.push(point));
                assert forall|i: int| 0 <= i < n implies point_ok(
                    #[trigger] self.results@[i],
                    caps.take(n)[i],
                    self.sample_count as nat,
                    self.messages_per_run,
                ) by {
                    if i < n - 1 {
                        assert(self.results@[i] == old(self).results@[i]);
                        assert(caps.take(n)[i] == caps.take(n - 1)[i]);
                    }
                }
            }
            true
        }
    }

    /// Hands the finished sweep over as a stream: one well-formed point per
    /// capacity, in sweep order.
    pub fn finish(self) -> (it: BenchIterator)
        requires
            self.wf(),
            self.done(),
        ensures
            it.points@ == self.results@,
            sweep_shape_ok(
                it.points@,
                self.capacities@,
                self.sample_count as nat,
                self.messages_per_run,
            ),
    {
        proof {
            assert(self.capacities@.take(self.results@.len() as int) =~= self.capacities@);
        }
        BenchIterator { points: self.results }
    }
}

/// The capacity values the standard sweep visits, in sweep order.
pub open spec fn default_capacities() -> Seq<usize> {
    seq![10_000usize, 100_000usize]
}

/// Builds the standard capacity sweep.
pub fn sweep_capacities() -> (v: Vec<usize>)
    ensures
        v@ == default_capacities(),
{
    let mut v: Vec<usize> = Vec::new();
    v.push(10_000);
    v.push(100_000);
    proof {
        assert(v@ =~= default_capacities());
    }
    v
}

/// Messages one timed repetition moves: `width` pairs, each moving
/// `workload` messages.
pub fn messages_per_run(width: u64, workload: u64) -> (r: u64)
    requires
        width * workload <= u64::MAX,
    ensures
        r == width * workload,
{
    width * workload
}

/// The driver entry point: a sweep over the standard capacities with the
/// fixed workload (every repetition moves [`CHANNELS`] times
/// [`MESSAGES_PER_CHANNEL`] messages), taking `samples` repetitions per
/// capacity.
pub fn bench_plan(samples: u32) -> (d: Driver)
    requires
        1 <= samples,
    ensures
        d.wf(),
        d.capacities@ == default_capacities(),
        d.sample_count == samples as usize,
        d.messages_per_run == CHANNELS * MESSAGES_PER_CHANNEL,
        d.results@.len() == 0,
        d.pending@.len() == 0,
{
    Driver::new(sweep_capacities(), samples as usize, CHANNELS * MESSAGES_PER_CHANNEL)
}

/// Like [`bench_plan`], but rejects a zero sample count instead of
/// requiring the caller to rule it out.
pub fn try_bench_plan(samples: u32) -> (r: Option<Driver>)
    ensures
        (r is None) <==> samples == 0,
        (match r {
            Some(d) => {
                &&& d.wf()
                &&& d.capacities@ == default_capacities()
                &&& d.sample_count == samples as usize
                &&& d.messages_per_run == CHANNELS * MESSAGES_PER_CHANNEL
                &&& d.results@.len() == 0
                &&& d.pending@.len() == 0
            },
            None => samples == 0,
        }),
{
    if samples == 0 {
        None
    } else {
        Some(bench_plan(samples))
    }
}

/// Law: a finished sweep yields exactly one point per configured capacity
/// and exactly the configured number of samples in each point.
pub proof fn lemma_one_point_per_capacity(
    rs: Seq<BenchResult>,
    caps: Seq<usize>,
    sample_count: nat,
    messages: u64,
)
    requires
        sweep_shape_ok(rs, caps, sample_count, messages),
    ensures
        rs.len() == caps.len(),
        forall|i: int| 0 <= i < rs.len() ==> (#[trigger] rs[i]).samples@.len() == sample_count,
{
}

/// Law: the labels and values of a sweep are determined by the
/// configuration alone. Two runs over the same capacities with the same
/// sample count agree point for point on name, value and sample count,
/// whatever the measured times were.
pub proof fn lemma_config_determines_shape(
    r1: Seq<BenchResult>,
    r2: Seq<BenchResult>,
    caps: Seq<usize>,
    sample_count: nat,
    m1: u64,
    m2: u64,
)
    requires
        sweep_shape_ok(r1, caps, sample_count, m1),
        sweep_shape_ok(r2, caps, sample_count, m2),
    ensures
        r1.len() == r2.len(),
        forall|i: int|
            0 <= i < r1.len() ==> (#[trigger] r1[i]).name@ == r2[i].name@ && r1[i].value@
                == r2[i].value@ && r1[i].samples@.len() == r2[i].samples@.len(),
{
}

} // verus!
