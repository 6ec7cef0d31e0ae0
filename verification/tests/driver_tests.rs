use channel_bench::driver::try_bench_plan;
use channel_bench::driver::ConfigError;
use channel_bench::driver::Driver;
use channel_bench::driver::CHANNELS;
use channel_bench::driver::MESSAGES_PER_CHANNEL;
use channel_bench::channel_model::run_pairs;

#[test]
fn one_point_per_capacity_with_sample_count() {
    let mut d = Driver::new(vec![3, 7, 9], 3, 100);
    let mut runs = 0;
    while let Some(_cap) = d.next_capacity() {
        d.record(1_000 + runs);
        runs += 1;
    }
    assert_eq!(runs, 9);
    let mut it = d.finish();
    assert_eq!(it.remaining(), 3);
    let expected_values = ["3", "7", "9"];
    for value in expected_values {
        let p = it.next().expect("one point per capacity");
        assert_eq!(p.name, "capacity");
        assert_eq!(p.value, value);
        assert_eq!(p.samples.len(), 3);
    }
    assert!(it.next().is_none());
}

#[test]
fn samples_kept_in_repetition_order() {
    let mut d = Driver::new(vec![5], 4, 10);
    for elapsed in [40, 10, 30, 20] {
        d.record(elapsed);
    }
    let mut it = d.finish();
    let p = it.next().unwrap();
    let elapsed: Vec<u64> = p.samples.iter().map(|s| s.elapsed_nanos).collect();
    assert_eq!(elapsed, vec![40, 10, 30, 20]);
    assert!(p.samples.iter().all(|s| s.messages == 10));
}

#[test]
fn small_sweep_scenario() {
    // Workload 1,000 messages, 4 pairs, capacities [1, 100], 2 samples:
    // the stream yields 2 points, "capacity" = "1" and "100", 2 samples
    // each, and 4 x 1,000 x 2 x 2 = 16,000 messages move in all.
    let width = 4;
    let workload = 1_000;
    let per_run = channel_bench::driver::messages_per_run(width as u64, workload as u64);
    assert_eq!(per_run, 4_000);
    let mut d = Driver::new(vec![1, 100], 2, per_run);
    let mut total_messages: u64 = 0;
    while let Some(cap) = d.next_capacity() {
        total_messages += run_pairs(width, cap, workload);
        d.record(123_456);
    }
    assert_eq!(total_messages, 16_000);
    let mut it = d.finish();
    let first = it.next().unwrap();
    assert_eq!((first.name.as_str(), first.value.as_str()), ("capacity", "1"));
    assert_eq!(first.samples.len(), 2);
    let second = it.next().unwrap();
    assert_eq!((second.name.as_str(), second.value.as_str()), ("capacity", "100"));
    assert_eq!(second.samples.len(), 2);
    assert!(it.next().is_none());
}

#[test]
fn stream_is_not_restartable() {
    let mut d = Driver::new(vec![2], 1, 50);
    d.record(999);
    let mut it = d.finish();
    assert!(it.next().is_some());
    assert!(it.next().is_none());
    assert!(it.next().is_none());
    assert_eq!(it.remaining(), 0);
}

#[test]
fn default_plan_labels_and_workload() {
    let mut d = try_bench_plan(1).expect("one sample is a valid configuration");
    assert_eq!(CHANNELS * MESSAGES_PER_CHANNEL, 61_000_000);
    assert_eq!(d.next_capacity(), Some(10_000));
    d.record(7);
    assert_eq!(d.next_capacity(), Some(100_000));
    d.record(7);
    assert_eq!(d.next_capacity(), None);
    let mut it = d.finish();
    let first = it.next().unwrap();
    assert_eq!(first.value, "10000");
    assert_eq!(first.samples[0].messages, 61_000_000);
    let second = it.next().unwrap();
    assert_eq!(second.value, "100000");
    assert!(it.next().is_none());
}

#[test]
fn zero_sample_count_rejected() {
    assert!(try_bench_plan(0).is_none());
    let r = Driver::try_new(vec![4], 0, 10);
    assert_eq!(r.err(), Some(ConfigError::ZeroSampleCount));
}

#[test]
fn zero_capacity_rejected() {
    let r = Driver::try_new(vec![4, 0], 2, 10);
    assert_eq!(r.err(), Some(ConfigError::ZeroCapacity));
}

#[test]
fn identical_configuration_gives_identical_shape() {
    // Two sweeps over the same configuration, with different measured
    // times: same labels, same values, same sample counts.
    let run = |elapsed: [u64; 4]| {
        let mut d = Driver::new(vec![1, 8], 2, 400);
        for e in elapsed {
            d.record(e);
        }
        let mut it = d.finish();
        let mut shape = Vec::new();
        while let Some(p) = it.next() {
            shape.push((p.name.clone(), p.value.clone(), p.samples.len()));
            assert!(p.samples.iter().all(|s| s.messages > 0 && s.elapsed_nanos > 0));
        }
        shape
    };
    let a = run([10, 20, 30, 40]);
    let b = run([99, 1, 77, 3]);
    assert_eq!(a, b);
}
