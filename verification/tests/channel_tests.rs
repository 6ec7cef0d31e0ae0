use channel_bench::channel_model::run_pair;
use channel_bench::channel_model::run_pairs;
use channel_bench::Sample;

#[test]
fn consumer_sees_every_message_in_order() {
    let (sent, received) = run_pair(4, 100);
    assert_eq!(sent.len(), 100);
    assert_eq!(received, sent);
    for (i, m) in received.iter().enumerate() {
        assert_eq!(*m, i);
    }
}

#[test]
fn capacity_one_completes() {
    // Fully serialized back-pressure: one in-flight message at a time.
    let (sent, received) = run_pair(1, 1_000);
    assert_eq!(sent.len(), 1_000);
    assert_eq!(received, sent);
}

#[test]
fn capacity_larger_than_workload_completes() {
    let (sent, received) = run_pair(50, 10);
    assert_eq!(sent.len(), 10);
    assert_eq!(received, sent);
}

#[test]
fn empty_workload_moves_nothing() {
    let (sent, received) = run_pair(3, 0);
    assert!(sent.is_empty());
    assert!(received.is_empty());
}

#[test]
fn single_pair_width_gives_a_valid_figure() {
    let total = run_pairs(1, 8, 500);
    assert_eq!(total, 500);
    let sample = Sample::new(total, 250);
    assert_eq!(sample.messages_per_second(), 2_000_000_000);
}

#[test]
fn fan_out_multiplies_the_workload() {
    assert_eq!(run_pairs(4, 1, 250), 1_000);
    assert_eq!(run_pairs(61, 16, 100), 6_100);
}
