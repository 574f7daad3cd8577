use bench::stats::{aggregate, Accumulator, BenchError, Sample};
use bench::util::human_size;

fn sample(elapsed_nanos: u128, proof_size: usize) -> Sample {
    Sample { elapsed_nanos, proof_size }
}

const MAX_DURATION_NANOS: u128 = 18_446_744_073_709_551_615_999_999_999;

#[test]
fn means_are_totals_divided_by_the_number_of_trials() {
    let samples = vec![sample(1_000, 10), sample(2_000, 20), sample(4_000, 31)];
    let m = aggregate(1024, &samples).unwrap();
    assert_eq!(m.num_permutations, 1024);
    assert_eq!(m.time_nanos, 2_333);
    assert_eq!((m.throughput.num(), m.throughput.den()), (1_024_000_000_000, 2_333));
    assert_eq!((m.proof_size.num(), m.proof_size.den()), (61, 3));
    assert_eq!(human_size(m.proof_size), "20.33 B");
}

#[test]
fn one_trial_is_its_own_mean() {
    let m = aggregate(8, &vec![sample(5, 7)]).unwrap();
    assert_eq!(m.time_nanos, 5);
    assert_eq!((m.proof_size.num(), m.proof_size.den()), (7, 1));
    assert_eq!((m.throughput.num(), m.throughput.den()), (8_000_000_000, 5));
}

#[test]
fn the_same_trials_give_the_same_result() {
    let samples = vec![sample(3, 1), sample(9, 2), sample(30, 3), sample(2, 4)];
    let a = aggregate(16, &samples).unwrap();
    let b = aggregate(16, &samples).unwrap();
    assert_eq!(a.time_nanos, b.time_nanos);
    assert_eq!(a.time_nanos, 11);
    assert_eq!((a.throughput.num(), a.throughput.den()), (b.throughput.num(), b.throughput.den()));
    assert_eq!((a.proof_size.num(), a.proof_size.den()), (b.proof_size.num(), b.proof_size.den()));
}

#[test]
fn no_trial_is_refused() {
    assert_eq!(aggregate(1024, &vec![]).unwrap_err(), BenchError::ZeroSampleSize);
    assert_eq!(Accumulator::new().finish(1024).unwrap_err(), BenchError::ZeroSampleSize);
}

#[test]
fn a_mean_below_a_nanosecond_is_refused() {
    assert_eq!(aggregate(4, &vec![sample(0, 1)]).unwrap_err(), BenchError::ZeroMeanTime);
    assert_eq!(
        aggregate(4, &vec![sample(1, 1), sample(0, 1)]).unwrap_err(),
        BenchError::ZeroMeanTime
    );
    assert_eq!(aggregate(4, &vec![sample(1, 1), sample(1, 1)]).unwrap().time_nanos, 1);
}

#[test]
fn a_total_beyond_the_longest_duration_is_refused() {
    assert_eq!(aggregate(1, &vec![sample(MAX_DURATION_NANOS, 1)]).unwrap().time_nanos, MAX_DURATION_NANOS);
    assert_eq!(
        aggregate(1, &vec![sample(MAX_DURATION_NANOS, 1), sample(1, 1)]).unwrap_err(),
        BenchError::TimeOverflow
    );
    assert_eq!(
        aggregate(1, &vec![sample(MAX_DURATION_NANOS + 1, 1)]).unwrap_err(),
        BenchError::TimeOverflow
    );
    assert_eq!(aggregate(1, &vec![sample(u128::MAX, 1), sample(u128::MAX, 1)]).unwrap_err(), BenchError::TimeOverflow);
}

#[test]
fn accumulator_keeps_what_it_held_when_it_refuses() {
    let mut acc = Accumulator::new();
    assert_eq!(acc.len(), 0);
    assert_eq!(acc.record(sample(10, 4)), Ok(()));
    assert_eq!(acc.record(sample(u128::MAX, 9)), Err(BenchError::TimeOverflow));
    assert_eq!(acc.len(), 1);
    assert_eq!(acc.record(sample(20, usize::MAX)), Ok(()));
    assert_eq!(acc.len(), 2);
    let m = acc.finish(2).unwrap();
    assert_eq!(m.time_nanos, 15);
    assert_eq!((m.proof_size.num(), m.proof_size.den()), (usize::MAX as u128 + 4, 2));
}

#[test]
fn no_permutation_gives_no_throughput() {
    let m = aggregate(0, &vec![sample(10, 1)]).unwrap();
    assert_eq!((m.throughput.num(), m.throughput.den()), (0, 10));
}
