use bench::util::{
    benchmark_parameter, human_size, human_throughput, human_time, human_time_nanos,
    pcs_log_inv_rate, po2, po2_of, Ratio, MAX_RATIO_DENOMINATOR,
};
use std::time::Duration;

fn whole(n: u128) -> Ratio {
    Ratio::from_integer(n)
}

fn ratio(num: u128, den: u128) -> Ratio {
    Ratio::new(num, den).unwrap()
}

#[test]
fn time_below_a_microsecond_is_in_whole_nanoseconds() {
    assert_eq!(human_time(Duration::from_nanos(0)), "0 ns");
    assert_eq!(human_time(Duration::from_nanos(7)), "7 ns");
    assert_eq!(human_time(Duration::from_nanos(999)), "999 ns");
}

#[test]
fn time_changes_unit_at_a_thousand_of_the_smaller_one() {
    assert_eq!(human_time(Duration::from_nanos(1_000)), "1.00 µs");
    assert_eq!(human_time(Duration::from_nanos(999_994)), "999.99 µs");
    assert_eq!(human_time(Duration::from_nanos(1_000_000)), "1.00 ms");
    assert_eq!(human_time(Duration::from_nanos(999_994_999)), "999.99 ms");
    assert_eq!(human_time(Duration::from_nanos(1_000_000_000)), "1.00 s");
}

#[test]
fn time_keeps_its_unit_when_rounding_reaches_a_thousand() {
    assert_eq!(human_time(Duration::from_nanos(999_999)), "1000.00 µs");
    assert_eq!(human_time(Duration::from_nanos(999_999_999)), "1000.00 ms");
}

#[test]
fn time_has_two_places() {
    assert_eq!(human_time(Duration::from_nanos(1_234_567)), "1.23 ms");
    assert_eq!(human_time(Duration::from_nanos(1_235_001)), "1.24 ms");
    assert_eq!(human_time(Duration::from_millis(1_500)), "1.50 s");
    assert_eq!(human_time(Duration::from_secs(90)), "90.00 s");
    assert_eq!(human_time(Duration::from_nanos(12_340)), "12.34 µs");
    assert_eq!(human_time(Duration::from_nanos(1_096)), "1.10 µs");
}

#[test]
fn a_tie_goes_to_the_even_hundredth() {
    assert_eq!(human_time_nanos(1_005), "1.00 µs");
    assert_eq!(human_time_nanos(1_015), "1.02 µs");
    assert_eq!(human_time_nanos(1_125), "1.12 µs");
    assert_eq!(human_time_nanos(1_995), "2.00 µs");
    assert_eq!(human_size(ratio(1, 8)), "0.12 B");
    assert_eq!(human_size(ratio(3, 8)), "0.38 B");
}

#[test]
fn time_of_the_longest_duration() {
    assert_eq!(human_time(Duration::MAX), "18446744073709551616.00 s");
    assert_eq!(human_time_nanos(u128::MAX), "340282366920938463463374607431.77 s");
}

#[test]
fn throughput_changes_unit_at_a_thousand_and_at_a_million() {
    assert_eq!(human_throughput(whole(0)), "0.00 /s");
    assert_eq!(human_throughput(whole(999)), "999.00 /s");
    assert_eq!(human_throughput(whole(1_000)), "1.00 K/s");
    assert_eq!(human_throughput(whole(999_999)), "1000.00 K/s");
    assert_eq!(human_throughput(whole(1_000_000)), "1.00 M/s");
    assert_eq!(human_throughput(whole(2_500_000_000)), "2500.00 M/s");
}

#[test]
fn throughput_of_a_fraction() {
    assert_eq!(human_throughput(ratio(1, 3)), "0.33 /s");
    assert_eq!(human_throughput(ratio(2, 3)), "0.67 /s");
    assert_eq!(human_throughput(ratio(1024 * 1_000_000_000, 2_000_000)), "512.00 K/s");
    assert_eq!(human_throughput(ratio(1_999_999, 2)), "1000.00 K/s");
    assert_eq!(human_throughput(ratio(1_999, 2)), "999.50 /s");
}

#[test]
fn size_changes_unit_at_1024_and_at_1024_squared() {
    assert_eq!(human_size(whole(0)), "0.00 B");
    assert_eq!(human_size(whole(999)), "999.00 B");
    assert_eq!(human_size(whole(1_000)), "1000.00 B");
    assert_eq!(human_size(whole(1_023)), "1023.00 B");
    assert_eq!(human_size(whole(1_024)), "1.00 KB");
    assert_eq!(human_size(whole(1_536)), "1.50 KB");
    assert_eq!(human_size(whole(1_048_575)), "1024.00 KB");
    assert_eq!(human_size(whole(1_048_576)), "1.00 MB");
    assert_eq!(human_size(whole(3_434_316)), "3.28 MB");
}

#[test]
fn size_of_a_mean() {
    assert_eq!(human_size(ratio(2_047, 2)), "1023.50 B");
    assert_eq!(human_size(ratio(2_049, 2)), "1.00 KB");
    assert_eq!(human_size(ratio(10, 4)), "2.50 B");
}

#[test]
fn ratio_takes_a_denominator_from_one_to_the_bound() {
    assert!(Ratio::new(5, 0).is_none());
    assert!(Ratio::new(5, MAX_RATIO_DENOMINATOR + 1).is_none());
    let greatest = Ratio::new(u128::MAX, MAX_RATIO_DENOMINATOR).unwrap();
    assert_eq!(greatest.num(), u128::MAX);
    assert_eq!(greatest.den(), MAX_RATIO_DENOMINATOR);
    assert_eq!(human_size(greatest), "4096.00 MB");
    assert_eq!(human_throughput(greatest), "4294.97 M/s");
    let seven = Ratio::from_integer(7);
    assert_eq!((seven.num(), seven.den()), (7, 1));
}

#[test]
fn po2_of_takes_exponents_in_any_order() {
    assert_eq!(po2_of(&[12, 3, 3, 0, 63]), vec![4096, 8, 8, 1, 1usize << 63]);
    assert_eq!(po2_of(&[]), Vec::<usize>::new());
    assert_eq!(po2_of(&[10, 11, 12]), po2(10..13));
}

#[test]
fn po2_gives_the_powers_in_order() {
    assert_eq!(po2(10..13), vec![1024, 2048, 4096]);
    assert_eq!(po2(0..1), vec![1]);
    assert_eq!(po2(15..18), vec![32768, 65536, 131072]);
    assert_eq!(po2(5..5), Vec::<usize>::new());
    assert_eq!(po2(9..3), Vec::<usize>::new());
    assert_eq!(po2(63..64), vec![1usize << 63]);
}

#[test]
fn log_inv_rate_is_read_as_an_unsigned_number() {
    assert_eq!(pcs_log_inv_rate(Some("2")), 2);
    assert_eq!(pcs_log_inv_rate(Some("+3")), 3);
    assert_eq!(pcs_log_inv_rate(Some("007")), 7);
    assert_eq!(pcs_log_inv_rate(Some("0")), 0);
    assert_eq!(pcs_log_inv_rate(Some("18446744073709551615")), usize::MAX);
}

#[test]
fn log_inv_rate_falls_back_to_one() {
    assert_eq!(pcs_log_inv_rate(None), 1);
    assert_eq!(pcs_log_inv_rate(Some("")), 1);
    assert_eq!(pcs_log_inv_rate(Some("+")), 1);
    assert_eq!(pcs_log_inv_rate(Some("-2")), 1);
    assert_eq!(pcs_log_inv_rate(Some(" 2")), 1);
    assert_eq!(pcs_log_inv_rate(Some("2 ")), 1);
    assert_eq!(pcs_log_inv_rate(Some("two")), 1);
    assert_eq!(pcs_log_inv_rate(Some("1_0")), 1);
    assert_eq!(pcs_log_inv_rate(Some("٣")), 1);
    assert_eq!(pcs_log_inv_rate(Some("18446744073709551616")), 1);
    assert_eq!(pcs_log_inv_rate(Some("99999999999999999999999")), 1);
}

#[test]
fn benchmark_parameter_names_threads_and_permutations() {
    assert_eq!(benchmark_parameter(8, 1024), "num_threads=8/num_permutations=1024");
    assert_eq!(benchmark_parameter(0, 0), "num_threads=0/num_permutations=0");
}
