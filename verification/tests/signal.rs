use ebsentinel_core::process_data::{DataProcessor, Differentiator, Normalizer};
use ebsentinel_core::rate::{RateVector, NANOS_PER_SEC};
use std::time::Duration;

const WIDTH: usize = 512;

fn signal_value(v: &RateVector, i: usize) -> f32 {
    (v.numer[i] as f64 / v.denom as f64) as f32
}

fn rate_vector(numer: &[i128], denom: u128) -> RateVector {
    RateVector { numer: numer.to_vec(), denom }
}

#[test]
fn first_rates_are_the_counts_times_the_frequency() {
    let mut d = Differentiator::new(&Duration::from_millis(100));
    let mut a = vec![0u64; WIDTH];
    a[0] = 7;
    a[511] = 3;
    let r = d.process(&a[..]);
    assert_eq!(r.numer.len(), WIDTH);
    assert_eq!(r.denom, 100_000_000);
    assert_eq!(r.numer[0], 7 * NANOS_PER_SEC);
    assert_eq!(r.numer[1], 0);
    assert_eq!(r.numer[511], 3_000_000_000);
    assert_eq!(signal_value(&r, 0), 70.0);
    assert_eq!(signal_value(&r, 511), 30.0);
}

#[test]
fn rates_between_consecutive_snapshots() {
    let mut d = Differentiator::new(&Duration::from_millis(250));
    let mut a = vec![0u64; WIDTH];
    let mut b = vec![0u64; WIDTH];
    for i in 0..WIDTH {
        a[i] = 10 * i as u64;
        b[i] = 13 * i as u64 + 1;
    }
    d.process(&a[..]);
    let r = d.process(&b[..]);
    assert_eq!(r.denom, 250_000_000);
    for i in 0..WIDTH {
        let delta = b[i] as i128 - a[i] as i128;
        assert_eq!(r.numer[i], delta * 1_000_000_000);
        assert_eq!(signal_value(&r, i), (delta as f64 * 4.0) as f32);
    }
}

#[test]
fn the_snapshot_replaces_the_baseline_even_without_change() {
    let mut d = Differentiator::new(&Duration::from_secs(1));
    let mut a = vec![0u64; WIDTH];
    a[5] = 9;
    let first = d.process(&a[..]);
    assert_eq!(first.numer[5], 9_000_000_000);
    let second = d.process(&a[..]);
    assert_eq!(second.numer, vec![0i128; WIDTH]);
    assert_eq!(second.denom, 1_000_000_000);
}

#[test]
fn a_counter_that_fell_gives_a_negative_rate() {
    let mut d = Differentiator::new(&Duration::from_millis(100));
    let mut a = vec![0u64; WIDTH];
    a[42] = u64::MAX;
    d.process(&a[..]);
    let b = vec![0u64; WIDTH];
    let r = d.process(&b[..]);
    assert_eq!(r.numer[42], -(u64::MAX as i128) * 1_000_000_000);
    assert_eq!(r.numer[41], 0);
}

#[test]
fn a_narrower_snapshot_gives_a_narrower_vector() {
    let mut d = Differentiator::new(&Duration::from_millis(100));
    assert_eq!(d.width(), 512);
    let a = [4u64, 5, 6];
    let r = d.process(&a[..]);
    assert_eq!(d.width(), 3);
    assert_eq!(r.numer, vec![4_000_000_000i128, 5_000_000_000, 6_000_000_000]);
    let b = [6u64, 5];
    let r = d.process(&b[..]);
    assert_eq!(r.numer, vec![2_000_000_000i128, 0]);
}

#[test]
fn zero_interval_gives_a_zero_denominator() {
    let mut d = Differentiator::new(&Duration::ZERO);
    let a = [1u64];
    let r = d.process(&a[..]);
    assert_eq!(r.denom, 0);
    assert_eq!(r.numer, vec![1_000_000_000i128]);
}

#[test]
fn normalizer_divides_by_the_largest_rate() {
    let v = rate_vector(&[2, -4, 4, 0, 1], 7);
    let n = Normalizer.process(&v);
    assert_eq!(n.numer, vec![2i128, -4, 4, 0, 1]);
    assert_eq!(n.denom, 4);
    assert_eq!(signal_value(&n, 0), 0.5);
    assert_eq!(signal_value(&n, 1), -1.0);
    assert_eq!(signal_value(&n, 2), 1.0);
    assert_eq!(signal_value(&n, 3), 0.0);
    assert_eq!(signal_value(&n, 4), 0.25);
}

#[test]
fn normalizer_is_scale_invariant() {
    let v = rate_vector(&[300, -100, 50, 0, 299], 11);
    // the same rates multiplied by 7 / 3
    let w = rate_vector(&[2100, -700, 350, 0, 2093], 33);
    let a = Normalizer.process(&v);
    let b = Normalizer.process(&w);
    assert_eq!(a.numer.len(), b.numer.len());
    for i in 0..a.numer.len() {
        assert_eq!(a.numer[i] * b.denom as i128, b.numer[i] * a.denom as i128);
        assert_eq!(signal_value(&a, i), signal_value(&b, i));
    }
}

#[test]
fn normalizer_keeps_all_negative_rates() {
    let v = rate_vector(&[-3, -1, -1000], 5);
    let n = Normalizer.process(&v);
    assert_eq!(n.numer, vec![-3i128, -1, -1000]);
    assert_eq!(n.denom, 5);
}

#[test]
fn normalizer_keeps_all_zero_rates() {
    let v = rate_vector(&[0, 0, 0, 0], 100_000_000);
    let n = Normalizer.process(&v);
    assert_eq!(n.numer, vec![0i128; 4]);
    assert_eq!(n.denom, 100_000_000);
}

#[test]
fn normalizer_keeps_zero_and_negative_rates() {
    let v = rate_vector(&[0, -8, 0], 9);
    let n = Normalizer.process(&v);
    assert_eq!(n.numer, vec![0i128, -8, 0]);
    assert_eq!(n.denom, 9);
}

#[test]
fn normalizer_keeps_the_empty_vector() {
    let v = rate_vector(&[], 3);
    let n = Normalizer.process(&v);
    assert!(n.numer.is_empty());
    assert_eq!(n.denom, 3);
}

#[test]
fn normalized_range_has_no_lower_bound() {
    let v = rate_vector(&[1, -1_000_000], 2);
    let n = Normalizer.process(&v);
    assert_eq!(n.denom, 1);
    assert_eq!(signal_value(&n, 0), 1.0);
    assert_eq!(signal_value(&n, 1), -1_000_000.0);
}

#[test]
fn normalizer_takes_the_largest_of_the_extremes() {
    let v = rate_vector(&[i128::MIN, i128::MAX, 0], 1);
    let n = Normalizer.process(&v);
    assert_eq!(n.denom, i128::MAX as u128);
    assert_eq!(n.numer, vec![i128::MIN, i128::MAX, 0]);
}
