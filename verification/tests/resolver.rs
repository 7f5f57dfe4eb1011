use nurbs_mesh::resolver::resolve_closest;
use nurbs_mesh::scalar::{is_nan, is_zero, lt};

fn d(x: f64) -> Option<u64> {
    Some(x.to_bits())
}

fn t(x: f64) -> u64 {
    x.to_bits()
}

#[test]
fn distance_equal_to_threshold_is_no_match() {
    let r = resolve_closest(&vec![d(0.5)], t(0.5));
    assert_eq!(r, None);
}

#[test]
fn distance_just_under_threshold_matches() {
    let r = resolve_closest(&vec![d(0.5)], t(0.500001));
    assert_eq!(r, Some(0));
}

#[test]
fn lone_parallel_candidate_yields_no_match() {
    let r = resolve_closest(&vec![None], t(1000.0));
    assert_eq!(r, None);
}

#[test]
fn parallel_candidates_are_skipped() {
    let r = resolve_closest(&vec![None, d(1.0), None], t(2.0));
    assert_eq!(r, Some(1));
}

#[test]
fn empty_candidate_list_yields_no_match() {
    let r = resolve_closest(&vec![], t(1000.0));
    assert_eq!(r, None);
}

#[test]
fn smallest_distance_wins() {
    let r = resolve_closest(&vec![d(0.9), d(0.2), d(0.4)], t(1.0));
    assert_eq!(r, Some(1));
}

#[test]
fn equal_distances_keep_the_first_candidate() {
    let r = resolve_closest(&vec![d(0.3), d(0.3)], t(1.0));
    assert_eq!(r, Some(0));
}

#[test]
fn winner_must_still_beat_the_threshold() {
    let r = resolve_closest(&vec![d(0.9), d(0.2), d(0.4)], t(0.1));
    assert_eq!(r, None);
}

#[test]
fn nan_seen_first_blocks_later_candidates() {
    // the known edge of the NaN-tolerant comparison: a NaN that arrives
    // before any valid distance stays the winner and fails the threshold
    let r = resolve_closest(&vec![d(f64::NAN), d(0.1)], t(0.5));
    assert_eq!(r, None);
}

#[test]
fn nan_after_a_valid_winner_is_ignored() {
    let r = resolve_closest(&vec![d(0.1), d(f64::NAN)], t(0.5));
    assert_eq!(r, Some(0));
}

#[test]
fn nan_alone_never_matches() {
    let r = resolve_closest(&vec![d(f64::NAN)], t(f64::INFINITY));
    assert_eq!(r, None);
}

#[test]
fn negative_distances_order_correctly() {
    let r = resolve_closest(&vec![d(-0.5), d(-1.0)], t(0.0));
    assert_eq!(r, Some(1));
}

#[test]
fn resolution_is_idempotent() {
    let dists = vec![d(0.9), None, d(0.2), d(f64::NAN)];
    let a = resolve_closest(&dists, t(0.5));
    let b = resolve_closest(&dists, t(0.5));
    assert_eq!(a, b);
    assert_eq!(a, Some(2));
}

#[test]
fn bit_order_agrees_with_native_comparison() {
    let values: Vec<f64> = vec![
        0.0,
        -0.0,
        1.0,
        -1.0,
        0.5,
        0.500001,
        2.0,
        -2.0,
        1.5e-308,
        5e-324,
        -5e-324,
        1e308,
        -1e308,
        f64::MAX,
        f64::MIN,
        f64::MIN_POSITIVE,
        f64::INFINITY,
        f64::NEG_INFINITY,
        f64::NAN,
        -f64::NAN,
    ];
    for &a in &values {
        for &b in &values {
            assert_eq!(
                lt(a.to_bits(), b.to_bits()),
                a < b,
                "bit order disagrees with native order on {a} < {b}"
            );
        }
    }
}

#[test]
fn nan_and_zero_classification_agrees_with_native() {
    let values: Vec<f64> = vec![
        0.0,
        -0.0,
        1.0,
        -1.0,
        5e-324,
        f64::INFINITY,
        f64::NEG_INFINITY,
        f64::NAN,
        -f64::NAN,
    ];
    for &a in &values {
        assert_eq!(is_nan(a.to_bits()), a.is_nan());
        assert_eq!(is_zero(a.to_bits()), a == 0.0);
    }
}
