//! Closest-curve resolver: the decision core of ray picking.
//!
//! Per frame the host walks its candidate curves. For each one it places
//! the curve in world space, intersects the pick ray with the candidate's
//! reference plane, and — when the ray meets the plane — measures the
//! distance from the intersection to the closest point of the placed
//! curve. Each candidate thus yields either a distance, in double-precision
//! bit form, or nothing when the ray ran parallel to the plane.
//!
//! This module owns what happens next: the minimum search over those
//! distances and the strict threshold test. A candidate without a distance
//! is not selectable. A later candidate replaces the running winner only
//! when its distance is strictly below the winner's, so equal distances
//! keep the earliest candidate, and a NaN — which is below nothing and
//! above nothing — never replaces a winner but can become one when it is
//! the first distance seen, a quirk of the NaN-tolerant comparison that is
//! deliberately kept. A NaN winner never passes the strict threshold test,
//! so it can only block a match, not produce one.

use vstd::prelude::*;

verus! {

use crate::scalar::{
    spec_lt,
    spec_is_nan,
    lt,
    lemma_lt_irreflexive,
    lemma_lt_transitive,
    lemma_lt_connected,
};

/// The winning candidate of the minimum search, as index and distance:
/// candidates are scanned in order, absent distances are skipped, and the
/// running winner changes only on a strictly smaller distance.
pub open spec fn spec_winner(dists: Seq<Option<u64>>) -> Option<(int, u64)>
    decreases dists.len(),
{
    if dists.len() == 0 {
        None
    } else {
        let prev = spec_winner(dists.drop_last());
        match dists.last() {
            None => prev,
            Some(d) => match prev {
                None => Some((dists.len() - 1, d)),
                Some((bi, bd)) => if spec_lt(d, bd) {
                    Some((dists.len() - 1, d))
                } else {
                    Some((bi, bd))
                },
            },
        }
    }
}

/// The resolved pick: the winner's index, but only when its distance lies
/// strictly below the threshold; a distance equal to the threshold is no
/// match.
pub open spec fn spec_resolve(dists: Seq<Option<u64>>, threshold: u64) -> Option<int> {
    match spec_winner(dists) {
        None => None,
        Some((bi, bd)) => if spec_lt(bd, threshold) {
            Some(bi)
        } else {
            None
        },
    }
}

/// The executable result agrees with the resolved pick.
pub open spec fn resolution_matches(dists: Seq<Option<u64>>, threshold: u64, r: Option<usize>) -> bool {
    match spec_resolve(dists, threshold) {
        None => r is None,
        Some(i) => r matches Some(ri) && ri == i,
    }
}

/// Selects, among the candidates' distances, the first strictly smallest
/// one, and returns its candidate's index when that distance lies strictly
/// below the threshold.
///
/// `distances` holds one entry per candidate, in candidate order: the
/// distance from the candidate's plane intersection to its placed curve,
/// as a double-precision bit pattern, or nothing when the ray missed the
/// candidate's plane.
pub fn resolve_closest(distances: &Vec<Option<u64>>, threshold: u64) -> (r: Option<usize>)
    ensures
        resolution_matches(distances@, threshold, r),
        r matches Some(i) ==> i < distances@.len() && distances@[i as int] is Some,
        distances@.len() == 0 ==> r is None,
{
    let n = distances.len();
    let mut best: Option<(usize, u64)> = None;
    let mut i: usize = 0;
    while i < n
        invariant
            i <= n,
            n == distances@.len(),
            match (best, spec_winner(distances@.take(i as int))) {
                (None, None) => true,
                (Some((bi, bd)), Some((si, sd))) => bi as int == si && bd == sd && bi < i,
                _ => false,
            },
        decreases n - i,
    {
        let cur = distances[i];
        match cur {
            Some(d) => {
                best = match best {
                    None => Some((i, d)),
                    Some((bi, bd)) => if lt(d, bd) {
                        Some((i, d))
                    } else {
                        Some((bi, bd))
                    },
                };
            },
            None => {},
        }
        proof {
            assert(distances@.take(i as int + 1).drop_last() =~= distances@.take(i as int));
            assert(distances@.take(i as int + 1).last() == distances@[i as int]);
        }
        i += 1;
    }
    proof {
        assert(distances@.take(n as int) =~= distances@);
        lemma_winner_is_present(distances@);
    }
    match best {
        None => None,
        Some((bi, bd)) => if lt(bd, threshold) {
            Some(bi)
        } else {
            None
        },
    }
}

/// Only a candidate that produced a distance can win the minimum search,
/// and the winning distance is that candidate's own. In particular a
/// candidate whose ray ran parallel to its plane is excluded from the
/// search altogether.
pub proof fn lemma_winner_is_present(dists: Seq<Option<u64>>)
    ensures
        spec_winner(dists) matches Some((i, d)) ==> 0 <= i < dists.len() && dists[i] == Some(d),
    decreases dists.len(),
{
    if dists.len() == 0 {
    } else {
        lemma_winner_is_present(dists.drop_last());
    }
}

/// When every candidate missed its plane there is no winner and no match —
/// also when that lone excluded candidate is the only one there is.
pub proof fn lemma_all_excluded_no_match(dists: Seq<Option<u64>>, threshold: u64)
    requires
        forall|i: int| 0 <= i < dists.len() ==> dists[i] is None,
    ensures
        spec_winner(dists) is None,
        spec_resolve(dists, threshold) is None,
    decreases dists.len(),
{
    if dists.len() == 0 {
    } else {
        lemma_all_excluded_no_match(dists.drop_last(), threshold);
    }
}

/// Without a winner there was nothing to win: every candidate's distance
/// is absent.
pub proof fn lemma_no_winner_all_absent(dists: Seq<Option<u64>>)
    requires
        spec_winner(dists) is None,
    ensures
        forall|j: int| 0 <= j < dists.len() ==> dists[j] is None,
    decreases dists.len(),
{
    if dists.len() == 0 {
    } else {
        lemma_no_winner_all_absent(dists.drop_last());
        assert(forall|j: int| 0 <= j < dists.len() - 1 ==> dists[j] == dists.drop_last()[j]);
        assert(dists[dists.len() - 1] == dists.last());
    }
}

/// On distances free of NaN the search picks the global minimum, with the
/// earliest candidate as tie-break: no present distance lies strictly below
/// the winner's, and the winner's lies strictly below every present
/// distance of an earlier candidate (an equal distance would have kept that
/// earlier candidate).
pub proof fn lemma_winner_is_minimum(dists: Seq<Option<u64>>)
    requires
        forall|j: int|
            0 <= j < dists.len() ==> (#[trigger] dists[j] matches Some(e) ==> !spec_is_nan(e)),
    ensures
        spec_winner(dists) matches Some((i, d)) ==> {
            &&& forall|j: int|
                0 <= j < dists.len() ==> (#[trigger] dists[j] matches Some(e) ==> !spec_lt(e, d))
            &&& forall|j: int|
                0 <= j < i ==> (#[trigger] dists[j] matches Some(e) ==> spec_lt(d, e))
        },
    decreases dists.len(),
{
    if dists.len() == 0 {
        return ;
    }
    let prefix = dists.drop_last();
    lemma_winner_is_minimum(prefix);
    let n = dists.len() - 1;
    assert(forall|j: int| 0 <= j < n ==> dists[j] == #[trigger] prefix[j]);
    match spec_winner(dists) {
        None => {},
        Some((i, d)) => {
            match spec_winner(prefix) {
                None => {
                    // nothing is present in the prefix: the last distance won
                    lemma_no_winner_all_absent(prefix);
                    assert(i == n && dists.last() == Some(d));
                    lemma_lt_irreflexive(d);
                    assert forall|j: int|
                        0 <= j < dists.len() implies (#[trigger] dists[j] matches Some(ej)
                        ==> !spec_lt(ej, d)) by {
                        if j < n {
                            assert(prefix[j] is None);
                        }
                    }
                    assert forall|j: int|
                        0 <= j < i implies (#[trigger] dists[j] matches Some(ej) ==> spec_lt(
                        d,
                        ej,
                    )) by {
                        assert(prefix[j] is None);
                    }
                },
                Some((bi, bd)) => {
                    lemma_winner_is_present(prefix);
                    assert(prefix[bi] == Some(bd));
                    let takeover = match dists.last() {
                        Some(e) => spec_lt(e, bd),
                        None => false,
                    };
                    if takeover {
                        // the last candidate takes over: everything present
                        // sits at or above the old winner, hence above it
                        let e = dists.last()->0;
                        assert(i == n && d == e);
                        assert forall|j: int|
                            0 <= j < dists.len() implies (#[trigger] dists[j] matches Some(ej)
                            ==> !spec_lt(ej, e)) by {
                            if j < n {
                                match prefix[j] {
                                    Some(ej) => {
                                        if spec_lt(ej, e) {
                                            lemma_lt_transitive(ej, e, bd);
                                        }
                                    },
                                    None => {},
                                }
                            } else {
                                lemma_lt_irreflexive(e);
                            }
                        }
                        assert forall|j: int|
                            0 <= j < i implies (#[trigger] dists[j] matches Some(ej) ==> spec_lt(
                            e,
                            ej,
                        )) by {
                            match prefix[j] {
                                Some(ej) => {
                                    if j < bi {
                                        lemma_lt_transitive(e, bd, ej);
                                    } else if j > bi {
                                        lemma_lt_connected(ej, bd, e);
                                    }
                                },
                                None => {},
                            }
                        }
                    } else {
                        // the prefix winner stands: the last distance, if
                        // any, does not undercut it
                        assert(i == bi && d == bd);
                        assert forall|j: int|
                            0 <= j < dists.len() implies (#[trigger] dists[j] matches Some(ej)
                            ==> !spec_lt(ej, d)) by {
                            if j < n {
                                assert(dists[j] == prefix[j]);
                            }
                        }
                        assert forall|j: int|
                            0 <= j < i implies (#[trigger] dists[j] matches Some(ej) ==> spec_lt(
                            d,
                            ej,
                        )) by {
                            assert(dists[j] == prefix[j]);
                        }
                    }
                },
            }
        },
    }
}

/// The threshold is strict: a winning distance exactly equal to the
/// threshold yields no match.
pub proof fn lemma_threshold_boundary(dists: Seq<Option<u64>>, threshold: u64)
    ensures
        (spec_winner(dists) matches Some((i, d)) && d == threshold) ==> spec_resolve(
            dists,
            threshold,
        ) is None,
{
    lemma_lt_irreflexive(threshold);
}

/// The resolution is a function of the distances and the threshold alone:
/// any two results the resolver's contract admits for one input are equal,
/// so repeated calls with identical inputs return identical picks.
pub proof fn lemma_resolver_deterministic(
    dists: Seq<Option<u64>>,
    threshold: u64,
    r1: Option<usize>,
    r2: Option<usize>,
)
    requires
        resolution_matches(dists, threshold, r1),
        resolution_matches(dists, threshold, r2),
    ensures
        r1 == r2,
{
}

} // verus!
