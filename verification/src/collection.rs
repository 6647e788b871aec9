//! A user's game collection: brief item records and the rating order.
//!
//! A collection query returns one record per owned game, carrying the
//! game's numeric identifier, its display name, and the user's rating if
//! one was given. Ratings are held in tenths of a point, so a rating of
//! 7.5 points is stored as 75. The ranking sorts records by rating,
//! highest first, with unrated records after every rated one; the order is
//! total, so no pair of records can fail to compare.

use vstd::prelude::*;

verus! {

/// One game record from a user's collection query, reduced to the fields
/// the ranking reads: identifier, display name, and the user's rating in
/// tenths of a point (`None` when the user has not rated the game).
pub struct BriefItem {
    pub id: u64,
    pub name: String,
    pub rating_tenths: Option<u64>,
}

/// The sort key of a record: rated games compare by their rating, and an
/// unrated game sits below every rated one.
pub open spec fn rating_key(item: BriefItem) -> int {
    match item.rating_tenths {
        Some(t) => t as int,
        None => -1,
    }
}

/// A sequence is ranked when ratings never increase from left to right.
pub open spec fn sorted_by_rating_desc(s: Seq<BriefItem>) -> bool {
    forall|i: int, j: int|
        0 <= i < j < s.len() ==> rating_key(s[i]) >= rating_key(s[j])
}

/// Compares two records by rating: true when `a` ranks at least as high
/// as `b`. Unrated records rank below every rated one, so the order is
/// total and the comparison never fails.
fn rating_at_least(a: &BriefItem, b: &BriefItem) -> (r: bool)
    ensures
        r == (rating_key(*a) >= rating_key(*b)),
{
    match (a.rating_tenths, b.rating_tenths) {
        (Some(ra), Some(rb)) => ra >= rb,
        (Some(_), None) => true,
        (None, Some(_)) => false,
        (None, None) => true,
    }
}

/// Sorts a collection by user rating, highest first, unrated last.
///
/// The result holds exactly the records given (as a multiset: nothing is
/// added, dropped, or altered) and is ranked. Records with equal ratings
/// may come out in either order.
pub fn get_games_by_user_rating_desc(user_collection: Vec<BriefItem>) -> (r: Vec<BriefItem>)
    ensures
        r@.to_multiset() == user_collection@.to_multiset(),
        r@.len() == user_collection@.len(),
        sorted_by_rating_desc(r@),
{
    broadcast use vstd::seq_lib::group_to_multiset_ensures;

    let mut rest = user_collection;
    let mut out: Vec<BriefItem> = Vec::new();
    let ghost all = rest@.to_multiset();
    proof {
        assert(out@.to_multiset().add(rest@.to_multiset()) =~= all);
    }
    while rest.len() > 0
        invariant
            out@.to_multiset().add(rest@.to_multiset()) == all,
            out@.len() + rest@.len() == all.len(),
            sorted_by_rating_desc(out@),
            forall|i: int, j: int|
                0 <= i < out@.len() && 0 <= j < rest@.len()
                    ==> rating_key(out@[i]) >= rating_key(rest@[j]),
        decreases rest@.len(),
    {
        let mut m: usize = 0;
        let mut k: usize = 1;
        while k < rest.len()
            invariant
                0 <= m < k <= rest@.len(),
                forall|j: int| 0 <= j < k ==> rating_key(rest@[m as int]) >= rating_key(rest@[j]),
            decreases rest@.len() - k,
        {
            if rating_at_least(&rest[k], &rest[m]) {
                m = k;
            }
            k += 1;
        }
        let ghost old_out = out@;
        let ghost old_rest = rest@;
        let x = rest.remove(m);
        out.push(x);
        proof {
            assert(out@.to_multiset().add(rest@.to_multiset()) =~= all) by {
                assert(out@ == old_out.push(x));
                assert(rest@ == old_rest.remove(m as int));
                vstd::seq_lib::to_multiset_build(old_out, x);
                vstd::seq_lib::to_multiset_remove(old_rest, m as int);
                vstd::seq_lib::to_multiset_contains(old_rest, x);
                assert(old_rest.contains(x));
                assert(old_rest.to_multiset().count(x) > 0);
            }
        }
    }
    out
}

/// In a ranked sequence every unrated record stands after every rated one:
/// once an unrated record appears, no later record carries a rating.
pub proof fn lemma_unrated_after_rated(s: Seq<BriefItem>, i: int, j: int)
    requires
        sorted_by_rating_desc(s),
        0 <= i < j < s.len(),
        s[i].rating_tenths is None,
    ensures
        s[j].rating_tenths is None,
{
    assert(rating_key(s[i]) >= rating_key(s[j]));
}

} // verus!
