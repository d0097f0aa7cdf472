//! Stroke-level eraser selection: whole strokes are marked for removal, in
//! paint order, each at most once.
//!
//! Whether the eraser disk geometrically touches a stroke (the inflated
//! bounding-box test and the per-segment sample distance test) is a
//! floating-point question answered by the numeric kernel outside the
//! library, which hands in one verdict per candidate stroke; the library
//! verifies the selection itself: eraser strokes are never erased, order is
//! kept, and identities are deduplicated across the eraser's samples.

use vstd::prelude::*;

use crate::stroke::{Stroke, StrokeView};

verus! {

/// The identities of the hit, non-eraser strokes, in paint order.
pub open spec fn erase_candidates(strokes: Seq<StrokeView>, hit: Seq<bool>) -> Seq<u128>
    decreases strokes.len(),
{
    if strokes.len() == 0 {
        Seq::empty()
    } else {
        let rest = erase_candidates(strokes.drop_last(), hit.drop_last());
        if !strokes.last().is_eraser && hit[strokes.len() - 1] {
            rest.push(strokes.last().id)
        } else {
            rest
        }
    }
}

/// An eraser sample that touches no candidate stroke erases nothing.
pub proof fn lemma_no_hit_no_erase(strokes: Seq<StrokeView>, hit: Seq<bool>)
    requires
        hit.len() == strokes.len(),
        forall|i: int| 0 <= i < hit.len() ==> !hit[i],
    ensures
        erase_candidates(strokes, hit) === Seq::<u128>::empty(),
    decreases strokes.len(),
{
    if strokes.len() > 0 {
        lemma_no_hit_no_erase(strokes.drop_last(), hit.drop_last());
    }
}

/// Select the strokes one eraser sample removes: those whose geometric
/// verdict in `hit` is positive, skipping strokes that are themselves eraser
/// strokes, in paint order.
pub fn find_strokes_to_erase(strokes: &Vec<Stroke>, hit: &Vec<bool>) -> (ids: Vec<u128>)
    requires
        hit@.len() == strokes@.len(),
    ensures
        ids@ == erase_candidates(strokes.deep_view(), hit@),
{
    let mut ids: Vec<u128> = Vec::new();
    let n: usize = strokes.len();
    let mut i: usize = 0;
    while i < n
        invariant
            i <= n,
            n == strokes.len() == hit.len(),
            ids@ == erase_candidates(strokes.deep_view().take(i as int), hit@.take(i as int)),
        decreases n - i,
    {
        proof {
            assert(strokes.deep_view().take(i + 1).drop_last() =~= strokes.deep_view().take(
                i as int,
            ));
            assert(hit@.take(i + 1).drop_last() =~= hit@.take(i as int));
        }
        if !strokes[i].is_eraser && hit[i] {
            ids.push(strokes[i].id);
            proof {
                assert(ids@ =~= erase_candidates(
                    strokes.deep_view().take(i + 1),
                    hit@.take(i + 1),
                ));
            }
        } else {
            proof {
                assert(ids@ =~= erase_candidates(
                    strokes.deep_view().take(i + 1),
                    hit@.take(i + 1),
                ));
            }
        }
        i += 1;
    }
    proof {
        assert(strokes.deep_view().take(n as int) =~= strokes.deep_view());
        assert(hit@.take(n as int) =~= hit@);
    }
    ids
}

/// `ids` appended to `acc`, keeping only first occurrences.
pub open spec fn dedup_append(acc: Seq<u128>, ids: Seq<u128>) -> Seq<u128>
    decreases ids.len(),
{
    if ids.len() == 0 {
        acc
    } else {
        let rest = dedup_append(acc, ids.drop_last());
        if rest.contains(ids.last()) {
            rest
        } else {
            rest.push(ids.last())
        }
    }
}

fn ids_contain(v: &Vec<u128>, x: u128) -> (b: bool)
    ensures
        b == v@.contains(x),
{
    let n: usize = v.len();
    let mut i: usize = 0;
    while i < n
        invariant
            i <= n,
            n == v.len(),
            forall|j: int| 0 <= j < i ==> v@[j] != x,
        decreases n - i,
    {
        if v[i] == x {
            return true;
        }
        i += 1;
    }
    false
}

/// Merge one sample's erase identities into the running list, keeping the
/// order of first hits and dropping identities already collected.
pub fn merge_erase_ids(acc: &mut Vec<u128>, ids: &Vec<u128>)
    ensures
        final(acc)@ == dedup_append(old(acc)@, ids@),
{
    let n: usize = ids.len();
    let mut i: usize = 0;
    while i < n
        invariant
            i <= n,
            n == ids.len(),
            acc@ == dedup_append(old(acc)@, ids@.take(i as int)),
        decreases n - i,
    {
        proof {
            assert(ids@.take(i + 1).drop_last() =~= ids@.take(i as int));
        }
        if !ids_contain(acc, ids[i]) {
            acc.push(ids[i]);
        }
        i += 1;
    }
    proof {
        assert(ids@.take(n as int) =~= ids@);
    }
}

} // verus!
