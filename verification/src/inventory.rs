//! Local inventory filter: given the full identifier list and, for each
//! identifier, whether a completed local file already exists, compute the
//! subsequence of identifiers still missing, in first-seen order.
//!
//! The existence checks themselves are filesystem work done by the caller; a
//! check that fails for any reason other than "not found" must abort the
//! crawl rather than be fed in as "missing" or "present".
use vstd::prelude::*;

use crate::pagination::lemma_string_views_push;
use crate::pagination::string_views;

verus! {

/// The subsequence of `ids` whose entry in `present` is false, in order.
pub open spec fn missing_of(ids: Seq<Seq<char>>, present: Seq<bool>) -> Seq<Seq<char>>
    recommends
        ids.len() == present.len(),
    decreases ids.len(),
{
    if ids.len() == 0 {
        Seq::empty()
    } else {
        let rest = missing_of(ids.drop_last(), present.drop_last());
        if present[ids.len() - 1] {
            rest
        } else {
            rest.push(ids.last())
        }
    }
}

/// Compute the missing subset: `all[i]` is kept exactly when `present[i]` is
/// false, and the input order is preserved.
pub fn missing_ids(all: &Vec<String>, present: &Vec<bool>) -> (r: Vec<String>)
    requires
        all@.len() == present@.len(),
    ensures
        string_views(r@) == missing_of(string_views(all@), present@),
{
    let mut r: Vec<String> = Vec::new();
    let n = all.len();
    let mut i: usize = 0;
    proof {
        assert(string_views(r@) =~= missing_of(
            string_views(all@).take(0),
            present@.take(0),
        ));
    }
    while i < n
        invariant
            i <= n,
            n == all@.len(),
            present@.len() == n,
            string_views(r@) =~= missing_of(string_views(all@).take(i as int), present@.take(i as int)),
        decreases n - i,
    {
        proof {
            assert(string_views(all@).take(i as int + 1).drop_last() =~= string_views(all@).take(
                i as int,
            ));
            assert(present@.take(i as int + 1).drop_last() =~= present@.take(i as int));
            assert(string_views(all@).take(i as int + 1).last() == all@[i as int]@);
        }
        if !present[i] {
            let ghost pre = r@;
            let k = all[i].clone();
            r.push(k);
            proof {
                lemma_string_views_push(pre, k);
            }
        }
        i = i + 1;
    }
    proof {
        assert(string_views(all@).take(n as int) =~= string_views(all@));
        assert(present@.take(n as int) =~= present@);
    }
    r
}

/// Coverage: an identifier with no local file is always part of the missing
/// subset — the filter never silently drops pending work.
pub proof fn lemma_missing_covers(ids: Seq<Seq<char>>, present: Seq<bool>, i: int)
    requires
        ids.len() == present.len(),
        0 <= i < ids.len(),
        !present[i],
    ensures
        missing_of(ids, present).contains(ids[i]),
    decreases ids.len(),
{
    let m = missing_of(ids, present);
    if i == ids.len() - 1 {
        let rest = missing_of(ids.drop_last(), present.drop_last());
        assert(m == rest.push(ids.last()));
        assert(m[rest.len() as int] == ids[i]);
    } else {
        lemma_missing_covers(ids.drop_last(), present.drop_last(), i);
        let rest = missing_of(ids.drop_last(), present.drop_last());
        let j = choose|j: int| 0 <= j < rest.len() && rest[j] == ids.drop_last()[i];
        assert(ids.drop_last()[i] == ids[i]);
        assert(m[j] == ids[i]);
    }
}

/// Idempotence: when every identifier already has a completed local file,
/// the missing subset is empty, so a re-run downloads nothing.
pub proof fn lemma_idempotent_rerun(ids: Seq<Seq<char>>, present: Seq<bool>)
    requires
        ids.len() == present.len(),
        forall|i: int| 0 <= i < present.len() ==> present[i],
    ensures
        missing_of(ids, present) == Seq::<Seq<char>>::empty(),
    decreases ids.len(),
{
    if ids.len() > 0 {
        lemma_idempotent_rerun(ids.drop_last(), present.drop_last());
    } else {
        assert(missing_of(ids, present) =~= Seq::<Seq<char>>::empty());
    }
}

/// How many times `x` occurs in `s`.
pub open spec fn occurrences(s: Seq<Seq<char>>, x: Seq<char>) -> nat
    decreases s.len(),
{
    if s.len() == 0 {
        0
    } else {
        occurrences(s.drop_last(), x) + (if s.last() == x {
            1nat
        } else {
            0nat
        })
    }
}

/// The missing subset repeats no identifier beyond the repetitions the input
/// list itself carries: the filter introduces no duplicates of its own.
pub proof fn lemma_missing_no_new_duplicates(ids: Seq<Seq<char>>, present: Seq<bool>, x: Seq<char>)
    requires
        ids.len() == present.len(),
    ensures
        occurrences(missing_of(ids, present), x) <= occurrences(ids, x),
    decreases ids.len(),
{
    if ids.len() > 0 {
        lemma_missing_no_new_duplicates(ids.drop_last(), present.drop_last(), x);
        if !present[ids.len() - 1] {
            let rest = missing_of(ids.drop_last(), present.drop_last());
            assert(rest.push(ids.last()).drop_last() =~= rest);
            assert(rest.push(ids.last()).last() == ids.last());
        }
    }
}

/// The missing subset holds only identifiers of the input list.
pub proof fn lemma_missing_is_subset(ids: Seq<Seq<char>>, present: Seq<bool>)
    requires
        ids.len() == present.len(),
    ensures
        forall|j: int|
            0 <= j < missing_of(ids, present).len() ==> ids.contains(
                #[trigger] missing_of(ids, present)[j],
            ),
    decreases ids.len(),
{
    let m = missing_of(ids, present);
    if ids.len() > 0 {
        lemma_missing_is_subset(ids.drop_last(), present.drop_last());
        let rest = missing_of(ids.drop_last(), present.drop_last());
        assert forall|j: int| 0 <= j < m.len() implies ids.contains(#[trigger] m[j]) by {
            if j < rest.len() {
                let w = choose|w: int|
                    0 <= w < ids.drop_last().len() && ids.drop_last()[w] == rest[j];
                assert(ids[w] == m[j]);
            } else {
                assert(m[j] == ids.last());
                assert(ids[ids.len() - 1] == m[j]);
            }
        }
    }
}

} // verus!
