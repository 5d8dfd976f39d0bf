use vstd::prelude::*;

verus! {

/// Sum of a sequence of counts.
pub open spec fn total(s: Seq<i64>) -> int
    decreases s.len(),
{
    if s.len() == 0 {
        0
    } else {
        total(s.drop_last()) + s.last()
    }
}

/// Every count is at least zero.
pub open spec fn counts(s: Seq<i64>) -> bool {
    forall|i: int| 0 <= i < s.len() ==> 0 <= #[trigger] s[i]
}

/// Never decreasing, between zero and `top`.
pub open spec fn rising_to(s: Seq<i64>, top: i64) -> bool {
    &&& forall|i: int, j: int| 0 <= i <= j < s.len() ==> s[i] <= s[j]
    &&& forall|i: int| 0 <= i < s.len() ==> 0 <= #[trigger] s[i] <= top
}

pub proof fn lemma_total_push(s: Seq<i64>, x: i64)
    ensures
        total(s.push(x)) == total(s) + x,
{
    assert(s.push(x).drop_last() =~= s);
}

pub proof fn lemma_total_nonneg(s: Seq<i64>)
    requires
        counts(s),
    ensures
        total(s) >= 0,
    decreases s.len(),
{
    if s.len() > 0 {
        lemma_total_nonneg(s.drop_last());
    }
}

pub proof fn lemma_total_update(s: Seq<i64>, i: int, x: i64)
    requires
        0 <= i < s.len(),
    ensures
        total(s.update(i, x)) == total(s) - s[i] + x,
    decreases s.len(),
{
    if i < s.len() - 1 {
        assert(s.update(i, x).drop_last() =~= s.drop_last().update(i, x));
        lemma_total_update(s.drop_last(), i, x);
    } else {
        assert(s.update(i, x).drop_last() =~= s.drop_last());
    }
}

pub proof fn lemma_total_insert_zero(s: Seq<i64>, i: int)
    requires
        0 <= i <= s.len(),
    ensures
        total(s.insert(i, 0)) == total(s),
    decreases s.len(),
{
    if i == s.len() {
        assert(s.insert(i, 0) =~= s.push(0));
        lemma_total_push(s, 0);
    } else {
        assert(s.insert(i, 0).drop_last() =~= s.drop_last().insert(i, 0));
        lemma_total_insert_zero(s.drop_last(), i);
    }
}

pub proof fn lemma_total_split(s: Seq<i64>, k: int)
    requires
        0 <= k <= s.len(),
    ensures
        total(s) == total(s.subrange(0, k)) + total(s.subrange(k, s.len() as int)),
    decreases s.len(),
{
    if k == s.len() {
        assert(s.subrange(0, k) =~= s);
        assert(s.subrange(k, s.len() as int) =~= Seq::<i64>::empty());
    } else {
        lemma_total_split(s.drop_last(), k);
        assert(s.drop_last().subrange(0, k) =~= s.subrange(0, k));
        assert(s.subrange(k, s.len() as int).drop_last() =~= s.drop_last().subrange(
            k,
            s.len() - 1,
        ));
    }
}

pub proof fn lemma_total_prefix(s: Seq<i64>, k: int)
    requires
        0 <= k <= s.len(),
        counts(s),
    ensures
        total(s.subrange(0, k)) <= total(s),
{
    lemma_total_split(s, k);
    assert(counts(s.subrange(k, s.len() as int)));
    lemma_total_nonneg(s.subrange(k, s.len() as int));
}

/// The comparison record after a finished or abandoned run: at each
/// boundary the smaller of the old record and the run's count, and the
/// run's count where the record had no entry.
pub open spec fn folded(comparison: Seq<i64>, cumulative: Seq<i64>) -> Seq<i64> {
    Seq::new(
        if comparison.len() >= cumulative.len() {
            comparison.len()
        } else {
            cumulative.len()
        },
        |i: int|
            if i < cumulative.len() {
                if i < comparison.len() && comparison[i] < cumulative[i] {
                    comparison[i]
                } else {
                    cumulative[i]
                }
            } else {
                comparison[i]
            },
    )
}

/// Folds the hits of a run into the comparison record.
pub fn update_comparison_hits(comparison_hits: &mut Vec<i64>, cumulative_hits: &[i64])
    ensures
        final(comparison_hits)@ == folded(old(comparison_hits)@, cumulative_hits@),
{
    let ghost c0 = comparison_hits@;
    let mut i: usize = 0;
    while i < cumulative_hits.len()
        invariant
            i <= cumulative_hits@.len(),
            comparison_hits@.len() == if c0.len() >= i {
                c0.len()
            } else {
                i as nat
            },
            forall|j: int|
                0 <= j < comparison_hits@.len() ==> #[trigger] comparison_hits@[j] == if j < i {
                    if j < c0.len() && c0[j] < cumulative_hits@[j] {
                        c0[j]
                    } else {
                        cumulative_hits@[j]
                    }
                } else {
                    c0[j]
                },
        decreases cumulative_hits@.len() - i,
    {
        if i < comparison_hits.len() {
            let c = comparison_hits[i];
            let h = cumulative_hits[i];
            if h < c {
                comparison_hits.set(i, h);
            }
        } else {
            comparison_hits.push(cumulative_hits[i]);
        }
        i = i + 1;
    }
    assert(comparison_hits@ =~= folded(c0, cumulative_hits@));
}

} // verus!
