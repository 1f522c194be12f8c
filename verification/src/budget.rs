use vstd::prelude::*;

verus! {

/// Sum of a sequence of sizes.
pub open spec fn total(sizes: Seq<nat>) -> nat
    decreases sizes.len(),
{
    if sizes.len() == 0 {
        0
    } else {
        total(sizes.drop_last()) + sizes.last()
    }
}

/// How many leading items fit in a budget: the largest `k` for which the first
/// `k` sizes sum to at most `budget`.
pub open spec fn fit_count(sizes: Seq<nat>, budget: nat) -> nat
    decreases sizes.len(),
{
    if sizes.len() == 0 || sizes[0] > budget {
        0
    } else {
        1 + fit_count(sizes.drop_first(), (budget - sizes[0]) as nat)
    }
}

/// The sum is the first size plus the sum of the rest.
pub proof fn lemma_total_front(sizes: Seq<nat>)
    requires
        sizes.len() > 0,
    ensures
        total(sizes) == sizes[0] + total(sizes.drop_first()),
    decreases sizes.len(),
{
    if sizes.len() == 1 {
        assert(sizes.drop_last() =~= Seq::<nat>::empty());
        assert(sizes.drop_first() =~= Seq::<nat>::empty());
    } else {
        lemma_total_front(sizes.drop_last());
        assert(sizes.drop_last().drop_first() =~= sizes.drop_first().drop_last());
    }
}

/// A prefix sums to no more than the whole.
pub proof fn lemma_total_prefix(sizes: Seq<nat>, k: int)
    requires
        0 <= k <= sizes.len(),
    ensures
        total(sizes.take(k)) <= total(sizes),
    decreases sizes.len() - k,
{
    if k == sizes.len() {
        assert(sizes.take(k) =~= sizes);
    } else {
        lemma_total_prefix(sizes, k + 1);
        assert(sizes.take(k + 1).drop_last() =~= sizes.take(k));
    }
}

/// What `fit_count` returns fits, and one item more does not.
pub proof fn lemma_fit_count(sizes: Seq<nat>, budget: nat)
    ensures
        fit_count(sizes, budget) <= sizes.len(),
        total(sizes.take(fit_count(sizes, budget) as int)) <= budget,
        fit_count(sizes, budget) < sizes.len() ==> total(
            sizes.take(fit_count(sizes, budget) as int + 1),
        ) > budget,
    decreases sizes.len(),
{
    if sizes.len() == 0 || sizes[0] > budget {
        assert(sizes.take(0) =~= Seq::<nat>::empty());
        if sizes.len() > 0 {
            assert(sizes.take(1).drop_last() =~= Seq::<nat>::empty());
        }
    } else {
        let rest = sizes.drop_first();
        let left = (budget - sizes[0]) as nat;
        lemma_fit_count(rest, left);
        let k = fit_count(rest, left) as int;
        lemma_total_front(sizes.take(k + 1));
        assert(sizes.take(k + 1).drop_first() =~= rest.take(k));
        if k < rest.len() {
            lemma_total_front(sizes.take(k + 2));
            assert(sizes.take(k + 2).drop_first() =~= rest.take(k + 1));
        }
    }
}

/// Everything fits exactly when the whole sum is within the budget.
pub proof fn lemma_fit_all(sizes: Seq<nat>, budget: nat)
    ensures
        fit_count(sizes, budget) == sizes.len() <==> total(sizes) <= budget,
{
    lemma_fit_count(sizes, budget);
    let k = fit_count(sizes, budget) as int;
    if k == sizes.len() {
        assert(sizes.take(k) =~= sizes);
    } else {
        lemma_total_prefix(sizes, k + 1);
    }
}

/// A count is the fit count once its items fit and one more would not.
pub proof fn lemma_fit_count_unique(sizes: Seq<nat>, budget: nat, k: int)
    requires
        0 <= k <= sizes.len(),
        total(sizes.take(k)) <= budget,
        k < sizes.len() ==> total(sizes.take(k + 1)) > budget,
    ensures
        fit_count(sizes, budget) == k,
{
    lemma_fit_count(sizes, budget);
    let f = fit_count(sizes, budget) as int;
    if f < k {
        lemma_total_prefix(sizes.take(k), f + 1);
        assert(sizes.take(k).take(f + 1) =~= sizes.take(f + 1));
    } else if f > k {
        lemma_total_prefix(sizes.take(f), k + 1);
        assert(sizes.take(f).take(k + 1) =~= sizes.take(k + 1));
    }
}

} // verus!
