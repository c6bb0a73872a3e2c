//! Counting the elements of a sequence that satisfy a predicate, and the
//! facts about such counts that the rules of the game rest on.
use vstd::prelude::*;

verus! {

/// Number of indices `i` of `s` with `p(s[i])`.
pub open spec fn count_in<T>(s: Seq<T>, p: spec_fn(T) -> bool) -> nat
    decreases s.len(),
{
    if s.len() == 0 {
        0
    } else {
        count_in(s.drop_last(), p) + if p(s.last()) {
            1nat
        } else {
            0nat
        }
    }
}

/// A count never exceeds the length.
pub proof fn lemma_count_bound<T>(s: Seq<T>, p: spec_fn(T) -> bool)
    ensures
        count_in(s, p) <= s.len(),
    decreases s.len(),
{
    if s.len() > 0 {
        lemma_count_bound(s.drop_last(), p);
    }
}

/// Counting one element more: the count over the first `n + 1` elements is
/// the count over the first `n`, plus one if the element at `n` satisfies `p`.
pub proof fn lemma_count_step<T>(s: Seq<T>, p: spec_fn(T) -> bool, n: int)
    requires
        0 <= n < s.len(),
    ensures
        count_in(s.take(n + 1), p) == count_in(s.take(n), p) + if p(s[n]) {
            1nat
        } else {
            0nat
        },
{
    assert(s.take(n + 1).drop_last() =~= s.take(n));
}

/// The count over a prefix is at most the count over the whole.
pub proof fn lemma_count_prefix<T>(s: Seq<T>, p: spec_fn(T) -> bool, n: int)
    requires
        0 <= n <= s.len(),
    ensures
        count_in(s.take(n), p) <= count_in(s, p),
    decreases s.len() - n,
{
    if n == s.len() {
        assert(s.take(n) =~= s);
    } else {
        lemma_count_step(s, p, n);
        lemma_count_prefix(s, p, n + 1);
    }
}

/// The count is zero exactly when no element satisfies `p`.
pub proof fn lemma_count_zero<T>(s: Seq<T>, p: spec_fn(T) -> bool)
    ensures
        count_in(s, p) == 0 <==> (forall|i: int| 0 <= i < s.len() ==> !p(#[trigger] s[i])),
    decreases s.len(),
{
    if s.len() > 0 {
        let front = s.drop_last();
        lemma_count_zero(front, p);
        if count_in(s, p) == 0 {
            assert forall|i: int| 0 <= i < s.len() implies !p(#[trigger] s[i]) by {
                if i < s.len() - 1 {
                    assert(front[i] == s[i]);
                }
            }
        }
        if forall|i: int| 0 <= i < s.len() ==> !p(#[trigger] s[i]) {
            assert forall|i: int| 0 <= i < front.len() implies !p(#[trigger] front[i]) by {
                assert(front[i] == s[i]);
            }
            assert(!p(s[s.len() - 1]));
        }
    }
}

/// The count is the length exactly when every element satisfies `p`.
pub proof fn lemma_count_all<T>(s: Seq<T>, p: spec_fn(T) -> bool)
    ensures
        count_in(s, p) == s.len() <==> (forall|i: int| 0 <= i < s.len() ==> p(#[trigger] s[i])),
    decreases s.len(),
{
    if s.len() > 0 {
        let front = s.drop_last();
        lemma_count_all(front, p);
        lemma_count_bound(front, p);
        if count_in(s, p) == s.len() {
            assert forall|i: int| 0 <= i < s.len() implies p(#[trigger] s[i]) by {
                if i < s.len() - 1 {
                    assert(front[i] == s[i]);
                }
            }
        }
        if forall|i: int| 0 <= i < s.len() ==> p(#[trigger] s[i]) {
            assert forall|i: int| 0 <= i < front.len() implies p(#[trigger] front[i]) by {
                assert(front[i] == s[i]);
            }
            assert(p(s[s.len() - 1]));
        }
    }
}

/// Replacing one element changes the count by what the old and the new
/// element contribute.
pub proof fn lemma_count_update<T>(s: Seq<T>, p: spec_fn(T) -> bool, i: int, value: T)
    requires
        0 <= i < s.len(),
    ensures
        count_in(s.update(i, value), p) + (if p(s[i]) {
            1nat
        } else {
            0nat
        }) == count_in(s, p) + (if p(value) {
            1nat
        } else {
            0nat
        }),
    decreases s.len(),
{
    let changed = s.update(i, value);
    if i == s.len() - 1 {
        assert(changed.drop_last() =~= s.drop_last());
    } else {
        lemma_count_update(s.drop_last(), p, i, value);
        assert(changed.drop_last() =~= s.drop_last().update(i, value));
    }
}

/// Pigeonhole: the count is at least the size of any finite set of indices
/// whose elements all satisfy `p`.
pub proof fn lemma_count_witnesses<T>(s: Seq<T>, p: spec_fn(T) -> bool, witnesses: Set<int>)
    requires
        witnesses.finite(),
        forall|i: int| #[trigger] witnesses.contains(i) ==> 0 <= i < s.len() && p(s[i]),
    ensures
        count_in(s, p) >= witnesses.len(),
    decreases s.len(),
{
    if s.len() == 0 {
        assert(witnesses =~= Set::empty());
    } else {
        let last = s.len() - 1;
        let front = s.drop_last();
        let rest = witnesses.remove(last);
        assert forall|i: int| #[trigger] rest.contains(i) implies 0 <= i < front.len() && p(
            front[i],
        ) by {
            assert(witnesses.contains(i));
            assert(front[i] == s[i]);
        }
        lemma_count_witnesses(front, p, rest);
        if witnesses.contains(last) {
            assert(p(s[last]));
        }
    }
}

/// Two sequences that agree wherever `p` could tell them apart have the same
/// count.
pub proof fn lemma_count_agree<T>(s: Seq<T>, t: Seq<T>, p: spec_fn(T) -> bool)
    requires
        s.len() == t.len(),
        forall|i: int| 0 <= i < s.len() ==> p(#[trigger] s[i]) == p(#[trigger] t[i]),
    ensures
        count_in(s, p) == count_in(t, p),
    decreases s.len(),
{
    if s.len() > 0 {
        let sf = s.drop_last();
        let tf = t.drop_last();
        assert forall|i: int| 0 <= i < sf.len() implies p(#[trigger] sf[i]) == p(
            #[trigger] tf[i],
        ) by {
            assert(sf[i] == s[i]);
            assert(tf[i] == t[i]);
            assert(p(s[i]) == p(t[i]));
        }
        lemma_count_agree(sf, tf, p);
        assert(p(s[s.len() - 1]) == p(t[s.len() - 1]));
    }
}

/// Block `k` holds an element that satisfies `p`, where index `i` belongs to
/// block `block(i)`.
pub open spec fn block_holds<T>(
    s: Seq<T>,
    p: spec_fn(T) -> bool,
    block: spec_fn(int) -> int,
    k: int,
) -> bool {
    exists|i: int| 0 <= i < s.len() && #[trigger] block(i) == k && p(s[i])
}

/// One index per block: a set of `n` indices whose elements satisfy `p`, one
/// from each of the blocks 0 to `n - 1`.
proof fn lemma_block_witnesses<T>(
    s: Seq<T>,
    p: spec_fn(T) -> bool,
    block: spec_fn(int) -> int,
    n: nat,
) -> (witnesses: Set<int>)
    requires
        forall|k: int| 0 <= k < n ==> #[trigger] block_holds(s, p, block, k),
    ensures
        witnesses.finite(),
        witnesses.len() == n,
        forall|i: int|
            #[trigger] witnesses.contains(i) ==> 0 <= i < s.len() && p(s[i]) && 0 <= block(i) < n,
    decreases n,
{
    if n == 0 {
        Set::empty()
    } else {
        let fewer = lemma_block_witnesses(s, p, block, (n - 1) as nat);
        let k = n - 1;
        assert(block_holds(s, p, block, k));
        let i = choose|i: int| 0 <= i < s.len() && #[trigger] block(i) == k && p(s[i]);
        assert(!fewer.contains(i));
        fewer.insert(i)
    }
}

/// If the indices are sorted into blocks by `block`, and each of the blocks 0
/// to `n - 1` holds an element that satisfies `p`, the count is at least `n`.
pub proof fn lemma_count_blocks<T>(
    s: Seq<T>,
    p: spec_fn(T) -> bool,
    block: spec_fn(int) -> int,
    n: nat,
)
    requires
        forall|k: int| 0 <= k < n ==> #[trigger] block_holds(s, p, block, k),
    ensures
        count_in(s, p) >= n,
{
    let witnesses = lemma_block_witnesses(s, p, block, n);
    lemma_count_witnesses(s, p, witnesses);
}

} // verus!
