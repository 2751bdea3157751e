//! The arithmetic of Nim positions: the nim-sum of a row of heap counts and
//! the facts about it on which the winning strategy rests.

use vstd::prelude::*;

verus! {

/// Bitwise XOR of all counts, taken from the first heap to the last.
pub open spec fn nim_sum(counts: Seq<u32>) -> u32
    decreases counts.len(),
{
    if counts.len() == 0 {
        0
    } else {
        nim_sum(counts.drop_last()) ^ counts.last()
    }
}

/// Every heap of the position is empty.
pub open spec fn all_empty(counts: Seq<u32>) -> bool {
    forall|i: int| 0 <= i < counts.len() ==> counts[i] == 0
}

/// Number of stones in all heaps together.
pub open spec fn total(counts: Seq<u32>) -> nat
    decreases counts.len(),
{
    if counts.len() == 0 {
        0
    } else {
        total(counts.drop_last()) + counts.last() as nat
    }
}

/// Number of stones in the fullest heap, 0 where there is no heap.
pub open spec fn largest(counts: Seq<u32>) -> nat
    decreases counts.len(),
{
    if counts.len() == 0 {
        0
    } else if largest(counts.drop_last()) >= counts.last() {
        largest(counts.drop_last())
    } else {
        counts.last() as nat
    }
}

/// A heap of `count` stones is one the strategy may play on when the
/// position's nim-sum is `x`: with `x` nonzero, a heap that `x` shrinks;
/// with `x` zero no move wins, and any nonempty heap will do.
pub open spec fn is_candidate(count: u32, x: u32) -> bool {
    if x == 0 {
        count > 0
    } else {
        count > (count ^ x)
    }
}

/// Stones that the strategy takes from a candidate heap of `count` stones:
/// with `x` nonzero as many as leave `count ^ x`, else a single one.
pub open spec fn removal(count: u32, x: u32) -> int {
    if x == 0 {
        1
    } else {
        count - (count ^ x)
    }
}

/// Indices below `n` of the candidate heaps, in rising order.
pub open spec fn candidates(counts: Seq<u32>, x: u32, n: nat) -> Seq<usize>
    recommends
        n <= counts.len(),
    decreases n,
{
    if n == 0 {
        Seq::empty()
    } else {
        let before = candidates(counts, x, (n - 1) as nat);
        if is_candidate(counts[n - 1], x) {
            before.push((n - 1) as usize)
        } else {
            before
        }
    }
}

spec fn fill1(x: u32) -> u32 {
    x | (x >> 1)
}

spec fn fill2(x: u32) -> u32 {
    fill1(x) | (fill1(x) >> 2)
}

spec fn fill4(x: u32) -> u32 {
    fill2(x) | (fill2(x) >> 4)
}

spec fn fill8(x: u32) -> u32 {
    fill4(x) | (fill4(x) >> 8)
}

spec fn fill16(x: u32) -> u32 {
    fill8(x) | (fill8(x) >> 16)
}

/// The highest bit that is set in `x`, alone; 0 for 0.
spec fn top_bit(x: u32) -> u32 {
    fill16(x) ^ (fill16(x) >> 1)
}

proof fn lemma_top_bit_is_set(x: u32)
    by (bit_vector)
    requires
        x != 0,
    ensures
        x & top_bit(x) != 0,
{
}

proof fn lemma_top_bit_shrinks(c: u32, x: u32)
    by (bit_vector)
    requires
        x != 0,
        c & top_bit(x) != 0,
    ensures
        c ^ x < c,
{
}

proof fn lemma_xor_bit_source(a: u32, b: u32, m: u32)
    by (bit_vector)
    requires
        (a ^ b) & m != 0,
    ensures
        a & m != 0 || b & m != 0,
{
}

proof fn lemma_xor_facts(a: u32, b: u32, c: u32)
    by (bit_vector)
    ensures
        a ^ 0 == a,
        a ^ a == 0,
        (a ^ b) ^ c == (a ^ c) ^ b,
        (a ^ b) ^ b == a,
        0u32 & a == 0,
{
}

/// A bit of the nim-sum is a bit of some heap's count.
proof fn lemma_bit_has_source(counts: Seq<u32>, m: u32)
    requires
        nim_sum(counts) & m != 0,
    ensures
        exists|i: int| 0 <= i < counts.len() && #[trigger] counts[i] & m != 0,
    decreases counts.len(),
{
    if counts.len() == 0 {
        lemma_xor_facts(m, 0, 0);
    } else {
        let front = counts.drop_last();
        lemma_xor_bit_source(nim_sum(front), counts.last(), m);
        if nim_sum(front) & m != 0 {
            lemma_bit_has_source(front, m);
            let i = choose|i: int| 0 <= i < front.len() && #[trigger] front[i] & m != 0;
            assert(counts[i] & m != 0);
        } else {
            assert(counts[counts.len() - 1] & m != 0);
        }
    }
}

/// While the nim-sum is not zero, some heap is larger than its count XOR the
/// nim-sum: a move to a position of nim-sum zero exists.
pub proof fn lemma_winning_heap_exists(counts: Seq<u32>)
    requires
        nim_sum(counts) != 0,
    ensures
        exists|i: int| 0 <= i < counts.len() && is_candidate(#[trigger] counts[i], nim_sum(counts)),
{
    let x = nim_sum(counts);
    lemma_top_bit_is_set(x);
    lemma_bit_has_source(counts, top_bit(x));
    let i = choose|i: int| 0 <= i < counts.len() && #[trigger] counts[i] & top_bit(x) != 0;
    lemma_top_bit_shrinks(counts[i], x);
    assert(is_candidate(counts[i], x));
}

/// Replacing one count changes the nim-sum by the old count and the new.
pub proof fn lemma_nim_sum_update(counts: Seq<u32>, i: int, v: u32)
    requires
        0 <= i < counts.len(),
    ensures
        nim_sum(counts.update(i, v)) == (nim_sum(counts) ^ counts[i]) ^ v,
    decreases counts.len(),
{
    let after = counts.update(i, v);
    let front = counts.drop_last();
    if i == counts.len() - 1 {
        assert(after.drop_last() =~= front);
        lemma_xor_facts(nim_sum(front), counts[i], v);
    } else {
        lemma_nim_sum_update(front, i, v);
        assert(after.drop_last() =~= front.update(i, v));
        lemma_xor_facts(nim_sum(front) ^ counts[i], v, counts.last());
        lemma_xor_facts(nim_sum(front), counts[i], counts.last());
    }
}

/// Replacing one count changes the total by the difference of the new count
/// and the old.
pub proof fn lemma_total_update(counts: Seq<u32>, i: int, v: u32)
    requires
        0 <= i < counts.len(),
    ensures
        total(counts.update(i, v)) == total(counts) - counts[i] + v,
    decreases counts.len(),
{
    let after = counts.update(i, v);
    let front = counts.drop_last();
    if i == counts.len() - 1 {
        assert(after.drop_last() =~= front);
    } else {
        lemma_total_update(front, i, v);
        assert(after.drop_last() =~= front.update(i, v));
    }
}

/// A position without stones has nim-sum zero.
pub proof fn lemma_empty_position_nim_sum(counts: Seq<u32>)
    requires
        all_empty(counts),
    ensures
        nim_sum(counts) == 0,
    decreases counts.len(),
{
    if counts.len() > 0 {
        let front = counts.drop_last();
        assert(all_empty(front)) by {
            assert forall|i: int| 0 <= i < front.len() implies front[i] == 0 by {
                assert(front[i] == counts[i]);
            }
        }
        lemma_empty_position_nim_sum(front);
        assert(counts.last() == 0);
        lemma_xor_facts(0, 0, 0);
    }
}

/// All heaps are empty exactly when the stones of all heaps add up to zero.
pub proof fn lemma_all_empty_iff_total_zero(counts: Seq<u32>)
    ensures
        all_empty(counts) <==> total(counts) == 0,
    decreases counts.len(),
{
    if counts.len() > 0 {
        let front = counts.drop_last();
        lemma_all_empty_iff_total_zero(front);
        if all_empty(counts) {
            assert forall|i: int| 0 <= i < front.len() implies front[i] == 0 by {
                assert(front[i] == counts[i]);
            }
            assert(counts.last() == 0);
        }
        if total(counts) == 0 {
            assert forall|i: int| 0 <= i < counts.len() implies counts[i] == 0 by {
                if i < front.len() {
                    assert(front[i] == counts[i]);
                }
            }
        }
    }
}

/// All heaps are empty exactly when the fullest heap holds no stone.
pub proof fn lemma_all_empty_iff_largest_zero(counts: Seq<u32>)
    ensures
        all_empty(counts) <==> largest(counts) == 0,
    decreases counts.len(),
{
    if counts.len() > 0 {
        let front = counts.drop_last();
        lemma_all_empty_iff_largest_zero(front);
        if all_empty(counts) {
            assert forall|i: int| 0 <= i < front.len() implies front[i] == 0 by {
                assert(front[i] == counts[i]);
            }
            assert(counts.last() == 0);
        }
        if largest(counts) == 0 {
            assert forall|i: int| 0 <= i < counts.len() implies counts[i] == 0 by {
                if i < front.len() {
                    assert(front[i] == counts[i]);
                }
            }
        }
    }
}

/// What `candidates` lists: indices below `n`, each of a candidate heap, in
/// strictly rising order.
pub proof fn lemma_candidates_sound(counts: Seq<u32>, x: u32, n: nat)
    requires
        n <= counts.len(),
        counts.len() <= usize::MAX,
    ensures
        candidates(counts, x, n).len() <= n,
        forall|j: int|
            0 <= j < candidates(counts, x, n).len() ==> {
                let i = #[trigger] candidates(counts, x, n)[j];
                i < n && is_candidate(counts[i as int], x)
            },
        forall|j: int, k: int|
            0 <= j < k < candidates(counts, x, n).len() ==> candidates(counts, x, n)[j]
                < candidates(counts, x, n)[k],
    decreases n,
{
    if n > 0 {
        lemma_candidates_sound(counts, x, (n - 1) as nat);
    }
}

/// What `candidates` lists, the other way round: every candidate heap below
/// `n` is listed.
pub proof fn lemma_candidates_complete(counts: Seq<u32>, x: u32, n: nat, i: int)
    requires
        n <= counts.len(),
        counts.len() <= usize::MAX,
        0 <= i < n,
        is_candidate(counts[i], x),
    ensures
        candidates(counts, x, n).contains(i as usize),
    decreases n,
{
    let before = candidates(counts, x, (n - 1) as nat);
    if i == n - 1 {
        assert(before.push(i as usize)[before.len() as int] == i as usize);
    } else {
        lemma_candidates_complete(counts, x, (n - 1) as nat, i);
        let j = choose|j: int| 0 <= j < before.len() && before[j] == i as usize;
        assert(candidates(counts, x, n)[j] == i as usize);
    }
}

/// Some heap is a candidate exactly while some heap holds a stone, when `x`
/// is the position's nim-sum.
pub proof fn lemma_candidates_empty_iff_over(counts: Seq<u32>)
    requires
        counts.len() <= usize::MAX,
    ensures
        candidates(counts, nim_sum(counts), counts.len()).len() == 0 <==> all_empty(counts),
{
    let x = nim_sum(counts);
    let found = candidates(counts, x, counts.len());
    lemma_candidates_sound(counts, x, counts.len());
    if all_empty(counts) {
        lemma_empty_position_nim_sum(counts);
        if found.len() > 0 {
            let i = found[0];
            assert(is_candidate(counts[i as int], x));
        }
    } else {
        if x == 0 {
            let i = choose|i: int| 0 <= i < counts.len() && counts[i] != 0;
            lemma_candidates_complete(counts, x, counts.len(), i);
        } else {
            lemma_winning_heap_exists(counts);
            let i = choose|i: int|
                0 <= i < counts.len() && is_candidate(#[trigger] counts[i], nim_sum(counts));
            lemma_candidates_complete(counts, x, counts.len(), i);
        }
    }
}

} // verus!
