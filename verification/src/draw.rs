//! The draw: five winning numbers derived from a seed.

use vstd::prelude::*;
use vstd::relations::{sorted_by, total_ordering};
use vstd::seq_lib::{
    lemma_seq_union_to_multiset_commutative, lemma_sorted_unique, to_multiset_update,
};
use crate::error::LotteryError;
use crate::numbers::{ascending, valid_numbers};

verus! {

/// How many candidates the draw tries for one position before it gives up.
pub const MAX_DRAW_ATTEMPTS: u64 = 100;

/// The number proposed `offset` places after the seed: the seed and the
/// offset added up, reduced modulo 49 and moved into 1..=49.
pub open spec fn candidate(seed: u64, offset: int) -> int {
    (seed + offset) % 49 + 1
}

/// The five numbers proposed for the five positions of a draw, in the order
/// in which the draw proposes them.
pub open spec fn candidates(seed: u64) -> Seq<u8> {
    Seq::new(5, |k: int| candidate(seed, k) as u8)
}

/// The `k`-th smallest of the five candidates of `seed`. The candidates are
/// five neighbours on the circle 1..=49; those that have passed 49 start again
/// at 1 and so come first.
pub open spec fn winning_number(seed: u64, k: int) -> int {
    let first = seed % 49;
    let wrapped = if first > 44 { first - 44 } else { 0 };
    if k < wrapped {
        k + 1
    } else {
        first + 1 + k - wrapped
    }
}

/// The winning numbers that a draw from `seed` yields.
pub open spec fn winning_numbers(seed: u64) -> [u8; 5] {
    [
        winning_number(seed, 0) as u8,
        winning_number(seed, 1) as u8,
        winning_number(seed, 2) as u8,
        winning_number(seed, 3) as u8,
        winning_number(seed, 4) as u8,
    ]
}

/// Whether the numbers of `s` never fall from left to right.
pub open spec fn non_descending(s: Seq<u8>) -> bool {
    forall|i: int, j: int| 0 <= i < j < s.len() ==> #[trigger] s[i] <= #[trigger] s[j]
}

/// Exchanging two entries of a sequence keeps what it holds.
proof fn lemma_exchange_keeps_contents(s: Seq<u8>, i: int, j: int)
    requires
        0 <= i < s.len(),
        0 <= j < s.len(),
    ensures
        s.update(i, s[j]).update(j, s[i]).to_multiset() == s.to_multiset(),
{
    broadcast use vstd::multiset::group_multiset_axioms;

    let half = s.update(i, s[j]);
    to_multiset_update(s, i, s[j]);
    to_multiset_update(half, j, s[i]);
    s.to_multiset_ensures();
    assert(s.to_multiset().count(s[i]) > 0);
    assert(s.to_multiset().count(s[j]) > 0);
    assert(half.update(j, s[i]).to_multiset() =~= s.to_multiset());
}

/// Sorts five numbers into rising order. The result holds the same numbers,
/// each as often as before.
pub fn sort_five(numbers: [u8; 5]) -> (sorted: [u8; 5])
    ensures
        non_descending(sorted@),
        sorted@.to_multiset() == numbers@.to_multiset(),
{
    let mut a = numbers;
    let mut i: usize = 1;
    while i < 5
        invariant
            1 <= i <= 5,
            a@.to_multiset() == numbers@.to_multiset(),
            forall|x: int, y: int| 0 <= x < y < i ==> #[trigger] a@[x] <= #[trigger] a@[y],
        decreases 5 - i,
    {
        let mut j: usize = i;
        while j > 0 && a[j - 1] > a[j]
            invariant
                j <= i < 5,
                a@.to_multiset() == numbers@.to_multiset(),
                forall|x: int, y: int|
                    0 <= x < y <= i && y != j ==> #[trigger] a@[x] <= #[trigger] a@[y],
            decreases j,
        {
            let ghost before = a@;
            let low: u8 = a[j];
            let high: u8 = a[j - 1];
            a[j] = high;
            a[j - 1] = low;
            proof {
                lemma_exchange_keeps_contents(before, j as int, j - 1);
                assert(a@ =~= before.update(j as int, high).update(j - 1, low));
            }
            j -= 1;
        }
        i += 1;
    }
    a
}

/// The winning numbers of `seed` are its five candidates, each once, in
/// rising order; they are distinct and lie in 1..=49.
pub proof fn winning_numbers_are_sorted_candidates(seed: u64)
    ensures
        winning_numbers(seed)@.to_multiset() == candidates(seed).to_multiset(),
        ascending(winning_numbers(seed)@),
        valid_numbers(winning_numbers(seed)@),
{
    let first = seed % 49;
    let wrapped = if first > 44 { first - 44 } else { 0 };
    let all = candidates(seed);
    let winning = winning_numbers(seed)@;
    let head = all.subrange(0, 5 - wrapped);
    let tail = all.subrange(5 - wrapped, 5);
    assert(all =~= head + tail);
    assert(winning =~= tail + head);
    lemma_seq_union_to_multiset_commutative(head, tail);
}

/// Five numbers that never fall from left to right and are the candidates of
/// `seed`, each once, are the winning numbers of `seed`.
proof fn lemma_sorted_candidates_are_winning(seed: u64, sorted: Seq<u8>)
    requires
        non_descending(sorted),
        sorted.to_multiset() == candidates(seed).to_multiset(),
    ensures
        sorted == winning_numbers(seed)@,
{
    let winning = winning_numbers(seed)@;
    winning_numbers_are_sorted_candidates(seed);
    let leq = |a: u8, b: u8| a <= b;
    assert(total_ordering(leq));
    assert(sorted_by(sorted, leq));
    assert(sorted_by(winning, leq));
    lemma_sorted_unique(sorted, winning, leq);
}

/// Draws the winning numbers from `seed`. Position `i` takes the first of
/// the candidates `i`, `i + 1`, ... places after the seed that no earlier
/// position has taken; the five numbers are then put in rising order. No
/// position ever needs a second attempt, so the draw cannot fail.
pub fn draw_numbers(seed: u64) -> (r: Result<[u8; 5], LotteryError>)
    ensures
        r == Ok::<[u8; 5], LotteryError>(winning_numbers(seed)),
{
    let base: u64 = seed % 49;
    let mut picked: [u8; 5] = [0u8; 5];
    let mut used: [bool; 50] = [false; 50];
    let mut i: usize = 0;
    while i < 5
        invariant
            i <= 5,
            base == seed % 49,
            forall|k: int| 0 <= k < i ==> #[trigger] picked@[k] == candidate(seed, k),
            forall|n: int|
                0 <= n < 50 ==> (#[trigger] used@[n] <==> exists|k: int|
                    0 <= k < i && candidate(seed, k) == n),
        decreases 5 - i,
    {
        let mut attempts: u64 = 0;
        loop
            invariant_except_break
                attempts == 0,
                forall|n: int|
                    0 <= n < 50 ==> (#[trigger] used@[n] <==> exists|k: int|
                        0 <= k < i && candidate(seed, k) == n),
            invariant
                i < 5,
                base == seed % 49,
                forall|k: int| 0 <= k < i ==> #[trigger] picked@[k] == candidate(seed, k),
            ensures
                picked@[i as int] == candidate(seed, i as int),
                forall|n: int|
                    0 <= n < 50 ==> (#[trigger] used@[n] <==> exists|k: int|
                        0 <= k < i + 1 && candidate(seed, k) == n),
            decreases MAX_DRAW_ATTEMPTS - attempts,
        {
            let number: u8 = ((base + i as u64 + attempts) % 49 + 1) as u8;
            assert(number == candidate(seed, i as int));
            if !used[number as usize] {
                picked[i] = number;
                used[number as usize] = true;
                break;
            }
            assert(false) by {
                let k = choose|k: int| 0 <= k < i && candidate(seed, k) == number;
                assert(candidate(seed, k) != candidate(seed, i as int));
            }
            attempts += 1;
            if attempts >= MAX_DRAW_ATTEMPTS {
                return Err(LotteryError::RandomGenerationFailed);
            }
        }
        i += 1;
    }
    let sorted = sort_five(picked);
    proof {
        assert(picked@ =~= candidates(seed));
        lemma_sorted_candidates_are_winning(seed, sorted@);
        assert(sorted =~= winning_numbers(seed));
    }
    Ok(sorted)
}

} // verus!
