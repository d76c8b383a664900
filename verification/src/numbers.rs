//! The numbers on a ticket: five distinct values from 1 to 49.

use vstd::prelude::*;
use crate::error::LotteryError;

verus! {

/// The smallest number a ticket may hold.
pub const MIN_NUMBER: u8 = 1;

/// The largest number a ticket may hold.
pub const MAX_NUMBER: u8 = 49;

/// Whether `n` lies in 1..=49.
pub open spec fn in_range(n: u8) -> bool {
    MIN_NUMBER <= n <= MAX_NUMBER
}

/// Whether every number of `s` lies in 1..=49.
pub open spec fn all_in_range(s: Seq<u8>) -> bool {
    forall|i: int| 0 <= i < s.len() ==> in_range(#[trigger] s[i])
}

/// Whether no number occurs twice in `s`.
pub open spec fn all_distinct(s: Seq<u8>) -> bool {
    forall|i: int, j: int| 0 <= i < j < s.len() ==> #[trigger] s[i] != #[trigger] s[j]
}

/// Whether `s` is a set of ticket numbers: five pairwise distinct values, each
/// in 1..=49.
pub open spec fn valid_numbers(s: Seq<u8>) -> bool {
    &&& s.len() == 5
    &&& all_in_range(s)
    &&& all_distinct(s)
}

/// Whether the numbers of `s` rise strictly from left to right.
pub open spec fn ascending(s: Seq<u8>) -> bool {
    forall|i: int, j: int| 0 <= i < j < s.len() ==> #[trigger] s[i] < #[trigger] s[j]
}

/// What is wrong with `s` as ticket numbers, if anything. The ranges are
/// judged first: duplicates are named only among numbers that are all in
/// range.
pub open spec fn numbers_fault(s: Seq<u8>) -> Option<LotteryError> {
    if !all_in_range(s) {
        Some(LotteryError::InvalidNumber)
    } else if !all_distinct(s) {
        Some(LotteryError::DuplicateNumbers)
    } else {
        None
    }
}

/// Checks the five numbers of a ticket.
pub fn validate_numbers(numbers: &[u8; 5]) -> (r: Result<(), LotteryError>)
    ensures
        match r {
            Ok(_) => numbers_fault(numbers@) is None,
            Err(e) => numbers_fault(numbers@) == Some(e),
        },
        r is Ok <==> valid_numbers(numbers@),
{
    let mut i: usize = 0;
    while i < 5
        invariant
            i <= 5,
            forall|k: int| 0 <= k < i ==> in_range(#[trigger] numbers@[k]),
        decreases 5 - i,
    {
        if numbers[i] < MIN_NUMBER || numbers[i] > MAX_NUMBER {
            assert(!in_range(numbers@[i as int]));
            return Err(LotteryError::InvalidNumber);
        }
        i += 1;
    }
    let mut i: usize = 0;
    while i < 5
        invariant
            i <= 5,
            all_in_range(numbers@),
            forall|a: int, b: int| 0 <= a < i && a < b < 5 ==> #[trigger] numbers@[a] != #[trigger] numbers@[b],
        decreases 5 - i,
    {
        let mut j: usize = i + 1;
        while j < 5
            invariant
                i < 5,
                i < j <= 5,
                all_in_range(numbers@),
                forall|a: int, b: int| 0 <= a < i && a < b < 5 ==> #[trigger] numbers@[a] != #[trigger] numbers@[b],
                forall|b: int| i < b < j ==> numbers@[i as int] != #[trigger] numbers@[b],
            decreases 5 - j,
        {
            if numbers[i] == numbers[j] {
                assert(numbers@[i as int] == numbers@[j as int]);
                return Err(LotteryError::DuplicateNumbers);
            }
            j += 1;
        }
        i += 1;
    }
    Ok(())
}

} // verus!
