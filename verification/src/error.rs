//! Why an operation on a raffle is refused.

use vstd::prelude::*;

verus! {

/// The reasons for which an operation is refused. A refused operation leaves
/// every record as it was.
#[derive(Clone, Copy, Debug, PartialEq, Eq, Structural)]
pub enum LotteryError {
    /// A purchase was tried on a raffle that is not open for sale.
    RaffleNotActive,
    /// A purchase was tried although the pool has reached its target.
    PoolComplete,
    /// The buyer's balance does not cover the price of the tickets.
    InsufficientFunds,
    /// One of the chosen numbers lies outside 1 to 49.
    InvalidNumber,
    /// Two of the chosen numbers are equal.
    DuplicateNumbers,
    /// The caller is not the raffle's authority.
    Unauthorized,
    /// A draw was tried before the pool reached its target.
    PoolNotComplete,
    /// A draw was tried on a raffle that has been drawn.
    DrawAlreadyComplete,
    /// A winner was named before the draw.
    DrawNotComplete,
    /// The draw found no unused number within its attempts.
    RandomGenerationFailed,
}

} // verus!
