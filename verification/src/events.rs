//! What each operation reports to observers.

use vstd::prelude::*;
use crate::pubkey::Pubkey;

verus! {

/// A raffle has been opened.
#[derive(Clone, Copy, Debug, PartialEq, Eq)]
pub struct RaffleInitialized {
    pub raffle: Pubkey,
    pub authority: Pubkey,
    pub target_amount: u64,
    pub ticket_price: u64,
}

/// Tickets have been bought. `total_cost` is what the buyer owes the pool.
#[derive(Clone, Copy, Debug, PartialEq, Eq)]
pub struct TicketsPurchased {
    pub raffle: Pubkey,
    pub buyer: Pubkey,
    pub numbers: [u8; 5],
    pub quantity: u8,
    pub total_cost: u64,
    pub ticket_hash: [u8; 32],
}

/// The winning numbers have been drawn.
#[derive(Clone, Copy, Debug, PartialEq, Eq)]
pub struct DrawConducted {
    pub raffle: Pubkey,
    pub winning_numbers: [u8; 5],
    pub total_tickets: u64,
}

/// A winner has been named.
#[derive(Clone, Copy, Debug, PartialEq, Eq)]
pub struct WinnerSet {
    pub raffle: Pubkey,
    pub winner: Pubkey,
    pub winning_numbers: [u8; 5],
}

} // verus!
