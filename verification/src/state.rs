//! The records of a raffle and of a ticket purchase, and what each
//! operation makes of a raffle.

use vstd::prelude::*;
use crate::draw::winning_numbers;
use crate::error::LotteryError;
use crate::numbers::{ascending, numbers_fault, valid_numbers};
use crate::pubkey::Pubkey;
use crate::status::{Milestone, RaffleStatus};

verus! {

/// One raffle: its terms, its running totals and the outcome of its draw.
#[derive(Clone, Copy, Debug, PartialEq, Eq)]
pub struct Raffle {
    /// Who may draw and name the winner.
    pub authority: Pubkey,
    /// The amount at which the pool is full.
    pub target_amount: u64,
    /// The price of one ticket.
    pub ticket_price: u64,
    /// How many tickets have been sold.
    pub total_tickets_sold: u64,
    /// How much has been paid into the pool.
    pub total_collected: u64,
    /// The stage the raffle is in.
    pub status: RaffleStatus,
    /// When the raffle was opened.
    pub created_at: i64,
    /// The numbers drawn, all zero until the draw.
    pub winning_numbers: [u8; 5],
    /// The declared winner, empty until one is named.
    pub winner: Pubkey,
    /// Whether the draw has taken place.
    pub is_draw_complete: bool,
}

/// One purchase: the numbers a buyer chose and how many tickets they stand for.
#[derive(Clone, Copy, Debug, PartialEq, Eq)]
pub struct TicketEntry {
    /// The raffle the tickets belong to.
    pub raffle: Pubkey,
    /// Who bought them.
    pub buyer: Pubkey,
    /// The five numbers chosen.
    pub numbers: [u8; 5],
    /// How many tickets the purchase stands for.
    pub quantity: u8,
    /// When the purchase was made.
    pub timestamp: i64,
    /// The fingerprint of the numbers, the buyer and the time of purchase.
    pub ticket_hash: [u8; 32],
}

impl Default for Raffle {
    /// A blank record, as storage hands it out before a raffle is opened in
    /// it.
    fn default() -> (raffle: Raffle)
        ensures
            raffle == Raffle::opened(Pubkey::empty(), 0, 0, 0),
    {
        Raffle {
            authority: Pubkey::default(),
            target_amount: 0,
            ticket_price: 0,
            total_tickets_sold: 0,
            total_collected: 0,
            status: RaffleStatus::Active,
            created_at: 0,
            winning_numbers: [0u8; 5],
            winner: Pubkey::default(),
            is_draw_complete: false,
        }
    }
}

impl TicketEntry {
    /// The record of no purchase: every field zero.
    pub open spec fn blank() -> TicketEntry {
        TicketEntry {
            raffle: Pubkey::empty(),
            buyer: Pubkey::empty(),
            numbers: vstd::array::spec_array_fill_for_copy_type::<u8, 5>(0u8),
            quantity: 0,
            timestamp: 0,
            ticket_hash: vstd::array::spec_array_fill_for_copy_type::<u8, 32>(0u8),
        }
    }
}

impl Default for TicketEntry {
    /// A blank record, as storage hands it out before a purchase is written
    /// to it.
    fn default() -> (entry: TicketEntry)
        ensures
            entry == TicketEntry::blank(),
    {
        TicketEntry {
            raffle: Pubkey::default(),
            buyer: Pubkey::default(),
            numbers: [0u8; 5],
            quantity: 0,
            timestamp: 0,
            ticket_hash: [0u8; 32],
        }
    }
}

impl Raffle {
    /// What holds of a raffle at every moment of its life: once the draw has
    /// taken place the raffle is in its last stage and its winning numbers are
    /// five distinct values in 1..=49, in rising order.
    pub open spec fn is_valid(&self) -> bool {
        self.is_draw_complete ==> {
            &&& self.status is DrawComplete
            &&& valid_numbers(self.winning_numbers@)
            &&& ascending(self.winning_numbers@)
        }
    }

    /// The raffle as it is opened: on sale, nothing sold, nothing drawn, no
    /// winner.
    pub open spec fn opened(
        authority: Pubkey,
        target_amount: u64,
        ticket_price: u64,
        now: i64,
    ) -> Raffle {
        Raffle {
            authority,
            target_amount,
            ticket_price,
            total_tickets_sold: 0,
            total_collected: 0,
            status: RaffleStatus::Active,
            created_at: now,
            winning_numbers: vstd::array::spec_array_fill_for_copy_type::<u8, 5>(0u8),
            winner: Pubkey::empty(),
            is_draw_complete: false,
        }
    }

    /// The price of `quantity` tickets.
    pub open spec fn cost_of(&self, quantity: u8) -> int {
        self.ticket_price * quantity
    }

    /// Why a purchase is refused, if it is. The conditions are judged in this
    /// order: the raffle is on sale, the pool is not full, the buyer's balance
    /// covers the price, the numbers are in range, the numbers are distinct.
    pub open spec fn purchase_fault(
        &self,
        balance: u64,
        numbers: Seq<u8>,
        quantity: u8,
    ) -> Option<LotteryError> {
        if self.status != RaffleStatus::Active {
            Some(LotteryError::RaffleNotActive)
        } else if self.total_collected >= self.target_amount {
            Some(LotteryError::PoolComplete)
        } else if balance < self.cost_of(quantity) {
            Some(LotteryError::InsufficientFunds)
        } else {
            numbers_fault(numbers)
        }
    }

    /// Whether the totals can take `quantity` more tickets without leaving
    /// the range of their type.
    pub open spec fn spec_has_room_for(&self, quantity: u8) -> bool {
        &&& self.total_tickets_sold + quantity <= u64::MAX
        &&& self.total_collected + self.cost_of(quantity) <= u64::MAX
    }

    /// Whether the totals can take `quantity` more tickets without leaving
    /// the range of their type.
    #[verifier::when_used_as_spec(spec_has_room_for)]
    pub fn has_room_for(&self, quantity: u8) -> (b: bool)
        ensures
            b == self.spec_has_room_for(quantity),
    {
        let cost: u64 = match self.ticket_price.checked_mul(quantity as u64) {
            Some(cost) => cost,
            None => {
                return false;
            },
        };
        self.total_tickets_sold.checked_add(quantity as u64).is_some()
            && self.total_collected.checked_add(cost).is_some()
    }

    /// The raffle after `quantity` tickets have been sold: both totals grow,
    /// and the pool is complete if it has reached its target.
    pub open spec fn after_purchase(&self, quantity: u8) -> Raffle {
        let collected = (self.total_collected + self.cost_of(quantity)) as u64;
        Raffle {
            total_tickets_sold: (self.total_tickets_sold + quantity) as u64,
            total_collected: collected,
            status: if collected >= self.target_amount {
                self.status.after(Milestone::PoolFilled)
            } else {
                self.status
            },
            ..*self
        }
    }

    /// Why a draw asked for by `caller` is refused, if it is.
    pub open spec fn draw_fault(&self, caller: Pubkey) -> Option<LotteryError> {
        if caller != self.authority {
            Some(LotteryError::Unauthorized)
        } else if self.is_draw_complete {
            Some(LotteryError::DrawAlreadyComplete)
        } else if self.status != RaffleStatus::PoolComplete {
            Some(LotteryError::PoolNotComplete)
        } else {
            None
        }
    }

    /// The raffle after a draw from `seed`.
    pub open spec fn after_draw(&self, seed: u64) -> Raffle {
        Raffle {
            winning_numbers: winning_numbers(seed),
            is_draw_complete: true,
            status: self.status.after(Milestone::NumbersDrawn),
            ..*self
        }
    }

    /// Why `caller` may not name a winner, if so.
    pub open spec fn winner_fault(&self, caller: Pubkey) -> Option<LotteryError> {
        if caller != self.authority {
            Some(LotteryError::Unauthorized)
        } else if !self.is_draw_complete {
            Some(LotteryError::DrawNotComplete)
        } else {
            None
        }
    }

    /// The raffle after `winner` has been named.
    pub open spec fn after_winner(&self, winner: Pubkey) -> Raffle {
        Raffle { winner, ..*self }
    }
}

} // verus!
