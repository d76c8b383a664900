//! The four operations on a raffle: opening it, buying tickets, drawing the
//! winning numbers and naming the winner.
//!
//! Each operation works on the records it is handed and returns the event to
//! report. A refused operation changes nothing.

use vstd::prelude::*;
use crate::draw::{draw_numbers, winning_numbers_are_sorted_candidates};
use crate::error::LotteryError;
use crate::events::{DrawConducted, RaffleInitialized, TicketsPurchased, WinnerSet};
use crate::hash::{generate_ticket_hash, ticket_hash};
use crate::lifecycle::Call;
use crate::numbers::{ascending, valid_numbers, validate_numbers};
use crate::pubkey::Pubkey;
use crate::state::{Raffle, TicketEntry};
use crate::status::{Milestone, RaffleStatus};

verus! {

/// What opening a raffle works on.
#[derive(Clone, Copy, Debug, PartialEq, Eq)]
pub struct InitializeRaffle {
    /// Where the raffle is kept.
    pub raffle_key: Pubkey,
    /// The record to fill.
    pub raffle: Raffle,
    /// Who opens the raffle and will run it.
    pub authority: Pubkey,
}

/// What a purchase works on.
#[derive(Clone, Copy, Debug, PartialEq, Eq)]
pub struct BuyTickets {
    /// Where the raffle is kept.
    pub raffle_key: Pubkey,
    /// The raffle that sells the tickets.
    pub raffle: Raffle,
    /// The record to fill with the purchase.
    pub entry: TicketEntry,
    /// Who buys.
    pub buyer: Pubkey,
    /// What the buyer can spend.
    pub buyer_lamports: u64,
}

/// What a draw works on.
#[derive(Clone, Copy, Debug, PartialEq, Eq)]
pub struct ConductDraw {
    /// Where the raffle is kept.
    pub raffle_key: Pubkey,
    /// The raffle to draw.
    pub raffle: Raffle,
    /// Who asks for the draw.
    pub authority: Pubkey,
}

/// What naming a winner works on.
#[derive(Clone, Copy, Debug, PartialEq, Eq)]
pub struct SetWinner {
    /// Where the raffle is kept.
    pub raffle_key: Pubkey,
    /// The raffle whose winner is named.
    pub raffle: Raffle,
    /// Who names the winner.
    pub authority: Pubkey,
}

/// Opens a raffle at time `now`. Any target and any price are taken, zero
/// included.
pub fn initialize_raffle(
    ctx: &mut InitializeRaffle,
    target_amount: u64,
    ticket_price: u64,
    now: i64,
) -> (event: RaffleInitialized)
    ensures
        final(ctx).raffle == Raffle::opened(old(ctx).authority, target_amount, ticket_price, now),
        final(ctx).raffle.is_valid(),
        final(ctx).raffle_key == old(ctx).raffle_key,
        final(ctx).authority == old(ctx).authority,
        event == (RaffleInitialized {
            raffle: old(ctx).raffle_key,
            authority: old(ctx).authority,
            target_amount,
            ticket_price,
        }),
{
    ctx.raffle.authority = ctx.authority;
    ctx.raffle.target_amount = target_amount;
    ctx.raffle.ticket_price = ticket_price;
    ctx.raffle.total_tickets_sold = 0;
    ctx.raffle.total_collected = 0;
    ctx.raffle.status = RaffleStatus::Active;
    ctx.raffle.created_at = now;
    ctx.raffle.winning_numbers = [0u8; 5];
    ctx.raffle.winner = Pubkey::default();
    ctx.raffle.is_draw_complete = false;
    RaffleInitialized {
        raffle: ctx.raffle_key,
        authority: ctx.raffle.authority,
        target_amount,
        ticket_price,
    }
}

/// Judges a purchase of `quantity` tickets with `numbers` by a buyer who can
/// spend `balance`, and returns what the tickets cost. A cost beyond every
/// balance is one that the buyer's balance does not cover.
pub fn check_purchase(raffle: &Raffle, balance: u64, numbers: &[u8; 5], quantity: u8) -> (r:
    Result<u64, LotteryError>)
    ensures
        match r {
            Ok(cost) => raffle.purchase_fault(balance, numbers@, quantity) is None
                && cost == raffle.cost_of(quantity),
            Err(e) => raffle.purchase_fault(balance, numbers@, quantity) == Some(e),
        },
        r is Ok ==> valid_numbers(numbers@),
{
    if raffle.status != RaffleStatus::Active {
        return Err(LotteryError::RaffleNotActive);
    }
    if raffle.total_collected >= raffle.target_amount {
        return Err(LotteryError::PoolComplete);
    }
    let cost: u64 = match raffle.ticket_price.checked_mul(quantity as u64) {
        Some(cost) => cost,
        None => {
            return Err(LotteryError::InsufficientFunds);
        },
    };
    if balance < cost {
        return Err(LotteryError::InsufficientFunds);
    }
    match validate_numbers(numbers) {
        Ok(()) => Ok(cost),
        Err(e) => Err(e),
    }
}

/// Records a purchase that has been judged: fills the entry, adds to the
/// totals and completes the pool if the target is reached. `ticket_hash` is
/// the fingerprint to keep with the entry. The totals must have room for the
/// tickets.
pub fn record_purchase(
    ctx: &mut BuyTickets,
    numbers: [u8; 5],
    quantity: u8,
    now: i64,
    ticket_hash: [u8; 32],
) -> (event: TicketsPurchased)
    requires
        old(ctx).raffle.has_room_for(quantity),
    ensures
        final(ctx).raffle == old(ctx).raffle.after_purchase(quantity),
        final(ctx).entry == (TicketEntry {
            raffle: old(ctx).raffle_key,
            buyer: old(ctx).buyer,
            numbers,
            quantity,
            timestamp: now,
            ticket_hash,
        }),
        final(ctx).raffle_key == old(ctx).raffle_key,
        final(ctx).buyer == old(ctx).buyer,
        final(ctx).buyer_lamports == old(ctx).buyer_lamports,
        event == (TicketsPurchased {
            raffle: old(ctx).raffle_key,
            buyer: old(ctx).buyer,
            numbers,
            quantity,
            total_cost: old(ctx).raffle.cost_of(quantity) as u64,
            ticket_hash,
        }),
{
    let total_cost: u64 = ctx.raffle.ticket_price * (quantity as u64);
    ctx.entry.raffle = ctx.raffle_key;
    ctx.entry.buyer = ctx.buyer;
    ctx.entry.numbers = numbers;
    ctx.entry.quantity = quantity;
    ctx.entry.timestamp = now;
    ctx.entry.ticket_hash = ticket_hash;
    ctx.raffle.total_tickets_sold += quantity as u64;
    ctx.raffle.total_collected += total_cost;
    if ctx.raffle.total_collected >= ctx.raffle.target_amount {
        ctx.raffle.status = ctx.raffle.status.advance(Milestone::PoolFilled);
    }
    TicketsPurchased {
        raffle: ctx.raffle_key,
        buyer: ctx.buyer,
        numbers,
        quantity,
        total_cost,
        ticket_hash,
    }
}

/// Buys `quantity` tickets with `numbers` at time `now`. The purchase is
/// judged before anything is written; a refused purchase changes nothing.
/// The event's `total_cost` is the amount to move from the buyer to the pool.
/// Where the purchase is accepted, the totals must have room for the tickets.
pub fn buy_tickets(ctx: &mut BuyTickets, numbers: [u8; 5], quantity: u8, now: i64) -> (r: Result<
    TicketsPurchased,
    LotteryError,
>)
    requires
        old(ctx).raffle.purchase_fault(old(ctx).buyer_lamports, numbers@, quantity) is None
            ==> old(ctx).raffle.has_room_for(quantity),
    ensures
        match r {
            Ok(event) => {
                &&& old(ctx).raffle.purchase_fault(old(ctx).buyer_lamports, numbers@, quantity)
                    is None
                &&& valid_numbers(numbers@)
                &&& final(ctx).raffle == old(ctx).raffle.after_purchase(quantity)
                &&& final(ctx).entry.raffle == old(ctx).raffle_key
                &&& final(ctx).entry.buyer == old(ctx).buyer
                &&& final(ctx).entry.numbers == numbers
                &&& final(ctx).entry.quantity == quantity
                &&& final(ctx).entry.timestamp == now
                &&& final(ctx).entry.ticket_hash@ == ticket_hash(numbers@, old(ctx).buyer, now)
                &&& final(ctx).raffle_key == old(ctx).raffle_key
                &&& final(ctx).buyer == old(ctx).buyer
                &&& final(ctx).buyer_lamports == old(ctx).buyer_lamports
                &&& event == (TicketsPurchased {
                    raffle: old(ctx).raffle_key,
                    buyer: old(ctx).buyer,
                    numbers,
                    quantity,
                    total_cost: old(ctx).raffle.cost_of(quantity) as u64,
                    ticket_hash: final(ctx).entry.ticket_hash,
                })
            },
            Err(e) => {
                &&& old(ctx).raffle.purchase_fault(old(ctx).buyer_lamports, numbers@, quantity)
                    == Some(e)
                &&& *final(ctx) == *old(ctx)
            },
        },
        !valid_numbers(numbers@) ==> r is Err,
        final(ctx).raffle == old(ctx).raffle.after(
            Call::BuyTickets { buyer_lamports: old(ctx).buyer_lamports, numbers, quantity },
        ),
        old(ctx).raffle.is_valid() ==> final(ctx).raffle.is_valid(),
{
    match check_purchase(&ctx.raffle, ctx.buyer_lamports, &numbers, quantity) {
        Ok(_) => {
            let ticket_hash = generate_ticket_hash(&numbers, &ctx.buyer, now);
            Ok(record_purchase(ctx, numbers, quantity, now, ticket_hash))
        },
        Err(e) => Err(e),
    }
}

/// Draws the winning numbers of a raffle whose pool is complete, from the
/// seed `slot`. Only the raffle's authority may draw, and only once: a raffle
/// that has been drawn refuses every further draw.
pub fn conduct_draw(ctx: &mut ConductDraw, slot: u64) -> (r: Result<DrawConducted, LotteryError>)
    ensures
        match r {
            Ok(event) => {
                &&& old(ctx).raffle.draw_fault(old(ctx).authority) is None
                &&& final(ctx).raffle == old(ctx).raffle.after_draw(slot)
                &&& final(ctx).raffle_key == old(ctx).raffle_key
                &&& final(ctx).authority == old(ctx).authority
                &&& event == (DrawConducted {
                    raffle: old(ctx).raffle_key,
                    winning_numbers: final(ctx).raffle.winning_numbers,
                    total_tickets: old(ctx).raffle.total_tickets_sold,
                })
            },
            Err(e) => {
                &&& old(ctx).raffle.draw_fault(old(ctx).authority) == Some(e)
                &&& *final(ctx) == *old(ctx)
            },
        },
        r is Ok ==> valid_numbers(final(ctx).raffle.winning_numbers@) && ascending(
            final(ctx).raffle.winning_numbers@,
        ),
        final(ctx).raffle == old(ctx).raffle.after(
            Call::ConductDraw { caller: old(ctx).authority, slot },
        ),
        old(ctx).raffle.is_valid() ==> final(ctx).raffle.is_valid(),
{
    if ctx.authority != ctx.raffle.authority {
        return Err(LotteryError::Unauthorized);
    }
    if ctx.raffle.is_draw_complete {
        return Err(LotteryError::DrawAlreadyComplete);
    }
    if ctx.raffle.status != RaffleStatus::PoolComplete {
        return Err(LotteryError::PoolNotComplete);
    }
    proof {
        winning_numbers_are_sorted_candidates(slot);
    }
    let winning_numbers = match draw_numbers(slot) {
        Ok(numbers) => numbers,
        Err(e) => {
            return Err(e);
        },
    };
    ctx.raffle.winning_numbers = winning_numbers;
    ctx.raffle.is_draw_complete = true;
    ctx.raffle.status = ctx.raffle.status.advance(Milestone::NumbersDrawn);
    Ok(
        DrawConducted {
            raffle: ctx.raffle_key,
            winning_numbers,
            total_tickets: ctx.raffle.total_tickets_sold,
        },
    )
}

/// Names the winner of a raffle that has been drawn. Only the raffle's
/// authority may do so. Any identity is taken: it is not held against the
/// tickets sold.
pub fn set_winner(ctx: &mut SetWinner, winner: Pubkey) -> (r: Result<WinnerSet, LotteryError>)
    ensures
        match r {
            Ok(event) => {
                &&& old(ctx).raffle.winner_fault(old(ctx).authority) is None
                &&& final(ctx).raffle == old(ctx).raffle.after_winner(winner)
                &&& final(ctx).raffle_key == old(ctx).raffle_key
                &&& final(ctx).authority == old(ctx).authority
                &&& event == (WinnerSet {
                    raffle: old(ctx).raffle_key,
                    winner,
                    winning_numbers: old(ctx).raffle.winning_numbers,
                })
            },
            Err(e) => {
                &&& old(ctx).raffle.winner_fault(old(ctx).authority) == Some(e)
                &&& *final(ctx) == *old(ctx)
            },
        },
        final(ctx).raffle == old(ctx).raffle.after(
            Call::SetWinner { caller: old(ctx).authority, winner },
        ),
        old(ctx).raffle.is_valid() ==> final(ctx).raffle.is_valid(),
{
    if ctx.authority != ctx.raffle.authority {
        return Err(LotteryError::Unauthorized);
    }
    if !ctx.raffle.is_draw_complete {
        return Err(LotteryError::DrawNotComplete);
    }
    ctx.raffle.winner = winner;
    Ok(WinnerSet { raffle: ctx.raffle_key, winner, winning_numbers: ctx.raffle.winning_numbers })
}

} // verus!
