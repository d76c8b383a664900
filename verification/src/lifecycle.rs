//! The life of a raffle: what holds along every sequence of calls.

use vstd::prelude::*;
use crate::draw::winning_numbers_are_sorted_candidates;
use crate::numbers::{ascending, valid_numbers};
use crate::pubkey::Pubkey;
use crate::state::Raffle;

verus! {

/// One call made on a raffle after it was opened, with all that the call
/// depends on.
pub enum Call {
    /// A purchase by a buyer who can spend `buyer_lamports`.
    BuyTickets { buyer_lamports: u64, numbers: [u8; 5], quantity: u8 },
    /// A draw asked for by `caller`, from the seed `slot`.
    ConductDraw { caller: Pubkey, slot: u64 },
    /// `caller` names `winner`.
    SetWinner { caller: Pubkey, winner: Pubkey },
}

impl Raffle {
    /// The raffle as `call` leaves it. A refused call leaves it as it was,
    /// and so does a purchase for which the totals have no room.
    pub open spec fn after(self, call: Call) -> Raffle {
        match call {
            Call::BuyTickets { buyer_lamports, numbers, quantity } => {
                if self.purchase_fault(buyer_lamports, numbers@, quantity) is None
                    && self.has_room_for(quantity) {
                    self.after_purchase(quantity)
                } else {
                    self
                }
            },
            Call::ConductDraw { caller, slot } => {
                if self.draw_fault(caller) is None {
                    self.after_draw(slot)
                } else {
                    self
                }
            },
            Call::SetWinner { caller, winner } => {
                if self.winner_fault(caller) is None {
                    self.after_winner(winner)
                } else {
                    self
                }
            },
        }
    }

    /// What holds of a raffle that was opened and from then on only called
    /// on. The raffle is valid and was never cancelled. Its books balance:
    /// what was collected is the price times the tickets sold. It is on sale
    /// exactly as long as the pool is short of its target, which a target of
    /// zero never lets it leave. It has been drawn exactly when it is in its
    /// last stage, and until then it shows no winning numbers and no winner.
    pub open spec fn is_consistent(self) -> bool {
        &&& self.is_valid()
        &&& self.status !is Cancelled
        &&& self.total_collected == self.ticket_price * self.total_tickets_sold
        &&& (self.status is Active ==> self.total_collected < self.target_amount
            || (self.target_amount == 0 && self.total_tickets_sold == 0))
        &&& (self.status !is Active ==> self.total_collected >= self.target_amount)
        &&& (self.status is DrawComplete <==> self.is_draw_complete)
        &&& (!self.is_draw_complete ==> self.winner == Pubkey::empty()
            && self.winning_numbers == vstd::array::spec_array_fill_for_copy_type::<u8, 5>(0u8))
    }

    /// The raffle as the calls of `calls` leave it, made one after the other.
    pub open spec fn after_all(self, calls: Seq<Call>) -> Raffle
        decreases calls.len(),
    {
        if calls.len() == 0 {
            self
        } else {
            self.after_all(calls.drop_last()).after(calls.last())
        }
    }
}

/// A purchase is accepted only with five distinct numbers in 1..=49.
pub proof fn accepted_purchase_has_valid_numbers(
    raffle: Raffle,
    buyer_lamports: u64,
    numbers: [u8; 5],
    quantity: u8,
)
    ensures
        raffle.purchase_fault(buyer_lamports, numbers@, quantity) is None ==> valid_numbers(
            numbers@,
        ),
        !valid_numbers(numbers@) ==> raffle.after(
            Call::BuyTickets { buyer_lamports, numbers, quantity },
        ) == raffle,
{
}

/// No call lowers the number of tickets sold or the amount collected.
pub proof fn call_never_lowers_totals(raffle: Raffle, call: Call)
    ensures
        raffle.after(call).total_tickets_sold >= raffle.total_tickets_sold,
        raffle.after(call).total_collected >= raffle.total_collected,
{
    match call {
        Call::BuyTickets { buyer_lamports, numbers, quantity } => {
            assert(raffle.cost_of(quantity) >= 0) by (nonlinear_arith)
                requires
                    raffle.cost_of(quantity) == raffle.ticket_price * quantity,
            ;
        },
        _ => {},
    }
}

/// Along any sequence of calls the number of tickets sold and the amount
/// collected never fall.
pub proof fn totals_never_fall(raffle: Raffle, calls: Seq<Call>)
    ensures
        raffle.after_all(calls).total_tickets_sold >= raffle.total_tickets_sold,
        raffle.after_all(calls).total_collected >= raffle.total_collected,
    decreases calls.len(),
{
    if calls.len() > 0 {
        totals_never_fall(raffle, calls.drop_last());
        call_never_lowers_totals(raffle.after_all(calls.drop_last()), calls.last());
    }
}

/// A call leaves the raffle in its stage or moves it to the one stage that
/// follows: none is skipped, none is gone back to.
pub proof fn call_moves_one_stage_at_most(raffle: Raffle, call: Call)
    ensures
        raffle.status.steps_to(raffle.after(call).status),
{
}

/// Along any sequence of calls the stage only moves forward through
/// `Active`, `PoolComplete`, `DrawComplete`.
pub proof fn stage_never_goes_back(raffle: Raffle, calls: Seq<Call>)
    ensures
        raffle.status.leads_to(raffle.after_all(calls).status),
    decreases calls.len(),
{
    if calls.len() > 0 {
        stage_never_goes_back(raffle, calls.drop_last());
        call_moves_one_stage_at_most(raffle.after_all(calls.drop_last()), calls.last());
    }
}

/// The terms of a raffle stay as they were set when it was opened.
pub proof fn terms_never_change(raffle: Raffle, calls: Seq<Call>)
    ensures
        raffle.after_all(calls).authority == raffle.authority,
        raffle.after_all(calls).target_amount == raffle.target_amount,
        raffle.after_all(calls).ticket_price == raffle.ticket_price,
        raffle.after_all(calls).created_at == raffle.created_at,
    decreases calls.len(),
{
    if calls.len() > 0 {
        terms_never_change(raffle, calls.drop_last());
    }
}

/// A raffle that is valid stays valid whatever is called on it: once drawn it
/// is in its last stage and holds five distinct winning numbers in 1..=49,
/// in rising order.
pub proof fn validity_is_kept(raffle: Raffle, calls: Seq<Call>)
    requires
        raffle.is_valid(),
    ensures
        raffle.after_all(calls).is_valid(),
    decreases calls.len(),
{
    if calls.len() > 0 {
        validity_is_kept(raffle, calls.drop_last());
        match calls.last() {
            Call::ConductDraw { caller, slot } => {
                winning_numbers_are_sorted_candidates(slot);
            },
            _ => {},
        }
    }
}

/// A raffle that has been drawn refuses every draw, and no sequence of calls
/// changes its winning numbers.
pub proof fn draw_happens_once(raffle: Raffle, calls: Seq<Call>, caller: Pubkey)
    requires
        raffle.is_draw_complete,
    ensures
        raffle.draw_fault(caller) is Some,
        raffle.after_all(calls).is_draw_complete,
        raffle.after_all(calls).winning_numbers == raffle.winning_numbers,
    decreases calls.len(),
{
    if calls.len() > 0 {
        draw_happens_once(raffle, calls.drop_last(), caller);
    }
}

/// A call on a consistent raffle leaves a consistent raffle.
pub proof fn call_keeps_consistency(raffle: Raffle, call: Call)
    requires
        raffle.is_consistent(),
    ensures
        raffle.after(call).is_consistent(),
{
    match call {
        Call::BuyTickets { buyer_lamports, numbers, quantity } => {
            assert(raffle.ticket_price * (raffle.total_tickets_sold + quantity)
                == raffle.ticket_price * raffle.total_tickets_sold + raffle.ticket_price
                * quantity) by (nonlinear_arith);
            assert(raffle.ticket_price * quantity >= 0) by (nonlinear_arith);
        },
        Call::ConductDraw { caller, slot } => {
            winning_numbers_are_sorted_candidates(slot);
        },
        Call::SetWinner { caller, winner } => {},
    }
}

/// Whatever is called on a raffle after it was opened, in whatever order,
/// the raffle is consistent.
pub proof fn opened_raffle_stays_consistent(
    authority: Pubkey,
    target_amount: u64,
    ticket_price: u64,
    now: i64,
    calls: Seq<Call>,
)
    ensures
        Raffle::opened(authority, target_amount, ticket_price, now).after_all(
            calls,
        ).is_consistent(),
    decreases calls.len(),
{
    let opened = Raffle::opened(authority, target_amount, ticket_price, now);
    if calls.len() > 0 {
        opened_raffle_stays_consistent(
            authority,
            target_amount,
            ticket_price,
            now,
            calls.drop_last(),
        );
        call_keeps_consistency(opened.after_all(calls.drop_last()), calls.last());
    } else {
        assert(ticket_price * 0 == 0) by (nonlinear_arith);
    }
}

} // verus!
