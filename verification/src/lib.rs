//! A pooled-fund raffle: buyers take numbered tickets until the pool reaches
//! its target, the operator draws five winning numbers, and a winner is
//! recorded.
//!
//! The operations work on plain records and return the event to report;
//! reading the clock, moving funds and storing the records are left to the
//! caller.

pub mod draw;
pub mod error;
pub mod events;
pub mod hash;
pub mod instructions;
pub mod lifecycle;
pub mod numbers;
pub mod pubkey;
pub mod state;
pub mod status;

pub use draw::{draw_numbers, sort_five, MAX_DRAW_ATTEMPTS};
pub use error::LotteryError;
pub use events::{DrawConducted, RaffleInitialized, TicketsPurchased, WinnerSet};
pub use hash::generate_ticket_hash;
pub use instructions::{
    buy_tickets, check_purchase, conduct_draw, initialize_raffle, record_purchase, set_winner,
    BuyTickets, ConductDraw, InitializeRaffle, SetWinner,
};
pub use lifecycle::Call;
pub use numbers::{validate_numbers, MAX_NUMBER, MIN_NUMBER};
pub use pubkey::Pubkey;
pub use state::{Raffle, TicketEntry};
pub use status::{Milestone, RaffleStatus};
