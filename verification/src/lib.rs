//! A custodial wagering ledger: users deposit funds, place bets that are
//! settled at once against a fixed multiplier, and withdraw their winnings,
//! once a time-lock has run out, through a request that a quorum of
//! administrators has to approve.
//!
//! - `identity`: who users and administrators are.
//! - `params`: the configuration of the game.
//! - `ledger`: a user's balances and the rules that move them.
//! - `withdrawal`: a withdrawal request, its approval and its payout.
//! - `approval`: counting the administrators among the signers.
//! - `table`: the keyed store that holds entries and requests.
//! - `model`: the state as a mathematical value, with its transitions.
//! - `casino`: the state itself and the operations on it.
//! - `laws`: what holds of the operations taken together.
//! - `error`: why an operation is refused.
//!
//! The ledger does no input or output. It is told the time by the
//! operations that need it, and it does not move funds: it says which payout
//! is due, and is told when the payout has been made.

pub mod approval;
pub mod casino;
pub mod error;
pub mod identity;
pub mod laws;
pub mod ledger;
pub mod model;
pub mod params;
pub mod table;
pub mod withdrawal;
