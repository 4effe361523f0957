//! Engine of a round-based betting game on weighted coin flips.
//!
//! Players join while the lobby is open. The game then walks through a fixed
//! catalog of flip batches: it opens betting on a batch, reveals the batch,
//! settles every pending parlay, and moves on until the catalog is used up.
//!
//! - [`catalog`]: odds, flips and revealed flips.
//! - [`error`]: why an operation is turned down.
//! - [`wager`]: wagers and what a parlay pays.
//! - [`ledger`]: the accounts of the players.
//! - [`sequencer`]: the modes and the order in which a catalog yields them.
//! - [`rules`]: the game as a state machine, and the laws proved of it.
//! - [`game`]: the engine, proved to follow the rules.
//! - [`notifier`]: what is assumed of the broadcast channel.
//! - [`api`]: requests and answers of the player-facing layer.

pub mod api;
pub mod catalog;
pub mod error;
pub mod game;
pub mod ledger;
pub mod notifier;
pub mod rules;
pub mod sequencer;
pub mod wager;
mod wide;
