//! The ways in which the game turns an operation down.

use vstd::prelude::*;

verus! {

/// Why an operation was rejected. A rejected operation leaves the game as it
/// was.
#[derive(Clone, Copy, Debug, PartialEq, Eq, Structural)]
pub enum GameError {
    /// A player tried to join after the lobby closed.
    GameAlreadyStarted,
    /// A player tried to join under a name that another player holds.
    NameTaken,
    /// The name belongs to no player.
    UnknownPlayer,
    /// A wager came in while no batch was open for betting.
    BettingClosed,
    /// A wager picked a position that the open batch does not have.
    InvalidFlipIndex,
    /// A wager staked more than the player's balance.
    InsufficientFunds,
}

impl GameError {
    /// The text shown to the player.
    pub open spec fn text(self) -> Seq<char> {
        match self {
            GameError::GameAlreadyStarted => "This game is already in progress"@,
            GameError::NameTaken => "This name is already taken"@,
            GameError::UnknownPlayer => "Invalid player"@,
            GameError::BettingClosed => "You cannot bet right now"@,
            GameError::InvalidFlipIndex => "Invalid bet slip"@,
            GameError::InsufficientFunds => "You cannot bet more than your stack"@,
        }
    }

    /// The text shown to the player.
    pub fn message(&self) -> (r: &'static str)
        ensures
            r@ == self.text(),
    {
        match self {
            GameError::GameAlreadyStarted => "This game is already in progress",
            GameError::NameTaken => "This name is already taken",
            GameError::UnknownPlayer => "Invalid player",
            GameError::BettingClosed => "You cannot bet right now",
            GameError::InvalidFlipIndex => "Invalid bet slip",
            GameError::InsufficientFunds => "You cannot bet more than your stack",
        }
    }
}

} // verus!
