//! The game engine: the players, the sequencer and the current mode, with
//! the operations that change them.
//!
//! Every operation is stated as a step of the rules in [`crate::rules`]. A
//! rejected operation leaves the game unchanged.

use vstd::prelude::*;
use tokio::sync::broadcast::{Receiver, Sender};
use crate::catalog::catalog_model;
use crate::ledger::Ledger;
use crate::rules::{GameModel, Phase};
use crate::sequencer::{yield_model, ModeModel, Sequencer};

pub use crate::catalog::{EvaluatedFlip, Flip, Payout};
pub use crate::error::GameError;
pub use crate::sequencer::{Mode, ModeIterator};
pub use crate::wager::Bet;

verus! {

/// The phase that a mode stands for when the sequencer's cursor is at
/// `cursor`. The cursor moves past a batch as the batch is revealed.
spec fn phase_of(mode: ModeModel, cursor: nat) -> Phase {
    match mode {
        ModeModel::Joining => Phase::Joining,
        ModeModel::Betting(_) => Phase::Betting(cursor),
        ModeModel::BetResults(outcomes) => Phase::Revealing((cursor - 1) as nat, outcomes),
        ModeModel::Results => Phase::Finished,
    }
}

/// The mode is the one that the sequencer yielded last.
spec fn in_step(mode: ModeModel, sequencer: Sequencer) -> bool {
    match mode {
        ModeModel::Joining => sequencer.cursor == 0 && sequencer.awaiting_bets,
        ModeModel::Betting(flips) => {
            &&& !sequencer.awaiting_bets
            &&& sequencer.cursor < sequencer.catalog.len()
            &&& flips == sequencer.catalog[sequencer.cursor as int]
        },
        ModeModel::BetResults(_) => {
            &&& sequencer.awaiting_bets
            &&& 1 <= sequencer.cursor <= sequencer.catalog.len()
        },
        ModeModel::Results => sequencer.exhausted(),
    }
}

/// A game: its players, its catalog and where it stands in it, and the
/// channel on which it announces each advance.
pub struct Game {
    players: Ledger,
    mode_iter: ModeIterator,
    mode: Mode,
    tx: Sender<()>,
}

impl View for Game {
    type V = GameModel;

    closed spec fn view(&self) -> GameModel {
        GameModel {
            catalog: self.mode_iter@.catalog,
            phase: phase_of(self.mode@, self.mode_iter@.cursor),
            accounts: self.players@,
        }
    }
}

impl Game {
    /// The parts of the game agree with each other, and the game is valid
    /// by its rules.
    pub closed spec fn wf(&self) -> bool {
        &&& self.players.wf()
        &&& in_step(self.mode@, self.mode_iter@)
        &&& self@.valid()
    }

    /// A well-formed game is valid by its rules.
    pub proof fn lemma_valid(&self)
        requires
            self.wf(),
        ensures
            self@.valid(),
    {
    }

    /// A game on the catalog `flips`, with the lobby open and no player.
    pub fn new(flips: Vec<Vec<Flip>>) -> (r: Self)
        ensures
            r.wf(),
            r@ == GameModel::initial(catalog_model(flips@)),
    {
        Self {
            players: Ledger::new(),
            mode_iter: ModeIterator::new(flips),
            mode: Mode::Joining,
            tx: Sender::new(1000),
        }
    }

    /// A receiver that gets a signal after each later advance of the round.
    pub fn subscribe(&self) -> Receiver<()> {
        self.tx.subscribe()
    }

    /// The mode that the game is in.
    pub fn mode(&self) -> (r: Mode)
        requires
            self.wf(),
        ensures
            r@ == self@.mode(),
    {
        self.mode.clone()
    }

    /// Lets the player `name` join, with the opening balance and no wager.
    /// Fails with `GameAlreadyStarted` once the lobby has closed, and with
    /// `NameTaken` if a player of that name has joined before.
    pub fn add_player(&mut self, name: String) -> (r: Result<(), GameError>)
        requires
            old(self).wf(),
        ensures
            final(self).wf(),
            r == old(self)@.join_outcome(name@),
            final(self)@ == old(self)@.joined(name@),
    {
        if !matches!(self.mode, Mode::Joining) {
            return Err(GameError::GameAlreadyStarted);
        }
        if self.players.find(&name).is_some() {
            return Err(GameError::NameTaken);
        }
        self.players.join(name);
        Ok(())
    }

    /// The balance of `player`, or `UnknownPlayer` if nobody joined under
    /// that name.
    pub fn get_stack(&self, player: String) -> (r: Result<u64, GameError>)
        requires
            self.wf(),
        ensures
            match self@.stack_of(player@) {
                Some(stack) => r == Ok::<u64, GameError>(stack as u64) && stack <= u64::MAX,
                None => r == Err::<u64, GameError>(GameError::UnknownPlayer),
            },
    {
        match self.players.find(&player) {
            Some(i) => Ok(self.players.stack_at(i)),
            None => Err(GameError::UnknownPlayer),
        }
    }

    /// Records `bet` as the pending wager of `player`, in place of an
    /// earlier one. Fails with `BettingClosed` unless a batch is open for
    /// betting; else with `InvalidFlipIndex` if the wager picks a position
    /// that the batch does not have; else with `UnknownPlayer` if nobody
    /// joined under that name; else with `InsufficientFunds` if the amount
    /// is above the player's balance.
    pub fn bet(&mut self, player: String, bet: Bet) -> (r: Result<(), GameError>)
        requires
            old(self).wf(),
        ensures
            final(self).wf(),
            r == old(self)@.wager_outcome(player@, bet@),
            final(self)@ == old(self)@.wagered(player@, bet@),
    {
        let legs: usize = match &self.mode {
            Mode::Betting(flips) => flips.len(),
            _ => {
                return Err(GameError::BettingClosed);
            },
        };
        if !bet.fits(legs) {
            return Err(GameError::InvalidFlipIndex);
        }
        match self.players.find(&player) {
            Some(i) => {
                if self.players.stack_at(i) < bet.amount() {
                    return Err(GameError::InsufficientFunds);
                }
                self.players.place(i, bet);
                Ok(())
            },
            None => Err(GameError::UnknownPlayer),
        }
    }

    /// Advances the round by one phase and signals the subscribers. Never
    /// fails. Revealing a batch draws one random number for each of its
    /// flips; the contract holds for whatever was drawn.
    pub fn tick(&mut self)
        requires
            old(self).wf(),
        ensures
            final(self).wf(),
            exists|draws: Seq<u64>|
                draws.len() == old(self)@.draws_needed() && final(self)@
                    == #[trigger] old(self)@.advanced(draws),
    {
        let next = self.mode_iter.next();
        let ghost draws = choose|draws: Seq<u64>|
            draws.len() == old(self).mode_iter@.draws_needed() && yield_model(next)
                == #[trigger] old(self).mode_iter@.yielded(draws);
        match next {
            Some(mode) => {
                self.mode = mode;
                match &self.mode {
                    Mode::Betting(_) => {
                        self.players.clear_wagers();
                    },
                    Mode::BetResults(results) => {
                        self.players.settle(results);
                    },
                    _ => {},
                }
            },
            None => {
                self.mode = Mode::Results;
            },
        }
        proof {
            assert(self@ == old(self)@.advanced(draws));
        }
        let _ = self.tx.send(());
    }
}

} // verus!
