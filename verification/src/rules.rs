//! The rules of the game, as a state machine over mathematical values.
//!
//! A state holds the catalog, the phase and the accounts. Three kinds of
//! step change it: a player joins, a player places a wager, the round
//! advances. The executable game is proved to follow these rules; the laws
//! at the end of this file are proved of the rules themselves.

use vstd::prelude::*;
use crate::catalog::{revealed, FlipModel, Outcome};
use crate::error::GameError;
use crate::ledger::{clear_all, settle_all, Account};
use crate::sequencer::ModeModel;
use crate::wager::{capped, Wager};

verus! {

/// The stage that the game is in. `Betting` and `Revealing` name the batch
/// by its position in the catalog; `Revealing` also holds how it landed.
pub enum Phase {
    Joining,
    Betting(nat),
    Revealing(nat, Seq<Outcome>),
    Finished,
}

/// Model of the game.
pub struct GameModel {
    pub catalog: Seq<Seq<FlipModel>>,
    pub phase: Phase,
    pub accounts: Map<Seq<char>, Account>,
}

/// One operation on the game.
pub enum Step {
    /// The player of this name asks to join.
    Join(Seq<char>),
    /// The player of this name hands in this wager.
    Bet(Seq<char>, Wager),
    /// The round advances; a reveal uses these draws.
    Tick(Seq<u64>),
}

impl GameModel {
    /// The game as it starts: the lobby is open and nobody has joined.
    pub open spec fn initial(catalog: Seq<Seq<FlipModel>>) -> GameModel {
        GameModel { catalog, phase: Phase::Joining, accounts: Map::empty() }
    }

    /// No account has a wager pending.
    pub open spec fn no_wagers(self) -> bool {
        forall|n: Seq<char>| self.accounts.contains_key(n) ==> (#[trigger] self.accounts[n]).wager is None
    }

    /// What holds of the game at all times: every balance covers its pending
    /// wager; wagers are pending only while a batch is open for betting, and
    /// they pick positions of that batch; the batch that a phase names is
    /// one of the catalog; a revealed batch has the length and the odds of
    /// the batch in the catalog.
    pub open spec fn valid(self) -> bool {
        &&& forall|n: Seq<char>| self.accounts.contains_key(n) ==> (#[trigger] self.accounts[n]).covered()
        &&& match self.phase {
            Phase::Joining => self.no_wagers(),
            Phase::Betting(i) => {
                &&& i < self.catalog.len()
                &&& forall|n: Seq<char>|
                    self.accounts.contains_key(n) ==> ((#[trigger] self.accounts[n]).wager matches Some(w)
                        ==> w.fits(self.catalog[i as int].len()))
            },
            Phase::Revealing(i, outcomes) => {
                &&& i < self.catalog.len()
                &&& outcomes.len() == self.catalog[i as int].len()
                &&& forall|j: int|
                    0 <= j < outcomes.len() ==> (#[trigger] outcomes[j]).odds
                        == self.catalog[i as int][j].odds
                &&& self.no_wagers()
            },
            Phase::Finished => self.no_wagers(),
        }
    }

    /// The mode that the game shows.
    pub open spec fn mode(self) -> ModeModel {
        match self.phase {
            Phase::Joining => ModeModel::Joining,
            Phase::Betting(i) => ModeModel::Betting(self.catalog[i as int]),
            Phase::Revealing(_, outcomes) => ModeModel::BetResults(outcomes),
            Phase::Finished => ModeModel::Results,
        }
    }

    /// The balance of the player `name`, if there is such a player.
    pub open spec fn stack_of(self, name: Seq<char>) -> Option<nat> {
        if self.accounts.contains_key(name) {
            Some(self.accounts[name].stack)
        } else {
            None
        }
    }

    /// How a request to join under `name` is answered.
    pub open spec fn join_outcome(self, name: Seq<char>) -> Result<(), GameError> {
        if !(self.phase is Joining) {
            Err(GameError::GameAlreadyStarted)
        } else if self.accounts.contains_key(name) {
            Err(GameError::NameTaken)
        } else {
            Ok(())
        }
    }

    /// The game after a request to join under `name`: with a fresh account
    /// for `name` where the request is granted, unchanged where it is not.
    pub open spec fn joined(self, name: Seq<char>) -> GameModel {
        if self.join_outcome(name) is Ok {
            GameModel { accounts: self.accounts.insert(name, Account::fresh()), ..self }
        } else {
            self
        }
    }

    /// How the wager `wager` of the player `name` is answered.
    pub open spec fn wager_outcome(self, name: Seq<char>, wager: Wager) -> Result<(), GameError> {
        match self.phase {
            Phase::Betting(i) => {
                if !wager.fits(self.catalog[i as int].len()) {
                    Err(GameError::InvalidFlipIndex)
                } else if !self.accounts.contains_key(name) {
                    Err(GameError::UnknownPlayer)
                } else if self.accounts[name].stack < wager.amount {
                    Err(GameError::InsufficientFunds)
                } else {
                    Ok(())
                }
            },
            _ => Err(GameError::BettingClosed),
        }
    }

    /// The game after the player `name` handed in `wager`: with that wager
    /// pending on the player's account where it is accepted, unchanged where
    /// it is not.
    pub open spec fn wagered(self, name: Seq<char>, wager: Wager) -> GameModel {
        if self.wager_outcome(name, wager) is Ok {
            GameModel {
                accounts: self.accounts.insert(name, self.accounts[name].staking(wager)),
                ..self
            }
        } else {
            self
        }
    }

    /// How many random draws the next advance takes: one for each flip of
    /// the batch that is open for betting, none in the other phases.
    pub open spec fn draws_needed(self) -> nat {
        match self.phase {
            Phase::Betting(i) => self.catalog[i as int].len(),
            _ => 0,
        }
    }

    /// The game as it opens betting on batch `i`, or as it finishes where
    /// the catalog has no batch `i`. Opening a batch drops every pending
    /// wager.
    pub open spec fn opened(self, i: nat) -> GameModel {
        if i < self.catalog.len() {
            GameModel { phase: Phase::Betting(i), accounts: clear_all(self.accounts), ..self }
        } else {
            GameModel { phase: Phase::Finished, ..self }
        }
    }

    /// The game after the round advanced. From the lobby it opens the first
    /// batch; from betting it reveals the batch on the draws `draws` and
    /// settles every account on what was revealed; from a reveal it opens
    /// the next batch; and where there is no batch to open it finishes. A
    /// finished game stays as it is.
    pub open spec fn advanced(self, draws: Seq<u64>) -> GameModel {
        match self.phase {
            Phase::Joining => self.opened(0),
            Phase::Betting(i) => {
                let outcomes = revealed(self.catalog[i as int], draws);
                GameModel {
                    phase: Phase::Revealing(i, outcomes),
                    accounts: settle_all(self.accounts, outcomes),
                    ..self
                }
            },
            Phase::Revealing(i, _) => self.opened(i + 1),
            Phase::Finished => self,
        }
    }

    /// The game after one step.
    pub open spec fn step(self, step: Step) -> GameModel {
        match step {
            Step::Join(name) => self.joined(name),
            Step::Bet(name, wager) => self.wagered(name, wager),
            Step::Tick(draws) => self.advanced(draws),
        }
    }

    /// The game after a sequence of steps, taken in order.
    pub open spec fn after(self, steps: Seq<Step>) -> GameModel
        decreases steps.len(),
    {
        if steps.len() == 0 {
            self
        } else {
            self.after(steps.drop_last()).step(steps.last())
        }
    }
}

/// A game is valid as it starts.
pub proof fn law_valid_at_start(catalog: Seq<Seq<FlipModel>>)
    ensures
        GameModel::initial(catalog).valid(),
{
}

/// Every step keeps a valid game valid, and none changes the catalog.
pub proof fn law_step_keeps_valid(s: GameModel, step: Step)
    requires
        s.valid(),
    ensures
        s.step(step).valid(),
        s.step(step).catalog == s.catalog,
{
}

/// Every sequence of steps keeps a valid game valid, and none changes the
/// catalog.
pub proof fn law_steps_keep_valid(s: GameModel, steps: Seq<Step>)
    requires
        s.valid(),
    ensures
        s.after(steps).valid(),
        s.after(steps).catalog == s.catalog,
    decreases steps.len(),
{
    if steps.len() > 0 {
        law_steps_keep_valid(s, steps.drop_last());
        law_step_keeps_valid(s.after(steps.drop_last()), steps.last());
    }
}

/// While the lobby is open, a request to join is granted exactly when the
/// name is free, and the same request made again is turned down with
/// `NameTaken`.
pub proof fn law_join_once(s: GameModel, name: Seq<char>)
    requires
        s.phase is Joining,
    ensures
        s.join_outcome(name) is Ok <==> !s.accounts.contains_key(name),
        s.joined(name).accounts.contains_key(name),
        s.joined(name).join_outcome(name) == Err::<(), GameError>(GameError::NameTaken),
{
}

/// No step closes an account: a player who has joined has an account after
/// every sequence of steps.
pub proof fn law_names_persist(s: GameModel, steps: Seq<Step>, name: Seq<char>)
    requires
        s.accounts.contains_key(name),
    ensures
        s.after(steps).accounts.contains_key(name),
    decreases steps.len(),
{
    if steps.len() > 0 {
        law_names_persist(s, steps.drop_last(), name);
    }
}

/// No step reopens the lobby: once the game has left the lobby, it is out
/// of it after every sequence of steps.
pub proof fn law_lobby_stays_closed(s: GameModel, steps: Seq<Step>)
    requires
        !(s.phase is Joining),
    ensures
        !(s.after(steps).phase is Joining),
    decreases steps.len(),
{
    if steps.len() > 0 {
        law_lobby_stays_closed(s, steps.drop_last());
    }
}

/// Whatever happens after a player has joined, a later request to join under
/// the same name is turned down: with `NameTaken` while the lobby is open,
/// with `GameAlreadyStarted` once it has closed.
pub proof fn law_name_stays_taken(s: GameModel, steps: Seq<Step>, name: Seq<char>)
    requires
        s.accounts.contains_key(name),
    ensures
        s.after(steps).join_outcome(name) == if s.after(steps).phase is Joining {
            Err::<(), GameError>(GameError::NameTaken)
        } else {
            Err::<(), GameError>(GameError::GameAlreadyStarted)
        },
{
    law_names_persist(s, steps, name);
}

/// Once the round has advanced, every request to join is turned down with
/// `GameAlreadyStarted`, whatever the name and whatever happened in between.
pub proof fn law_join_closed_after_advance(
    s: GameModel,
    draws: Seq<u64>,
    steps: Seq<Step>,
    name: Seq<char>,
)
    ensures
        s.advanced(draws).after(steps).join_outcome(name) == Err::<(), GameError>(
            GameError::GameAlreadyStarted,
        ),
{
    law_lobby_stays_closed(s.advanced(draws), steps);
}

/// A wager is accepted exactly when a batch is open for betting, every pick
/// is a position of that batch, the player has an account, and the balance
/// covers the amount. An accepted wager becomes the pending wager of that
/// player and changes nothing else; a rejected one changes nothing.
pub proof fn law_wager_accepted_iff(s: GameModel, name: Seq<char>, wager: Wager)
    ensures
        s.wager_outcome(name, wager) is Ok <==> (s.phase matches Phase::Betting(i) && wager.fits(
            s.catalog[i as int].len(),
        ) && s.accounts.contains_key(name) && wager.amount <= s.accounts[name].stack),
        !(s.wager_outcome(name, wager) is Ok) ==> s.wagered(name, wager) == s,
        s.wager_outcome(name, wager) is Ok ==> {
            let t = s.wagered(name, wager);
            &&& t.phase == s.phase
            &&& t.catalog == s.catalog
            &&& t.accounts.dom() == s.accounts.dom()
            &&& t.accounts[name].stack == s.accounts[name].stack
            &&& t.accounts[name].wager == Some(wager)
            &&& forall|n: Seq<char>| n != name ==> t.accounts[n] == s.accounts[n]
        },
{
}

/// Advancing from betting on batch `i` reveals that batch and settles every
/// account once. An account without a wager keeps its balance. A wager that
/// wins adds its payout to the balance, which stops at the limit; a wager
/// that loses takes its amount off the balance. No account is opened or
/// closed, and no wager is pending afterwards, won or lost.
pub proof fn law_settlement(s: GameModel, draws: Seq<u64>)
    requires
        s.valid(),
        s.phase is Betting,
    ensures
        ({
            let i = s.phase->Betting_0;
            let outcomes = revealed(s.catalog[i as int], draws);
            let t = s.advanced(draws);
            &&& t.phase == Phase::Revealing(i, outcomes)
            &&& t.accounts.dom() == s.accounts.dom()
            &&& forall|n: Seq<char>| #[trigger]
                s.accounts.contains_key(n) ==> {
                    &&& t.accounts[n].wager is None
                    &&& t.accounts[n].stack == match s.accounts[n].wager {
                        None => s.accounts[n].stack,
                        Some(w) => if w.wins(outcomes) {
                            capped(s.accounts[n].stack + w.payout(outcomes))
                        } else {
                            (s.accounts[n].stack - w.amount) as nat
                        },
                    }
                    &&& s.accounts[n].wager matches Some(w) ==> w.amount <= s.accounts[n].stack
                }
        }),
{
}

/// Balances move only when a batch is revealed: joining, wagering, and an
/// advance out of any phase but betting leave every balance as it was.
pub proof fn law_balances_move_only_at_reveal(s: GameModel, step: Step, name: Seq<char>)
    requires
        s.accounts.contains_key(name),
        !(step is Tick && s.phase is Betting),
    ensures
        s.step(step).accounts.contains_key(name),
        s.step(step).accounts[name].stack == s.accounts[name].stack,
{
}

/// A finished game stays as it is: advancing it changes nothing, neither
/// the phase nor any account.
pub proof fn law_finished_is_idle(s: GameModel, draws: Seq<u64>)
    requires
        s.phase is Finished,
    ensures
        s.advanced(draws) == s,
{
}

/// A finished game takes no step at all: requests to join and wagers are
/// turned down and advances do nothing, so after every sequence of steps the
/// game is what it was.
pub proof fn law_finished_is_final(s: GameModel, steps: Seq<Step>)
    requires
        s.phase is Finished,
    ensures
        s.after(steps) == s,
    decreases steps.len(),
{
    if steps.len() > 0 {
        law_finished_is_final(s, steps.drop_last());
    }
}

/// A game on an empty catalog goes from the lobby straight to the end on its
/// first advance, with its accounts as they were.
pub proof fn law_empty_catalog_finishes(s: GameModel, draws: Seq<u64>)
    requires
        s.phase is Joining,
        s.catalog.len() == 0,
    ensures
        s.advanced(draws) == (GameModel { phase: Phase::Finished, ..s }),
{
}

impl GameModel {
    /// How far the game has come: the lobby is at 0, betting on batch `i` at
    /// `2i + 1`, the reveal of batch `i` at `2i + 2`, and the end past the
    /// reveal of the last batch.
    pub open spec fn progress(self) -> nat {
        match self.phase {
            Phase::Joining => 0,
            Phase::Betting(i) => 2 * i + 1,
            Phase::Revealing(i, _) => 2 * i + 2,
            Phase::Finished => 2 * self.catalog.len() + 1,
        }
    }
}

/// The round only moves forward. Joining and wagering leave the phase alone;
/// an advance moves a game that is not finished to a later phase. So each
/// batch is opened once, revealed once and settled once.
pub proof fn law_rounds_move_forward(s: GameModel, step: Step)
    requires
        s.valid(),
    ensures
        s.step(step).progress() >= s.progress(),
        step is Tick && !(s.phase is Finished) ==> s.step(step).progress() > s.progress(),
        !(step is Tick) ==> s.step(step).phase == s.phase,
{
}

} // verus!
