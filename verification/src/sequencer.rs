//! The round sequencer: the order of the phases that a catalog gives rise to.
//!
//! For each batch in turn the sequencer first opens betting on it and then
//! reveals it. It holds no player data.

use vstd::prelude::*;
use crate::catalog::{
    batch_model,
    catalog_model,
    outcomes_model,
    revealed,
    EvaluatedFlip,
    Flip,
    FlipModel,
    Outcome,
};

verus! {

/// Model of a mode.
pub enum ModeModel {
    Joining,
    Betting(Seq<FlipModel>),
    BetResults(Seq<Outcome>),
    Results,
}

/// What the game is doing: waiting for players, taking bets on a batch,
/// showing how a batch landed, or over.
#[derive(Debug)]
pub enum Mode {
    Joining,
    Betting(Vec<Flip>),
    BetResults(Vec<EvaluatedFlip>),
    Results,
}

impl View for Mode {
    type V = ModeModel;

    open spec fn view(&self) -> ModeModel {
        match *self {
            Mode::Joining => ModeModel::Joining,
            Mode::Betting(flips) => ModeModel::Betting(batch_model(flips@)),
            Mode::BetResults(outcomes) => ModeModel::BetResults(outcomes_model(outcomes@)),
            Mode::Results => ModeModel::Results,
        }
    }
}

impl Clone for Mode {
    fn clone(&self) -> (r: Self)
        ensures
            r@ == self@,
    {
        match self {
            Mode::Joining => Mode::Joining,
            Mode::Betting(flips) => Mode::Betting(flips.clone()),
            Mode::BetResults(outcomes) => Mode::BetResults(outcomes.clone()),
            Mode::Results => Mode::Results,
        }
    }
}

/// Model of the sequencer: the catalog, the batch that is next to be
/// revealed, and whether betting on it has yet to open.
pub struct Sequencer {
    pub catalog: Seq<Seq<FlipModel>>,
    pub cursor: nat,
    pub awaiting_bets: bool,
}

impl Sequencer {
    /// The catalog is used up.
    pub open spec fn exhausted(self) -> bool {
        self.cursor >= self.catalog.len()
    }

    /// How many random draws the next step takes: one for each flip of the
    /// batch that it reveals, none where it reveals no batch.
    pub open spec fn draws_needed(self) -> nat {
        if !self.exhausted() && !self.awaiting_bets {
            self.catalog[self.cursor as int].len()
        } else {
            0
        }
    }

    /// The mode that the next step yields on the draws `draws`: nothing once
    /// the catalog is used up; else betting on the batch under the cursor if
    /// that has yet to open; else that batch as revealed on the draws.
    pub open spec fn yielded(self, draws: Seq<u64>) -> Option<ModeModel> {
        if self.exhausted() {
            None
        } else if self.awaiting_bets {
            Some(ModeModel::Betting(self.catalog[self.cursor as int]))
        } else {
            Some(ModeModel::BetResults(revealed(self.catalog[self.cursor as int], draws)))
        }
    }

    /// The sequencer after the next step: unchanged once the catalog is used
    /// up; else waiting for the reveal once betting has opened; else moved on
    /// to the next batch.
    pub open spec fn stepped(self) -> Sequencer {
        if self.exhausted() {
            self
        } else if self.awaiting_bets {
            Sequencer { awaiting_bets: false, ..self }
        } else {
            Sequencer { cursor: self.cursor + 1, awaiting_bets: true, ..self }
        }
    }
}

/// The model of a mode that may be absent.
pub open spec fn yield_model(mode: Option<Mode>) -> Option<ModeModel> {
    match mode {
        Some(m) => Some(m@),
        None => None,
    }
}

/// Walks a catalog batch by batch, yielding for each batch first the mode
/// that takes bets on it and then the mode that shows how it landed.
pub struct ModeIterator {
    flips: Vec<Vec<Flip>>,
    idx: usize,
    first: bool,
}

impl View for ModeIterator {
    type V = Sequencer;

    closed spec fn view(&self) -> Sequencer {
        Sequencer {
            catalog: catalog_model(self.flips@),
            cursor: self.idx as nat,
            awaiting_bets: self.first,
        }
    }
}

impl ModeIterator {
    /// A sequencer at the start of the catalog `flips`.
    pub fn new(flips: Vec<Vec<Flip>>) -> (r: Self)
        ensures
            r@ == (Sequencer { catalog: catalog_model(flips@), cursor: 0, awaiting_bets: true }),
    {
        Self { flips, idx: 0, first: true }
    }

    /// Takes the next step. Revealing a batch draws one random number for
    /// each of its flips; the contract holds for whatever was drawn.
    pub fn next(&mut self) -> (r: Option<Mode>)
        ensures
            final(self)@ == old(self)@.stepped(),
            exists|draws: Seq<u64>|
                draws.len() == old(self)@.draws_needed() && yield_model(r)
                    == #[trigger] old(self)@.yielded(draws),
    {
        if self.idx >= self.flips.len() {
            None
        } else if self.first {
            let flips = self.flips[self.idx].clone();
            self.first = false;
            assert(yield_model(Some(Mode::Betting(flips))) == old(self)@.yielded(
                Seq::<u64>::empty(),
            ));
            Some(Mode::Betting(flips))
        } else {
            let batch = &self.flips[self.idx];
            let ghost model = batch_model(batch@);
            let mut outcomes: Vec<EvaluatedFlip> = Vec::new();
            let ghost mut draws: Seq<u64> = Seq::empty();
            let mut j: usize = 0;
            while j < batch.len()
                invariant
                    j <= batch.len(),
                    model == batch_model(batch@),
                    outcomes.len() == j,
                    draws.len() == j,
                    forall|k: int| 0 <= k < j ==> outcomes@[k]@ == model[k].landed(draws[k]),
                decreases batch.len() - j,
            {
                let outcome = batch[j].roll();
                proof {
                    let d = choose|d: u64| outcome@ == batch@[j as int]@.landed(d);
                    draws = draws.push(d);
                }
                outcomes.push(outcome);
                j += 1;
            }
            proof {
                assert(outcomes_model(outcomes@) =~= revealed(model, draws));
            }
            self.first = true;
            self.idx += 1;
            assert(yield_model(Some(Mode::BetResults(outcomes))) == old(self)@.yielded(draws));
            Some(Mode::BetResults(outcomes))
        }
    }
}

} // verus!
