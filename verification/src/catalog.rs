//! The flip catalog: payout odds, flip definitions and revealed flips.
//!
//! Each executable type has a mathematical model, reached with `@`; the
//! rules of the game are stated over the models.

use vstd::prelude::*;

verus! {

/// Model of payout odds: the ratio `num : den`.
pub struct Odds {
    pub num: nat,
    pub den: nat,
}

/// Model of a flip: its odds and its chance of success in percent.
pub struct FlipModel {
    pub odds: Odds,
    pub chance: nat,
}

/// Model of a revealed flip: its odds and whether it landed on success.
pub struct Outcome {
    pub odds: Odds,
    pub heads: bool,
}

impl FlipModel {
    /// What the flip reveals on the draw `draw`: it succeeds when the draw,
    /// reduced to `0..100`, is below the chance.
    pub open spec fn landed(self, draw: u64) -> Outcome {
        Outcome { odds: self.odds, heads: (draw % 100) < self.chance }
    }
}

/// What a batch reveals on the draws `draws`, flip by flip.
pub open spec fn revealed(batch: Seq<FlipModel>, draws: Seq<u64>) -> Seq<Outcome> {
    Seq::new(batch.len(), |j: int| batch[j].landed(draws[j]))
}

/// Payout odds as a ratio `numerator : denominator`, with a denominator that
/// is never zero.
#[derive(Clone, Copy, Debug)]
pub struct Payout {
    numerator: u64,
    denominator: u64,
}

impl View for Payout {
    type V = Odds;

    closed spec fn view(&self) -> Odds {
        Odds { num: self.numerator as nat, den: self.denominator as nat }
    }
}

impl Payout {
    #[verifier::type_invariant]
    spec fn well_formed(self) -> bool {
        self.denominator > 0
    }

    /// The odds `numerator : denominator`, or nothing where the denominator
    /// is zero.
    pub fn new(numerator: u64, denominator: u64) -> (r: Option<Payout>)
        ensures
            r.is_some() <==> denominator > 0,
            r matches Some(p) ==> p@ == (Odds { num: numerator as nat, den: denominator as nat }),
    {
        if denominator == 0 {
            None
        } else {
            Some(Payout { numerator, denominator })
        }
    }

    /// The first term of the ratio.
    pub fn numerator(&self) -> (r: u64)
        ensures
            r == self@.num,
    {
        self.numerator
    }

    /// The second term of the ratio, which is not zero.
    pub fn denominator(&self) -> (r: u64)
        ensures
            r == self@.den,
            r > 0,
    {
        proof {
            use_type_invariant(self);
        }
        self.denominator
    }
}

/// A revealed flip.
#[derive(Clone, Copy, Debug)]
pub struct EvaluatedFlip {
    payout: Payout,
    is_heads: bool,
}

impl View for EvaluatedFlip {
    type V = Outcome;

    closed spec fn view(&self) -> Outcome {
        Outcome { odds: self.payout@, heads: self.is_heads }
    }
}

impl EvaluatedFlip {
    /// The odds of the flip that was revealed.
    pub fn payout(&self) -> (r: Payout)
        ensures
            r@ == self@.odds,
    {
        self.payout
    }

    /// Whether the flip landed on success.
    pub fn is_heads(&self) -> (r: bool)
        ensures
            r == self@.heads,
    {
        self.is_heads
    }
}

/// A weighted coin flip: its payout odds and its chance of success, which is
/// at most 100 percent.
#[derive(Clone, Copy, Debug)]
pub struct Flip {
    payout: Payout,
    probability: u64,
}

impl View for Flip {
    type V = FlipModel;

    closed spec fn view(&self) -> FlipModel {
        FlipModel { odds: self.payout@, chance: self.probability as nat }
    }
}

/// Source of the draws that decide flips.
///
/// Calls `rand::random::<u64>()`, which takes the next value of the thread's
/// generator. Nothing is claimed of that value: every `u64` can come back.
#[verifier::external_body]
fn draw() -> u64 {
    rand::random::<u64>()
}

impl Flip {
    #[verifier::type_invariant]
    spec fn well_formed(self) -> bool {
        self.probability <= 100
    }

    /// A flip with the given odds and chance, or nothing where the chance is
    /// above 100 percent.
    pub fn new(payout: Payout, probability: u64) -> (r: Option<Flip>)
        ensures
            r.is_some() <==> probability <= 100,
            r matches Some(f) ==> f@ == (FlipModel { odds: payout@, chance: probability as nat }),
    {
        if probability > 100 {
            None
        } else {
            Some(Flip { payout, probability })
        }
    }

    /// The odds paid on success.
    pub fn payout(&self) -> (r: Payout)
        ensures
            r@ == self@.odds,
    {
        self.payout
    }

    /// The chance of success in percent.
    pub fn probability(&self) -> (r: u64)
        ensures
            r == self@.chance,
            r <= 100,
    {
        proof {
            use_type_invariant(self);
        }
        self.probability
    }

    /// Reveals the flip on a given draw.
    pub fn land(self, draw: u64) -> (r: EvaluatedFlip)
        ensures
            r@ == self@.landed(draw),
    {
        EvaluatedFlip { payout: self.payout, is_heads: (draw % 100) < self.probability }
    }

    /// Reveals the flip on a fresh random draw. Whatever the draw, the odds
    /// are kept, a flip of chance 100 succeeds and one of chance 0 fails.
    pub fn roll(self) -> (r: EvaluatedFlip)
        ensures
            exists|d: u64| r@ == self@.landed(d),
    {
        let d = draw();
        self.land(d)
    }
}

/// The models of the flips of a batch.
pub open spec fn batch_model(batch: Seq<Flip>) -> Seq<FlipModel> {
    Seq::new(batch.len(), |j: int| batch[j]@)
}

/// The models of the revealed flips of a batch.
pub open spec fn outcomes_model(outcomes: Seq<EvaluatedFlip>) -> Seq<Outcome> {
    Seq::new(outcomes.len(), |j: int| outcomes[j]@)
}

/// The models of the batches of a catalog.
pub open spec fn catalog_model(catalog: Seq<Vec<Flip>>) -> Seq<Seq<FlipModel>> {
    Seq::new(catalog.len(), |i: int| batch_model(catalog[i]@))
}

} // verus!
