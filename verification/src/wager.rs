//! Wagers and the parlay rule.
//!
//! A wager names an amount and a set of flips of the batch that is open. It
//! is a parlay: it wins only if every flip it names lands on success, and it
//! then pays the amount times the product of the odds of those flips.

use vstd::prelude::*;
use vstd::arithmetic::div_mod::lemma_div_denominator;
use crate::catalog::{outcomes_model, EvaluatedFlip, Outcome};
use crate::wide::{saturate, scale, shrink, value};

verus! {

/// Model of a wager: the amount at stake and the positions picked in the
/// batch.
pub struct Wager {
    pub amount: nat,
    pub picks: Set<int>,
}

/// The set of positions that a list of picks names; a position named twice
/// is picked once.
pub open spec fn picks_of(flips: Seq<usize>) -> Set<int> {
    Set::new(|j: int| exists|k: int| 0 <= k < flips.len() && flips[k] == j)
}

/// The largest balance that an account can hold.
pub open spec fn limit() -> nat {
    u64::MAX as nat
}

/// `x`, or the limit where `x` is above it.
pub open spec fn capped(x: nat) -> nat {
    if x > limit() {
        limit()
    } else {
        x
    }
}

impl Wager {
    /// Every pick is a position of a batch of `legs` flips.
    pub open spec fn fits(self, legs: nat) -> bool {
        forall|j: int| self.picks.contains(j) ==> 0 <= j < legs
    }

    /// Every pick is a flip of the batch that landed on success.
    pub open spec fn wins(self, outcomes: Seq<Outcome>) -> bool {
        forall|j: int| self.picks.contains(j) ==> 0 <= j < outcomes.len() && outcomes[j].heads
    }

    /// The product of the numerators of the picked flips among the first
    /// `upto` of the batch.
    pub open spec fn numerators(self, outcomes: Seq<Outcome>, upto: nat) -> nat
        decreases upto,
    {
        if upto == 0 {
            1
        } else if self.picks.contains(upto - 1) {
            self.numerators(outcomes, (upto - 1) as nat) * outcomes[upto - 1].odds.num
        } else {
            self.numerators(outcomes, (upto - 1) as nat)
        }
    }

    /// The product of the denominators of the picked flips among the first
    /// `upto` of the batch.
    pub open spec fn denominators(self, outcomes: Seq<Outcome>, upto: nat) -> nat
        decreases upto,
    {
        if upto == 0 {
            1
        } else if self.picks.contains(upto - 1) {
            self.denominators(outcomes, (upto - 1) as nat) * outcomes[upto - 1].odds.den
        } else {
            self.denominators(outcomes, (upto - 1) as nat)
        }
    }

    /// What the wager pays when it wins: the amount times the product of the
    /// numerators, divided once by the product of the denominators and
    /// rounded down.
    pub open spec fn payout(self, outcomes: Seq<Outcome>) -> nat {
        (self.amount * self.numerators(outcomes, outcomes.len())) / self.denominators(
            outcomes,
            outcomes.len(),
        )
    }
}

/// A wager as a player hands it in: an amount and the positions of the
/// flips it rides on.
#[derive(Debug)]
pub struct Bet {
    amount: u64,
    flips: Vec<usize>,
}

impl View for Bet {
    type V = Wager;

    closed spec fn view(&self) -> Wager {
        Wager { amount: self.amount as nat, picks: picks_of(self.flips@) }
    }
}

impl Clone for Bet {
    fn clone(&self) -> (r: Self)
        ensures
            r@ == self@,
    {
        let flips = self.flips.clone();
        Bet { amount: self.amount, flips }
    }
}

impl Bet {
    /// A wager of `amount` on the flips at the positions `flips`.
    pub fn new(amount: u64, flips: Vec<usize>) -> (r: Self)
        ensures
            r@ == (Wager { amount: amount as nat, picks: picks_of(flips@) }),
    {
        Self { amount, flips }
    }

    /// The amount at stake.
    pub fn amount(&self) -> (r: u64)
        ensures
            r == self@.amount,
    {
        self.amount
    }

    /// Whether the wager picks the flip at position `j`.
    pub fn selects(&self, j: usize) -> (r: bool)
        ensures
            r == self@.picks.contains(j as int),
    {
        let mut k: usize = 0;
        while k < self.flips.len()
            invariant
                k <= self.flips.len(),
                forall|i: int| 0 <= i < k ==> self.flips@[i] != j,
            decreases self.flips.len() - k,
        {
            if self.flips[k] == j {
                return true;
            }
            k += 1;
        }
        false
    }

    /// Whether every pick is a position of a batch of `legs` flips.
    pub fn fits(&self, legs: usize) -> (r: bool)
        ensures
            r == self@.fits(legs as nat),
    {
        let mut k: usize = 0;
        while k < self.flips.len()
            invariant
                k <= self.flips.len(),
                forall|i: int| 0 <= i < k ==> self.flips@[i] < legs,
            decreases self.flips.len() - k,
        {
            if self.flips[k] >= legs {
                assert(self@.picks.contains(self.flips@[k as int] as int));
                return false;
            }
            k += 1;
        }
        true
    }

    /// Whether the wager wins on the revealed batch.
    pub fn wins(&self, outcomes: &Vec<EvaluatedFlip>) -> (r: bool)
        ensures
            r == self@.wins(outcomes_model(outcomes@)),
    {
        let mut k: usize = 0;
        while k < self.flips.len()
            invariant
                k <= self.flips.len(),
                forall|i: int|
                    0 <= i < k ==> self.flips@[i] < outcomes.len() && outcomes@[self.flips@[i] as int]@.heads,
            decreases self.flips.len() - k,
        {
            let j: usize = self.flips[k];
            if j >= outcomes.len() || !outcomes[j].is_heads() {
                assert(self@.picks.contains(j as int));
                return false;
            }
            k += 1;
        }
        true
    }

    /// What the wager pays when it wins on the revealed batch, or the
    /// largest `u64` where the payout is above that.
    pub fn payout(&self, outcomes: &Vec<EvaluatedFlip>) -> (r: u64)
        ensures
            r == capped(self@.payout(outcomes_model(outcomes@))),
    {
        let ghost model = outcomes_model(outcomes@);
        let ghost wager = self@;
        let n: usize = outcomes.len();
        let mut x: Vec<u64> = Vec::new();
        x.push(self.amount);
        proof {
            assert(value(x@.drop_last()) == 0);
        }
        let mut j: usize = 0;
        while j < n
            invariant
                j <= n,
                n == outcomes.len(),
                model == outcomes_model(outcomes@),
                wager == self@,
                value(x@) == wager.amount * wager.numerators(model, j as nat),
            decreases n - j,
        {
            if self.selects(j) {
                let m: u64 = outcomes[j].payout().numerator();
                proof {
                    let before = wager.numerators(model, j as nat);
                    assert((wager.amount * before) * m == wager.amount * (before * m))
                        by (nonlinear_arith);
                }
                x = scale(&x, m);
            }
            j += 1;
        }
        let ghost total = wager.amount * wager.numerators(model, n as nat);
        let mut j: usize = 0;
        while j < n
            invariant
                j <= n,
                n == outcomes.len(),
                model == outcomes_model(outcomes@),
                wager == self@,
                wager.denominators(model, j as nat) > 0,
                value(x@) == total / wager.denominators(model, j as nat),
            decreases n - j,
        {
            if self.selects(j) {
                let d: u64 = outcomes[j].payout().denominator();
                proof {
                    let before = wager.denominators(model, j as nat);
                    lemma_div_denominator(total as int, before as int, d as int);
                }
                x = shrink(&x, d);
            }
            j += 1;
        }
        saturate(&x)
    }
}

} // verus!
