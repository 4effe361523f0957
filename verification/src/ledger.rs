//! The player ledger: one account per player, found by the player's name.
//!
//! The names are kept in the order in which the players joined, and no name
//! occurs twice. An account holds a balance and at most one pending wager,
//! whose amount the balance covers.

use vstd::prelude::*;
use crate::catalog::{outcomes_model, EvaluatedFlip, Outcome};
use crate::wager::{capped, limit, Bet, Wager};

verus! {

/// Model of an account: the balance and the pending wager, if there is one.
pub struct Account {
    pub stack: nat,
    pub wager: Option<Wager>,
}

/// The balance that every player starts with.
pub open spec fn opening_stack() -> nat {
    10000
}

impl Account {
    /// The account of a player who has just joined.
    pub open spec fn fresh() -> Account {
        Account { stack: opening_stack(), wager: None }
    }

    /// The account with its pending wager dropped and its balance kept.
    pub open spec fn cleared(self) -> Account {
        Account { stack: self.stack, wager: None }
    }

    /// The account with `wager` pending and its balance kept.
    pub open spec fn staking(self, wager: Wager) -> Account {
        Account { stack: self.stack, wager: Some(wager) }
    }

    /// The balance is one that a machine word holds, and it covers the
    /// pending wager.
    pub open spec fn covered(self) -> bool {
        &&& self.stack <= limit()
        &&& self.wager matches Some(w) ==> w.amount <= self.stack
    }

    /// The account after the batch was revealed. Without a pending wager
    /// nothing changes. A wager that wins adds its payout to the balance,
    /// which stops at the limit; one that loses takes its amount off the
    /// balance. Either way no wager is pending afterwards.
    pub open spec fn settled(self, outcomes: Seq<Outcome>) -> Account {
        match self.wager {
            None => self,
            Some(w) => Account {
                stack: if w.wins(outcomes) {
                    capped(self.stack + w.payout(outcomes))
                } else {
                    (self.stack - w.amount) as nat
                },
                wager: None,
            },
        }
    }
}

/// Every account with its pending wager dropped.
pub open spec fn clear_all(accounts: Map<Seq<char>, Account>) -> Map<Seq<char>, Account> {
    Map::new(|n: Seq<char>| accounts.contains_key(n), |n: Seq<char>| accounts[n].cleared())
}

/// Every account settled on the revealed batch.
pub open spec fn settle_all(accounts: Map<Seq<char>, Account>, outcomes: Seq<Outcome>) -> Map<
    Seq<char>,
    Account,
> {
    Map::new(
        |n: Seq<char>| accounts.contains_key(n),
        |n: Seq<char>| accounts[n].settled(outcomes),
    )
}

/// A player's balance and pending wager.
pub(crate) struct Player {
    stack: u64,
    current_bet: Option<Bet>,
}

impl View for Player {
    type V = Account;

    closed spec fn view(&self) -> Account {
        Account {
            stack: self.stack as nat,
            wager: match self.current_bet {
                Some(bet) => Some(bet@),
                None => None,
            },
        }
    }
}

impl Default for Player {
    fn default() -> (r: Self)
        ensures
            r@ == Account::fresh(),
    {
        Self { stack: 10000, current_bet: None }
    }
}

impl Player {
    /// The player after the batch was revealed.
    fn settled(&self, outcomes: &Vec<EvaluatedFlip>) -> (r: Player)
        requires
            self@.covered(),
        ensures
            r@ == self@.settled(outcomes_model(outcomes@)),
            r@.covered(),
    {
        match &self.current_bet {
            None => Player { stack: self.stack, current_bet: None },
            Some(bet) => {
                if bet.wins(outcomes) {
                    let won: u64 = bet.payout(outcomes);
                    let stack: u64 = if won > u64::MAX - self.stack {
                        u64::MAX
                    } else {
                        self.stack + won
                    };
                    Player { stack, current_bet: None }
                } else {
                    Player { stack: self.stack - bet.amount(), current_bet: None }
                }
            },
        }
    }
}

/// Whether `name` is one of `names`.
pub(crate) open spec fn seated(names: Seq<String>, name: Seq<char>) -> bool {
    exists|i: int| 0 <= i < names.len() && #[trigger] names[i]@ == name
}

/// A position at which `names` holds `name`.
pub(crate) open spec fn seat(names: Seq<String>, name: Seq<char>) -> int {
    choose|i: int| 0 <= i < names.len() && #[trigger] names[i]@ == name
}

/// No name occurs twice.
pub(crate) open spec fn distinct(names: Seq<String>) -> bool {
    forall|i: int, j: int|
        0 <= i < names.len() && 0 <= j < names.len() && #[trigger] names[i]@ == #[trigger] names[j]@
            ==> i == j
}

/// The accounts that the two columns of the ledger stand for.
pub(crate) open spec fn accounts_of(names: Seq<String>, players: Seq<Player>) -> Map<
    Seq<char>,
    Account,
> {
    Map::new(|n: Seq<char>| seated(names, n), |n: Seq<char>| players[seat(names, n)]@)
}

/// The accounts of all players.
pub(crate) struct Ledger {
    names: Vec<String>,
    players: Vec<Player>,
}

impl Ledger {
    pub(crate) closed spec fn view(&self) -> Map<Seq<char>, Account> {
        accounts_of(self.names@, self.players@)
    }

    /// Each name has its account, no name occurs twice, and every balance
    /// covers its pending wager.
    pub(crate) closed spec fn wf(&self) -> bool {
        &&& self.names.len() == self.players.len()
        &&& distinct(self.names@)
        &&& forall|i: int| 0 <= i < self.players.len() ==> (#[trigger] self.players@[i])@.covered()
    }

    /// The number of accounts.
    pub(crate) closed spec fn count(&self) -> nat {
        self.names@.len()
    }

    /// The name at position `i`.
    pub(crate) closed spec fn name_at(&self, i: int) -> Seq<char> {
        self.names@[i]@
    }

    /// The account at position `i`.
    pub(crate) closed spec fn account_at(&self, i: int) -> Account {
        self.players@[i]@
    }

    pub(crate) fn new() -> (r: Ledger)
        ensures
            r.wf(),
            r@ == Map::<Seq<char>, Account>::empty(),
    {
        Ledger { names: Vec::new(), players: Vec::new() }
    }

    /// The position of the account of `name`, if it has one.
    pub(crate) fn find(&self, name: &String) -> (r: Option<usize>)
        requires
            self.wf(),
        ensures
            r is Some <==> self@.contains_key(name@),
            r matches Some(i) ==> i < self.count() && self.name_at(i as int) == name@
                && self@[name@] == self.account_at(i as int),
    {
        let mut i: usize = 0;
        while i < self.names.len()
            invariant
                i <= self.names.len(),
                self.wf(),
                forall|k: int| 0 <= k < i ==> self.names@[k]@ != name@,
            decreases self.names.len() - i,
        {
            if self.names[i] == *name {
                return Some(i);
            }
            i += 1;
        }
        None
    }

    /// The balance at position `i`.
    pub(crate) fn stack_at(&self, i: usize) -> (r: u64)
        requires
            self.wf(),
            i < self.count(),
        ensures
            r == self.account_at(i as int).stack,
    {
        self.players[i].stack
    }

    /// Opens a fresh account for `name`.
    pub(crate) fn join(&mut self, name: String)
        requires
            old(self).wf(),
            !old(self)@.contains_key(name@),
        ensures
            final(self).wf(),
            final(self)@ == old(self)@.insert(name@, Account::fresh()),
    {
        let ghost before = *self;
        let ghost key = name@;
        self.names.push(name);
        self.players.push(Player::default());
        proof {
            let last = before.names.len() as int;
            assert(forall|i: int| 0 <= i < last ==> self.names@[i] == before.names@[i]);
            assert(self.names@[last]@ == key);
            assert forall|n: Seq<char>| seated(before.names@, n) implies seated(self.names@, n) by {
                assert(self.names@[seat(before.names@, n)]@ == n);
            }
            assert forall|n: Seq<char>| seated(self.names@, n) && n != key implies seated(
                before.names@,
                n,
            ) && seat(self.names@, n) == seat(before.names@, n) by {
                assert(before.names@[seat(self.names@, n)]@ == n);
            }
        }
    }

    /// Records `bet` as the pending wager of the account at position `i`.
    pub(crate) fn place(&mut self, i: usize, bet: Bet)
        requires
            old(self).wf(),
            i < old(self).count(),
            bet@.amount <= old(self).account_at(i as int).stack,
        ensures
            final(self).wf(),
            final(self)@ == old(self)@.insert(
                old(self).name_at(i as int),
                old(self).account_at(i as int).staking(bet@),
            ),
    {
        let ghost before = *self;
        let stack: u64 = self.players[i].stack;
        self.players.set(i, Player { stack, current_bet: Some(bet) });
        proof {
            assert(seat(self.names@, before.name_at(i as int)) == i);
        }
    }

    /// Drops every pending wager.
    pub(crate) fn clear_wagers(&mut self)
        requires
            old(self).wf(),
        ensures
            final(self).wf(),
            final(self)@ == clear_all(old(self)@),
    {
        let ghost before = *self;
        let mut i: usize = 0;
        while i < self.players.len()
            invariant
                i <= self.players.len(),
                before.wf(),
                self.names@ == before.names@,
                self.players.len() == before.players.len(),
                forall|k: int| 0 <= k < i ==> self.players@[k]@ == before.players@[k]@.cleared(),
                forall|k: int| i <= k < self.players.len() ==> self.players@[k] == before.players@[k],
            decreases self.players.len() - i,
        {
            let stack: u64 = self.players[i].stack;
            self.players.set(i, Player { stack, current_bet: None });
            i += 1;
        }
    }

    /// Settles every account on the revealed batch.
    pub(crate) fn settle(&mut self, outcomes: &Vec<EvaluatedFlip>)
        requires
            old(self).wf(),
        ensures
            final(self).wf(),
            final(self)@ == settle_all(old(self)@, outcomes_model(outcomes@)),
    {
        let ghost before = *self;
        let ghost model = outcomes_model(outcomes@);
        let mut i: usize = 0;
        while i < self.players.len()
            invariant
                i <= self.players.len(),
                before.wf(),
                model == outcomes_model(outcomes@),
                self.names@ == before.names@,
                self.players.len() == before.players.len(),
                forall|k: int|
                    0 <= k < i ==> self.players@[k]@ == before.players@[k]@.settled(model)
                        && self.players@[k]@.covered(),
                forall|k: int| i <= k < self.players.len() ==> self.players@[k] == before.players@[k],
            decreases self.players.len() - i,
        {
            let player = self.players[i].settled(outcomes);
            self.players.set(i, player);
            i += 1;
        }
    }
}

} // verus!
