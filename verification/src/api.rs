//! The requests that players send and the answers they get, as far as they
//! are decided without touching the transport.
//!
//! A player is known to the request layer by a session; `None` stands for a
//! request that came without one.

use vstd::prelude::*;
use crate::error::GameError;
use crate::game::Game;
use crate::rules::GameModel;
use crate::sequencer::{Mode, ModeModel};
use crate::wager::{picks_of, Bet, Wager};

verus! {

/// A request to join the game.
pub struct JoinRequest {
    name: String,
}

impl View for JoinRequest {
    type V = Seq<char>;

    closed spec fn view(&self) -> Seq<char> {
        self.name@
    }
}

impl JoinRequest {
    /// A request to join under `name`.
    pub fn new(name: String) -> (r: Self)
        ensures
            r@ == name@,
    {
        Self { name }
    }

    /// The name asked for.
    pub fn name(&self) -> (r: &String)
        ensures
            r@ == self@,
    {
        &self.name
    }
}

/// A request to place a wager.
pub struct BetRequest {
    amount: u64,
    indexes: Vec<usize>,
}

impl View for BetRequest {
    type V = Wager;

    closed spec fn view(&self) -> Wager {
        Wager { amount: self.amount as nat, picks: picks_of(self.indexes@) }
    }
}

impl BetRequest {
    /// A request to stake `amount` on the flips at `indexes`.
    pub fn new(amount: u64, indexes: Vec<usize>) -> (r: Self)
        ensures
            r@ == (Wager { amount: amount as nat, picks: picks_of(indexes@) }),
    {
        Self { amount, indexes }
    }

    /// The amount at stake.
    pub fn amount(&self) -> (r: u64)
        ensures
            r == self@.amount,
    {
        self.amount
    }

    /// The positions picked.
    pub fn indexes(&self) -> (r: &Vec<usize>)
        ensures
            picks_of(r@) == self@.picks,
    {
        &self.indexes
    }
}

/// Model of what a player is shown.
pub struct UpdateModel {
    pub mode: ModeModel,
    pub stack: Option<nat>,
}

/// What a player is shown: the mode of the game and, for a player who has
/// joined, the balance.
pub struct Update {
    mode: Mode,
    stack: Option<u64>,
}

impl View for Update {
    type V = UpdateModel;

    closed spec fn view(&self) -> UpdateModel {
        UpdateModel {
            mode: self.mode@,
            stack: match self.stack {
                Some(stack) => Some(stack as nat),
                None => None,
            },
        }
    }
}

impl Update {
    /// The mode of the game.
    pub fn mode(&self) -> (r: &Mode)
        ensures
            r@ == self@.mode,
    {
        &self.mode
    }

    /// The balance of the player, if the player has joined.
    pub fn stack(&self) -> (r: Option<u64>)
        ensures
            match r {
                Some(stack) => self@.stack == Some(stack as nat),
                None => self@.stack is None,
            },
    {
        self.stack
    }
}

/// Why a request to place a wager was turned down.
#[derive(Clone, Copy, Debug, PartialEq, Eq, Structural)]
pub enum BetRefusal {
    /// The request came without a session.
    NotSignedIn,
    /// The game rejected the wager.
    Rejected(GameError),
}

/// What becomes of a wager that comes from `player`.
pub open spec fn bet_outcome(game: GameModel, player: Option<Seq<char>>, wager: Wager) -> Result<
    (),
    BetRefusal,
> {
    match player {
        None => Err(BetRefusal::NotSignedIn),
        Some(name) => match game.wager_outcome(name, wager) {
            Ok(_) => Ok(()),
            Err(e) => Err(BetRefusal::Rejected(e)),
        },
    }
}

/// The view of a name that may be absent.
pub open spec fn name_model(player: Option<String>) -> Option<Seq<char>> {
    match player {
        Some(name) => Some(name@),
        None => None,
    }
}

/// Lets the player named in the request join, and hands back the name under
/// which the session is to be kept. The game's answer is passed on as it is.
pub fn join_game(game: &mut Game, request: JoinRequest) -> (r: Result<String, GameError>)
    requires
        old(game).wf(),
    ensures
        final(game).wf(),
        final(game)@ == old(game)@.joined(request@),
        match r {
            Ok(name) => old(game)@.join_outcome(request@) is Ok && name@ == request@,
            Err(e) => old(game)@.join_outcome(request@) == Err::<(), GameError>(e),
        },
{
    let name = request.name;
    match game.add_player(name.clone()) {
        Ok(_) => Ok(name),
        Err(e) => Err(e),
    }
}

/// Places the wager of the request for the player of the session. Without a
/// session the request is turned down and the game is not asked.
pub fn place_bet(game: &mut Game, player: Option<String>, request: BetRequest) -> (r: Result<
    (),
    BetRefusal,
>)
    requires
        old(game).wf(),
    ensures
        final(game).wf(),
        r == bet_outcome(old(game)@, name_model(player), request@),
        final(game)@ == match player {
            Some(name) => old(game)@.wagered(name@, request@),
            None => old(game)@,
        },
{
    let player = match player {
        Some(name) => name,
        None => {
            return Err(BetRefusal::NotSignedIn);
        },
    };
    match game.bet(player, Bet::new(request.amount, request.indexes)) {
        Ok(_) => Ok(()),
        Err(e) => Err(BetRefusal::Rejected(e)),
    }
}

/// What the player of the session is shown: the mode of the game and the
/// player's balance. Without a session, and for a name that has not joined,
/// the balance is absent.
pub fn get_player_state(game: &Game, player: Option<String>) -> (r: Update)
    requires
        game.wf(),
    ensures
        r@.mode == game@.mode(),
        r@.stack == match player {
            Some(name) => game@.stack_of(name@),
            None => None,
        },
{
    let stack: Option<u64> = match player {
        Some(name) => match game.get_stack(name) {
            Ok(stack) => Some(stack),
            Err(_) => None,
        },
        None => None,
    };
    Update { mode: game.mode(), stack }
}

} // verus!
