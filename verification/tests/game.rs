use backend::game::{Bet, Flip, Game, GameError, Mode, Payout};

fn flip(numerator: u64, denominator: u64, probability: u64) -> Flip {
    Flip::new(Payout::new(numerator, denominator).unwrap(), probability).unwrap()
}

fn name(s: &str) -> String {
    s.to_string()
}

/// A game with alice in it, betting open on the first batch.
fn open_game(catalog: Vec<Vec<Flip>>) -> Game {
    let mut game = Game::new(catalog);
    game.add_player(name("alice")).unwrap();
    game.tick();
    game
}

#[test]
fn new_game_is_joining_and_empty() {
    let game = Game::new(vec![vec![flip(2, 1, 100)]]);
    assert!(matches!(game.mode(), Mode::Joining));
    assert_eq!(game.get_stack(name("alice")), Err(GameError::UnknownPlayer));
}

#[test]
fn join_gives_the_opening_balance() {
    let mut game = Game::new(vec![]);
    assert_eq!(game.add_player(name("alice")), Ok(()));
    assert_eq!(game.get_stack(name("alice")), Ok(10000));
}

#[test]
fn join_succeeds_once_per_name() {
    let mut game = Game::new(vec![vec![flip(2, 1, 100)]]);
    assert_eq!(game.add_player(name("alice")), Ok(()));
    assert_eq!(game.add_player(name("alice")), Err(GameError::NameTaken));
    assert_eq!(game.add_player(name("bob")), Ok(()));
    assert_eq!(game.add_player(name("alice")), Err(GameError::NameTaken));
    assert_eq!(game.add_player(name("bob")), Err(GameError::NameTaken));
    assert_eq!(game.get_stack(name("alice")), Ok(10000));
    assert_eq!(game.get_stack(name("bob")), Ok(10000));
}

#[test]
fn names_are_case_sensitive() {
    let mut game = Game::new(vec![]);
    assert_eq!(game.add_player(name("alice")), Ok(()));
    assert_eq!(game.add_player(name("Alice")), Ok(()));
    assert_eq!(game.add_player(name("")), Ok(()));
    assert_eq!(game.add_player(name("")), Err(GameError::NameTaken));
    assert_eq!(game.get_stack(name("ALICE")), Err(GameError::UnknownPlayer));
}

#[test]
fn join_after_the_first_advance_is_too_late() {
    let mut game = Game::new(vec![vec![flip(2, 1, 100)]]);
    game.add_player(name("alice")).unwrap();
    game.tick();
    assert_eq!(game.add_player(name("bob")), Err(GameError::GameAlreadyStarted));
    assert_eq!(game.add_player(name("alice")), Err(GameError::GameAlreadyStarted));
    game.tick();
    assert_eq!(game.add_player(name("bob")), Err(GameError::GameAlreadyStarted));
    game.tick();
    assert!(matches!(game.mode(), Mode::Results));
    assert_eq!(game.add_player(name("bob")), Err(GameError::GameAlreadyStarted));
    assert_eq!(game.get_stack(name("bob")), Err(GameError::UnknownPlayer));
}

#[test]
fn modes_follow_the_catalog() {
    let mut game = Game::new(vec![vec![flip(2, 1, 100), flip(3, 1, 0)], vec![flip(7, 5, 100)]]);
    assert!(matches!(game.mode(), Mode::Joining));
    game.tick();
    match game.mode() {
        Mode::Betting(flips) => {
            assert_eq!(flips.len(), 2);
            assert_eq!(flips[1].payout().numerator(), 3);
        }
        _ => panic!("betting on the first batch"),
    }
    game.tick();
    match game.mode() {
        Mode::BetResults(outcomes) => {
            assert_eq!(outcomes.len(), 2);
            assert!(outcomes[0].is_heads());
            assert!(!outcomes[1].is_heads());
        }
        _ => panic!("results of the first batch"),
    }
    game.tick();
    match game.mode() {
        Mode::Betting(flips) => {
            assert_eq!(flips.len(), 1);
            assert_eq!(flips[0].payout().numerator(), 7);
            assert_eq!(flips[0].payout().denominator(), 5);
        }
        _ => panic!("betting on the second batch"),
    }
    game.tick();
    assert!(matches!(game.mode(), Mode::BetResults(o) if o.len() == 1 && o[0].is_heads()));
    game.tick();
    assert!(matches!(game.mode(), Mode::Results));
}

#[test]
fn empty_catalog_goes_straight_to_the_end() {
    let mut game = Game::new(vec![]);
    game.add_player(name("alice")).unwrap();
    assert!(matches!(game.mode(), Mode::Joining));
    game.tick();
    assert!(matches!(game.mode(), Mode::Results));
    assert_eq!(game.get_stack(name("alice")), Ok(10000));
}

#[test]
fn finished_game_stays_finished() {
    let mut game = Game::new(vec![vec![flip(2, 1, 100)]]);
    game.add_player(name("alice")).unwrap();
    game.tick();
    game.bet(name("alice"), Bet::new(100, vec![0])).unwrap();
    game.tick();
    game.tick();
    assert!(matches!(game.mode(), Mode::Results));
    let stack = game.get_stack(name("alice"));
    for _ in 0..5 {
        game.tick();
        assert!(matches!(game.mode(), Mode::Results));
        assert_eq!(game.get_stack(name("alice")), stack);
    }
    assert_eq!(game.bet(name("alice"), Bet::new(1, vec![])), Err(GameError::BettingClosed));
}

#[test]
fn bet_outside_betting_is_closed() {
    let mut game = Game::new(vec![vec![flip(2, 1, 100)]]);
    game.add_player(name("alice")).unwrap();
    assert_eq!(game.bet(name("alice"), Bet::new(1, vec![0])), Err(GameError::BettingClosed));
    game.tick();
    assert_eq!(game.bet(name("alice"), Bet::new(1, vec![0])), Ok(()));
    game.tick();
    assert_eq!(game.bet(name("alice"), Bet::new(1, vec![0])), Err(GameError::BettingClosed));
    game.tick();
    assert_eq!(game.bet(name("alice"), Bet::new(1, vec![0])), Err(GameError::BettingClosed));
}

#[test]
fn bet_on_a_missing_flip_is_invalid() {
    let mut game = open_game(vec![vec![flip(2, 1, 100), flip(2, 1, 100)]]);
    assert_eq!(game.bet(name("alice"), Bet::new(1, vec![2])), Err(GameError::InvalidFlipIndex));
    assert_eq!(game.bet(name("alice"), Bet::new(1, vec![0, 5])), Err(GameError::InvalidFlipIndex));
    assert_eq!(game.bet(name("alice"), Bet::new(1, vec![0, 1])), Ok(()));
}

#[test]
fn bet_of_an_unknown_player_is_rejected() {
    let mut game = open_game(vec![vec![flip(2, 1, 100)]]);
    assert_eq!(game.bet(name("bob"), Bet::new(1, vec![0])), Err(GameError::UnknownPlayer));
}

#[test]
fn bet_above_the_balance_is_rejected() {
    let mut game = open_game(vec![vec![flip(2, 1, 100)]]);
    assert_eq!(game.bet(name("alice"), Bet::new(10001, vec![0])), Err(GameError::InsufficientFunds));
    assert_eq!(game.bet(name("alice"), Bet::new(10000, vec![0])), Ok(()));
}

#[test]
fn bet_errors_come_in_a_fixed_order() {
    let mut game = Game::new(vec![vec![flip(2, 1, 100)]]);
    // closed before anything else
    assert_eq!(game.bet(name("bob"), Bet::new(99999, vec![9])), Err(GameError::BettingClosed));
    game.add_player(name("alice")).unwrap();
    game.tick();
    // a bad pick before an unknown player and before the funds
    assert_eq!(game.bet(name("bob"), Bet::new(99999, vec![9])), Err(GameError::InvalidFlipIndex));
    assert_eq!(game.bet(name("alice"), Bet::new(99999, vec![9])), Err(GameError::InvalidFlipIndex));
    // an unknown player before the funds
    assert_eq!(game.bet(name("bob"), Bet::new(99999, vec![0])), Err(GameError::UnknownPlayer));
    assert_eq!(game.bet(name("alice"), Bet::new(99999, vec![0])), Err(GameError::InsufficientFunds));
}

#[test]
fn rejected_bet_leaves_the_pending_wager_alone() {
    let mut game = open_game(vec![vec![flip(2, 1, 100)]]);
    game.bet(name("alice"), Bet::new(100, vec![0])).unwrap();
    assert_eq!(game.bet(name("alice"), Bet::new(20000, vec![0])), Err(GameError::InsufficientFunds));
    assert_eq!(game.bet(name("alice"), Bet::new(5, vec![1])), Err(GameError::InvalidFlipIndex));
    assert_eq!(game.get_stack(name("alice")), Ok(10000));
    game.tick();
    assert_eq!(game.get_stack(name("alice")), Ok(10200));
}

#[test]
fn accepted_bet_does_not_move_the_balance() {
    let mut game = open_game(vec![vec![flip(2, 1, 100)]]);
    game.bet(name("alice"), Bet::new(100, vec![0])).unwrap();
    assert_eq!(game.get_stack(name("alice")), Ok(10000));
}

#[test]
fn later_bet_replaces_the_earlier_one() {
    let mut game = open_game(vec![vec![flip(2, 1, 100)]]);
    game.bet(name("alice"), Bet::new(100, vec![0])).unwrap();
    game.bet(name("alice"), Bet::new(10, vec![0])).unwrap();
    game.tick();
    assert_eq!(game.get_stack(name("alice")), Ok(10020));
}

#[test]
fn guaranteed_win_adds_the_payout() {
    // One flip that always lands, at odds 2/1; a stake of 100 pays 100 * 2 / 1 = 200.
    let mut game = Game::new(vec![vec![flip(2, 1, 100)]]);
    game.add_player(name("alice")).unwrap();
    game.tick();
    assert!(matches!(game.mode(), Mode::Betting(_)));
    game.bet(name("alice"), Bet::new(100, vec![0])).unwrap();
    game.tick();
    assert!(matches!(game.mode(), Mode::BetResults(o) if o.len() == 1 && o[0].is_heads()));
    assert_eq!(game.get_stack(name("alice")), Ok(10200));
}

#[test]
fn guaranteed_loss_takes_the_stake() {
    let mut game = Game::new(vec![vec![flip(2, 1, 0)]]);
    game.add_player(name("alice")).unwrap();
    game.tick();
    game.bet(name("alice"), Bet::new(100, vec![0])).unwrap();
    game.tick();
    assert!(matches!(game.mode(), Mode::BetResults(o) if o.len() == 1 && !o[0].is_heads()));
    assert_eq!(game.get_stack(name("alice")), Ok(9900));
}

#[test]
fn two_leg_parlay_pays_the_product_of_the_odds() {
    // 50 * (3 * 2) / (1 * 1) = 300
    let mut game = Game::new(vec![vec![flip(3, 1, 100), flip(2, 1, 100)]]);
    game.add_player(name("alice")).unwrap();
    game.tick();
    game.bet(name("alice"), Bet::new(50, vec![0, 1])).unwrap();
    game.tick();
    assert_eq!(game.get_stack(name("alice")), Ok(10300));
}

#[test]
fn parlay_with_one_lost_leg_loses_the_stake() {
    let mut game = open_game(vec![vec![flip(3, 1, 100), flip(2, 1, 0)]]);
    game.bet(name("alice"), Bet::new(50, vec![0, 1])).unwrap();
    game.tick();
    assert_eq!(game.get_stack(name("alice")), Ok(9950));
}

#[test]
fn whole_balance_can_be_lost() {
    let mut game = open_game(vec![vec![flip(2, 1, 0)], vec![flip(2, 1, 100)]]);
    game.bet(name("alice"), Bet::new(10000, vec![0])).unwrap();
    game.tick();
    assert_eq!(game.get_stack(name("alice")), Ok(0));
    game.tick();
    assert_eq!(game.bet(name("alice"), Bet::new(1, vec![0])), Err(GameError::InsufficientFunds));
    assert_eq!(game.bet(name("alice"), Bet::new(0, vec![0])), Ok(()));
    game.tick();
    assert_eq!(game.get_stack(name("alice")), Ok(0));
}

#[test]
fn settlement_touches_only_players_with_a_wager() {
    let mut game = Game::new(vec![vec![flip(5, 2, 100), flip(2, 1, 0)]]);
    game.add_player(name("alice")).unwrap();
    game.add_player(name("bob")).unwrap();
    game.add_player(name("carol")).unwrap();
    game.tick();
    game.bet(name("alice"), Bet::new(101, vec![0])).unwrap();
    game.bet(name("carol"), Bet::new(300, vec![1])).unwrap();
    game.tick();
    // 101 * 5 / 2 = 252, rounded down
    assert_eq!(game.get_stack(name("alice")), Ok(10252));
    assert_eq!(game.get_stack(name("bob")), Ok(10000));
    assert_eq!(game.get_stack(name("carol")), Ok(9700));
}

#[test]
fn wager_is_settled_once_and_then_gone() {
    let mut game = open_game(vec![vec![flip(2, 1, 100)], vec![flip(2, 1, 100)], vec![flip(2, 1, 0)]]);
    game.bet(name("alice"), Bet::new(100, vec![0])).unwrap();
    game.tick();
    assert_eq!(game.get_stack(name("alice")), Ok(10200));
    // no new wager in the second and third round: nothing is settled again
    game.tick();
    assert_eq!(game.get_stack(name("alice")), Ok(10200));
    game.tick();
    assert_eq!(game.get_stack(name("alice")), Ok(10200));
    game.tick();
    game.tick();
    assert_eq!(game.get_stack(name("alice")), Ok(10200));
    game.tick();
    assert!(matches!(game.mode(), Mode::Results));
    assert_eq!(game.get_stack(name("alice")), Ok(10200));
}

#[test]
fn balance_carries_over_the_rounds() {
    let mut game = open_game(vec![vec![flip(3, 1, 100)], vec![flip(1, 2, 100)], vec![flip(9, 1, 0)]]);
    game.bet(name("alice"), Bet::new(10000, vec![0])).unwrap();
    game.tick();
    assert_eq!(game.get_stack(name("alice")), Ok(40000));
    game.tick();
    game.bet(name("alice"), Bet::new(40000, vec![0])).unwrap();
    game.tick();
    assert_eq!(game.get_stack(name("alice")), Ok(60000));
    game.tick();
    game.bet(name("alice"), Bet::new(1, vec![0])).unwrap();
    game.tick();
    assert_eq!(game.get_stack(name("alice")), Ok(59999));
}

#[test]
fn balance_stops_at_the_largest_value() {
    let mut game = open_game(vec![vec![flip(u64::MAX, 1, 100)], vec![flip(2, 1, 100)]]);
    game.bet(name("alice"), Bet::new(2, vec![0])).unwrap();
    game.tick();
    assert_eq!(game.get_stack(name("alice")), Ok(u64::MAX));
    game.tick();
    game.bet(name("alice"), Bet::new(u64::MAX, vec![0])).unwrap();
    game.tick();
    assert_eq!(game.get_stack(name("alice")), Ok(u64::MAX));
}

#[test]
fn balance_just_below_the_largest_value_is_exact() {
    // 10000 + 1 * (2^64 - 1 - 10000) / 1 = 2^64 - 1
    let mut game = open_game(vec![vec![flip(u64::MAX - 10000, 1, 100)]]);
    game.bet(name("alice"), Bet::new(1, vec![0])).unwrap();
    game.tick();
    assert_eq!(game.get_stack(name("alice")), Ok(u64::MAX));
    // 10000 + 1 * (2^64 - 2 - 10000) / 1 = 2^64 - 2
    let mut game = open_game(vec![vec![flip(u64::MAX - 10001, 1, 100)]]);
    game.bet(name("alice"), Bet::new(1, vec![0])).unwrap();
    game.tick();
    assert_eq!(game.get_stack(name("alice")), Ok(u64::MAX - 1));
}

#[test]
fn error_messages() {
    assert_eq!(GameError::GameAlreadyStarted.message(), "This game is already in progress");
    assert_eq!(GameError::NameTaken.message(), "This name is already taken");
    assert_eq!(GameError::UnknownPlayer.message(), "Invalid player");
    assert_eq!(GameError::BettingClosed.message(), "You cannot bet right now");
    assert_eq!(GameError::InvalidFlipIndex.message(), "Invalid bet slip");
    assert_eq!(GameError::InsufficientFunds.message(), "You cannot bet more than your stack");
}
