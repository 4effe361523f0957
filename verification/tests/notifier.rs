use backend::game::{Flip, Game, Payout};
use tokio::sync::broadcast::error::TryRecvError;

#[test]
fn subscriber_gets_one_signal_per_advance() {
    let flip = Flip::new(Payout::new(2, 1).unwrap(), 100).unwrap();
    let mut game = Game::new(vec![vec![flip]]);
    let mut rx = game.subscribe();
    assert_eq!(rx.try_recv(), Err(TryRecvError::Empty));
    game.tick();
    assert_eq!(rx.try_recv(), Ok(()));
    assert_eq!(rx.try_recv(), Err(TryRecvError::Empty));
    game.tick();
    game.tick();
    assert_eq!(rx.try_recv(), Ok(()));
    assert_eq!(rx.try_recv(), Ok(()));
    assert_eq!(rx.try_recv(), Err(TryRecvError::Empty));
}

#[test]
fn advance_after_the_end_still_signals() {
    let mut game = Game::new(vec![]);
    game.tick();
    let mut rx = game.subscribe();
    game.tick();
    assert_eq!(rx.try_recv(), Ok(()));
}

#[test]
fn every_subscriber_gets_the_signal() {
    let mut game = Game::new(vec![]);
    let mut first = game.subscribe();
    let mut second = game.subscribe();
    game.tick();
    assert_eq!(first.try_recv(), Ok(()));
    assert_eq!(second.try_recv(), Ok(()));
}

#[test]
fn subscriber_sees_only_later_advances() {
    let mut game = Game::new(vec![]);
    game.tick();
    let mut rx = game.subscribe();
    assert_eq!(rx.try_recv(), Err(TryRecvError::Empty));
}

#[test]
fn advance_without_subscribers_goes_through() {
    let flip = Flip::new(Payout::new(2, 1).unwrap(), 100).unwrap();
    let mut game = Game::new(vec![vec![flip]]);
    game.tick();
    game.tick();
    game.tick();
    assert!(matches!(game.mode(), backend::game::Mode::Results));
}

#[test]
fn slow_subscriber_does_not_hold_the_game_back() {
    let mut game = Game::new(vec![]);
    let mut rx = game.subscribe();
    for _ in 0..3000 {
        game.tick();
    }
    assert!(matches!(rx.try_recv(), Err(TryRecvError::Lagged(_))));
    assert_eq!(rx.try_recv(), Ok(()));
}
