use hon_wager::game::{
    creator_reward, DirectionButton, GameError, GameInfo, GameRound, ResultView, RoundPhase,
};
use hon_wager::gateway::GameResult;
use hon_wager::principal::PrincipalId;
use hon_wager::request::{HotOrNot, StakeTier};

fn fresh() -> GameRound {
    GameRound::enter(PrincipalId { bytes: vec![1, 2, 3] }, 77, None).unwrap()
}

#[test]
fn fresh_round_is_idle_with_bet_allowed() {
    let g = fresh();
    assert_eq!(g.state.phase, RoundPhase::Idle);
    assert_eq!(g.state.coin, StakeTier::C50);
    assert!(g.state.can_place_bet);
    assert_eq!(g.result_view(), None);
}

#[test]
fn flag_is_down_only_while_in_flight() {
    let mut g = fresh();
    let req = g.place_bet(HotOrNot::Hot).unwrap();
    assert_eq!(req.vote_amount, 50);
    assert!(!g.state.can_place_bet);
    assert!(g.place_bet(HotOrNot::Not).is_none());
    g.next_coin();
    assert_eq!(g.state.coin, StakeTier::C50);
    assert_eq!(
        g.state.phase,
        RoundPhase::AwaitingResult { tier: StakeTier::C50, direction: HotOrNot::Hot }
    );
    g.apply_result(Err("network down".to_string()));
    assert!(g.state.can_place_bet);
    assert_eq!(g.state.phase, RoundPhase::Idle);
    assert_eq!(g.last_error, Some("network down".to_string()));
    let again = g.place_bet(HotOrNot::Not).unwrap();
    assert_eq!(again.direction, HotOrNot::Not);
    assert!(!g.state.can_place_bet);
    assert_eq!(g.last_error, None);
    g.apply_result(Ok(GameResult::Loss { lose_amt: 50 }));
    assert!(g.state.can_place_bet);
}

#[test]
fn hot_win_of_fifty_pays_ninety_five() {
    let mut g = fresh();
    let req = g.place_bet(HotOrNot::Hot).unwrap();
    assert_eq!(req.vote_amount, 50);
    assert_eq!(req.direction, HotOrNot::Hot);
    g.apply_result(Ok(GameResult::Win { win_amt: 45 }));
    assert_eq!(g.state.phase, RoundPhase::Won { tier: StakeTier::C50, win_amt: 45 });
    assert_eq!(
        g.result_view(),
        Some(ResultView { won: true, amount: 95, creator_reward: 10, coin: StakeTier::C50 })
    );
}

#[test]
fn not_loss_of_two_hundred_shows_loss() {
    let mut g = fresh();
    g.next_coin();
    g.next_coin();
    assert_eq!(g.state.coin, StakeTier::C200);
    let req = g.place_bet(HotOrNot::Not).unwrap();
    assert_eq!(req.vote_amount, 200);
    g.apply_result(Ok(GameResult::Loss { lose_amt: 200 }));
    assert_eq!(g.state.phase, RoundPhase::Lost { tier: StakeTier::C200, lose_amt: 200 });
    let view = g.result_view().unwrap();
    assert!(!view.won);
    assert_eq!(view.amount, 200);
    assert_eq!(view.coin, StakeTier::C200);
}

#[test]
fn settled_target_shows_stored_result() {
    let info = GameInfo::Vote { vote_amount: 100, game_result: GameResult::Win { win_amt: 80 } };
    let mut g = GameRound::enter(PrincipalId { bytes: vec![1] }, 2, Some(info)).unwrap();
    assert_eq!(g.state.phase, RoundPhase::Won { tier: StakeTier::C100, win_amt: 80 });
    assert!(g.place_bet(HotOrNot::Hot).is_none());
    assert_eq!(g.state.phase, RoundPhase::Won { tier: StakeTier::C100, win_amt: 80 });
    assert_eq!(g.result_view().unwrap().amount, 180);
    let lost = GameInfo::Vote { vote_amount: 50, game_result: GameResult::Loss { lose_amt: 50 } };
    let mut g = GameRound::enter(PrincipalId { bytes: vec![1] }, 2, Some(lost)).unwrap();
    assert!(g.place_bet(HotOrNot::Not).is_none());
    assert_eq!(g.state.phase, RoundPhase::Lost { tier: StakeTier::C50, lose_amt: 50 });
}

#[test]
fn stored_stake_that_is_no_tier_is_rejected() {
    for amount in [0u64, 7, 75, 150, 201] {
        let info = GameInfo::Vote { vote_amount: amount, game_result: GameResult::Win { win_amt: 1 } };
        let r = GameRound::enter(PrincipalId { bytes: vec![1] }, 2, Some(info));
        assert_eq!(r.err(), Some(GameError::InvalidStake));
    }
}

#[test]
fn reward_and_coin_formulas() {
    assert_eq!(creator_reward(50), 10);
    assert_eq!(creator_reward(100), 20);
    assert_eq!(creator_reward(200), 40);
    assert_eq!(creator_reward(7), 1);
    assert_eq!(creator_reward(u64::MAX), ((u64::MAX as u128 * 2) / 10) as u64);
}

#[test]
fn terminal_response_asks_for_a_fresh_read() {
    let mut g = fresh();
    assert!(!g.state.must_refresh);
    g.place_bet(HotOrNot::Hot).unwrap();
    assert!(!g.state.must_refresh);
    g.apply_result(Ok(GameResult::Win { win_amt: 5 }));
    assert!(g.state.must_refresh);
    g.mark_refreshed();
    assert!(!g.state.must_refresh);
    let mut h = fresh();
    h.place_bet(HotOrNot::Not).unwrap();
    h.apply_result(Err("timeout".to_string()));
    assert!(h.state.must_refresh);
}

#[test]
fn coin_cycles_while_idle() {
    let mut g = fresh();
    g.prev_coin();
    assert_eq!(g.state.coin, StakeTier::C200);
    g.next_coin();
    assert_eq!(g.state.coin, StakeTier::C50);
}

#[test]
fn direction_buttons_follow_the_wager_in_flight() {
    let mut g = fresh();
    let idle = DirectionButton { disabled: false, grayscale: false, spinner: false };
    assert_eq!(g.direction_button(HotOrNot::Hot), idle);
    assert_eq!(g.direction_button(HotOrNot::Not), idle);
    g.place_bet(HotOrNot::Not).unwrap();
    assert_eq!(
        g.direction_button(HotOrNot::Not),
        DirectionButton { disabled: true, grayscale: false, spinner: true }
    );
    assert_eq!(
        g.direction_button(HotOrNot::Hot),
        DirectionButton { disabled: true, grayscale: true, spinner: false }
    );
    g.apply_result(Ok(GameResult::Win { win_amt: 1 }));
    assert_eq!(g.direction_button(HotOrNot::Hot), idle);
}
