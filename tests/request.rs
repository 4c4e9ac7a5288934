use hon_wager::principal::PrincipalId;
use hon_wager::request::{HotOrNot, StakeTier, ValidationError, VoteRequest, WithdrawRequest};

fn canister() -> PrincipalId {
    PrincipalId { bytes: vec![0, 0, 0, 0, 0, 0, 0, 7, 1, 1] }
}

#[test]
fn every_tier_amount_builds_a_vote() {
    for amount in [50u128, 100, 200] {
        let r = VoteRequest::new(canister(), 3, amount, HotOrNot::Hot);
        let v = r.expect("tier amount accepted");
        assert_eq!(v.vote_amount, amount);
        assert_eq!(v.post_id, 3);
        assert_eq!(v.direction, HotOrNot::Hot);
    }
}

#[test]
fn other_amounts_are_rejected() {
    for amount in [0u128, 1, 49, 51, 99, 150, 199, 201, 1000, u128::MAX] {
        let r = VoteRequest::new(canister(), 3, amount, HotOrNot::Not);
        assert_eq!(r, Err(ValidationError::InvalidStake));
    }
}

#[test]
fn tiers_map_to_their_amounts() {
    assert_eq!(StakeTier::C50.amount(), 50);
    assert_eq!(StakeTier::C100.amount(), 100);
    assert_eq!(StakeTier::C200.amount(), 200);
    assert_eq!(StakeTier::from_amount(100), Some(StakeTier::C100));
    assert_eq!(StakeTier::from_amount(75), None);
}

#[test]
fn tiers_wrap_both_ways() {
    assert_eq!(StakeTier::C50.wrapping_next(), StakeTier::C100);
    assert_eq!(StakeTier::C100.wrapping_next(), StakeTier::C200);
    assert_eq!(StakeTier::C200.wrapping_next(), StakeTier::C50);
    assert_eq!(StakeTier::C50.wrapping_prev(), StakeTier::C200);
    assert_eq!(StakeTier::C200.wrapping_prev(), StakeTier::C100);
    assert_eq!(StakeTier::C100.wrapping_prev(), StakeTier::C50);
}

#[test]
fn with_tier_uses_tier_amount() {
    let v = VoteRequest::with_tier(canister(), 9, StakeTier::C200, HotOrNot::Not).unwrap();
    assert_eq!(v.vote_amount, 200);
}

#[test]
fn oversized_canister_is_rejected() {
    let long = PrincipalId { bytes: vec![1; 30] };
    assert_eq!(
        VoteRequest::new(long.clone(), 1, 50, HotOrNot::Hot),
        Err(ValidationError::MalformedPrincipal)
    );
    assert_eq!(WithdrawRequest::new(long, 5), Err(ValidationError::MalformedPrincipal));
    assert!(PrincipalId::from_bytes(vec![1; 30]).is_none());
    assert!(PrincipalId::from_bytes(vec![1; 29]).is_some());
}

#[test]
fn zero_withdrawal_is_rejected() {
    assert_eq!(WithdrawRequest::new(canister(), 0), Err(ValidationError::ZeroAmount));
    let w = WithdrawRequest::new(canister(), 1).unwrap();
    assert_eq!(w.amount, 1);
}
