use hon_wager::canonical::{encode_vote, encode_withdraw};
use hon_wager::principal::PrincipalId;
use hon_wager::request::{HotOrNot, VoteRequest, WithdrawRequest};

fn vote(canister: Vec<u8>, post_id: u64, amount: u128, direction: HotOrNot) -> VoteRequest {
    VoteRequest::new(PrincipalId { bytes: canister }, post_id, amount, direction).unwrap()
}

#[test]
fn vote_bytes_layout() {
    let v = vote(vec![0xAB, 0xCD], 0x0102, 50, HotOrNot::Hot);
    let mut expected = vec![1u8, 2, 0xAB, 0xCD];
    expected.extend_from_slice(&0x0102u64.to_be_bytes());
    expected.extend_from_slice(&50u128.to_be_bytes());
    expected.push(1);
    assert_eq!(encode_vote(&v), expected);
    assert_eq!(encode_vote(&v).len(), 1 + 1 + 2 + 8 + 16 + 1);
}

#[test]
fn withdraw_bytes_layout() {
    let w = WithdrawRequest::new(PrincipalId { bytes: vec![9] }, 0x1234).unwrap();
    let mut expected = vec![2u8, 1, 9];
    expected.extend_from_slice(&0x1234u128.to_be_bytes());
    assert_eq!(encode_withdraw(&w), expected);
}

#[test]
fn every_vote_field_changes_the_bytes() {
    let base = vote(vec![1, 2, 3], 10, 100, HotOrNot::Hot);
    let variants = [
        vote(vec![1, 2, 4], 10, 100, HotOrNot::Hot),
        vote(vec![1, 2, 3, 0], 10, 100, HotOrNot::Hot),
        vote(vec![1, 2, 3], 11, 100, HotOrNot::Hot),
        vote(vec![1, 2, 3], 10, 200, HotOrNot::Hot),
        vote(vec![1, 2, 3], 10, 100, HotOrNot::Not),
    ];
    for v in variants.iter() {
        assert_ne!(encode_vote(&base), encode_vote(v));
    }
    assert_eq!(encode_vote(&base), encode_vote(&base.clone()));
}

#[test]
fn withdraw_fields_change_the_bytes() {
    let a = WithdrawRequest::new(PrincipalId { bytes: vec![5, 6] }, 7).unwrap();
    let b = WithdrawRequest::new(PrincipalId { bytes: vec![5, 7] }, 7).unwrap();
    let c = WithdrawRequest::new(PrincipalId { bytes: vec![5, 6] }, 8).unwrap();
    assert_ne!(encode_withdraw(&a), encode_withdraw(&b));
    assert_ne!(encode_withdraw(&a), encode_withdraw(&c));
}

#[test]
fn vote_and_withdraw_never_collide() {
    let v = vote(vec![], 0, 50, HotOrNot::Not);
    let w = WithdrawRequest::new(PrincipalId { bytes: vec![] }, 50).unwrap();
    assert_ne!(encode_vote(&v)[0], encode_withdraw(&w)[0]);
}
