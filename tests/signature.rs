use ed25519_consensus::SigningKey;
use hon_wager::principal::PrincipalId;
use hon_wager::request::{HotOrNot, VoteRequest, WithdrawRequest};
use hon_wager::signature::{
    identity_principal, sign_vote_request, sign_withdraw_request, signer_of, verify_vote,
    verify_withdraw, WagerSignature,
};
use ic_agent::identity::BasicIdentity;

fn identity(seed: u8) -> BasicIdentity {
    BasicIdentity::from_signing_key(SigningKey::from([seed; 32]))
}

fn vote(amount: u128, direction: HotOrNot) -> VoteRequest {
    VoteRequest::new(PrincipalId { bytes: vec![0, 0, 0, 0, 1, 2, 3, 4, 1, 1] }, 42, amount, direction)
        .unwrap()
}

#[test]
fn signed_vote_verifies_for_its_signer() {
    let id = identity(7);
    let me = identity_principal(&id).unwrap();
    for (amount, direction) in [(50, HotOrNot::Hot), (100, HotOrNot::Not), (200, HotOrNot::Hot)] {
        let req = vote(amount, direction);
        let sig = sign_vote_request(&id, &req).unwrap();
        assert!(verify_vote(&sig, &req, &me));
    }
}

#[test]
fn changed_vote_fails_verification() {
    let id = identity(7);
    let me = identity_principal(&id).unwrap();
    let req = vote(50, HotOrNot::Hot);
    let sig = sign_vote_request(&id, &req).unwrap();
    assert!(!verify_vote(&sig, &vote(100, HotOrNot::Hot), &me));
    assert!(!verify_vote(&sig, &vote(50, HotOrNot::Not), &me));
    let mut other_post = req.clone();
    other_post.post_id = 43;
    assert!(!verify_vote(&sig, &other_post, &me));
    let mut other_canister = req.clone();
    other_canister.post_canister = PrincipalId { bytes: vec![9, 9] };
    assert!(!verify_vote(&sig, &other_canister, &me));
}

#[test]
fn another_identity_signature_fails() {
    let me = identity(7);
    let other = identity(8);
    let my_principal = identity_principal(&me).unwrap();
    let req = vote(200, HotOrNot::Not);
    let sig = sign_vote_request(&other, &req).unwrap();
    assert!(!verify_vote(&sig, &req, &my_principal));
    let other_principal = identity_principal(&other).unwrap();
    assert!(verify_vote(&sig, &req, &other_principal));
}

#[test]
fn signature_without_parts_fails() {
    let id = identity(3);
    let me = identity_principal(&id).unwrap();
    let req = vote(50, HotOrNot::Hot);
    let sig = sign_vote_request(&id, &req).unwrap();
    let no_key = WagerSignature { public_key: None, signature: sig.signature.clone() };
    let no_sig = WagerSignature { public_key: sig.public_key.clone(), signature: None };
    assert!(!verify_vote(&no_key, &req, &me));
    assert!(!verify_vote(&no_sig, &req, &me));
    let mut flipped = sig.clone();
    if let Some(s) = flipped.signature.as_mut() {
        s[0] ^= 1;
    }
    assert!(!verify_vote(&flipped, &req, &me));
}

#[test]
fn signed_withdrawal_verifies_and_binds_amount() {
    let id = identity(11);
    let me = identity_principal(&id).unwrap();
    let req = WithdrawRequest::new(me.clone(), 500).unwrap();
    let sig = sign_withdraw_request(&id, &req).unwrap();
    assert!(verify_withdraw(&sig, &req, &me));
    let more = WithdrawRequest::new(me.clone(), 501).unwrap();
    assert!(!verify_withdraw(&sig, &more, &me));
}

#[test]
fn vote_signature_is_not_a_withdraw_signature() {
    let id = identity(12);
    let me = identity_principal(&id).unwrap();
    let req = vote(50, HotOrNot::Hot);
    let sig = sign_vote_request(&id, &req).unwrap();
    let w = WithdrawRequest::new(me.clone(), 50).unwrap();
    assert!(!verify_withdraw(&sig, &w, &me));
}

#[test]
fn identity_principal_is_self_authenticating() {
    let id = identity(5);
    let p = identity_principal(&id).unwrap();
    assert_eq!(p.bytes.len(), 29);
    assert_eq!(p.bytes[28], 2);
    let sig = sign_vote_request(&id, &vote(50, HotOrNot::Hot)).unwrap();
    assert_eq!(sig.signature.as_ref().map(|s| s.len()), Some(64));
    assert_eq!(sig.public_key.as_ref().map(|k| k.len()), Some(44));
}

#[test]
fn principal_text_forms() {
    assert_eq!(PrincipalId { bytes: vec![] }.text(), "aaaaa-aa");
    assert_eq!(PrincipalId { bytes: vec![4] }.text(), "2vxsx-fae");
}

#[test]
fn signature_names_its_signer() {
    let id = identity(9);
    let me = identity_principal(&id).unwrap();
    let sig = sign_vote_request(&id, &vote(100, HotOrNot::Not)).unwrap();
    assert_eq!(signer_of(&sig), Some(me));
    let bare = WagerSignature { public_key: None, signature: None };
    assert_eq!(signer_of(&bare), None);
}
