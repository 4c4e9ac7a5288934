//! Signing requests with an identity and checking such signatures.
use vstd::prelude::*;

use ic_agent::identity::BasicIdentity;
use ic_agent::Identity;

use crate::canonical::{encode_vote, encode_withdraw, vote_bytes, withdraw_bytes};
use crate::principal::{self_authenticating, self_authenticating_of, PrincipalId, MAX_PRINCIPAL_LEN};
use crate::request::{VoteRequest, WithdrawRequest};

verus! {

#[verifier::external_type_specification]
#[verifier::external_body]
pub struct ExBasicIdentity(BasicIdentity);

/// A signature over a request's canonical bytes, with the DER-encoded public key of its signer.
#[derive(Clone, Debug, PartialEq, Eq)]
pub struct WagerSignature {
    pub public_key: Option<Vec<u8>>,
    pub signature: Option<Vec<u8>>,
}

/// Why a request could not be signed.
#[derive(Clone, Debug, PartialEq, Eq)]
pub struct SigningError {
    pub message: String,
}

/// Whether `sig` is a valid Ed25519 signature of `msg` under the 32-byte key `key`.
pub uninterp spec fn ed25519_accepts(key: Seq<u8>, sig: Seq<u8>, msg: Seq<u8>) -> bool;

/// Length of the DER header that precedes a raw Ed25519 key.
pub const ED25519_DER_HEADER_LEN: usize = 12;

/// Length of a raw Ed25519 public key.
pub const ED25519_KEY_LEN: usize = 32;

/// The DER header of an Ed25519 SubjectPublicKeyInfo (RFC 8410).
pub open spec fn ed25519_der_header() -> Seq<u8> {
    seq![0x30u8, 0x2au8, 0x30u8, 0x05u8, 0x06u8, 0x03u8, 0x2bu8, 0x65u8, 0x70u8, 0x03u8, 0x21u8, 0x00u8]
}

/// The raw key inside a DER-encoded Ed25519 public key, if `der` is one.
pub open spec fn raw_ed25519_key(der: Seq<u8>) -> Option<Seq<u8>> {
    if der.len() == ED25519_DER_HEADER_LEN + ED25519_KEY_LEN && der.subrange(
        0,
        ED25519_DER_HEADER_LEN as int,
    ) == ed25519_der_header() {
        Some(der.subrange(ED25519_DER_HEADER_LEN as int, der.len() as int))
    } else {
        None
    }
}

/// Whether `sig` proves that the account `signer` signed the bytes `msg`: its key belongs to
/// `signer` and the signature checks under that key.
pub open spec fn signature_valid_for(sig: WagerSignature, msg: Seq<u8>, signer: Seq<u8>) -> bool {
    &&& sig.public_key matches Some(pk)
    &&& sig.signature matches Some(s)
    &&& self_authenticating_of(pk@) == signer
    &&& raw_ed25519_key(pk@) matches Some(key)
    &&& ed25519_accepts(key, s@, msg)
}

/// Whether `p` is the self-authenticating account of some DER-encoded Ed25519 key.
pub open spec fn is_key_account(p: Seq<u8>) -> bool {
    exists|k: Seq<u8>| raw_ed25519_key(k) is Some && p == self_authenticating_of(k)
}

/// The account whose key a signature carries, if it carries one.
pub open spec fn key_principal_of(sig: WagerSignature) -> Option<Seq<u8>> {
    match sig.public_key {
        Some(pk) => Some(self_authenticating_of(pk@)),
        None => None,
    }
}

/// Relies on `Identity::sign_arbitrary` of ic-agent's `BasicIdentity`: it always succeeds and
/// returns the DER encoding (RFC 8410 header and 32 key bytes) of the identity's public key
/// with an Ed25519 signature of `content` made by the matching private key, which
/// ed25519-consensus `VerificationKey::verify` accepts.
#[verifier::external_body]
fn sign_bytes(identity: &BasicIdentity, content: &Vec<u8>) -> (r: Result<WagerSignature, String>)
    ensures
        r is Ok,
        r->Ok_0.public_key is Some,
        r->Ok_0.signature is Some,
        raw_ed25519_key(r->Ok_0.public_key->Some_0@) is Some,
        ed25519_accepts(
            raw_ed25519_key(r->Ok_0.public_key->Some_0@)->Some_0,
            r->Ok_0.signature->Some_0@,
            content@,
        ),
{
    match identity.sign_arbitrary(content.as_slice()) {
        Ok(s) => Ok(WagerSignature { public_key: s.public_key, signature: s.signature }),
        Err(e) => Err(e),
    }
}

/// Relies on `Identity::sender` of ic-agent's `BasicIdentity`: it always succeeds, with the
/// 29-byte self-authenticating principal of the identity's DER-encoded Ed25519 key.
#[verifier::external_body]
fn identity_sender(identity: &BasicIdentity) -> (r: Result<PrincipalId, String>)
    ensures
        r is Ok,
        r->Ok_0.bytes@.len() == MAX_PRINCIPAL_LEN,
        is_key_account(r->Ok_0.bytes@),
{
    match identity.sender() {
        Ok(p) => Ok(PrincipalId { bytes: p.as_slice().to_vec() }),
        Err(e) => Err(e),
    }
}

/// Relies on ed25519-consensus `VerificationKey::verify`; a key or signature of the wrong
/// length is rejected. The outcome depends on the three byte strings alone.
#[verifier::external_body]
fn ed25519_verify(key: &[u8], sig: &[u8], msg: &[u8]) -> (r: bool)
    ensures
        r == ed25519_accepts(key@, sig@, msg@),
{
    match (
        ed25519_consensus::VerificationKey::try_from(key),
        ed25519_consensus::Signature::try_from(sig),
    ) {
        (Ok(k), Ok(s)) => k.verify(&s, msg).is_ok(),
        _ => false,
    }
}

fn der_header_matches(der: &Vec<u8>) -> (r: bool)
    requires
        der@.len() >= ED25519_DER_HEADER_LEN,
    ensures
        r == (der@.subrange(0, ED25519_DER_HEADER_LEN as int) == ed25519_der_header()),
{
    let header: [u8; 12] = [0x30, 0x2a, 0x30, 0x05, 0x06, 0x03, 0x2b, 0x65, 0x70, 0x03, 0x21, 0x00];
    assert(header@ =~= ed25519_der_header());
    let mut i: usize = 0;
    while i < ED25519_DER_HEADER_LEN
        invariant
            i <= ED25519_DER_HEADER_LEN,
            der@.len() >= ED25519_DER_HEADER_LEN,
            header@ == ed25519_der_header(),
            forall|j: int| 0 <= j < i ==> der@[j] == header@[j],
        decreases ED25519_DER_HEADER_LEN - i,
    {
        if der[i] != header[i] {
            assert(der@.subrange(0, ED25519_DER_HEADER_LEN as int)[i as int] != header@[i as int]);
            return false;
        }
        i = i + 1;
    }
    assert(der@.subrange(0, ED25519_DER_HEADER_LEN as int) =~= ed25519_der_header());
    true
}

/// Checks that `sig` is a signature of the bytes `msg` by the account `signer`.
pub fn verify_bytes(sig: &WagerSignature, msg: &Vec<u8>, signer: &PrincipalId) -> (r: bool)
    ensures
        r == signature_valid_for(*sig, msg@, signer.bytes@),
{
    let pk = match &sig.public_key {
        Some(pk) => pk,
        None => return false,
    };
    let s = match &sig.signature {
        Some(s) => s,
        None => return false,
    };
    let owner = PrincipalId { bytes: self_authenticating(pk) };
    if !owner.same_as(signer) {
        return false;
    }
    if pk.len() != ED25519_DER_HEADER_LEN + ED25519_KEY_LEN || !der_header_matches(pk) {
        return false;
    }
    let key = pk.as_slice().split_at(ED25519_DER_HEADER_LEN).1;
    assert(key@ =~= pk@.subrange(ED25519_DER_HEADER_LEN as int, pk@.len() as int));
    ed25519_verify(key, s.as_slice(), msg.as_slice())
}

/// Checks that `sig` signs exactly the vote `req` on behalf of `signer`.
pub fn verify_vote(sig: &WagerSignature, req: &VoteRequest, signer: &PrincipalId) -> (r: bool)
    requires
        req.post_canister.wf(),
    ensures
        r == signature_valid_for(*sig, vote_bytes(*req), signer.bytes@),
{
    let msg = encode_vote(req);
    verify_bytes(sig, &msg, signer)
}

/// Checks that `sig` signs exactly the withdrawal `req` on behalf of `signer`.
pub fn verify_withdraw(sig: &WagerSignature, req: &WithdrawRequest, signer: &PrincipalId) -> (r: bool)
    requires
        req.receiver.wf(),
    ensures
        r == signature_valid_for(*sig, withdraw_bytes(*req), signer.bytes@),
{
    let msg = encode_withdraw(req);
    verify_bytes(sig, &msg, signer)
}

/// The account whose key `sig` carries.
pub fn signer_of(sig: &WagerSignature) -> (r: Option<PrincipalId>)
    ensures
        key_principal_of(*sig) is None ==> r is None,
        key_principal_of(*sig) matches Some(p) ==> (r matches Some(q) && q.bytes@ == p && q.wf()),
{
    match &sig.public_key {
        Some(pk) => Some(PrincipalId { bytes: self_authenticating(pk) }),
        None => None,
    }
}

/// The account that `identity` signs for.
pub fn identity_principal(identity: &BasicIdentity) -> (r: Result<PrincipalId, SigningError>)
    ensures
        r is Ok,
        r->Ok_0.wf(),
        is_key_account(r->Ok_0.bytes@),
{
    match identity_sender(identity) {
        Ok(p) => Ok(p),
        Err(message) => Err(SigningError { message }),
    }
}

/// Signs the canonical bytes of the vote `req` with `identity`. The signature verifies for
/// this vote under the account of the key it carries.
pub fn sign_vote_request(identity: &BasicIdentity, req: &VoteRequest) -> (r: Result<
    WagerSignature,
    SigningError,
>)
    requires
        req.post_canister.wf(),
    ensures
        r is Ok,
        key_principal_of(r->Ok_0) is Some,
        signature_valid_for(r->Ok_0, vote_bytes(*req), key_principal_of(r->Ok_0)->Some_0),
{
    let msg = encode_vote(req);
    match sign_bytes(identity, &msg) {
        Ok(s) => Ok(s),
        Err(message) => Err(SigningError { message }),
    }
}

/// Signs the canonical bytes of the withdrawal `req` with `identity`. The signature verifies
/// for this withdrawal under the account of the key it carries.
pub fn sign_withdraw_request(identity: &BasicIdentity, req: &WithdrawRequest) -> (r: Result<
    WagerSignature,
    SigningError,
>)
    requires
        req.receiver.wf(),
    ensures
        r is Ok,
        key_principal_of(r->Ok_0) is Some,
        signature_valid_for(r->Ok_0, withdraw_bytes(*req), key_principal_of(r->Ok_0)->Some_0),
{
    let msg = encode_withdraw(req);
    match sign_bytes(identity, &msg) {
        Ok(s) => Ok(s),
        Err(message) => Err(SigningError { message }),
    }
}

/// A signature whose key belongs to another account is rejected, whatever it signs.
pub proof fn lemma_foreign_key_rejected(sig: WagerSignature, msg: Seq<u8>, signer: Seq<u8>)
    requires
        sig.public_key matches Some(pk) && self_authenticating_of(pk@) != signer,
    ensures
        !signature_valid_for(sig, msg, signer),
{
}

/// Changing any field of a signed vote changes the bytes that its signature must cover, so the
/// signature is checked against a different message.
pub proof fn lemma_changed_vote_changes_signed_bytes(a: VoteRequest, b: VoteRequest)
    requires
        a.post_canister.wf(),
        b.post_canister.wf(),
        !(a.post_canister.bytes@ == b.post_canister.bytes@ && a.post_id == b.post_id
            && a.vote_amount == b.vote_amount && a.direction == b.direction),
    ensures
        vote_bytes(a) != vote_bytes(b),
{
    if vote_bytes(a) == vote_bytes(b) {
        crate::canonical::lemma_vote_encoding_injective(a, b);
    }
}

/// Changing the receiver or the amount of a signed withdrawal changes the bytes that its
/// signature must cover.
pub proof fn lemma_changed_withdraw_changes_signed_bytes(a: WithdrawRequest, b: WithdrawRequest)
    requires
        a.receiver.wf(),
        b.receiver.wf(),
        !(a.receiver.bytes@ == b.receiver.bytes@ && a.amount == b.amount),
    ensures
        withdraw_bytes(a) != withdraw_bytes(b),
{
    if withdraw_bytes(a) == withdraw_bytes(b) {
        crate::canonical::lemma_withdraw_encoding_injective(a, b);
    }
}

} // verus!
