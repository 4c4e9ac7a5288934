//! The single byte encoding of each request that signing and verification agree on.
//!
//! A vote encodes as a tag byte, the canister id prefixed by its length, the post id
//! (8 bytes, big-endian), the amount (16 bytes, big-endian) and one direction byte. A
//! withdrawal encodes as another tag byte, the receiver prefixed by its length and the
//! amount (16 bytes, big-endian). Every field lands in the bytes unchanged, so two
//! requests share an encoding only when they are equal.
use vstd::prelude::*;

use crate::principal::PrincipalId;
use crate::request::{HotOrNot, VoteRequest, WithdrawRequest};

verus! {

/// First byte of every encoded vote.
pub const VOTE_TAG: u8 = 1;

/// First byte of every encoded withdrawal.
pub const WITHDRAW_TAG: u8 = 2;

/// Big-endian bytes of a 64-bit value.
pub open spec fn be_u64(x: u64) -> Seq<u8> {
    seq![
        (x >> 56u64) as u8,
        (x >> 48u64) as u8,
        (x >> 40u64) as u8,
        (x >> 32u64) as u8,
        (x >> 24u64) as u8,
        (x >> 16u64) as u8,
        (x >> 8u64) as u8,
        x as u8,
    ]
}

/// Big-endian bytes of a 128-bit value.
pub open spec fn be_u128(x: u128) -> Seq<u8> {
    be_u64((x >> 64u128) as u64) + be_u64(x as u64)
}

/// The byte that stands for a direction.
pub open spec fn direction_byte(d: HotOrNot) -> u8 {
    match d {
        HotOrNot::Hot => 1,
        HotOrNot::Not => 0,
    }
}

/// A principal prefixed by its length.
pub open spec fn principal_bytes(p: PrincipalId) -> Seq<u8> {
    seq![p.bytes@.len() as u8] + p.bytes@
}

/// The encoding of a vote.
pub open spec fn vote_bytes(v: VoteRequest) -> Seq<u8> {
    seq![VOTE_TAG] + principal_bytes(v.post_canister) + be_u64(v.post_id) + be_u128(v.vote_amount)
        + seq![direction_byte(v.direction)]
}

/// The encoding of a withdrawal.
pub open spec fn withdraw_bytes(w: WithdrawRequest) -> Seq<u8> {
    seq![WITHDRAW_TAG] + principal_bytes(w.receiver) + be_u128(w.amount)
}

proof fn lemma_be_u64_injective(x: u64, y: u64)
    requires
        be_u64(x) == be_u64(y),
    ensures
        x == y,
{
    assert(be_u64(x)[0] == be_u64(y)[0]);
    assert(be_u64(x)[1] == be_u64(y)[1]);
    assert(be_u64(x)[2] == be_u64(y)[2]);
    assert(be_u64(x)[3] == be_u64(y)[3]);
    assert(be_u64(x)[4] == be_u64(y)[4]);
    assert(be_u64(x)[5] == be_u64(y)[5]);
    assert(be_u64(x)[6] == be_u64(y)[6]);
    assert(be_u64(x)[7] == be_u64(y)[7]);
    assert(((x >> 56u64) as u8 == (y >> 56u64) as u8 && (x >> 48u64) as u8 == (y >> 48u64) as u8
        && (x >> 40u64) as u8 == (y >> 40u64) as u8 && (x >> 32u64) as u8 == (y >> 32u64) as u8
        && (x >> 24u64) as u8 == (y >> 24u64) as u8 && (x >> 16u64) as u8 == (y >> 16u64) as u8
        && (x >> 8u64) as u8 == (y >> 8u64) as u8 && x as u8 == y as u8) ==> x == y) by (bit_vector);
}

proof fn lemma_be_u128_injective(x: u128, y: u128)
    requires
        be_u128(x) == be_u128(y),
    ensures
        x == y,
{
    let hx = be_u64((x >> 64u128) as u64);
    let hy = be_u64((y >> 64u128) as u64);
    assert(be_u128(x).subrange(0, 8) =~= hx);
    assert(be_u128(y).subrange(0, 8) =~= hy);
    assert(be_u128(x).subrange(8, 16) =~= be_u64(x as u64));
    assert(be_u128(y).subrange(8, 16) =~= be_u64(y as u64));
    lemma_be_u64_injective((x >> 64u128) as u64, (y >> 64u128) as u64);
    lemma_be_u64_injective(x as u64, y as u64);
    assert(((x >> 64u128) as u64 == (y >> 64u128) as u64 && x as u64 == y as u64) ==> x == y)
        by (bit_vector);
}

fn push_be_u64(out: &mut Vec<u8>, x: u64)
    ensures
        final(out)@ == old(out)@ + be_u64(x),
{
    out.push((x >> 56u64) as u8);
    out.push((x >> 48u64) as u8);
    out.push((x >> 40u64) as u8);
    out.push((x >> 32u64) as u8);
    out.push((x >> 24u64) as u8);
    out.push((x >> 16u64) as u8);
    out.push((x >> 8u64) as u8);
    out.push(x as u8);
    assert(out@ =~= old(out)@ + be_u64(x));
}

fn push_be_u128(out: &mut Vec<u8>, x: u128)
    ensures
        final(out)@ == old(out)@ + be_u128(x),
{
    push_be_u64(out, (x >> 64u128) as u64);
    push_be_u64(out, x as u64);
    assert(out@ =~= old(out)@ + be_u128(x));
}

fn push_principal(out: &mut Vec<u8>, p: &PrincipalId)
    requires
        p.wf(),
    ensures
        final(out)@ == old(out)@ + principal_bytes(*p),
{
    out.push(p.bytes.len() as u8);
    let n = p.bytes.len();
    let ghost start = out@;
    let mut i: usize = 0;
    while i < n
        invariant
            n == p.bytes@.len(),
            i <= n,
            out@ == start + p.bytes@.subrange(0, i as int),
        decreases n - i,
    {
        out.push(p.bytes[i]);
        assert(p.bytes@.subrange(0, i + 1) =~= p.bytes@.subrange(0, i as int).push(p.bytes@[i as int]));
        i = i + 1;
    }
    assert(p.bytes@.subrange(0, n as int) =~= p.bytes@);
    assert(out@ =~= old(out)@ + principal_bytes(*p));
}

/// The canonical bytes of a vote.
pub fn encode_vote(v: &VoteRequest) -> (r: Vec<u8>)
    requires
        v.post_canister.wf(),
    ensures
        r@ == vote_bytes(*v),
{
    let mut out: Vec<u8> = Vec::new();
    out.push(VOTE_TAG);
    push_principal(&mut out, &v.post_canister);
    push_be_u64(&mut out, v.post_id);
    push_be_u128(&mut out, v.vote_amount);
    let d: u8 = match v.direction {
        HotOrNot::Hot => 1,
        HotOrNot::Not => 0,
    };
    out.push(d);
    assert(out@ =~= vote_bytes(*v));
    out
}

/// The canonical bytes of a withdrawal.
pub fn encode_withdraw(w: &WithdrawRequest) -> (r: Vec<u8>)
    requires
        w.receiver.wf(),
    ensures
        r@ == withdraw_bytes(*w),
{
    let mut out: Vec<u8> = Vec::new();
    out.push(WITHDRAW_TAG);
    push_principal(&mut out, &w.receiver);
    push_be_u128(&mut out, w.amount);
    assert(out@ =~= withdraw_bytes(*w));
    out
}

/// Equal encodings come only from votes whose fields are all equal: changing any field of a
/// vote changes its bytes.
pub proof fn lemma_vote_encoding_injective(a: VoteRequest, b: VoteRequest)
    requires
        a.post_canister.wf(),
        b.post_canister.wf(),
        vote_bytes(a) == vote_bytes(b),
    ensures
        a.post_canister.bytes@ == b.post_canister.bytes@,
        a.post_id == b.post_id,
        a.vote_amount == b.vote_amount,
        a.direction == b.direction,
{
    let ea = vote_bytes(a);
    let eb = vote_bytes(b);
    let pa = a.post_canister.bytes@;
    let pb = b.post_canister.bytes@;
    assert(ea[1] == pa.len() as u8);
    assert(eb[1] == pb.len() as u8);
    assert(pa.len() == pb.len());
    let n = pa.len() as int;
    assert(ea.subrange(2, 2 + n) =~= pa);
    assert(eb.subrange(2, 2 + n) =~= pb);
    assert(ea.subrange(2 + n, 10 + n) =~= be_u64(a.post_id));
    assert(eb.subrange(2 + n, 10 + n) =~= be_u64(b.post_id));
    lemma_be_u64_injective(a.post_id, b.post_id);
    assert(ea.subrange(10 + n, 26 + n) =~= be_u128(a.vote_amount));
    assert(eb.subrange(10 + n, 26 + n) =~= be_u128(b.vote_amount));
    lemma_be_u128_injective(a.vote_amount, b.vote_amount);
    assert(ea[26 + n] == direction_byte(a.direction));
    assert(eb[26 + n] == direction_byte(b.direction));
}

/// Equal encodings come only from withdrawals with the same receiver and amount.
pub proof fn lemma_withdraw_encoding_injective(a: WithdrawRequest, b: WithdrawRequest)
    requires
        a.receiver.wf(),
        b.receiver.wf(),
        withdraw_bytes(a) == withdraw_bytes(b),
    ensures
        a.receiver.bytes@ == b.receiver.bytes@,
        a.amount == b.amount,
{
    let ea = withdraw_bytes(a);
    let eb = withdraw_bytes(b);
    let pa = a.receiver.bytes@;
    let pb = b.receiver.bytes@;
    assert(ea[1] == pa.len() as u8);
    assert(eb[1] == pb.len() as u8);
    assert(pa.len() == pb.len());
    let n = pa.len() as int;
    assert(ea.subrange(2, 2 + n) =~= pa);
    assert(eb.subrange(2, 2 + n) =~= pb);
    assert(ea.subrange(2 + n, 18 + n) =~= be_u128(a.amount));
    assert(eb.subrange(2 + n, 18 + n) =~= be_u128(b.amount));
    lemma_be_u128_injective(a.amount, b.amount);
}

/// A vote and a withdrawal never share an encoding, so a signature on one cannot pass as a
/// signature on the other.
pub proof fn lemma_vote_withdraw_disjoint(v: VoteRequest, w: WithdrawRequest)
    ensures
        vote_bytes(v) != withdraw_bytes(w),
{
    assert(vote_bytes(v)[0] == VOTE_TAG);
    assert(withdraw_bytes(w)[0] == WITHDRAW_TAG);
}

} // verus!
