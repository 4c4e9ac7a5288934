//! Signed wagering and withdrawal protocol for a binary "hot or not" game.
//!
//! - `request`: stake tiers and the two requests a client signs.
//! - `canonical`: the one byte encoding of each request, proved injective.
//! - `signature`: signing with an Ed25519 identity and checking signatures.
//! - `gateway`: the checks and forwarding decisions between client and settlement worker.
//! - `game`: the state machine of one wager, from stake selection to the shown settlement.
//! - `withdrawal`: the flow that pays out accumulated credit.
use vstd::prelude::*;

pub mod canonical;
pub mod game;
pub mod gateway;
pub mod principal;
pub mod request;
pub mod signature;
pub mod withdrawal;

verus! {

} // verus!
