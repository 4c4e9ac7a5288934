//! The gateway's decisions between a client and the settlement worker.
//!
//! The gateway checks that the caller owns the account and that the account has completed
//! registration, fetches a sentiment signal for the post, and forwards the signed request to
//! the worker with its own service credential. The lookups and the HTTP exchange happen
//! around these functions: each one here takes what came back and says what to do next.
use vstd::prelude::*;

use crate::principal::{principal_text_of, PrincipalId};
use crate::request::{
    vote_validity, withdraw_validity, HotOrNot, ValidationError, VoteRequest, WithdrawRequest,
};
use crate::canonical::{vote_bytes, withdraw_bytes};
use crate::signature::{signature_valid_for, verify_vote, verify_withdraw, WagerSignature};

verus! {

/// Whether an account has completed onboarding.
#[derive(Clone, Copy, Debug, PartialEq, Eq, Structural)]
pub enum SessionType {
    AnonymousSession,
    RegisteredSession,
}

/// The worker's settlement of a wager.
#[derive(Clone, Copy, Debug, PartialEq, Eq, Structural)]
pub enum GameResult {
    Win { win_amt: u64 },
    Loss { lose_amt: u64 },
}

/// Why the gateway did not deliver a result.
#[derive(Clone, Debug, PartialEq, Eq)]
pub enum GatewayError {
    /// The request itself is malformed: a stake that is no tier, a zero withdrawal.
    Invalid(ValidationError),
    /// The caller does not own the account, or the account is not registered.
    Unauthorized,
    /// The signature does not prove that the caller signed this request.
    BadSignature,
    /// The sentiment signal for the post could not be had.
    SentimentUnavailable,
    /// The sentiment signal held something other than a boolean.
    SentimentMalformed,
    /// The worker answered with a status other than success.
    Worker { status: u16, body: String },
    /// The worker reported success with a body that is not a settlement.
    MalformedResponse { body: String },
    /// No answer was received.
    Transport { message: String },
}

/// The HTTP status of success.
pub const STATUS_OK: u16 = 200;

/// A forwarded wager: the path under the worker's base URL and the body to post there.
#[derive(Clone, Debug, PartialEq, Eq)]
pub struct WorkerVoteCall {
    pub path: String,
    pub request: VoteRequest,
    pub fetched_sentiment: HotOrNot,
    pub signature: WagerSignature,
    pub post_creator: Option<PrincipalId>,
}

/// A forwarded withdrawal: the path under the worker's base URL and the body to post there.
#[derive(Clone, Debug, PartialEq, Eq)]
pub struct WorkerWithdrawCall {
    pub path: String,
    pub request: WithdrawRequest,
    pub signature: WagerSignature,
}

/// The caller may act for the account: it owns it and the account is registered.
pub open spec fn is_authorized(caller: Seq<u8>, owner: Seq<u8>, session: SessionType) -> bool {
    caller == owner && session == SessionType::RegisteredSession
}

/// The sentiment that an upper-cased signal value stands for.
pub open spec fn sentiment_of_upper(u: Seq<char>) -> Result<HotOrNot, GatewayError> {
    if u == "TRUE"@ {
        Ok(HotOrNot::Hot)
    } else if u == "FALSE"@ {
        Ok(HotOrNot::Not)
    } else {
        Err(GatewayError::SentimentMalformed)
    }
}

/// Whether a wager is forwarded, and with which sentiment: the wager must be well formed
/// (`validity`), the caller authorized, the signature the caller's over this wager (`signed`),
/// and the signal, once upper-cased, must read as a boolean.
pub open spec fn vote_decision(
    validity: Result<(), ValidationError>,
    caller: Seq<u8>,
    owner: Seq<u8>,
    session: SessionType,
    signed: bool,
    sentiment: Option<Seq<char>>,
) -> Result<HotOrNot, GatewayError> {
    if validity is Err {
        Err(GatewayError::Invalid(validity->Err_0))
    } else if !is_authorized(caller, owner, session) {
        Err(GatewayError::Unauthorized)
    } else if !signed {
        Err(GatewayError::BadSignature)
    } else {
        match sentiment {
            None => Err(GatewayError::SentimentUnavailable),
            Some(v) => sentiment_of_upper(upper_of(v)),
        }
    }
}

/// The characters of an optional string.
pub open spec fn opt_chars(s: Option<String>) -> Option<Seq<char>> {
    match s {
        Some(v) => Some(v@),
        None => None,
    }
}

/// What the gateway returns for a worker's answer to a wager.
pub open spec fn vote_reply(status: u16, body: String, decoded: Option<GameResult>) -> Result<
    GameResult,
    GatewayError,
> {
    if status != STATUS_OK {
        Err(GatewayError::Worker { status, body })
    } else {
        match decoded {
            Some(g) => Ok(g),
            None => Err(GatewayError::MalformedResponse { body }),
        }
    }
}

/// What the gateway returns for a worker's answer to a withdrawal.
pub open spec fn withdraw_reply(status: u16, body: String) -> Result<(), GatewayError> {
    if status != STATUS_OK {
        Err(GatewayError::Worker { status, body })
    } else {
        Ok(())
    }
}

/// The text shown for an error that ended a wager or a withdrawal: the worker's own words
/// where it gave any.
pub open spec fn error_text_of(e: GatewayError) -> Seq<char> {
    match e {
        GatewayError::Invalid(_) => "invalid request"@,
        GatewayError::Unauthorized => "Not allowed to withdraw"@,
        GatewayError::BadSignature => "invalid signature"@,
        GatewayError::SentimentUnavailable => "sentiment unavailable"@,
        GatewayError::SentimentMalformed => "sentiment malformed"@,
        GatewayError::Worker { body, .. } => body@,
        GatewayError::MalformedResponse { body } => body@,
        GatewayError::Transport { message } => message@,
    }
}

/// The text shown for an error that ended a wager or a withdrawal.
pub fn error_text(e: GatewayError) -> (r: String)
    ensures
        r@ == error_text_of(e),
{
    match e {
        GatewayError::Invalid(_) => String::from_str("invalid request"),
        GatewayError::Unauthorized => String::from_str("Not allowed to withdraw"),
        GatewayError::BadSignature => String::from_str("invalid signature"),
        GatewayError::SentimentUnavailable => String::from_str("sentiment unavailable"),
        GatewayError::SentimentMalformed => String::from_str("sentiment malformed"),
        GatewayError::Worker { body, .. } => body,
        GatewayError::MalformedResponse { body } => body,
        GatewayError::Transport { message } => message,
    }
}

/// Upper-case form of a string, as `str::to_uppercase` computes it.
pub uninterp spec fn upper_of(s: Seq<char>) -> Seq<char>;

/// Relies on `str::to_uppercase`: the result depends on the characters alone.
#[verifier::external_body]
fn to_uppercase(s: &str) -> (r: String)
    ensures
        r@ == upper_of(s@),
{
    s.to_uppercase()
}

/// Whether two strings hold the same characters.
pub fn str_equals(a: &str, b: &str) -> (r: bool)
    ensures
        r == (a@ == b@),
{
    let n = a.unicode_len();
    if n != b.unicode_len() {
        return false;
    }
    let mut i: usize = 0;
    while i < n
        invariant
            n == a@.len(),
            n == b@.len(),
            i <= n,
            forall|j: int| 0 <= j < i ==> a@[j] == b@[j],
        decreases n - i,
    {
        if a.get_char(i) != b.get_char(i) {
            return false;
        }
        i = i + 1;
    }
    assert(a@ =~= b@);
    true
}

/// Checks that `caller` may act for the account whose registered owner is `owner`.
pub fn authorize(caller: &PrincipalId, owner: &PrincipalId, session: SessionType) -> (r: Result<
    (),
    GatewayError,
>)
    ensures
        is_authorized(caller.bytes@, owner.bytes@, session) ==> r is Ok,
        !is_authorized(caller.bytes@, owner.bytes@, session) ==> r == Err::<(), GatewayError>(
            GatewayError::Unauthorized,
        ),
{
    if !caller.same_as(owner) {
        return Err(GatewayError::Unauthorized);
    }
    match session {
        SessionType::RegisteredSession => Ok(()),
        SessionType::AnonymousSession => Err(GatewayError::Unauthorized),
    }
}

/// Reads an upper-cased sentiment signal: "TRUE" is hot, "FALSE" is not, anything else is
/// malformed.
pub fn sentiment_from_upper(u: &str) -> (r: Result<HotOrNot, GatewayError>)
    ensures
        r == sentiment_of_upper(u@),
{
    if str_equals(u, "TRUE") {
        Ok(HotOrNot::Hot)
    } else if str_equals(u, "FALSE") {
        Ok(HotOrNot::Not)
    } else {
        Err(GatewayError::SentimentMalformed)
    }
}

/// Reads the sentiment signal of a post, in any letter case. A missing signal is reported as
/// unavailable rather than replaced by a guess.
pub fn parse_sentiment(value: Option<String>) -> (r: Result<HotOrNot, GatewayError>)
    ensures
        value is None ==> r == Err::<HotOrNot, GatewayError>(GatewayError::SentimentUnavailable),
        value matches Some(v) ==> r == sentiment_of_upper(upper_of(v@)),
{
    match value {
        None => Err(GatewayError::SentimentUnavailable),
        Some(v) => {
            let u = to_uppercase(v.as_str());
            sentiment_from_upper(u.as_str())
        },
    }
}

/// The worker path for a wager by `sender`: "vote/" and the sender's textual principal.
pub fn vote_path(sender: &PrincipalId) -> (r: String)
    requires
        sender.wf(),
    ensures
        r@ == "vote/"@ + principal_text_of(sender.bytes@),
{
    let mut path = String::from_str("vote/");
    let text = sender.text();
    path.append(text.as_str());
    path
}

/// The worker path for a withdrawal.
pub fn withdraw_path() -> (r: String)
    ensures
        r@ == "withdraw"@,
{
    String::from_str("withdraw")
}

/// The worker path that reports the balance of `principal`.
pub fn balance_path(principal: &PrincipalId) -> (r: String)
    requires
        principal.wf(),
    ensures
        r@ == "balance/"@ + principal_text_of(principal.bytes@),
{
    let mut path = String::from_str("balance/");
    let text = principal.text();
    path.append(text.as_str());
    path
}

/// Decides whether a signed wager is forwarded, given the account's owner and session and the
/// post's sentiment signal. On success the result is the call to make on the worker.
pub fn prepare_vote(
    sender: &PrincipalId,
    owner: &PrincipalId,
    session: SessionType,
    req: VoteRequest,
    sig: WagerSignature,
    sentiment: Option<String>,
    post_creator: Option<PrincipalId>,
) -> (r: Result<WorkerVoteCall, GatewayError>)
    requires
        sender.wf(),
    ensures
        match vote_decision(
            vote_validity(req),
            sender.bytes@,
            owner.bytes@,
            session,
            signature_valid_for(sig, vote_bytes(req), sender.bytes@),
            opt_chars(sentiment),
        ) {
            Ok(d) => (r matches Ok(call) && call.path@ == "vote/"@ + principal_text_of(
                sender.bytes@,
            ) && call.request == req && call.fetched_sentiment == d && call.signature == sig
                && call.post_creator == post_creator),
            Err(e) => r == Err::<WorkerVoteCall, GatewayError>(e),
        },
{
    match req.validate() {
        Ok(()) => {},
        Err(e) => return Err(GatewayError::Invalid(e)),
    }
    match authorize(sender, owner, session) {
        Ok(()) => {},
        Err(e) => return Err(e),
    }
    if !verify_vote(&sig, &req, sender) {
        return Err(GatewayError::BadSignature);
    }
    let fetched_sentiment = match parse_sentiment(sentiment) {
        Ok(d) => d,
        Err(e) => return Err(e),
    };
    let path = vote_path(sender);
    Ok(WorkerVoteCall { path, request: req, fetched_sentiment, signature: sig, post_creator })
}

/// Turns the worker's answer to a forwarded wager into the gateway's result: the decoded
/// settlement, unchanged, on success; the status and body otherwise.
pub fn finish_vote(status: u16, body: String, decoded: Option<GameResult>) -> (r: Result<
    GameResult,
    GatewayError,
>)
    ensures
        r == vote_reply(status, body, decoded),
{
    if status != STATUS_OK {
        return Err(GatewayError::Worker { status, body });
    }
    match decoded {
        Some(g) => Ok(g),
        None => Err(GatewayError::MalformedResponse { body }),
    }
}

/// Whether a withdrawal is forwarded: it must be well formed (`validity`), its receiver must be
/// the registered owner, and the signature must be the receiver's over it (`signed`).
pub open spec fn withdraw_decision(
    validity: Result<(), ValidationError>,
    receiver: Seq<u8>,
    owner: Seq<u8>,
    session: SessionType,
    signed: bool,
) -> Result<(), GatewayError> {
    if validity is Err {
        Err(GatewayError::Invalid(validity->Err_0))
    } else if !is_authorized(receiver, owner, session) {
        Err(GatewayError::Unauthorized)
    } else if !signed {
        Err(GatewayError::BadSignature)
    } else {
        Ok(())
    }
}

/// Decides whether a signed withdrawal is forwarded, given the account's owner and session.
/// A malformed request or a zero amount is refused, as is a receiver other than the owner and
/// a signature that is not the receiver's over this withdrawal.
pub fn prepare_withdraw(
    owner: &PrincipalId,
    session: SessionType,
    req: WithdrawRequest,
    sig: WagerSignature,
) -> (r: Result<WorkerWithdrawCall, GatewayError>)
    ensures
        match withdraw_decision(
            withdraw_validity(req),
            req.receiver.bytes@,
            owner.bytes@,
            session,
            signature_valid_for(sig, withdraw_bytes(req), req.receiver.bytes@),
        ) {
            Ok(()) => (r matches Ok(call) && call.path@ == "withdraw"@ && call.request == req
                && call.signature == sig),
            Err(e) => r == Err::<WorkerWithdrawCall, GatewayError>(e),
        },
{
    match req.validate() {
        Ok(()) => {},
        Err(e) => return Err(GatewayError::Invalid(e)),
    }
    match authorize(&req.receiver, owner, session) {
        Ok(()) => {},
        Err(e) => return Err(e),
    }
    if !verify_withdraw(&sig, &req, &req.receiver) {
        return Err(GatewayError::BadSignature);
    }
    let path = withdraw_path();
    Ok(WorkerWithdrawCall { path, request: req, signature: sig })
}

/// Turns the worker's answer to a forwarded withdrawal into the gateway's result.
pub fn finish_withdraw(status: u16, body: String) -> (r: Result<(), GatewayError>)
    ensures
        r == withdraw_reply(status, body),
{
    if status != STATUS_OK {
        Err(GatewayError::Worker { status, body })
    } else {
        Ok(())
    }
}

/// A well-formed, authorized, correctly signed wager is forwarded, and the worker's settlement
/// then comes back unchanged; a session that is not registered is always refused before any
/// call to the worker is formed, and so is a stake that is no tier.
pub proof fn lemma_gateway_relays_settlement(
    validity: Result<(), ValidationError>,
    caller: Seq<u8>,
    owner: Seq<u8>,
    session: SessionType,
    signed: bool,
    sentiment: Option<Seq<char>>,
    body: String,
    g: GameResult,
)
    ensures
        session != SessionType::RegisteredSession ==> vote_decision(
            validity,
            caller,
            owner,
            session,
            signed,
            sentiment,
        ) is Err,
        validity is Ok && session != SessionType::RegisteredSession ==> vote_decision(
            validity,
            caller,
            owner,
            session,
            signed,
            sentiment,
        ) == Err::<HotOrNot, GatewayError>(GatewayError::Unauthorized),
        validity == Err::<(), ValidationError>(ValidationError::InvalidStake) ==> vote_decision(
            validity,
            caller,
            owner,
            session,
            signed,
            sentiment,
        ) == Err::<HotOrNot, GatewayError>(GatewayError::Invalid(ValidationError::InvalidStake)),
        validity is Ok && is_authorized(caller, owner, session) && signed && sentiment is Some && (
        upper_of(sentiment->Some_0) == "TRUE"@ || upper_of(sentiment->Some_0) == "FALSE"@)
            ==> vote_decision(validity, caller, owner, session, signed, sentiment) is Ok,
        vote_reply(STATUS_OK, body, Some(g)) == Ok::<GameResult, GatewayError>(g),
{
}

/// A withdrawal of nothing is refused at the gateway, whoever asks and however it is signed.
pub proof fn lemma_zero_withdrawal_refused(
    req: WithdrawRequest,
    owner: Seq<u8>,
    session: SessionType,
    signed: bool,
)
    requires
        req.receiver.wf(),
        req.amount == 0,
    ensures
        withdraw_decision(withdraw_validity(req), req.receiver.bytes@, owner, session, signed)
            == Err::<(), GatewayError>(GatewayError::Invalid(ValidationError::ZeroAmount)),
{
}

} // verus!
