//! The client flow that turns accumulated credit into a payout.
use vstd::prelude::*;

use crate::gateway::{error_text, error_text_of, GatewayError, SessionType};
use crate::principal::PrincipalId;
use crate::request::{ValidationError, WithdrawRequest};

verus! {

/// Whether every character is an ASCII digit.
pub open spec fn all_digits(s: Seq<char>) -> bool {
    forall|i: int| 0 <= i < s.len() ==> '0' <= #[trigger] s[i] <= '9'
}

/// The value of a string of decimal digits.
pub open spec fn digits_value(s: Seq<char>) -> nat
    decreases s.len(),
{
    if s.len() == 0 {
        0
    } else {
        digits_value(s.drop_last()) * 10 + (s.last() as nat - '0' as nat) as nat
    }
}

/// What `usize::from_str` gives: an optional `+` followed by at least one decimal digit, whose
/// value fits in `usize`.
pub open spec fn parsed_usize(s: Seq<char>) -> Option<usize> {
    let digits = if s.len() > 0 && s[0] == '+' {
        s.subrange(1, s.len() as int)
    } else {
        s
    };
    if digits.len() > 0 && all_digits(digits) && digits_value(digits) <= usize::MAX {
        Some(digits_value(digits) as usize)
    } else {
        None
    }
}

/// Relies on `str::parse::<usize>`: an optional `+` and decimal digits whose value fits;
/// anything else (empty, other characters, overflow) is an error.
#[verifier::external_body]
fn parse_usize(s: &str) -> (r: Option<usize>)
    ensures
        r == parsed_usize(s@),
{
    s.parse::<usize>().ok()
}

/// The amount typed into the withdrawal field; anything that is not a number counts as zero.
pub fn amount_from_input(text: &str) -> (r: usize)
    ensures
        r == match parsed_usize(text@) {
            Some(v) => v,
            None => 0,
        },
{
    match parse_usize(text) {
        Some(v) => v,
        None => 0,
    }
}

/// Where a withdrawal stands.
#[derive(Clone, Debug, PartialEq, Eq)]
pub enum WithdrawPhase {
    /// The amount is being chosen.
    Editing,
    /// A signed request is in flight.
    Submitting,
    /// The worker paid out `amount`.
    Succeeded { amount: u128 },
    /// The withdrawal of `amount` failed with `message`.
    Failed { amount: u128, message: String },
}

/// Why a withdrawal was not started.
#[derive(Clone, Copy, Debug, PartialEq, Eq, Structural)]
pub enum WithdrawError {
    /// The request itself is not acceptable (a zero amount, a malformed receiver).
    Invalid(ValidationError),
    /// The account has not completed registration.
    Unregistered,
    /// A withdrawal is already in flight.
    InFlight,
}

/// The label on the withdrawal button.
#[derive(Clone, Copy, Debug, PartialEq, Eq, Structural)]
pub enum ButtonLabel {
    EnterAmount,
    Claiming,
    WithdrawNow,
}

/// The state of the withdrawal button.
#[derive(Clone, Copy, Debug, PartialEq, Eq, Structural)]
pub struct WithdrawButton {
    pub enabled: bool,
    pub label: ButtonLabel,
}

/// One withdrawal screen: the chosen amount, the phase and the last balance read.
#[derive(Clone, Debug)]
pub struct WithdrawFlow {
    pub amount: usize,
    pub phase: WithdrawPhase,
    /// The last balance read from the worker; `None` when it must be read again.
    pub balance: Option<u128>,
}

impl WithdrawFlow {
    /// A screen with no amount chosen and no balance read yet.
    pub fn new() -> (r: WithdrawFlow)
        ensures
            r.amount == 0,
            r.phase == WithdrawPhase::Editing,
            r.balance is None,
    {
        WithdrawFlow { amount: 0, phase: WithdrawPhase::Editing, balance: None }
    }

    /// Records a balance read from the worker.
    pub fn set_balance(&mut self, balance: u128)
        ensures
            final(self).balance == Some(balance),
            final(self).amount == old(self).amount,
            final(self).phase == old(self).phase,
    {
        self.balance = Some(balance);
    }

    /// Takes the text typed into the amount field; ignored while a withdrawal is in flight.
    pub fn set_amount_input(&mut self, text: &str)
        ensures
            old(self).phase is Submitting ==> final(self).amount == old(self).amount,
            !(old(self).phase is Submitting) ==> final(self).amount == match parsed_usize(text@) {
                Some(v) => v,
                None => 0,
            },
            final(self).phase == old(self).phase,
            final(self).balance == old(self).balance,
    {
        if !matches!(self.phase, WithdrawPhase::Submitting) {
            self.amount = amount_from_input(text);
        }
    }

    /// The state of the withdrawal button: disabled with a prompt while no amount is chosen,
    /// inert while a withdrawal is in flight.
    pub fn button(&self) -> (r: WithdrawButton)
        ensures
            r.enabled == (self.amount != 0 && !(self.phase is Submitting)),
            r.label == if self.amount == 0 {
                ButtonLabel::EnterAmount
            } else if self.phase is Submitting {
                ButtonLabel::Claiming
            } else {
                ButtonLabel::WithdrawNow
            },
    {
        let claiming = matches!(self.phase, WithdrawPhase::Submitting);
        if self.amount == 0 {
            WithdrawButton { enabled: false, label: ButtonLabel::EnterAmount }
        } else if claiming {
            WithdrawButton { enabled: false, label: ButtonLabel::Claiming }
        } else {
            WithdrawButton { enabled: true, label: ButtonLabel::WithdrawNow }
        }
    }

    /// Starts a withdrawal of the chosen amount to `receiver`. Returns the request to sign and
    /// send; a zero amount, an unregistered session or a withdrawal already in flight is
    /// refused before any request exists.
    pub fn begin(&mut self, receiver: &PrincipalId, session: SessionType) -> (r: Result<
        WithdrawRequest,
        WithdrawError,
    >)
        ensures
            old(self).phase is Submitting ==> r == Err::<WithdrawRequest, WithdrawError>(
                WithdrawError::InFlight,
            ),
            !(old(self).phase is Submitting) && old(self).amount == 0 ==> r == Err::<
                WithdrawRequest,
                WithdrawError,
            >(WithdrawError::Invalid(ValidationError::ZeroAmount)),
            !(old(self).phase is Submitting) && old(self).amount != 0 && session
                != SessionType::RegisteredSession ==> r == Err::<WithdrawRequest, WithdrawError>(
                WithdrawError::Unregistered,
            ),
            !(old(self).phase is Submitting) && old(self).amount != 0 && session
                == SessionType::RegisteredSession && !receiver.wf() ==> r == Err::<
                WithdrawRequest,
                WithdrawError,
            >(WithdrawError::Invalid(ValidationError::MalformedPrincipal)),
            !(old(self).phase is Submitting) && old(self).amount != 0 && session
                == SessionType::RegisteredSession && receiver.wf() ==> (r matches Ok(req)
                && req.receiver.bytes@ == receiver.bytes@ && req.amount == old(self).amount
                && req.valid() && final(self).phase == WithdrawPhase::Submitting),
            r is Err ==> final(self).phase == old(self).phase,
            final(self).amount == old(self).amount,
            final(self).balance == old(self).balance,
    {
        if matches!(self.phase, WithdrawPhase::Submitting) {
            return Err(WithdrawError::InFlight);
        }
        if self.amount == 0 {
            return Err(WithdrawError::Invalid(ValidationError::ZeroAmount));
        }
        match session {
            SessionType::RegisteredSession => {},
            SessionType::AnonymousSession => return Err(WithdrawError::Unregistered),
        }
        match WithdrawRequest::new(receiver.duplicate(), self.amount as u128) {
            Ok(req) => {
                self.phase = WithdrawPhase::Submitting;
                Ok(req)
            },
            Err(e) => Err(WithdrawError::Invalid(e)),
        }
    }

    /// Applies the terminal response to the withdrawal in flight: success shows the amount paid
    /// out, failure shows the error text. Either way the balance must be read again rather
    /// than adjusted here. Outside a withdrawal in flight nothing changes.
    pub fn finish(&mut self, outcome: Result<(), GatewayError>)
        ensures
            old(self).phase is Submitting && outcome is Ok ==> final(self).phase == (
            WithdrawPhase::Succeeded { amount: old(self).amount as u128 }),
            old(self).phase is Submitting && outcome is Err ==> final(self).phase is Failed
                && final(self).phase->Failed_amount == old(self).amount
                && final(self).phase->Failed_message@ == error_text_of(outcome->Err_0),
            old(self).phase is Submitting ==> final(self).balance is None,
            !(old(self).phase is Submitting) ==> final(self).phase == old(self).phase
                && final(self).balance == old(self).balance,
            final(self).amount == old(self).amount,
    {
        if !matches!(self.phase, WithdrawPhase::Submitting) {
            return ;
        }
        let amount = self.amount as u128;
        match outcome {
            Ok(()) => {
                self.phase = WithdrawPhase::Succeeded { amount };
            },
            Err(e) => {
                let message = error_text(e);
                self.phase = WithdrawPhase::Failed { amount, message };
            },
        }
        self.balance = None;
    }
}

} // verus!
