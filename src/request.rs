//! The two requests a client signs: a wager on a post and a withdrawal of credit.
use vstd::prelude::*;

use crate::principal::PrincipalId;

verus! {

/// One of the fixed wager sizes.
#[derive(Clone, Copy, Debug, PartialEq, Eq, Structural)]
pub enum StakeTier {
    C50,
    C100,
    C200,
}

/// The amount a tier stands for.
pub open spec fn tier_amount(t: StakeTier) -> u64 {
    match t {
        StakeTier::C50 => 50,
        StakeTier::C100 => 100,
        StakeTier::C200 => 200,
    }
}

/// Whether an amount is one of the tier amounts.
pub open spec fn is_tier_amount(amount: int) -> bool {
    amount == 50 || amount == 100 || amount == 200
}

impl StakeTier {
    /// The amount this tier stakes.
    pub fn amount(self) -> (r: u64)
        ensures
            r == tier_amount(self),
    {
        match self {
            StakeTier::C50 => 50,
            StakeTier::C100 => 100,
            StakeTier::C200 => 200,
        }
    }

    /// The tier whose amount is `amount`, if there is one.
    pub fn from_amount(amount: u128) -> (r: Option<StakeTier>)
        ensures
            r matches Some(t) ==> tier_amount(t) == amount,
            r is None <==> !is_tier_amount(amount as int),
    {
        if amount == 50 {
            Some(StakeTier::C50)
        } else if amount == 100 {
            Some(StakeTier::C100)
        } else if amount == 200 {
            Some(StakeTier::C200)
        } else {
            None
        }
    }

    /// The next larger tier, wrapping from the largest to the smallest.
    pub fn wrapping_next(self) -> (r: StakeTier)
        ensures
            r == match self {
                StakeTier::C50 => StakeTier::C100,
                StakeTier::C100 => StakeTier::C200,
                StakeTier::C200 => StakeTier::C50,
            },
    {
        match self {
            StakeTier::C50 => StakeTier::C100,
            StakeTier::C100 => StakeTier::C200,
            StakeTier::C200 => StakeTier::C50,
        }
    }

    /// The next smaller tier, wrapping from the smallest to the largest.
    pub fn wrapping_prev(self) -> (r: StakeTier)
        ensures
            r == match self {
                StakeTier::C50 => StakeTier::C200,
                StakeTier::C100 => StakeTier::C50,
                StakeTier::C200 => StakeTier::C100,
            },
    {
        match self {
            StakeTier::C50 => StakeTier::C200,
            StakeTier::C100 => StakeTier::C50,
            StakeTier::C200 => StakeTier::C100,
        }
    }
}

/// The two choices a wager can take.
#[derive(Clone, Copy, Debug, PartialEq, Eq, Structural)]
pub enum HotOrNot {
    Hot,
    Not,
}

/// Why a request could not be built.
#[derive(Clone, Copy, Debug, PartialEq, Eq, Structural)]
pub enum ValidationError {
    /// The wager amount is not one of the tier amounts.
    InvalidStake,
    /// A withdrawal of nothing.
    ZeroAmount,
    /// An identifier longer than a principal can be.
    MalformedPrincipal,
}

/// A wager of `vote_amount` on the post `post_id` of the canister `post_canister`.
#[derive(Clone, Debug, PartialEq, Eq)]
pub struct VoteRequest {
    pub post_canister: PrincipalId,
    pub post_id: u64,
    pub vote_amount: u128,
    pub direction: HotOrNot,
}

impl VoteRequest {
    /// A request that can be signed: a well-formed target and a tier amount.
    pub open spec fn valid(&self) -> bool {
        &&& self.post_canister.wf()
        &&& is_tier_amount(self.vote_amount as int)
    }

    /// Builds a wager; fails unless the canister id is well formed and the amount is a tier.
    pub fn new(post_canister: PrincipalId, post_id: u64, vote_amount: u128, direction: HotOrNot) -> (r:
        Result<VoteRequest, ValidationError>)
        ensures
            !post_canister.wf() ==> r == Err::<VoteRequest, ValidationError>(
                ValidationError::MalformedPrincipal,
            ),
            post_canister.wf() && !is_tier_amount(vote_amount as int) ==> r == Err::<
                VoteRequest,
                ValidationError,
            >(ValidationError::InvalidStake),
            post_canister.wf() && is_tier_amount(vote_amount as int) ==> r == Ok::<
                VoteRequest,
                ValidationError,
            >(VoteRequest { post_canister, post_id, vote_amount, direction }),
            r matches Ok(v) ==> v.valid(),
    {
        if post_canister.bytes.len() > crate::principal::MAX_PRINCIPAL_LEN {
            return Err(ValidationError::MalformedPrincipal);
        }
        match StakeTier::from_amount(vote_amount) {
            Some(_) => Ok(VoteRequest { post_canister, post_id, vote_amount, direction }),
            None => Err(ValidationError::InvalidStake),
        }
    }

    /// Checks a vote built elsewhere (decoded from the wire, say) as `new` would.
    pub fn validate(&self) -> (r: Result<(), ValidationError>)
        ensures
            r == vote_validity(*self),
            r is Ok <==> self.valid(),
    {
        if self.post_canister.bytes.len() > crate::principal::MAX_PRINCIPAL_LEN {
            return Err(ValidationError::MalformedPrincipal);
        }
        match StakeTier::from_amount(self.vote_amount) {
            Some(_) => Ok(()),
            None => Err(ValidationError::InvalidStake),
        }
    }

    /// Builds a wager of the amount of `tier`; fails only on a malformed canister id.
    pub fn with_tier(post_canister: PrincipalId, post_id: u64, tier: StakeTier, direction: HotOrNot) -> (r:
        Result<VoteRequest, ValidationError>)
        ensures
            !post_canister.wf() ==> r == Err::<VoteRequest, ValidationError>(
                ValidationError::MalformedPrincipal,
            ),
            post_canister.wf() ==> r == Ok::<VoteRequest, ValidationError>(
                VoteRequest { post_canister, post_id, vote_amount: tier_amount(tier) as u128, direction },
            ),
    {
        let amount = tier.amount();
        VoteRequest::new(post_canister, post_id, amount as u128, direction)
    }
}

/// Whether a vote can be signed and forwarded, and if not, why.
pub open spec fn vote_validity(v: VoteRequest) -> Result<(), ValidationError> {
    if !v.post_canister.wf() {
        Err(ValidationError::MalformedPrincipal)
    } else if !is_tier_amount(v.vote_amount as int) {
        Err(ValidationError::InvalidStake)
    } else {
        Ok(())
    }
}

/// Whether a withdrawal can be signed and forwarded, and if not, why.
pub open spec fn withdraw_validity(w: WithdrawRequest) -> Result<(), ValidationError> {
    if !w.receiver.wf() {
        Err(ValidationError::MalformedPrincipal)
    } else if w.amount == 0 {
        Err(ValidationError::ZeroAmount)
    } else {
        Ok(())
    }
}

/// A request to pay out `amount` of credit to `receiver`.
#[derive(Clone, Debug, PartialEq, Eq)]
pub struct WithdrawRequest {
    pub receiver: PrincipalId,
    pub amount: u128,
}

impl WithdrawRequest {
    /// A request that can be signed: a well-formed receiver and a positive amount.
    pub open spec fn valid(&self) -> bool {
        &&& self.receiver.wf()
        &&& self.amount > 0
    }

    /// Checks a withdrawal built elsewhere (decoded from the wire, say) as `new` would.
    pub fn validate(&self) -> (r: Result<(), ValidationError>)
        ensures
            r == withdraw_validity(*self),
            r is Ok <==> self.valid(),
    {
        if self.receiver.bytes.len() > crate::principal::MAX_PRINCIPAL_LEN {
            return Err(ValidationError::MalformedPrincipal);
        }
        if self.amount == 0 {
            return Err(ValidationError::ZeroAmount);
        }
        Ok(())
    }

    /// Builds a withdrawal; fails on a malformed receiver or a zero amount.
    pub fn new(receiver: PrincipalId, amount: u128) -> (r: Result<WithdrawRequest, ValidationError>)
        ensures
            !receiver.wf() ==> r == Err::<WithdrawRequest, ValidationError>(
                ValidationError::MalformedPrincipal,
            ),
            receiver.wf() && amount == 0 ==> r == Err::<WithdrawRequest, ValidationError>(
                ValidationError::ZeroAmount,
            ),
            receiver.wf() && amount > 0 ==> r == Ok::<WithdrawRequest, ValidationError>(
                WithdrawRequest { receiver, amount },
            ),
            r matches Ok(w) ==> w.valid(),
    {
        if receiver.bytes.len() > crate::principal::MAX_PRINCIPAL_LEN {
            return Err(ValidationError::MalformedPrincipal);
        }
        if amount == 0 {
            return Err(ValidationError::ZeroAmount);
        }
        Ok(WithdrawRequest { receiver, amount })
    }
}

/// Every tier amount builds a wager, and no other amount does.
pub proof fn lemma_stake_tiers_accepted(t: StakeTier, amount: u128)
    ensures
        is_tier_amount(tier_amount(t) as int),
        is_tier_amount(amount as int) <==> (exists|u: StakeTier| tier_amount(u) == amount),
{
    if is_tier_amount(amount as int) {
        if amount == 50 {
            assert(tier_amount(StakeTier::C50) == amount);
        } else if amount == 100 {
            assert(tier_amount(StakeTier::C100) == amount);
        } else {
            assert(tier_amount(StakeTier::C200) == amount);
        }
    }
}

} // verus!
