//! The client-side life of one wager: choosing a stake, waiting for the worker, showing the
//! settlement.
use vstd::prelude::*;

use crate::gateway::GameResult;
use crate::principal::PrincipalId;
use crate::request::{is_tier_amount, tier_amount, HotOrNot, StakeTier, VoteRequest};

verus! {

/// A stored record of a post for the current account.
#[derive(Clone, Copy, Debug, PartialEq, Eq, Structural)]
pub enum GameInfo {
    /// The account wagered `vote_amount` and the wager settled as `game_result`.
    Vote { vote_amount: u64, game_result: GameResult },
    /// The account created the post and was rewarded `amount`.
    CreatorReward { amount: u64 },
}

/// Where a round stands.
#[derive(Clone, Copy, Debug, PartialEq, Eq, Structural)]
pub enum RoundPhase {
    /// No wager placed yet.
    Idle,
    /// A wager is in flight.
    AwaitingResult { tier: StakeTier, direction: HotOrNot },
    /// The wager of the amount of `tier` won `win_amt`.
    Won { tier: StakeTier, win_amt: u64 },
    /// The wager of the amount of `tier` lost `lose_amt`.
    Lost { tier: StakeTier, lose_amt: u64 },
}

/// The observable state of a round: its phase, the selected stake and whether a bet may be
/// placed.
#[derive(Clone, Copy, Debug, PartialEq, Eq, Structural)]
pub struct RoundState {
    pub phase: RoundPhase,
    pub coin: StakeTier,
    pub can_place_bet: bool,
    /// Set by a terminal response: the stored record and the balance must be read again from
    /// the worker rather than adjusted here.
    pub must_refresh: bool,
}

/// Why a round could not be entered.
#[derive(Clone, Copy, Debug, PartialEq, Eq, Structural)]
pub enum GameError {
    /// The stored wager's amount is not one of the tier amounts.
    InvalidStake,
}

/// The flag that permits a bet is down exactly while a wager is in flight.
pub open spec fn round_wf(s: RoundState) -> bool {
    s.can_place_bet == !(s.phase is AwaitingResult)
}

/// A fresh round with the smallest stake selected.
pub open spec fn idle_round() -> RoundState {
    RoundState {
        phase: RoundPhase::Idle,
        coin: StakeTier::C50,
        can_place_bet: true,
        must_refresh: false,
    }
}

/// The phase that shows a stored settlement.
pub open spec fn settled_phase(tier: StakeTier, g: GameResult) -> RoundPhase {
    match g {
        GameResult::Win { win_amt } => RoundPhase::Won { tier, win_amt },
        GameResult::Loss { lose_amt } => RoundPhase::Lost { tier, lose_amt },
    }
}

/// The tier whose amount is `amount`, if any.
pub open spec fn tier_of(amount: u64) -> Option<StakeTier> {
    if amount == 50 {
        Some(StakeTier::C50)
    } else if amount == 100 {
        Some(StakeTier::C100)
    } else if amount == 200 {
        Some(StakeTier::C200)
    } else {
        None
    }
}

/// Whether a stored record is a creator reward, which carries no settlement to show.
pub open spec fn is_creator_reward(settled: Option<GameInfo>) -> bool {
    settled matches Some(GameInfo::CreatorReward { .. })
}

/// The round shown on entering a post, given what is stored for it: a stored settlement is
/// shown as is, a stored stake that is no tier is rejected, no record starts a fresh round.
/// A creator reward is never passed here.
pub open spec fn entered_round(settled: Option<GameInfo>) -> Result<RoundState, GameError>
    recommends
        !is_creator_reward(settled),
{
    match settled {
        Some(GameInfo::Vote { vote_amount, game_result }) => match tier_of(vote_amount) {
            Some(tier) => Ok(
                RoundState {
                    phase: settled_phase(tier, game_result),
                    coin: StakeTier::C50,
                    can_place_bet: true,
                    must_refresh: false,
                },
            ),
            None => Err(GameError::InvalidStake),
        },
        _ => Ok(idle_round()),
    }
}

/// Placing a bet: from an idle round with the flag up, the selected stake goes in flight and
/// the flag goes down; otherwise nothing changes.
pub open spec fn bet_step(s: RoundState, direction: HotOrNot) -> RoundState {
    if s.phase is Idle && s.can_place_bet {
        RoundState {
            phase: RoundPhase::AwaitingResult { tier: s.coin, direction },
            can_place_bet: false,
            ..s
        }
    } else {
        s
    }
}

/// A terminal response: a settlement ends the round won or lost, an error (`None`) returns it
/// to idle without charge; either way the flag goes back up, and the stored record and the
/// balance are due to be read again, since only the worker knows whether funds moved.
/// Outside a wager in flight nothing changes.
pub open spec fn result_step(s: RoundState, outcome: Option<GameResult>) -> RoundState {
    match s.phase {
        RoundPhase::AwaitingResult { tier, .. } => match outcome {
            Some(g) => RoundState {
                phase: settled_phase(tier, g),
                can_place_bet: true,
                must_refresh: true,
                ..s
            },
            None => RoundState {
                phase: RoundPhase::Idle,
                can_place_bet: true,
                must_refresh: true,
                ..s
            },
        },
        _ => s,
    }
}

/// Changing the selected stake, allowed only while a bet may be placed on an idle round.
pub open spec fn coin_step(s: RoundState, next: bool) -> RoundState {
    if s.phase is Idle && s.can_place_bet {
        RoundState {
            coin: if next {
                match s.coin {
                    StakeTier::C50 => StakeTier::C100,
                    StakeTier::C100 => StakeTier::C200,
                    StakeTier::C200 => StakeTier::C50,
                }
            } else {
                match s.coin {
                    StakeTier::C50 => StakeTier::C200,
                    StakeTier::C100 => StakeTier::C50,
                    StakeTier::C200 => StakeTier::C100,
                }
            },
            ..s
        }
    } else {
        s
    }
}

/// Amount shown as received for a won wager: the winnings plus the returned stake.
pub open spec fn payout_of(tier: StakeTier, win_amt: u64) -> int {
    win_amt + tier_amount(tier)
}

/// The creator's share of a wager: a fifth of the stake, rounded down.
pub open spec fn creator_reward_of(stake: u64) -> int {
    (stake * 2) / 10
}

/// What a settled round displays.
#[derive(Clone, Copy, Debug, PartialEq, Eq, Structural)]
pub struct ResultView {
    pub won: bool,
    /// Received (won) or lost amount.
    pub amount: u128,
    /// The creator's share, shown for a win.
    pub creator_reward: u64,
    pub coin: StakeTier,
}

/// The display of a settled phase, if the phase is settled.
pub open spec fn result_view_of(phase: RoundPhase) -> Option<ResultView> {
    match phase {
        RoundPhase::Won { tier, win_amt } => Some(
            ResultView {
                won: true,
                amount: payout_of(tier, win_amt) as u128,
                creator_reward: creator_reward_of(tier_amount(tier)) as u64,
                coin: tier,
            },
        ),
        RoundPhase::Lost { tier, lose_amt } => Some(
            ResultView {
                won: false,
                amount: lose_amt as u128,
                creator_reward: creator_reward_of(tier_amount(tier)) as u64,
                coin: tier,
            },
        ),
        _ => None,
    }
}

/// How a direction button looks: disabled while a wager is in flight, with a spinner on the
/// chosen direction and the other one grayed.
#[derive(Clone, Copy, Debug, PartialEq, Eq, Structural)]
pub struct DirectionButton {
    pub disabled: bool,
    pub grayscale: bool,
    pub spinner: bool,
}

/// The look of the button for `kind` in state `s`.
pub open spec fn direction_button_of(s: RoundState, kind: HotOrNot) -> DirectionButton {
    let chosen = s.phase matches RoundPhase::AwaitingResult { direction, .. } && direction == kind;
    DirectionButton {
        disabled: !s.can_place_bet,
        grayscale: !s.can_place_bet && !chosen,
        spinner: !s.can_place_bet && chosen,
    }
}

/// One round of the game on one post.
#[derive(Clone, Debug)]
pub struct GameRound {
    pub post_canister: PrincipalId,
    pub post_id: u64,
    pub state: RoundState,
    /// The error of the last failed wager, shown until the next bet.
    pub last_error: Option<String>,
}

impl GameRound {
    pub open spec fn wf(&self) -> bool {
        &&& self.post_canister.wf()
        &&& round_wf(self.state)
    }

    /// Enters the round of a post, given the record stored for it, if any.
    pub fn enter(post_canister: PrincipalId, post_id: u64, settled: Option<GameInfo>) -> (r: Result<
        GameRound,
        GameError,
    >)
        requires
            post_canister.wf(),
            !is_creator_reward(settled),
        ensures
            match entered_round(settled) {
                Ok(s) => (r matches Ok(g) && g.state == s && g.post_canister == post_canister
                    && g.post_id == post_id && g.last_error is None && g.wf()),
                Err(e) => r == Err::<GameRound, GameError>(e),
            },
    {
        let phase = match settled {
            Some(GameInfo::Vote { vote_amount, game_result }) => {
                let tier = match StakeTier::from_amount(vote_amount as u128) {
                    Some(t) => t,
                    None => return Err(GameError::InvalidStake),
                };
                match game_result {
                    GameResult::Win { win_amt } => RoundPhase::Won { tier, win_amt },
                    GameResult::Loss { lose_amt } => RoundPhase::Lost { tier, lose_amt },
                }
            },
            _ => RoundPhase::Idle,
        };
        let state = RoundState {
            phase,
            coin: StakeTier::C50,
            can_place_bet: true,
            must_refresh: false,
        };
        Ok(GameRound { post_canister, post_id, state, last_error: None })
    }

    /// Selects the next larger stake, wrapping around; ignored while a bet cannot be placed.
    pub fn next_coin(&mut self)
        requires
            old(self).wf(),
        ensures
            final(self).wf(),
            final(self).state == coin_step(old(self).state, true),
            final(self).post_canister == old(self).post_canister,
            final(self).post_id == old(self).post_id,
            final(self).last_error == old(self).last_error,
    {
        if self.state.can_place_bet && matches!(self.state.phase, RoundPhase::Idle) {
            self.state.coin = self.state.coin.wrapping_next();
        }
    }

    /// Selects the next smaller stake, wrapping around; ignored while a bet cannot be placed.
    pub fn prev_coin(&mut self)
        requires
            old(self).wf(),
        ensures
            final(self).wf(),
            final(self).state == coin_step(old(self).state, false),
            final(self).post_canister == old(self).post_canister,
            final(self).post_id == old(self).post_id,
            final(self).last_error == old(self).last_error,
    {
        if self.state.can_place_bet && matches!(self.state.phase, RoundPhase::Idle) {
            self.state.coin = self.state.coin.wrapping_prev();
        }
    }

    /// Places a bet in `direction` with the selected stake. Returns the request to sign and
    /// send, or `None` (and changes nothing) when a bet cannot be placed now.
    pub fn place_bet(&mut self, direction: HotOrNot) -> (r: Option<VoteRequest>)
        requires
            old(self).wf(),
        ensures
            final(self).wf(),
            final(self).state == bet_step(old(self).state, direction),
            final(self).post_canister == old(self).post_canister,
            final(self).post_id == old(self).post_id,
            old(self).state.phase is Idle && old(self).state.can_place_bet ==> (r matches Some(req)
                && req.post_canister.bytes@ == old(self).post_canister.bytes@ && req.post_id == old(self).post_id
                && req.vote_amount == tier_amount(old(self).state.coin) as u128
                && req.direction == direction && req.valid() && final(self).last_error is None),
            !(old(self).state.phase is Idle && old(self).state.can_place_bet) ==> r is None
                && final(self).last_error == old(self).last_error,
    {
        if !(self.state.can_place_bet && matches!(self.state.phase, RoundPhase::Idle)) {
            return None;
        }
        let amount = self.state.coin.amount();
        let req = VoteRequest {
            post_canister: self.post_canister.duplicate(),
            post_id: self.post_id,
            vote_amount: amount as u128,
            direction,
        };
        self.state = RoundState {
            phase: RoundPhase::AwaitingResult { tier: self.state.coin, direction },
            can_place_bet: false,
            coin: self.state.coin,
            must_refresh: self.state.must_refresh,
        };
        self.last_error = None;
        Some(req)
    }

    /// Applies the terminal response to the wager in flight: the worker's settlement, or the
    /// error that ended the request. Outside a wager in flight nothing changes.
    pub fn apply_result(&mut self, outcome: Result<GameResult, String>)
        requires
            old(self).wf(),
        ensures
            final(self).wf(),
            final(self).state == result_step(
                old(self).state,
                match outcome {
                    Ok(g) => Some(g),
                    Err(_) => None,
                },
            ),
            final(self).post_canister == old(self).post_canister,
            final(self).post_id == old(self).post_id,
            old(self).state.phase is AwaitingResult && outcome is Err ==> final(self).last_error
                == Some(outcome->Err_0),
            !(old(self).state.phase is AwaitingResult && outcome is Err) ==> final(self).last_error
                == old(self).last_error,
    {
        let tier = match self.state.phase {
            RoundPhase::AwaitingResult { tier, .. } => tier,
            _ => return ,
        };
        match outcome {
            Ok(GameResult::Win { win_amt }) => {
                self.state.phase = RoundPhase::Won { tier, win_amt };
            },
            Ok(GameResult::Loss { lose_amt }) => {
                self.state.phase = RoundPhase::Lost { tier, lose_amt };
            },
            Err(message) => {
                self.state.phase = RoundPhase::Idle;
                self.last_error = Some(message);
            },
        }
        self.state.can_place_bet = true;
        self.state.must_refresh = true;
    }

    /// Records that the stored record and the balance were read again.
    pub fn mark_refreshed(&mut self)
        requires
            old(self).wf(),
        ensures
            final(self).wf(),
            final(self).state == (RoundState { must_refresh: false, ..old(self).state }),
            final(self).post_canister == old(self).post_canister,
            final(self).post_id == old(self).post_id,
            final(self).last_error == old(self).last_error,
    {
        self.state.must_refresh = false;
    }

    /// The look of the button for `kind`.
    pub fn direction_button(&self, kind: HotOrNot) -> (r: DirectionButton)
        ensures
            r == direction_button_of(self.state, kind),
    {
        let chosen = match self.state.phase {
            RoundPhase::AwaitingResult { direction, .. } => direction == kind,
            _ => false,
        };
        let disabled = !self.state.can_place_bet;
        DirectionButton { disabled, grayscale: disabled && !chosen, spinner: disabled && chosen }
    }

    /// What the round displays once settled.
    pub fn result_view(&self) -> (r: Option<ResultView>)
        ensures
            r == result_view_of(self.state.phase),
    {
        match self.state.phase {
            RoundPhase::Won { tier, win_amt } => {
                let stake = tier.amount();
                Some(
                    ResultView {
                        won: true,
                        amount: win_amt as u128 + stake as u128,
                        creator_reward: creator_reward(stake),
                        coin: tier,
                    },
                )
            },
            RoundPhase::Lost { tier, lose_amt } => Some(
                ResultView {
                    won: false,
                    amount: lose_amt as u128,
                    creator_reward: creator_reward(tier.amount()),
                    coin: tier,
                },
            ),
            _ => None,
        }
    }
}

/// The creator's share of a wager of `stake`.
pub fn creator_reward(stake: u64) -> (r: u64)
    ensures
        r == creator_reward_of(stake),
{
    (stake as u128 * 2 / 10) as u64
}

/// The flag that permits a bet is down from the moment a wager is placed until its terminal
/// response, and up at every other time: every step keeps it so, placing a bet lowers it, a
/// terminal response raises it, and while it is down a second bet changes nothing.
pub proof fn lemma_bet_flag_tracks_flight(
    s: RoundState,
    direction: HotOrNot,
    outcome: Option<GameResult>,
    next: bool,
    settled: Option<GameInfo>,
)
    requires
        round_wf(s),
    ensures
        !is_creator_reward(settled) ==> (entered_round(settled) matches Ok(e) ==> round_wf(e)),
        round_wf(bet_step(s, direction)),
        round_wf(result_step(s, outcome)),
        round_wf(coin_step(s, next)),
        s.phase is Idle ==> !bet_step(s, direction).can_place_bet,
        s.phase is AwaitingResult ==> result_step(s, outcome).can_place_bet && result_step(
            s,
            outcome,
        ).must_refresh,
        !s.can_place_bet ==> bet_step(s, direction) == s && coin_step(s, next) == s,
{
}

/// Entering a post whose wager is already settled shows the stored win or loss, and no bet can
/// be placed there; a stored stake that is no tier is rejected rather than shown.
pub proof fn lemma_settled_round_never_prompts(
    vote_amount: u64,
    game_result: GameResult,
    direction: HotOrNot,
)
    ensures
        is_tier_amount(vote_amount as int) ==> (entered_round(
            Some(GameInfo::Vote { vote_amount, game_result }),
        ) matches Ok(s) && s.phase == settled_phase(tier_of(vote_amount)->Some_0, game_result)
            && bet_step(s, direction) == s && result_view_of(s.phase) is Some),
        !is_tier_amount(vote_amount as int) ==> entered_round(
            Some(GameInfo::Vote { vote_amount, game_result }),
        ) == Err::<RoundState, GameError>(GameError::InvalidStake),
{
}

} // verus!
