use vstd::prelude::*;
use crate::market::MarketState;
use crate::reward::{pool_of, rate_of};
use crate::types::{
    same_key, Balance, Identity, PredictionCreatedEvent, PredictionError, PredictionMadeEvent,
    PredictionResolvedEvent, PredictionResult, PredictionState, Transfer,
};

verus! {

/// Reward figures attached to a prediction.
#[derive(Clone, Copy, Debug, Default, PartialEq, Eq, Structural)]
pub struct RewardInfo {
    pub reward_per_lamport: u64,
    pub total_reward_pool: u64,
}

/// One proposition: its lifecycle, its tallies and, once settled, its reward rate.
pub struct Prediction {
    pub id: u64,
    pub state: PredictionState,
    pub description: String,
    pub start_time: i64,
    pub end_time: i64,
    pub total_votes: u64,
    pub yes_votes: u64,
    pub no_votes: u64,
    pub yes_amount: u64,
    pub no_amount: u64,
    pub result: PredictionResult,
    pub total_amount: u64,
    pub prediction_type: u8,
    pub options_count: u8,
    pub tags: Vec<String>,
    pub reward_info: Option<RewardInfo>,
    pub reward_per_lamport: u64,
    pub rewards_distributed: bool,
}

/// A user's single stake on one prediction, kept as the receipt of its claim.
#[derive(Clone, Copy, Debug)]
pub struct UserPrediction {
    pub user: Identity,
    pub prediction_id: u64,
    pub amount: u64,
    pub verdict: bool,
    pub reward_claimed: bool,
}

/// What an accepted stake hands back: the new stake entry, the transfer of
/// the stake into the prediction's escrow, and the event to log.
pub struct StakeReceipt {
    pub entry: UserPrediction,
    pub transfer: Transfer,
    pub event: PredictionMadeEvent,
}

impl Prediction {
    /// The record's invariant: tallies add up, an outcome exists exactly when
    /// resolved, rewards are settled only once resolved, and the deadline
    /// lies after the start.
    pub open spec fn wf(self) -> bool {
        &&& self.total_amount == self.yes_amount + self.no_amount
        &&& self.total_votes == self.yes_votes + self.no_votes
        &&& (self.result != PredictionResult::Undefined <==> self.state
            == PredictionState::Resolved)
        &&& (self.rewards_distributed ==> self.state == PredictionState::Resolved)
        &&& self.start_time < self.end_time
        &&& (self.rewards_distributed ==> winning_amount(self) > 0 && self.reward_per_lamport
            == rate_of(pool_of(self.total_amount as int), winning_amount(self) as int))
    }
}

/// The stake on the side that won (the "no" side unless the outcome is `True`).
pub open spec fn winning_amount(p: Prediction) -> u64 {
    if p.result == PredictionResult::True {
        p.yes_amount
    } else {
        p.no_amount
    }
}

/// Why `create_prediction` refuses, if it does.
pub open spec fn create_check(market: MarketState, caller: Identity, now: i64, duration: i64) -> Option<
    PredictionError,
> {
    if !same_key(caller, market.admin) {
        Some(PredictionError::NotAuthorized)
    } else if duration <= 0 {
        Some(PredictionError::InvalidDuration)
    } else if market.next_prediction_id == u64::MAX {
        Some(PredictionError::Overflow)
    } else if now + duration > i64::MAX {
        Some(PredictionError::Overflow)
    } else {
        None
    }
}

/// Creates a prediction with the next id of the registry, open from `now`
/// for `duration` seconds, with zero tallies and no outcome.
pub fn create_prediction(
    market: &mut MarketState,
    caller: &Identity,
    now: i64,
    description: String,
    duration: i64,
    tags: Vec<String>,
    prediction_type: u8,
    options_count: u8,
) -> (r: Result<(Prediction, PredictionCreatedEvent), PredictionError>)
    ensures
        r is Err <==> create_check(*old(market), *caller, now, duration) is Some,
        r is Err ==> r->Err_0 == create_check(*old(market), *caller, now, duration)->0,
        r is Err ==> *final(market) == *old(market),
        r is Ok ==> {
            let p = r->Ok_0.0;
            let ev = r->Ok_0.1;
            &&& final(market).admin == old(market).admin
            &&& final(market).next_prediction_id == old(market).next_prediction_id + 1
            &&& p.wf()
            &&& p.id == old(market).next_prediction_id
            &&& p.state == PredictionState::Active
            &&& p.description@ == description@
            &&& p.start_time == now
            &&& p.end_time == now + duration
            &&& p.total_votes == 0 && p.yes_votes == 0 && p.no_votes == 0
            &&& p.yes_amount == 0 && p.no_amount == 0 && p.total_amount == 0
            &&& p.result == PredictionResult::Undefined
            &&& p.prediction_type == prediction_type
            &&& p.options_count == options_count
            &&& p.tags@ == tags@
            &&& p.reward_info is None
            &&& p.reward_per_lamport == 0
            &&& !p.rewards_distributed
            &&& ev.prediction_id == p.id
            &&& ev.creator == *caller
            &&& ev.description@ == description@
        },
{
    if !(*caller == market.admin) {
        return Err(PredictionError::NotAuthorized);
    }
    if duration <= 0 {
        return Err(PredictionError::InvalidDuration);
    }
    if now as i128 + duration as i128 > i64::MAX as i128 {
        return Err(PredictionError::Overflow);
    }
    let end_time = now + duration;
    let prediction_id = match market.allocate_prediction_id() {
        Ok(id) => id,
        Err(e) => {
            return Err(e);
        },
    };
    let event = PredictionCreatedEvent {
        prediction_id,
        creator: *caller,
        description: description.clone(),
    };
    let prediction = Prediction {
        id: prediction_id,
        state: PredictionState::Active,
        description,
        start_time: now,
        end_time,
        total_votes: 0,
        yes_votes: 0,
        no_votes: 0,
        yes_amount: 0,
        no_amount: 0,
        result: PredictionResult::Undefined,
        total_amount: 0,
        prediction_type,
        options_count,
        tags,
        reward_info: None,
        reward_per_lamport: 0,
        rewards_distributed: false,
    };
    Ok((prediction, event))
}


/// Whether the counters of `p` can take one more stake of `amount` on `verdict`.
pub open spec fn stake_fits(p: Prediction, verdict: bool, amount: u64) -> bool {
    &&& p.total_votes + 1 <= u64::MAX
    &&& p.total_amount + amount <= u64::MAX
    &&& if verdict {
        p.yes_votes + 1 <= u64::MAX && p.yes_amount + amount <= u64::MAX
    } else {
        p.no_votes + 1 <= u64::MAX && p.no_amount + amount <= u64::MAX
    }
}

/// Why `predict` refuses a stake, if it does; `staked` tells whether the
/// user already holds a stake on `p`.
pub open spec fn stake_check(p: Prediction, staked: bool, now: i64, verdict: bool, amount: u64) -> Option<
    PredictionError,
> {
    if p.state != PredictionState::Active {
        Some(PredictionError::PredictionNotActive)
    } else if now >= p.end_time {
        Some(PredictionError::PredictionEnded)
    } else if amount == 0 {
        Some(PredictionError::InvalidAmount)
    } else if staked {
        Some(PredictionError::AlreadyStaked)
    } else if !stake_fits(p, verdict, amount) {
        Some(PredictionError::Overflow)
    } else {
        None
    }
}

/// `p` after an accepted stake of `amount` on `verdict`.
pub open spec fn staked_on(p: Prediction, verdict: bool, amount: u64) -> Prediction {
    Prediction {
        total_votes: (p.total_votes + 1) as u64,
        yes_votes: if verdict { (p.yes_votes + 1) as u64 } else { p.yes_votes },
        no_votes: if verdict { p.no_votes } else { (p.no_votes + 1) as u64 },
        yes_amount: if verdict { (p.yes_amount + amount) as u64 } else { p.yes_amount },
        no_amount: if verdict { p.no_amount } else { (p.no_amount + amount) as u64 },
        total_amount: (p.total_amount + amount) as u64,
        ..p
    }
}

/// Records a stake of `amount` by `user` on side `verdict` (true is yes).
/// `existing` is the user's current stake entry on this prediction, if any:
/// a user stakes at most once per prediction.
pub fn predict(
    prediction: &mut Prediction,
    existing: &Option<UserPrediction>,
    user: &Identity,
    now: i64,
    verdict: bool,
    amount: u64,
) -> (r: Result<StakeReceipt, PredictionError>)
    ensures
        r is Err <==> stake_check(*old(prediction), existing is Some, now, verdict, amount) is Some,
        r is Err ==> r->Err_0 == stake_check(
            *old(prediction),
            existing is Some,
            now,
            verdict,
            amount,
        )->0,
        r is Err ==> *final(prediction) == *old(prediction),
        r is Ok ==> *final(prediction) == staked_on(*old(prediction), verdict, amount),
        r is Ok ==> r->Ok_0.entry == (UserPrediction {
            user: *user,
            prediction_id: old(prediction).id,
            amount,
            verdict,
            reward_claimed: false,
        }),
        r is Ok ==> r->Ok_0.transfer == (Transfer {
            from: Balance::User(*user),
            to: Balance::Escrow(old(prediction).id),
            amount,
        }),
        r is Ok ==> r->Ok_0.event == (PredictionMadeEvent {
            prediction_id: old(prediction).id,
            user: *user,
            verdict,
            amount,
        }),
        old(prediction).wf() ==> final(prediction).wf(),
{
    if prediction.state != PredictionState::Active {
        return Err(PredictionError::PredictionNotActive);
    }
    if now >= prediction.end_time {
        return Err(PredictionError::PredictionEnded);
    }
    if amount == 0 {
        return Err(PredictionError::InvalidAmount);
    }
    if existing.is_some() {
        return Err(PredictionError::AlreadyStaked);
    }
    if prediction.total_votes == u64::MAX || prediction.total_amount > u64::MAX - amount {
        return Err(PredictionError::Overflow);
    }
    if verdict {
        if prediction.yes_votes == u64::MAX || prediction.yes_amount > u64::MAX - amount {
            return Err(PredictionError::Overflow);
        }
    } else {
        if prediction.no_votes == u64::MAX || prediction.no_amount > u64::MAX - amount {
            return Err(PredictionError::Overflow);
        }
    }
    prediction.total_votes = prediction.total_votes + 1;
    if verdict {
        prediction.yes_votes = prediction.yes_votes + 1;
        prediction.yes_amount = prediction.yes_amount + amount;
    } else {
        prediction.no_votes = prediction.no_votes + 1;
        prediction.no_amount = prediction.no_amount + amount;
    }
    prediction.total_amount = prediction.total_amount + amount;
    let id = prediction.id;
    Ok(
        StakeReceipt {
            entry: UserPrediction {
                user: *user,
                prediction_id: id,
                amount,
                verdict,
                reward_claimed: false,
            },
            transfer: Transfer { from: Balance::User(*user), to: Balance::Escrow(id), amount },
            event: PredictionMadeEvent { prediction_id: id, user: *user, verdict, amount },
        },
    )
}

/// Why `resolve_prediction` refuses, if it does.
pub open spec fn resolve_check(
    market: MarketState,
    p: Prediction,
    caller: Identity,
    result: PredictionResult,
) -> Option<PredictionError> {
    if !same_key(caller, market.admin) {
        Some(PredictionError::NotAuthorized)
    } else if p.state == PredictionState::Resolved {
        Some(PredictionError::PredictionAlreadyResolved)
    } else if result == PredictionResult::Undefined {
        Some(PredictionError::InvalidResult)
    } else {
        None
    }
}

/// `p` resolved with outcome `result`.
pub open spec fn resolved_with(p: Prediction, result: PredictionResult) -> Prediction {
    Prediction { result, state: PredictionState::Resolved, ..p }
}

/// The admin declares the outcome of a prediction, once. No deadline applies.
pub fn resolve_prediction(
    market: &MarketState,
    prediction: &mut Prediction,
    caller: &Identity,
    result: PredictionResult,
) -> (r: Result<PredictionResolvedEvent, PredictionError>)
    ensures
        r is Err <==> resolve_check(*market, *old(prediction), *caller, result) is Some,
        r is Err ==> r->Err_0 == resolve_check(*market, *old(prediction), *caller, result)->0,
        r is Err ==> *final(prediction) == *old(prediction),
        r is Ok ==> *final(prediction) == resolved_with(*old(prediction), result),
        r is Ok ==> r->Ok_0 == (PredictionResolvedEvent { prediction_id: old(prediction).id, result }),
        old(prediction).wf() ==> final(prediction).wf(),
{
    if !(*caller == market.admin) {
        return Err(PredictionError::NotAuthorized);
    }
    if prediction.state == PredictionState::Resolved {
        return Err(PredictionError::PredictionAlreadyResolved);
    }
    if result == PredictionResult::Undefined {
        return Err(PredictionError::InvalidResult);
    }
    prediction.result = result;
    prediction.state = PredictionState::Resolved;
    Ok(PredictionResolvedEvent { prediction_id: prediction.id, result })
}


/// Resolution happens once: after the admin resolves a prediction, every
/// further resolution by the admin, with any outcome, is refused with
/// `PredictionAlreadyResolved` (and a refused resolution changes nothing).
pub proof fn lemma_resolve_once(
    market: MarketState,
    p: Prediction,
    caller: Identity,
    first: PredictionResult,
    second: PredictionResult,
)
    requires
        resolve_check(market, p, caller, first) is None,
    ensures
        resolve_check(market, resolved_with(p, first), caller, second) == Some(
            PredictionError::PredictionAlreadyResolved,
        ),
{
}

/// Whether a stake on side `verdict` wins under outcome `result`.
pub open spec fn wins(result: PredictionResult, verdict: bool) -> bool {
    (result == PredictionResult::True && verdict) || (result == PredictionResult::False && !verdict)
}

/// Whether a stake on `verdict` wins; an undefined outcome decides nothing.
pub fn is_winner(result: PredictionResult, verdict: bool) -> (r: Result<bool, PredictionError>)
    ensures
        result == PredictionResult::Undefined ==> r == Err::<bool, PredictionError>(
            PredictionError::InvalidResult,
        ),
        result != PredictionResult::Undefined ==> r == Ok::<bool, PredictionError>(
            wins(result, verdict),
        ),
{
    match result {
        PredictionResult::True => Ok(verdict),
        PredictionResult::False => Ok(!verdict),
        PredictionResult::Undefined => Err(PredictionError::InvalidResult),
    }
}

} // verus!
