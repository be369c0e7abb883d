use vstd::prelude::*;
use crate::market::MarketState;
use crate::prediction::{winning_amount, wins, is_winner, Prediction, UserPrediction};
use crate::reward::{
    admin_fee, fee_of, lemma_rewards_within_pool, pool_of, rate_of, reward_for, reward_of,
    reward_rate, sum_amounts, sum_rewards, PRECISION,
};
use crate::types::{
    same_key, Balance, Identity, PredictionError, PredictionResult, PredictionState,
    RewardClaimedEvent, RewardsDistributedEvent, Transfer,
};

verus! {

/// What a settlement hands back: the transfer out of the prediction's escrow
/// and the event to log.
pub struct Distribution {
    pub transfer: Transfer,
    pub event: RewardsDistributedEvent,
}

/// What a paid claim hands back: the reward's transfer and the event to log.
pub struct Payout {
    pub transfer: Transfer,
    pub event: RewardClaimedEvent,
}

/// The reward rate of a resolved prediction, computed from its tallies.
pub open spec fn computed_rate(p: Prediction) -> int {
    rate_of(pool_of(p.total_amount as int), winning_amount(p) as int)
}

/// Why the reward rate of `p` cannot be computed, if it cannot.
pub open spec fn rate_check(p: Prediction) -> Option<PredictionError> {
    if winning_amount(p) == 0 {
        Some(PredictionError::NoWinningStake)
    } else if computed_rate(p) > u64::MAX {
        Some(PredictionError::Overflow)
    } else {
        None
    }
}

/// `p` with its reward rate computed and recorded.
pub open spec fn settled(p: Prediction) -> Prediction {
    Prediction { reward_per_lamport: computed_rate(p) as u64, rewards_distributed: true, ..p }
}

/// Why `distribute_rewards` refuses, if it does.
pub open spec fn distribute_check(market: MarketState, p: Prediction, caller: Identity) -> Option<
    PredictionError,
> {
    if !same_key(caller, market.admin) {
        Some(PredictionError::NotAuthorized)
    } else if p.state != PredictionState::Resolved {
        Some(PredictionError::PredictionNotResolved)
    } else if p.rewards_distributed {
        Some(PredictionError::RewardsAlreadyDistributed)
    } else {
        rate_check(p)
    }
}

/// The reward rate that the tallies of `prediction` give; refused with
/// `NoWinningStake` when nothing was staked on the winning side.
fn settle_rate(prediction: &Prediction) -> (r: Result<u64, PredictionError>)
    ensures
        rate_check(*prediction) is Some <==> r is Err,
        r is Err ==> r->Err_0 == rate_check(*prediction)->0,
        r is Ok ==> r->Ok_0 == computed_rate(*prediction),
{
    let fee = admin_fee(prediction.total_amount);
    let pool = prediction.total_amount - fee;
    let winning = if prediction.result == PredictionResult::True {
        prediction.yes_amount
    } else {
        prediction.no_amount
    };
    reward_rate(pool, winning)
}

/// Pool-distribution policy: the admin settles a resolved prediction once,
/// sweeping the fee out of its escrow into the market's balance and
/// recording the reward rate for later claims.
pub fn distribute_rewards(
    market: &MarketState,
    prediction: &mut Prediction,
    caller: &Identity,
) -> (r: Result<Distribution, PredictionError>)
    ensures
        r is Err <==> distribute_check(*market, *old(prediction), *caller) is Some,
        r is Err ==> r->Err_0 == distribute_check(*market, *old(prediction), *caller)->0,
        r is Err ==> *final(prediction) == *old(prediction),
        r is Ok ==> *final(prediction) == settled(*old(prediction)),
        r is Ok ==> r->Ok_0.transfer == (Transfer {
            from: Balance::Escrow(old(prediction).id),
            to: Balance::Market,
            amount: fee_of(old(prediction).total_amount as int) as u64,
        }),
        r is Ok ==> r->Ok_0.event == (RewardsDistributedEvent {
            prediction_id: old(prediction).id,
            total_pool: old(prediction).total_amount,
            admin_fee: fee_of(old(prediction).total_amount as int) as u64,
            reward_pool: pool_of(old(prediction).total_amount as int) as u64,
            reward_per_lamport: computed_rate(*old(prediction)) as u64,
        }),
        old(prediction).wf() ==> final(prediction).wf(),
{
    if !(*caller == market.admin) {
        return Err(PredictionError::NotAuthorized);
    }
    if prediction.state != PredictionState::Resolved {
        return Err(PredictionError::PredictionNotResolved);
    }
    if prediction.rewards_distributed {
        return Err(PredictionError::RewardsAlreadyDistributed);
    }
    let rate = match settle_rate(prediction) {
        Ok(rate) => rate,
        Err(e) => {
            return Err(e);
        },
    };
    let total_pool = prediction.total_amount;
    let fee = admin_fee(total_pool);
    prediction.reward_per_lamport = rate;
    prediction.rewards_distributed = true;
    let id = prediction.id;
    Ok(
        Distribution {
            transfer: Transfer { from: Balance::Escrow(id), to: Balance::Market, amount: fee },
            event: RewardsDistributedEvent {
                prediction_id: id,
                total_pool,
                admin_fee: fee,
                reward_pool: total_pool - fee,
                reward_per_lamport: rate,
            },
        },
    )
}


/// `entry` marked as paid.
pub open spec fn claimed(entry: UserPrediction) -> UserPrediction {
    UserPrediction { reward_claimed: true, ..entry }
}

/// Why `claim_reward` refuses, if it does.
pub open spec fn claim_reward_check(p: Prediction, entry: UserPrediction, caller: Identity) -> Option<
    PredictionError,
> {
    if !same_key(entry.user, caller) {
        Some(PredictionError::NotAuthorized)
    } else if entry.prediction_id != p.id {
        Some(PredictionError::InvalidPrediction)
    } else if p.state != PredictionState::Resolved {
        Some(PredictionError::PredictionNotResolved)
    } else if !p.rewards_distributed {
        Some(PredictionError::RewardsNotDistributed)
    } else if entry.reward_claimed {
        Some(PredictionError::RewardAlreadyClaimed)
    } else if p.result == PredictionResult::Undefined {
        Some(PredictionError::InvalidResult)
    } else if !wins(p.result, entry.verdict) {
        Some(PredictionError::UserNotWinner)
    } else if reward_of(entry.amount as int, p.reward_per_lamport as int) > u64::MAX {
        Some(PredictionError::Overflow)
    } else {
        None
    }
}

/// Pool-distribution policy: pays a winning stake its reward at the rate
/// recorded by `distribute_rewards`, once.
pub fn claim_reward(prediction: &Prediction, entry: &mut UserPrediction, caller: &Identity) -> (r:
    Result<Payout, PredictionError>)
    ensures
        r is Err <==> claim_reward_check(*prediction, *old(entry), *caller) is Some,
        r is Err ==> r->Err_0 == claim_reward_check(*prediction, *old(entry), *caller)->0,
        r is Err ==> *final(entry) == *old(entry),
        r is Ok ==> *final(entry) == claimed(*old(entry)),
        r is Ok ==> r->Ok_0.transfer == (Transfer {
            from: Balance::Escrow(prediction.id),
            to: Balance::User(*caller),
            amount: reward_of(old(entry).amount as int, prediction.reward_per_lamport as int) as u64,
        }),
        r is Ok ==> r->Ok_0.event == (RewardClaimedEvent {
            prediction_id: prediction.id,
            user: *caller,
            amount: reward_of(old(entry).amount as int, prediction.reward_per_lamport as int) as u64,
        }),
{
    if !(entry.user == *caller) {
        return Err(PredictionError::NotAuthorized);
    }
    if entry.prediction_id != prediction.id {
        return Err(PredictionError::InvalidPrediction);
    }
    if prediction.state != PredictionState::Resolved {
        return Err(PredictionError::PredictionNotResolved);
    }
    if !prediction.rewards_distributed {
        return Err(PredictionError::RewardsNotDistributed);
    }
    if entry.reward_claimed {
        return Err(PredictionError::RewardAlreadyClaimed);
    }
    match is_winner(prediction.result, entry.verdict) {
        Ok(true) => {},
        Ok(false) => {
            return Err(PredictionError::UserNotWinner);
        },
        Err(e) => {
            return Err(e);
        },
    }
    let reward = match reward_for(entry.amount, prediction.reward_per_lamport) {
        Ok(reward) => reward,
        Err(e) => {
            return Err(e);
        },
    };
    entry.reward_claimed = true;
    Ok(
        Payout {
            transfer: Transfer {
                from: Balance::Escrow(prediction.id),
                to: Balance::User(*caller),
                amount: reward,
            },
            event: RewardClaimedEvent { prediction_id: prediction.id, user: *caller, amount: reward },
        },
    )
}

/// Under the pool-distribution policy too, a stake entry is paid at most
/// once: after `claim_reward` succeeds, claiming the same entry again is
/// refused with `RewardAlreadyClaimed`.
pub proof fn lemma_claim_reward_at_most_once(p: Prediction, entry: UserPrediction, caller: Identity)
    requires
        claim_reward_check(p, entry, caller) is None,
    ensures
        claim_reward_check(p, claimed(entry), caller) == Some(PredictionError::RewardAlreadyClaimed),
{
}

/// The rate a claim on `p` pays at: the recorded one, or else the one its
/// tallies give.
pub open spec fn rate_in_effect(p: Prediction) -> int {
    if p.rewards_distributed {
        p.reward_per_lamport as int
    } else {
        computed_rate(p)
    }
}

/// `p` after a paid claim: settled, if it was not yet.
pub open spec fn after_claim(p: Prediction) -> Prediction {
    if p.rewards_distributed {
        p
    } else {
        settled(p)
    }
}

/// Why `claim` refuses, if it does.
pub open spec fn claim_check(p: Prediction, entry: UserPrediction, caller: Identity) -> Option<
    PredictionError,
> {
    if p.state != PredictionState::Resolved {
        Some(PredictionError::PredictionNotResolved)
    } else if !same_key(entry.user, caller) {
        Some(PredictionError::NotAuthorized)
    } else if entry.prediction_id != p.id {
        Some(PredictionError::InvalidPrediction)
    } else if p.result == PredictionResult::Undefined {
        Some(PredictionError::InvalidResult)
    } else if !wins(p.result, entry.verdict) {
        Some(PredictionError::UserNotWinner)
    } else if entry.reward_claimed {
        Some(PredictionError::RewardAlreadyClaimed)
    } else if !p.rewards_distributed && rate_check(p) is Some {
        rate_check(p)
    } else if reward_of(entry.amount as int, rate_in_effect(p)) > u64::MAX {
        Some(PredictionError::Overflow)
    } else {
        None
    }
}

/// Pull-based policy: pays a winning stake its reward, once. The first claim
/// on a prediction computes and records its reward rate; later claims reuse it.
/// The fee stays in the escrow.
pub fn claim(prediction: &mut Prediction, entry: &mut UserPrediction, caller: &Identity) -> (r:
    Result<Payout, PredictionError>)
    ensures
        r is Err <==> claim_check(*old(prediction), *old(entry), *caller) is Some,
        r is Err ==> r->Err_0 == claim_check(*old(prediction), *old(entry), *caller)->0,
        r is Err ==> *final(prediction) == *old(prediction) && *final(entry) == *old(entry),
        r is Ok ==> *final(prediction) == after_claim(*old(prediction)),
        r is Ok ==> *final(entry) == claimed(*old(entry)),
        r is Ok ==> r->Ok_0.transfer == (Transfer {
            from: Balance::Escrow(old(prediction).id),
            to: Balance::User(*caller),
            amount: reward_of(old(entry).amount as int, rate_in_effect(*old(prediction))) as u64,
        }),
        r is Ok ==> r->Ok_0.event == (RewardClaimedEvent {
            prediction_id: old(prediction).id,
            user: *caller,
            amount: reward_of(old(entry).amount as int, rate_in_effect(*old(prediction))) as u64,
        }),
        old(prediction).wf() ==> final(prediction).wf(),
{
    if prediction.state != PredictionState::Resolved {
        return Err(PredictionError::PredictionNotResolved);
    }
    if !(entry.user == *caller) {
        return Err(PredictionError::NotAuthorized);
    }
    if entry.prediction_id != prediction.id {
        return Err(PredictionError::InvalidPrediction);
    }
    match is_winner(prediction.result, entry.verdict) {
        Ok(true) => {},
        Ok(false) => {
            return Err(PredictionError::UserNotWinner);
        },
        Err(e) => {
            return Err(e);
        },
    }
    if entry.reward_claimed {
        return Err(PredictionError::RewardAlreadyClaimed);
    }
    let rate = if prediction.rewards_distributed {
        prediction.reward_per_lamport
    } else {
        match settle_rate(prediction) {
            Ok(rate) => rate,
            Err(e) => {
                return Err(e);
            },
        }
    };
    let reward = match reward_for(entry.amount, rate) {
        Ok(reward) => reward,
        Err(e) => {
            return Err(e);
        },
    };
    prediction.reward_per_lamport = rate;
    prediction.rewards_distributed = true;
    entry.reward_claimed = true;
    let id = prediction.id;
    Ok(
        Payout {
            transfer: Transfer { from: Balance::Escrow(id), to: Balance::User(*caller), amount: reward },
            event: RewardClaimedEvent { prediction_id: id, user: *caller, amount: reward },
        },
    )
}

/// A stake entry is paid at most once: after a claim succeeds, claiming the
/// same entry again is refused with `RewardAlreadyClaimed`, and a refused
/// claim changes and pays nothing.
pub proof fn lemma_claim_at_most_once(p: Prediction, entry: UserPrediction, caller: Identity)
    requires
        claim_check(p, entry, caller) is None,
    ensures
        claim_check(after_claim(p), claimed(entry), caller) == Some(
            PredictionError::RewardAlreadyClaimed,
        ),
{
}


/// Conservation of a prediction's reward pool under pull-based claims: a
/// paid claim leaves the rate that later claims pay at unchanged, and the
/// rewards paid at that rate to winning stakes (together at most the winning
/// side's stake) never exceed the pool, `total_amount` less the fee; once
/// every winning stake is paid, what stays unpaid is under
/// `winning_amount / PRECISION` plus one unit per claim.
pub proof fn lemma_claims_within_pool(p: Prediction, amounts: Seq<u64>)
    requires
        p.wf(),
        p.state == PredictionState::Resolved,
        rate_check(p) is None,
        sum_amounts(amounts) <= winning_amount(p),
    ensures
        after_claim(p).wf(),
        rate_in_effect(after_claim(p)) == rate_in_effect(p),
        sum_rewards(amounts, rate_in_effect(p)) <= pool_of(p.total_amount as int),
        sum_amounts(amounts) == winning_amount(p) ==> (pool_of(p.total_amount as int)
            - sum_rewards(amounts, rate_in_effect(p))) * PRECISION < winning_amount(p) + amounts.len()
            * PRECISION,
{
    lemma_rewards_within_pool(p.total_amount as int, winning_amount(p) as int, amounts);
}
} // verus!
