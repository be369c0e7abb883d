use vstd::prelude::*;
use crate::market::MarketState;
use crate::prediction::{is_winner, wins, Prediction, UserPrediction};
use crate::reward::{reward_for, reward_of};
use crate::types::{
    same_key, Balance, ClaimApprovedEvent, ClaimState, ClaimSubmittedEvent, Identity,
    PredictionError, PredictionResult, PredictionState, Transfer,
};

verus! {

/// A claim awaiting or past the admin's approval.
#[derive(Clone, Copy, Debug)]
pub struct Claim {
    pub user: Identity,
    pub amount: u64,
    pub state: ClaimState,
}

/// The claims submitted against one prediction under the batch-approval policy.
pub struct Claims {
    /// Id of the prediction the claims are made against.
    pub prediction: u64,
    pub reward_per_lamport: u64,
    pub total_reward_pool: u64,
    pub pending_claims: Vec<Claim>,
}

/// What an approval batch hands back: the transfer of the approved total
/// into the claims' holding record, and one event per approved claim.
pub struct Approval {
    pub transfer: Transfer,
    pub events: Vec<ClaimApprovedEvent>,
}

/// An empty claims record for `prediction`, with a zero rate and pool.
pub fn initialize_claims(prediction: &Prediction) -> (r: Claims)
    ensures
        r.prediction == prediction.id,
        r.reward_per_lamport == 0,
        r.total_reward_pool == 0,
        r.pending_claims@.len() == 0,
{
    Claims {
        prediction: prediction.id,
        reward_per_lamport: 0,
        total_reward_pool: 0,
        pending_claims: Vec::new(),
    }
}

/// Whether `user` already has a claim in `s`.
pub open spec fn has_claim_of(s: Seq<Claim>, user: Identity) -> bool {
    exists|i: int| 0 <= i < s.len() && same_key(#[trigger] s[i].user, user)
}

/// Why `submit_claim` refuses, if it does.
pub open spec fn submit_check(
    p: Prediction,
    claims: Claims,
    entry: UserPrediction,
    caller: Identity,
) -> Option<PredictionError> {
    if p.state != PredictionState::Resolved {
        Some(PredictionError::PredictionNotResolved)
    } else if !same_key(entry.user, caller) {
        Some(PredictionError::NotAuthorized)
    } else if entry.prediction_id != p.id || claims.prediction != p.id {
        Some(PredictionError::InvalidPrediction)
    } else if p.result == PredictionResult::Undefined {
        Some(PredictionError::InvalidResult)
    } else if !wins(p.result, entry.verdict) {
        Some(PredictionError::UserNotWinner)
    } else if has_claim_of(claims.pending_claims@, caller) {
        Some(PredictionError::AlreadyClaimed)
    } else if reward_of(entry.amount as int, claims.reward_per_lamport as int) > u64::MAX {
        Some(PredictionError::Overflow)
    } else {
        None
    }
}

/// A winner asks for the reward of their stake `entry`: a pending claim at
/// the claims record's rate is appended, at most one per user.
pub fn submit_claim(
    prediction: &Prediction,
    claims: &mut Claims,
    entry: &UserPrediction,
    caller: &Identity,
) -> (r: Result<ClaimSubmittedEvent, PredictionError>)
    ensures
        r is Err <==> submit_check(*prediction, *old(claims), *entry, *caller) is Some,
        r is Err ==> r->Err_0 == submit_check(*prediction, *old(claims), *entry, *caller)->0,
        r is Err ==> *final(claims) == *old(claims),
        r is Ok ==> {
            let reward = reward_of(entry.amount as int, old(claims).reward_per_lamport as int) as u64;
            &&& final(claims).prediction == old(claims).prediction
            &&& final(claims).reward_per_lamport == old(claims).reward_per_lamport
            &&& final(claims).total_reward_pool == old(claims).total_reward_pool
            &&& final(claims).pending_claims@ == old(claims).pending_claims@.push(
                (Claim { user: *caller, amount: reward, state: ClaimState::Pending }),
            )
            &&& r->Ok_0 == (ClaimSubmittedEvent {
                prediction_id: prediction.id,
                user: *caller,
                amount: reward,
            })
        },
{
    if prediction.state != PredictionState::Resolved {
        return Err(PredictionError::PredictionNotResolved);
    }
    if !(entry.user == *caller) {
        return Err(PredictionError::NotAuthorized);
    }
    if entry.prediction_id != prediction.id || claims.prediction != prediction.id {
        return Err(PredictionError::InvalidPrediction);
    }
    match is_winner(prediction.result, entry.verdict) {
        Ok(true) => {},
        Ok(false) => {
            return Err(PredictionError::UserNotWinner);
        },
        Err(e) => {
            return Err(e);
        },
    }
    let n = claims.pending_claims.len();
    let mut i: usize = 0;
    while i < n
        invariant
            *claims == *old(claims),
            submit_check(*prediction, *old(claims), *entry, *caller) is None
                || submit_check(*prediction, *old(claims), *entry, *caller) == Some(
                PredictionError::AlreadyClaimed,
            ) || submit_check(*prediction, *old(claims), *entry, *caller) == Some(
                PredictionError::Overflow,
            ),
            n == claims.pending_claims@.len(),
            0 <= i <= n,
            forall|j: int| 0 <= j < i ==> !same_key(#[trigger] claims.pending_claims@[j].user, *caller),
        decreases n - i,
    {
        if claims.pending_claims[i].user == *caller {
            assert(same_key(claims.pending_claims@[i as int].user, *caller));
            return Err(PredictionError::AlreadyClaimed);
        }
        i = i + 1;
    }
    let reward = match reward_for(entry.amount, claims.reward_per_lamport) {
        Ok(reward) => reward,
        Err(e) => {
            return Err(e);
        },
    };
    claims.pending_claims.push(Claim { user: *caller, amount: reward, state: ClaimState::Pending });
    Ok(ClaimSubmittedEvent { prediction_id: prediction.id, user: *caller, amount: reward })
}


/// Outcome of approving, in order, the claims at `indices` of `pending`:
/// the claims afterwards and the total approved, or the first refusal.
pub open spec fn approve_run(pending: Seq<Claim>, indices: Seq<u64>) -> Result<
    (Seq<Claim>, int),
    PredictionError,
>
    decreases indices.len(),
{
    if indices.len() == 0 {
        Ok((pending, 0))
    } else {
        match approve_run(pending, indices.drop_last()) {
            Err(e) => Err(e),
            Ok((s, total)) => {
                let k = indices.last() as int;
                if k >= s.len() {
                    Err(PredictionError::InvalidClaimIndex)
                } else if s[k].state != ClaimState::Pending {
                    Err(PredictionError::ClaimNotPending)
                } else if total + s[k].amount > u64::MAX {
                    Err(PredictionError::Overflow)
                } else {
                    Ok((s.update(k, Claim { state: ClaimState::Approved, ..s[k] }), total + s[k].amount))
                }
            },
        }
    }
}

/// Why `approve_claims` refuses, if it does.
pub open spec fn approve_check(
    market: MarketState,
    p: Prediction,
    claims: Claims,
    caller: Identity,
    indices: Seq<u64>,
) -> Option<PredictionError> {
    if !same_key(caller, market.admin) {
        Some(PredictionError::NotAuthorized)
    } else if claims.prediction != p.id {
        Some(PredictionError::InvalidPrediction)
    } else {
        match approve_run(claims.pending_claims@, indices) {
            Err(e) => Some(e),
            Ok(_) => None,
        }
    }
}

/// The event for approving the claim at index `k` of `pending`.
pub open spec fn approved_event(prediction_id: u64, pending: Seq<Claim>, k: int) -> ClaimApprovedEvent {
    ClaimApprovedEvent { prediction_id, user: pending[k].user, amount: pending[k].amount }
}

proof fn lemma_approve_run_err_extends(pending: Seq<Claim>, indices: Seq<u64>, j: int)
    requires
        0 <= j <= indices.len(),
        approve_run(pending, indices.take(j)) is Err,
    ensures
        approve_run(pending, indices) == approve_run(pending, indices.take(j)),
    decreases indices.len(),
{
    if j == indices.len() {
        assert(indices.take(j) =~= indices);
    } else {
        assert(indices.drop_last().take(j) =~= indices.take(j));
        lemma_approve_run_err_extends(pending, indices.drop_last(), j);
    }
}

/// The admin approves the pending claims at `claim_indices`, in order, all or
/// none: the approved total moves from the market's balance into the claims'
/// holding record.
pub fn approve_claims(
    market: &MarketState,
    prediction: &Prediction,
    claims: &mut Claims,
    caller: &Identity,
    claim_indices: &Vec<u64>,
) -> (r: Result<Approval, PredictionError>)
    ensures
        r is Err <==> approve_check(*market, *prediction, *old(claims), *caller, claim_indices@) is Some,
        r is Err ==> r->Err_0 == approve_check(
            *market,
            *prediction,
            *old(claims),
            *caller,
            claim_indices@,
        )->0,
        r is Err ==> *final(claims) == *old(claims),
        r is Ok ==> {
            let run = approve_run(old(claims).pending_claims@, claim_indices@)->Ok_0;
            &&& final(claims).prediction == old(claims).prediction
            &&& final(claims).reward_per_lamport == old(claims).reward_per_lamport
            &&& final(claims).total_reward_pool == old(claims).total_reward_pool
            &&& final(claims).pending_claims@ == run.0
            &&& r->Ok_0.transfer == (Transfer {
                from: Balance::Market,
                to: Balance::ClaimsHolding(prediction.id),
                amount: run.1 as u64,
            })
            &&& r->Ok_0.events@.len() == claim_indices@.len()
            &&& forall|j: int|
                0 <= j < claim_indices@.len() ==> #[trigger] r->Ok_0.events@[j] == approved_event(
                    prediction.id,
                    old(claims).pending_claims@,
                    claim_indices@[j] as int,
                )
        },
{
    if !(*caller == market.admin) {
        return Err(PredictionError::NotAuthorized);
    }
    if claims.prediction != prediction.id {
        return Err(PredictionError::InvalidPrediction);
    }
    let pending = &claims.pending_claims;
    let n = pending.len();
    let mut updated: Vec<Claim> = Vec::new();
    let mut i: usize = 0;
    while i < n
        invariant
            n == pending@.len(),
            0 <= i <= n,
            updated@ == pending@.take(i as int),
        decreases n - i,
    {
        updated.push(pending[i]);
        i = i + 1;
        assert(updated@ =~= pending@.take(i as int));
    }
    assert(updated@ =~= pending@);
    let ghost indices = claim_indices@;
    let mut total: u64 = 0;
    let mut events: Vec<ClaimApprovedEvent> = Vec::new();
    let m = claim_indices.len();
    let mut j: usize = 0;
    while j < m
        invariant
            m == indices.len(),
            indices == claim_indices@,
            *claims == *old(claims),
            pending == &claims.pending_claims,
            same_key(*caller, market.admin),
            claims.prediction == prediction.id,
            n == pending@.len(),
            0 <= j <= m,
            approve_run(pending@, indices.take(j as int)) == Ok::<(Seq<Claim>, int), PredictionError>(
                (updated@, total as int),
            ),
            updated@.len() == n,
            forall|t: int|
                0 <= t < n ==> updated@[t].user == pending@[t].user && updated@[t].amount
                    == pending@[t].amount,
            events@.len() == j,
            forall|q: int|
                0 <= q < j ==> #[trigger] events@[q] == approved_event(prediction.id, pending@, indices[q] as int),
        decreases m - j,
    {
        let k = claim_indices[j];
        assert(indices.take(j + 1).drop_last() =~= indices.take(j as int));
        assert(indices.take(j + 1).last() == k);
        if k as usize >= n || k >= n as u64 {
            proof {
                lemma_approve_run_err_extends(pending@, indices, j + 1);
            }
            return Err(PredictionError::InvalidClaimIndex);
        }
        let ku = k as usize;
        let c = updated[ku];
        if c.state != ClaimState::Pending {
            proof {
                lemma_approve_run_err_extends(pending@, indices, j + 1);
            }
            return Err(PredictionError::ClaimNotPending);
        }
        if total > u64::MAX - c.amount {
            proof {
                lemma_approve_run_err_extends(pending@, indices, j + 1);
            }
            return Err(PredictionError::Overflow);
        }
        total = total + c.amount;
        updated.set(ku, Claim { user: c.user, amount: c.amount, state: ClaimState::Approved });
        events.push(ClaimApprovedEvent { prediction_id: prediction.id, user: c.user, amount: c.amount });
        j = j + 1;
    }
    assert(indices.take(m as int) =~= indices);
    claims.pending_claims = updated;
    Ok(
        Approval {
            transfer: Transfer {
                from: Balance::Market,
                to: Balance::ClaimsHolding(prediction.id),
                amount: total,
            },
            events,
        },
    )
}

} // verus!
