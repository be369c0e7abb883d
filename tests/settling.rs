use prediction_marketplace::claims::{approve_claims, initialize_claims, submit_claim, Claim};
use prediction_marketplace::market::{initialize, MarketState};
use prediction_marketplace::prediction::{
    create_prediction, predict, resolve_prediction, Prediction, UserPrediction,
};
use prediction_marketplace::reward::{admin_fee, reward_for, reward_rate, PRECISION};
use prediction_marketplace::settlement::{claim, claim_reward, distribute_rewards};
use prediction_marketplace::types::{
    Balance, ClaimState, Identity, PredictionError, PredictionResult,
};

fn user(b: u8) -> Identity {
    Identity { key: [b; 32] }
}

fn market_with(stakes: &[(u8, bool, u64)]) -> (MarketState, Prediction, Vec<UserPrediction>) {
    let mut market = initialize(user(1));
    let (mut p, _) =
        create_prediction(&mut market, &user(1), 0, "q".to_string(), 1000, vec![], 0, 2).unwrap();
    let mut entries = Vec::new();
    for (i, (who, verdict, amount)) in stakes.iter().enumerate() {
        let r = predict(&mut p, &None, &user(*who), i as i64, *verdict, *amount).unwrap();
        entries.push(r.entry);
    }
    (market, p, entries)
}

#[test]
fn fee_pool_and_rate_figures() {
    assert_eq!(admin_fee(4000), 200);
    assert_eq!(admin_fee(19), 0);
    assert_eq!(admin_fee(20), 1);
    assert_eq!(admin_fee(u64::MAX), 922_337_203_685_477_580);
    assert_eq!(reward_rate(3800, 1000), Ok(3_800_000));
    assert_eq!(reward_rate(17, 7), Ok(2_428_571));
    assert_eq!(reward_rate(5, 0), Err(PredictionError::NoWinningStake));
    assert_eq!(reward_rate(u64::MAX, 1), Err(PredictionError::Overflow));
    assert_eq!(reward_for(1000, 3_800_000), Ok(3800));
    assert_eq!(reward_for(4, 2_428_571), Ok(9));
    assert_eq!(reward_for(u64::MAX, u64::MAX), Err(PredictionError::Overflow));
    assert_eq!(PRECISION, 1_000_000);
}

#[test]
fn claim_pays_once() {
    let (market, mut p, mut entries) = market_with(&[(10, true, 1000), (11, false, 3000)]);
    resolve_prediction(&market, &mut p, &user(1), PredictionResult::True).unwrap();
    let first = claim(&mut p, &mut entries[0], &user(10)).unwrap();
    assert_eq!(first.transfer.amount, 3800);
    assert!(entries[0].reward_claimed);
    let again = claim(&mut p, &mut entries[0], &user(10));
    assert_eq!(again.err(), Some(PredictionError::RewardAlreadyClaimed));
    assert!(entries[0].reward_claimed);
    assert_eq!(p.reward_per_lamport, 3_800_000);
}

#[test]
fn claim_checks_resolution_and_owner() {
    let (market, mut p, mut entries) = market_with(&[(10, true, 1000), (11, false, 3000)]);
    let r = claim(&mut p, &mut entries[0], &user(10));
    assert_eq!(r.err(), Some(PredictionError::PredictionNotResolved));
    resolve_prediction(&market, &mut p, &user(1), PredictionResult::False).unwrap();
    let r = claim(&mut p, &mut entries[1], &user(10));
    assert_eq!(r.err(), Some(PredictionError::NotAuthorized));
    assert!(!entries[1].reward_claimed);
    let mut foreign = entries[1];
    foreign.prediction_id = 99;
    let r = claim(&mut p, &mut foreign, &user(11));
    assert_eq!(r.err(), Some(PredictionError::InvalidPrediction));
    assert!(!p.rewards_distributed);
    let paid = claim(&mut p, &mut entries[1], &user(11)).unwrap();
    assert_eq!(p.reward_per_lamport, 1_266_666);
    assert_eq!(paid.transfer.amount, 3799);
    assert!(p.rewards_distributed);
}

#[test]
fn claim_without_winning_stake_fails() {
    let (market, mut p, mut entries) = market_with(&[(10, true, 1000)]);
    resolve_prediction(&market, &mut p, &user(1), PredictionResult::True).unwrap();
    let (_, mut q, _) = market_with(&[(10, false, 1000)]);
    resolve_prediction(&market, &mut q, &user(1), PredictionResult::True).unwrap();
    let mut stray = UserPrediction {
        user: user(12),
        prediction_id: q.id,
        amount: 10,
        verdict: true,
        reward_claimed: false,
    };
    let r = claim(&mut q, &mut stray, &user(12));
    assert_eq!(r.err(), Some(PredictionError::NoWinningStake));
    assert!(!q.rewards_distributed);
    assert!(claim(&mut p, &mut entries[0], &user(10)).is_ok());
}

#[test]
fn paid_rewards_stay_within_pool() {
    let (market, mut p, mut entries) =
        market_with(&[(10, true, 1), (11, true, 2), (12, true, 4), (13, false, 10)]);
    resolve_prediction(&market, &mut p, &user(1), PredictionResult::True).unwrap();
    let mut paid = 0u64;
    for (i, who) in [10u8, 11, 12].iter().enumerate() {
        paid += claim(&mut p, &mut entries[i], &user(*who)).unwrap().transfer.amount;
    }
    let pool = 17 - admin_fee(17);
    assert_eq!(pool, 17);
    assert_eq!(paid, 2 + 4 + 9);
    assert!(paid <= pool);
    assert!((pool - paid) * PRECISION < 7 + 3 * PRECISION);
}

#[test]
fn distribute_then_claim_reward() {
    let (market, mut p, mut entries) = market_with(&[(10, true, 1000), (11, false, 3000)]);
    let r = distribute_rewards(&market, &mut p, &user(1));
    assert_eq!(r.err(), Some(PredictionError::PredictionNotResolved));
    resolve_prediction(&market, &mut p, &user(1), PredictionResult::True).unwrap();
    let r = claim_reward(&p, &mut entries[0], &user(10));
    assert_eq!(r.err(), Some(PredictionError::RewardsNotDistributed));
    let r = distribute_rewards(&market, &mut p, &user(5));
    assert_eq!(r.err(), Some(PredictionError::NotAuthorized));
    let d = distribute_rewards(&market, &mut p, &user(1)).unwrap();
    assert_eq!(d.transfer.amount, 200);
    assert_eq!(d.transfer.from, Balance::Escrow(p.id));
    assert_eq!(d.transfer.to, Balance::Market);
    assert_eq!(d.event.total_pool, 4000);
    assert_eq!(d.event.admin_fee, 200);
    assert_eq!(d.event.reward_pool, 3800);
    assert_eq!(d.event.reward_per_lamport, 3_800_000);
    let r = distribute_rewards(&market, &mut p, &user(1));
    assert_eq!(r.err(), Some(PredictionError::RewardsAlreadyDistributed));
    let paid = claim_reward(&p, &mut entries[0], &user(10)).unwrap();
    assert_eq!(paid.transfer.amount, 3800);
    assert_eq!(paid.event.amount, 3800);
    let r = claim_reward(&p, &mut entries[0], &user(10));
    assert_eq!(r.err(), Some(PredictionError::RewardAlreadyClaimed));
    let r = claim_reward(&p, &mut entries[1], &user(11));
    assert_eq!(r.err(), Some(PredictionError::UserNotWinner));
    let r = claim_reward(&p, &mut entries[1], &user(10));
    assert_eq!(r.err(), Some(PredictionError::NotAuthorized));
}

#[test]
fn distribute_without_winning_stake_fails() {
    let (market, mut p, _) = market_with(&[(11, false, 3000)]);
    resolve_prediction(&market, &mut p, &user(1), PredictionResult::True).unwrap();
    let r = distribute_rewards(&market, &mut p, &user(1));
    assert_eq!(r.err(), Some(PredictionError::NoWinningStake));
    assert!(!p.rewards_distributed);
}

#[test]
fn batch_claims_submit_and_approve() {
    let (market, mut p, entries) =
        market_with(&[(10, true, 1000), (11, true, 500), (12, false, 3000)]);
    resolve_prediction(&market, &mut p, &user(1), PredictionResult::True).unwrap();
    let mut claims = initialize_claims(&p);
    claims.reward_per_lamport = 2_000_000;
    let ev = submit_claim(&p, &mut claims, &entries[0], &user(10)).unwrap();
    assert_eq!(ev.amount, 2000);
    let r = submit_claim(&p, &mut claims, &entries[0], &user(10));
    assert_eq!(r.err(), Some(PredictionError::AlreadyClaimed));
    let r = submit_claim(&p, &mut claims, &entries[2], &user(12));
    assert_eq!(r.err(), Some(PredictionError::UserNotWinner));
    submit_claim(&p, &mut claims, &entries[1], &user(11)).unwrap();
    assert_eq!(claims.pending_claims.len(), 2);
    assert!(claims.pending_claims[1].state == ClaimState::Pending);

    let r = approve_claims(&market, &p, &mut claims, &user(10), &vec![0]);
    assert_eq!(r.err(), Some(PredictionError::NotAuthorized));
    let r = approve_claims(&market, &p, &mut claims, &user(1), &vec![1, 7]);
    assert_eq!(r.err(), Some(PredictionError::InvalidClaimIndex));
    assert!(claims.pending_claims[1].state == ClaimState::Pending);
    let r = approve_claims(&market, &p, &mut claims, &user(1), &vec![1, 1]);
    assert_eq!(r.err(), Some(PredictionError::ClaimNotPending));
    assert!(claims.pending_claims[1].state == ClaimState::Pending);

    let a = approve_claims(&market, &p, &mut claims, &user(1), &vec![1, 0]).unwrap();
    assert_eq!(a.transfer.amount, 3000);
    assert_eq!(a.transfer.from, Balance::Market);
    assert_eq!(a.transfer.to, Balance::ClaimsHolding(p.id));
    assert_eq!(a.events.len(), 2);
    assert_eq!(a.events[0].user, user(11));
    assert_eq!(a.events[0].amount, 1000);
    assert_eq!(a.events[1].user, user(10));
    assert!(claims.pending_claims[0].state == ClaimState::Approved);
    assert!(claims.pending_claims[1].state == ClaimState::Approved);
}

#[test]
fn batch_claim_before_resolution_fails() {
    let (_, p, entries) = market_with(&[(10, true, 1000)]);
    let mut claims = initialize_claims(&p);
    assert_eq!(claims.prediction, p.id);
    let r = submit_claim(&p, &mut claims, &entries[0], &user(10));
    assert_eq!(r.err(), Some(PredictionError::PredictionNotResolved));
    assert!(claims.pending_claims.is_empty());
}

#[test]
fn batch_approval_total_that_overflows_is_rejected() {
    let (market, mut p, _) = market_with(&[(10, true, 1000)]);
    resolve_prediction(&market, &mut p, &user(1), PredictionResult::True).unwrap();
    let mut claims = initialize_claims(&p);
    claims.pending_claims = vec![
        Claim { user: user(10), amount: u64::MAX, state: ClaimState::Pending },
        Claim { user: user(11), amount: 1, state: ClaimState::Pending },
    ];
    let r = approve_claims(&market, &p, &mut claims, &user(1), &vec![0, 1]);
    assert_eq!(r.err(), Some(PredictionError::Overflow));
    assert!(claims.pending_claims[0].state == ClaimState::Pending);
    let a = approve_claims(&market, &p, &mut claims, &user(1), &vec![]).unwrap();
    assert_eq!(a.transfer.amount, 0);
    assert!(a.events.is_empty());
}

#[test]
fn batch_claim_reward_that_overflows_is_rejected() {
    let (market, mut p, entries) = market_with(&[(10, true, u64::MAX)]);
    resolve_prediction(&market, &mut p, &user(1), PredictionResult::True).unwrap();
    let mut claims = initialize_claims(&p);
    claims.reward_per_lamport = 2 * PRECISION;
    let r = submit_claim(&p, &mut claims, &entries[0], &user(10));
    assert_eq!(r.err(), Some(PredictionError::Overflow));
    assert!(claims.pending_claims.is_empty());
    let mut other = initialize_claims(&p);
    other.prediction = p.id + 1;
    let r = submit_claim(&p, &mut other, &entries[0], &user(10));
    assert_eq!(r.err(), Some(PredictionError::InvalidPrediction));
}
