use vstd::prelude::*;
use crate::types::PredictionError;

verus! {

/// Percentage of the total stake kept as the market's fee.
pub const ADMIN_FEE_PERCENT: u64 = 5;

/// Fixed-point scale of the reward rate.
pub const PRECISION: u64 = 1_000_000;

/// The fee on a total stake, rounded down.
pub open spec fn fee_of(total: int) -> int {
    total * (ADMIN_FEE_PERCENT as int) / 100
}

/// What is left for the winners once the fee is taken.
pub open spec fn pool_of(total: int) -> int {
    total - fee_of(total)
}

/// Reward per unit of winning stake, scaled by `PRECISION`, rounded down.
pub open spec fn rate_of(pool: int, winning: int) -> int {
    pool * (PRECISION as int) / winning
}

/// Reward of a winning stake of `amount` at `rate`, rounded down.
pub open spec fn reward_of(amount: int, rate: int) -> int {
    amount * rate / (PRECISION as int)
}

/// The fee on `total`.
pub fn admin_fee(total: u64) -> (r: u64)
    ensures
        r == fee_of(total as int),
        r <= total,
{
    assert(total as u128 * 5 <= u128::MAX);
    let f: u128 = total as u128 * ADMIN_FEE_PERCENT as u128 / 100;
    assert(total * 5 / 100 <= total) by (nonlinear_arith);
    f as u64
}

/// The reward rate for `pool` shared among `winning` units of stake; there is
/// none when nothing won, and none that a `u64` cannot hold.
pub fn reward_rate(pool: u64, winning: u64) -> (r: Result<u64, PredictionError>)
    ensures
        winning == 0 ==> r == Err::<u64, PredictionError>(PredictionError::NoWinningStake),
        winning > 0 && rate_of(pool as int, winning as int) > u64::MAX ==> r == Err::<
            u64,
            PredictionError,
        >(PredictionError::Overflow),
        winning > 0 && rate_of(pool as int, winning as int) <= u64::MAX ==> r == Ok::<
            u64,
            PredictionError,
        >(rate_of(pool as int, winning as int) as u64),
{
    if winning == 0 {
        return Err(PredictionError::NoWinningStake);
    }
    assert(pool * 1_000_000 <= u64::MAX as int * 1_000_000) by (nonlinear_arith);
    let rate: u128 = pool as u128 * PRECISION as u128 / winning as u128;
    if rate > u64::MAX as u128 {
        return Err(PredictionError::Overflow);
    }
    Ok(rate as u64)
}

/// The reward of a winning stake of `amount` at `rate`, when a `u64` holds it.
pub fn reward_for(amount: u64, rate: u64) -> (r: Result<u64, PredictionError>)
    ensures
        reward_of(amount as int, rate as int) > u64::MAX ==> r == Err::<u64, PredictionError>(
            PredictionError::Overflow,
        ),
        reward_of(amount as int, rate as int) <= u64::MAX ==> r == Ok::<u64, PredictionError>(
            reward_of(amount as int, rate as int) as u64,
        ),
{
    assert(amount * rate <= u64::MAX as int * u64::MAX as int) by (nonlinear_arith);
    let reward: u128 = amount as u128 * rate as u128 / PRECISION as u128;
    if reward > u64::MAX as u128 {
        return Err(PredictionError::Overflow);
    }
    Ok(reward as u64)
}

/// Total of a sequence of stake amounts.
pub open spec fn sum_amounts(s: Seq<u64>) -> int
    decreases s.len(),
{
    if s.len() == 0 {
        0
    } else {
        sum_amounts(s.drop_last()) + s.last()
    }
}

/// Total of the rewards paid at `rate` to stakes of the given amounts.
pub open spec fn sum_rewards(s: Seq<u64>, rate: int) -> int
    decreases s.len(),
{
    if s.len() == 0 {
        0
    } else {
        sum_rewards(s.drop_last(), rate) + reward_of(s.last() as int, rate)
    }
}

proof fn lemma_sum_rewards_bounds(s: Seq<u64>, rate: int)
    requires
        rate >= 0,
    ensures
        sum_rewards(s, rate) * PRECISION <= sum_amounts(s) * rate,
        sum_rewards(s, rate) * PRECISION >= sum_amounts(s) * rate - s.len() * (PRECISION - 1),
    decreases s.len(),
{
    if s.len() > 0 {
        lemma_sum_rewards_bounds(s.drop_last(), rate);
        let a = s.last() as int;
        let q = a * rate / 1_000_000;
        assert(q * 1_000_000 <= a * rate && q * 1_000_000 >= a * rate - 999_999) by (nonlinear_arith)
            requires
                q == a * rate / 1_000_000,
        ;
        assert(sum_amounts(s) * rate == sum_amounts(s.drop_last()) * rate + a * rate)
            by (nonlinear_arith)
            requires
                sum_amounts(s) == sum_amounts(s.drop_last()) + a,
        ;
    }
}

/// Conservation of the reward pool: whatever winning stakes are paid at the
/// rate computed for `winning` units of winning stake, the rewards together
/// never exceed the pool; and once every winning stake is paid, what stays
/// unpaid is less than `winning / PRECISION` plus one unit per payment.
pub proof fn lemma_rewards_within_pool(total: int, winning: int, amounts: Seq<u64>)
    requires
        total >= 0,
        winning > 0,
        sum_amounts(amounts) <= winning,
    ensures
        sum_rewards(amounts, rate_of(pool_of(total), winning)) <= pool_of(total),
        sum_amounts(amounts) == winning ==> (pool_of(total) - sum_rewards(
            amounts,
            rate_of(pool_of(total), winning),
        )) * PRECISION < winning + amounts.len() * PRECISION,
{
    let pool = pool_of(total);
    assert(pool >= 0) by (nonlinear_arith)
        requires
            pool == total - total * 5 / 100,
            total >= 0,
    ;
    let rate = rate_of(pool, winning);
    assert(rate * winning <= pool * 1_000_000 && rate * winning > pool * 1_000_000 - winning && rate
        >= 0) by (nonlinear_arith)
        requires
            rate == pool * 1_000_000 / winning,
            winning > 0,
            pool >= 0,
    ;
    lemma_sum_rewards_bounds(amounts, rate);
    let s = sum_amounts(amounts);
    let r = sum_rewards(amounts, rate);
    assert(s * rate <= winning * rate) by (nonlinear_arith)
        requires
            s <= winning,
            rate >= 0,
    ;
    assert(r <= pool) by (nonlinear_arith)
        requires
            r * 1_000_000 <= s * rate,
            s * rate <= winning * rate,
            rate * winning <= pool * 1_000_000,
    ;
    if s == winning {
        assert((pool - r) * 1_000_000 < winning + amounts.len() * 1_000_000) by (nonlinear_arith)
            requires
                s == winning,
                r * 1_000_000 >= s * rate - amounts.len() * 999_999,
                rate * winning > pool * 1_000_000 - winning,
                amounts.len() >= 0,
        ;
    }
}

} // verus!
