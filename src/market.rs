use vstd::prelude::*;
use crate::types::{Identity, PredictionError};

verus! {

/// The registry: the admin identity and the counter that issues prediction ids.
pub struct MarketState {
    pub admin: Identity,
    pub next_prediction_id: u64,
}

/// Creates the registry with `admin` and an id counter at zero.
pub fn initialize(admin: Identity) -> (r: MarketState)
    ensures
        r.admin == admin,
        r.next_prediction_id == 0,
{
    MarketState { admin, next_prediction_id: 0 }
}

/// Starting reputation of a user account.
pub const INITIAL_REPUTATION: u64 = 100;

/// Longest alias a user account may carry.
pub const MAX_ALIAS_LENGTH: usize = 20;

/// A user's profile; not consulted by staking or settlement.
pub struct UserAccount {
    pub alias: String,
    pub rank: u64,
    pub reputation: u64,
    pub total_predictions: u64,
    pub correct_predictions: u64,
}

impl MarketState {
    /// Hands out the current counter value and advances the counter; ids are
    /// never reused, so the counter refuses to wrap.
    pub fn allocate_prediction_id(&mut self) -> (r: Result<u64, PredictionError>)
        ensures
            final(self).admin == old(self).admin,
            old(self).next_prediction_id == u64::MAX ==> r == Err::<u64, PredictionError>(
                PredictionError::Overflow,
            ) && *final(self) == *old(self),
            old(self).next_prediction_id < u64::MAX ==> r == Ok::<u64, PredictionError>(
                old(self).next_prediction_id,
            ) && final(self).next_prediction_id == old(self).next_prediction_id + 1,
    {
        if self.next_prediction_id == u64::MAX {
            return Err(PredictionError::Overflow);
        }
        let id = self.next_prediction_id;
        self.next_prediction_id = id + 1;
        Ok(id)
    }
}

} // verus!
