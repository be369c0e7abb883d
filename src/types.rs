use vstd::prelude::*;

verus! {

/// A 32-byte account address. The host guarantees that the identity handed
/// in as the caller is the authenticated signer of the operation.
#[derive(Clone, Copy, Debug)]
pub struct Identity {
    pub key: [u8; 32],
}

impl PartialEq for Identity {
    fn eq(&self, other: &Identity) -> (r: bool) {
        let mut i: usize = 0;
        while i < 32
            invariant
                0 <= i <= 32,
                forall|j: int| 0 <= j < i ==> self.key@[j] == other.key@[j],
            decreases 32 - i,
        {
            if self.key[i] != other.key[i] {
                return false;
            }
            i = i + 1;
        }
        assert(self.key@ =~= other.key@);
        true
    }
}

impl vstd::std_specs::cmp::PartialEqSpecImpl for Identity {
    open spec fn obeys_eq_spec() -> bool {
        true
    }

    open spec fn eq_spec(&self, other: &Identity) -> bool {
        self.key@ == other.key@
    }
}

impl Eq for Identity {
}

/// Same address: the relation every authorisation check uses.
pub open spec fn same_key(a: Identity, b: Identity) -> bool {
    a.key@ == b.key@
}

/// Lifecycle of a prediction. `Paused` is a valid value that no operation
/// enters or leaves.
#[derive(Clone, Copy, Debug, PartialEq, Eq, Structural)]
pub enum PredictionState {
    Active,
    Paused,
    Resolved,
}

/// Outcome of a prediction; `Undefined` until it is resolved.
#[derive(Clone, Copy, Debug, PartialEq, Eq, Structural)]
pub enum PredictionResult {
    True,
    False,
    Undefined,
}

/// State of a claim in the batch-approval settlement policy.
#[derive(Clone, Copy, Debug, PartialEq, Eq, Structural)]
pub enum ClaimState {
    Pending,
    Approved,
    Claimed,
    Rejected,
}

/// Every way an operation can be refused. A refused operation changes nothing.
#[derive(Clone, Copy, Debug, PartialEq, Eq, Structural)]
pub enum PredictionError {
    NotAuthorized,
    PredictionClosed,
    PredictionNotActive,
    PredictionEnded,
    InsufficientFunds,
    InvalidAmount,
    PredictionAlreadyResolved,
    PredictionNotResolved,
    InvalidResult,
    InvalidDuration,
    NoTags,
    Overflow,
    AliasTooLong,
    ClaimNotPending,
    UserNotWinner,
    InvalidClaimIndex,
    NoApprovedClaim,
    AlreadyClaimed,
    NotWinner,
    RewardsAlreadyDistributed,
    RewardsNotDistributed,
    RewardAlreadyClaimed,
    InvalidPrediction,
    /// A user already holds a stake on this prediction.
    AlreadyStaked,
    /// Nothing was staked on the winning side, so no reward rate exists.
    NoWinningStake,
}

/// A balance that value moves between.
#[derive(Clone, Copy, Debug, PartialEq, Eq)]
pub enum Balance {
    /// A user's own balance.
    User(Identity),
    /// The market's operating balance, where fees are swept.
    Market,
    /// The escrow of the prediction with this id.
    Escrow(u64),
    /// The holding record of approved batch claims for the prediction with this id.
    ClaimsHolding(u64),
}

/// A value transfer that the host performs atomically with the operation
/// that asked for it: if it fails, none of the operation's writes commit.
#[derive(Clone, Copy, Debug, PartialEq, Eq)]
pub struct Transfer {
    pub from: Balance,
    pub to: Balance,
    pub amount: u64,
}

pub struct PredictionCreatedEvent {
    pub prediction_id: u64,
    pub creator: Identity,
    pub description: String,
}

#[derive(Clone, Copy, Debug, PartialEq, Eq)]
pub struct PredictionMadeEvent {
    pub prediction_id: u64,
    pub user: Identity,
    pub verdict: bool,
    pub amount: u64,
}

#[derive(Clone, Copy, Debug, PartialEq, Eq, Structural)]
pub struct PredictionResolvedEvent {
    pub prediction_id: u64,
    pub result: PredictionResult,
}

#[derive(Clone, Copy, Debug, PartialEq, Eq, Structural)]
pub struct RewardsDistributedEvent {
    pub prediction_id: u64,
    pub total_pool: u64,
    pub admin_fee: u64,
    pub reward_pool: u64,
    pub reward_per_lamport: u64,
}

#[derive(Clone, Copy, Debug, PartialEq, Eq)]
pub struct RewardClaimedEvent {
    pub prediction_id: u64,
    pub user: Identity,
    pub amount: u64,
}

#[derive(Clone, Copy, Debug, PartialEq, Eq)]
pub struct ClaimSubmittedEvent {
    pub prediction_id: u64,
    pub user: Identity,
    pub amount: u64,
}

#[derive(Clone, Copy, Debug, PartialEq, Eq)]
pub struct ClaimApprovedEvent {
    pub prediction_id: u64,
    pub user: Identity,
    pub amount: u64,
}

} // verus!
