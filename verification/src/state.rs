//! The distributor registry and the claim ledger: one record holding a
//! distributor's configuration and aggregate counters, and one record per
//! claimant tracking the cumulative entitlement already redeemed.

use vstd::prelude::*;

use crate::PERCENT_100;

verus! {

/// One allocation round: the commitment root, the caps, the redemption
/// window and the vesting parameters, together with the aggregate counters.
#[derive(Clone, Debug, PartialEq, Eq)]
pub struct MerkleDistributor {
    /// Base identity the distributor's storage key is derived from.
    pub base: [u8; 32],
    /// Identity permitted to mutate this distributor and sweep leftovers.
    pub admin_auth: [u8; 32],
    /// The 256-bit commitment root of the allocation table.
    pub root: [u8; 32],
    /// Asset identifier of the token being distributed.
    pub mint: [u8; 32],
    /// Cap on the cumulative entitlement consumed across all claimants.
    pub max_total_claim: u64,
    /// Cap on the number of successful claim calls since the last rotation.
    pub max_num_nodes: u64,
    /// Cumulative entitlement consumed so far.
    pub total_amount_claimed: u64,
    /// Successful claim calls since the last root rotation.
    pub num_nodes_claimed: u64,
    /// First timestamp at which redemption is permitted, inclusive.
    pub claim_start_ts: u64,
    /// Last timestamp at which redemption is permitted, inclusive.
    pub claim_end_ts: u64,
    /// Whether redemption must route through the staking path.
    pub stake_claim_only: bool,
    /// Fraction payable right at the window's start, scaled by PERCENT_100.
    pub immediate_claim_percentage: u64,
    /// Seconds after the window's start over which the payable fraction
    /// rises linearly to one hundred percent.
    pub later_claim_offset_seconds: u64,
}

impl MerkleDistributor {
    /// The configuration invariants, established at creation and preserved by
    /// every update: the window is non-empty, the vesting ramp ends strictly
    /// inside the window, and the immediate fraction is at most one hundred
    /// percent.
    pub open spec fn wf(self) -> bool {
        &&& self.claim_end_ts > self.claim_start_ts
        &&& self.claim_start_ts + self.later_claim_offset_seconds < self.claim_end_ts
        &&& self.immediate_claim_percentage <= PERCENT_100
    }

    /// Both aggregate counters are within their caps.
    pub open spec fn caps_ok(self) -> bool {
        &&& self.total_amount_claimed <= self.max_total_claim
        &&& self.num_nodes_claimed <= self.max_num_nodes
    }
}

/// One claimant's ledger record, created lazily on the first claim: the
/// cumulative entitlement already granted, and when it was last updated.
#[derive(Clone, Debug, PartialEq, Eq)]
pub struct ClaimStatus {
    /// Identity that claimed the entitlement.
    pub claimant: [u8; 32],
    /// Timestamp of the last update.
    pub claimed_at: i64,
    /// Cumulative entitlement granted so far; never decreases.
    pub claimed_amount: u64,
}

impl Default for ClaimStatus {
    /// The record of someone who has not claimed yet: nothing granted.
    fn default() -> (r: Self)
        ensures
            forall|j: int| 0 <= j < 32 ==> r.claimant@[j] == 0,
            r.claimed_at == 0,
            r.claimed_amount == 0,
    {
        ClaimStatus { claimant: [0u8; 32], claimed_at: 0, claimed_amount: 0 }
    }
}

/// The append-only record of one successful claim call.
#[derive(Clone, Debug, PartialEq, Eq)]
pub struct ClaimedEvent {
    /// The commitment root the membership proof was checked against.
    pub root: [u8; 32],
    /// Index of the redeemed entry in the allocation table.
    pub index: u64,
    /// Identity that claimed.
    pub claimant: [u8; 32],
    /// The newly consumed entitlement delta.
    pub claim_amount: u64,
}

} // verus!
