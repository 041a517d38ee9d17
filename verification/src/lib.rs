//! An allocation-table distributor: an issuer commits a table of
//! (index, claimant, entitlement) entries into one 256-bit commitment root,
//! and recipients later redeem their entitlement by presenting a membership
//! proof against that root. The crate verifies the claim engine itself:
//! membership-proof checking, time-based vesting arithmetic, the per-claimant
//! ledger that prevents over-redemption, and the aggregate counters that cap
//! total payout.

use vstd::prelude::*;

pub mod admin;
pub mod bytes;
pub mod claim;
pub mod derived_keys;
pub mod hash;
pub mod merkle_proof;
pub mod merkle_tree;
pub mod state;
pub mod vesting;

verus! {

/// Fixed-point scale for percentages: this value stands for 100%.
pub const PERCENT_100: u64 = 100_000_000;

/// Everything that can make an operation fail. Each operation fails as a
/// whole: an error leaves all state exactly as it was.
#[derive(Clone, Copy, Debug, PartialEq, Eq, Structural)]
pub enum ErrorCode {
    /// The membership proof does not reconstruct the distributor's root.
    InvalidProof,
    /// The entitlement was already redeemed in full.
    DropAlreadyClaimed,
    /// The aggregate entitlement cap would be exceeded.
    ExceededMaxClaim,
    /// The cap on the number of claim calls would be exceeded.
    ExceededMaxNumNodes,
    /// The caller is neither the claimant nor the distributor's admin, or a
    /// required control proof is missing.
    Unauthorized,
    /// A token account's owner is not the intended owner.
    OwnerMismatch,
    /// The caller does not match the distributor's admin authority.
    DistributorAdminMismatch,
    /// The cumulative entitlement on record already covers the claimed amount.
    NoClaimableAmount,
    /// A root rotation must change the root.
    UpdateRootNoChange,
    /// The funding account is not the distributor's derived token account.
    InvalidDistributorTokenAccount,
    /// The current time lies outside the redemption window.
    OutsideClaimWindow,
    /// This distributor only redeems through the staking path.
    MustClaimDirectToStake,
    /// The post-window sweep was attempted before the window closed.
    InsideClaimWindow,
    /// The requested stake duration lies outside the permitted bounds.
    InvalidStakeDuration,
}

} // verus!
