//! The admin controller: distributor creation, root rotation, window and
//! vesting-parameter updates, admin-authority transfer, and the post-window
//! sweep. Every mutating operation demands that the caller match the
//! distributor's current admin authority and, on any error, changes nothing.

use vstd::prelude::*;

use crate::bytes::bytes32_eq;
use crate::state::MerkleDistributor;
use crate::{ErrorCode, PERCENT_100};

verus! {

/// Creates a distributor for a new allocation round, with both counters
/// zeroed. The window must be non-empty, the vesting ramp must end strictly
/// inside the window, and the immediate fraction is at most one hundred
/// percent.
pub fn new_distributor(
    base: [u8; 32],
    admin_auth: [u8; 32],
    mint: [u8; 32],
    root: [u8; 32],
    max_total_claim: u64,
    max_num_nodes: u64,
    claim_start_ts: u64,
    claim_end_ts: u64,
    stake_claim_only: bool,
    immediate_claim_percentage: u64,
    later_claim_offset_seconds: u64,
) -> (d: MerkleDistributor)
    requires
        claim_end_ts > claim_start_ts,
        claim_start_ts + later_claim_offset_seconds < claim_end_ts,
        immediate_claim_percentage <= PERCENT_100,
    ensures
        d == (MerkleDistributor {
            base,
            admin_auth,
            root,
            mint,
            max_total_claim,
            max_num_nodes,
            total_amount_claimed: 0,
            num_nodes_claimed: 0,
            claim_start_ts,
            claim_end_ts,
            stake_claim_only,
            immediate_claim_percentage,
            later_claim_offset_seconds,
        }),
        d.wf(),
        d.caps_ok(),
{
    MerkleDistributor {
        base,
        admin_auth,
        root,
        mint,
        max_total_claim,
        max_num_nodes,
        total_amount_claimed: 0,
        num_nodes_claimed: 0,
        claim_start_ts,
        claim_end_ts,
        stake_claim_only,
        immediate_claim_percentage,
        later_claim_offset_seconds,
    }
}

/// Rotates the root and the caps. The new root must differ from the current
/// one; the rotation resets the call counter but not the consumed
/// entitlement, so the cap keeps counting across rotations.
pub fn update_distributor(
    distributor: &mut MerkleDistributor,
    admin_auth: [u8; 32],
    root: [u8; 32],
    max_total_claim: u64,
    max_num_nodes: u64,
) -> (r: Result<(), ErrorCode>)
    ensures
        match r {
            Ok(_) => {
                &&& admin_auth@ == old(distributor).admin_auth@
                &&& root@ != old(distributor).root@
                &&& *final(distributor) == (MerkleDistributor {
                    root,
                    max_total_claim,
                    max_num_nodes,
                    num_nodes_claimed: 0,
                    ..*old(distributor)
                })
            },
            Err(code) => {
                &&& *final(distributor) == *old(distributor)
                &&& if admin_auth@ != old(distributor).admin_auth@ {
                    code == ErrorCode::DistributorAdminMismatch
                } else {
                    root@ == old(distributor).root@ && code == ErrorCode::UpdateRootNoChange
                }
            },
        },
{
    if !bytes32_eq(&admin_auth, &distributor.admin_auth) {
        return Err(ErrorCode::DistributorAdminMismatch);
    }
    if bytes32_eq(&root, &distributor.root) {
        return Err(ErrorCode::UpdateRootNoChange);
    }
    distributor.root = root;
    distributor.max_total_claim = max_total_claim;
    distributor.max_num_nodes = max_num_nodes;
    distributor.num_nodes_claimed = 0;
    Ok(())
}

/// Transfers the admin authority to `new_admin`, on the current admin's
/// authorization alone.
pub fn update_distributor_admin_auth(
    distributor: &mut MerkleDistributor,
    admin_auth: [u8; 32],
    new_admin: [u8; 32],
) -> (r: Result<(), ErrorCode>)
    ensures
        match r {
            Ok(_) => {
                &&& admin_auth@ == old(distributor).admin_auth@
                &&& *final(distributor) == (MerkleDistributor {
                    admin_auth: new_admin,
                    ..*old(distributor)
                })
            },
            Err(code) => {
                &&& code == ErrorCode::DistributorAdminMismatch
                &&& admin_auth@ != old(distributor).admin_auth@
                &&& *final(distributor) == *old(distributor)
            },
        },
{
    if !bytes32_eq(&admin_auth, &distributor.admin_auth) {
        return Err(ErrorCode::DistributorAdminMismatch);
    }
    distributor.admin_auth = new_admin;
    Ok(())
}

/// Transfers the admin authority to `new_admin_auth`, requiring the new
/// admin's control proof alongside the current admin's authorization.
pub fn update_admin_auth(
    distributor: &mut MerkleDistributor,
    admin_auth: [u8; 32],
    new_admin_auth: [u8; 32],
    new_admin_is_signer: bool,
) -> (r: Result<(), ErrorCode>)
    ensures
        match r {
            Ok(_) => {
                &&& new_admin_is_signer
                &&& admin_auth@ == old(distributor).admin_auth@
                &&& *final(distributor) == (MerkleDistributor {
                    admin_auth: new_admin_auth,
                    ..*old(distributor)
                })
            },
            Err(code) => {
                &&& *final(distributor) == *old(distributor)
                &&& if !new_admin_is_signer {
                    code == ErrorCode::Unauthorized
                } else {
                    admin_auth@ != old(distributor).admin_auth@ && code
                        == ErrorCode::DistributorAdminMismatch
                }
            },
        },
{
    if !new_admin_is_signer {
        return Err(ErrorCode::Unauthorized);
    }
    if !bytes32_eq(&admin_auth, &distributor.admin_auth) {
        return Err(ErrorCode::DistributorAdminMismatch);
    }
    distributor.admin_auth = new_admin_auth;
    Ok(())
}

/// Replaces the redemption window. The new window must be non-empty and the
/// standing vesting ramp must still end strictly inside it, so the
/// configuration invariants are never relaxed.
pub fn update_distributor_claim_window(
    distributor: &mut MerkleDistributor,
    admin_auth: [u8; 32],
    claim_start_ts: u64,
    claim_end_ts: u64,
) -> (r: Result<(), ErrorCode>)
    requires
        claim_end_ts > claim_start_ts,
        claim_start_ts + old(distributor).later_claim_offset_seconds < claim_end_ts,
    ensures
        match r {
            Ok(_) => {
                &&& admin_auth@ == old(distributor).admin_auth@
                &&& *final(distributor) == (MerkleDistributor {
                    claim_start_ts,
                    claim_end_ts,
                    ..*old(distributor)
                })
                &&& old(distributor).wf() ==> final(distributor).wf()
            },
            Err(code) => {
                &&& code == ErrorCode::DistributorAdminMismatch
                &&& admin_auth@ != old(distributor).admin_auth@
                &&& *final(distributor) == *old(distributor)
            },
        },
{
    if !bytes32_eq(&admin_auth, &distributor.admin_auth) {
        return Err(ErrorCode::DistributorAdminMismatch);
    }
    distributor.claim_start_ts = claim_start_ts;
    distributor.claim_end_ts = claim_end_ts;
    Ok(())
}

/// Replaces the vesting parameters. The new ramp must end strictly inside
/// the standing window and the new immediate fraction is at most one hundred
/// percent, so the configuration invariants are never relaxed.
pub fn update_distributor_claim_percentages(
    distributor: &mut MerkleDistributor,
    admin_auth: [u8; 32],
    immediate_claim_percentage: u64,
    later_claim_offset_seconds: u64,
) -> (r: Result<(), ErrorCode>)
    requires
        old(distributor).claim_start_ts + later_claim_offset_seconds < old(
            distributor,
        ).claim_end_ts,
        immediate_claim_percentage <= PERCENT_100,
    ensures
        match r {
            Ok(_) => {
                &&& admin_auth@ == old(distributor).admin_auth@
                &&& *final(distributor) == (MerkleDistributor {
                    immediate_claim_percentage,
                    later_claim_offset_seconds,
                    ..*old(distributor)
                })
                &&& old(distributor).wf() ==> final(distributor).wf()
            },
            Err(code) => {
                &&& code == ErrorCode::DistributorAdminMismatch
                &&& admin_auth@ != old(distributor).admin_auth@
                &&& *final(distributor) == *old(distributor)
            },
        },
{
    if !bytes32_eq(&admin_auth, &distributor.admin_auth) {
        return Err(ErrorCode::DistributorAdminMismatch);
    }
    distributor.immediate_claim_percentage = immediate_claim_percentage;
    distributor.later_claim_offset_seconds = later_claim_offset_seconds;
    Ok(())
}

/// After the window has closed, hands the admin the distributor's entire
/// remaining pooled balance to sweep; no per-claimant accounting is
/// involved. Inside the window the sweep is refused.
pub fn admin_claim_after_expiry(
    distributor: &MerkleDistributor,
    admin_auth: [u8; 32],
    now: u64,
    pool_balance: u64,
) -> (r: Result<u64, ErrorCode>)
    ensures
        match r {
            Ok(swept) => {
                &&& admin_auth@ == distributor.admin_auth@
                &&& now > distributor.claim_end_ts
                &&& swept == pool_balance
            },
            Err(code) => {
                if admin_auth@ != distributor.admin_auth@ {
                    code == ErrorCode::DistributorAdminMismatch
                } else {
                    now <= distributor.claim_end_ts && code == ErrorCode::InsideClaimWindow
                }
            },
        },
{
    if !bytes32_eq(&admin_auth, &distributor.admin_auth) {
        return Err(ErrorCode::DistributorAdminMismatch);
    }
    if !(now > distributor.claim_end_ts) {
        return Err(ErrorCode::InsideClaimWindow);
    }
    Ok(pool_balance)
}

} // verus!
