//! The claim orchestrator: validates a claim request against the registry,
//! the ledger and the proof verifier, applies vesting, and updates the
//! counters. Every call is all-or-nothing: an error leaves both records
//! exactly as they were, and success applies every effect.
//!
//! Two redemption modes share the contract: a direct claim pays the
//! vesting-scaled part of the newly unlocked delta to the claimant, while a
//! stake claim forwards the full delta to an external staking collaborator.
//! The funds movement itself, and the staking call, are the caller's:
//! the outcome says exactly how much to move.

use vstd::prelude::*;

use crate::hash::{hash_leaf, spec_leaf_hash};
use crate::merkle_proof;
use crate::merkle_proof::{proof_hashes, spec_chain};
use crate::state::{ClaimStatus, ClaimedEvent, MerkleDistributor};
use crate::vesting::{
    get_percentage, get_time_scaled_percentage, spec_percentage_of, spec_time_scaled_percentage,
};
use crate::ErrorCode;

verus! {

/// The least stake duration a stake-only distributor accepts, in epochs.
pub const MIN_STAKE_ONLY_DURATION_EPOCHS: u32 = 90;

/// Whether `now` lies within the inclusive redemption window.
pub open spec fn window_open(d: MerkleDistributor, now: u64) -> bool {
    d.claim_start_ts <= now <= d.claim_end_ts
}

/// Whether the membership proof authenticates `(index, claimant, amount)`
/// against the distributor's committed root.
pub open spec fn proof_valid(
    d: MerkleDistributor,
    index: u64,
    claimant: [u8; 32],
    amount: u64,
    siblings: Seq<Seq<u8>>,
) -> bool {
    spec_chain(spec_leaf_hash(index, claimant@, amount), siblings) == d.root@
}

/// The first reason a direct claim fails, or `None` when it succeeds.
/// The checks run in this order and the call fails closed on the first
/// violation.
pub open spec fn direct_claim_error(
    d: MerkleDistributor,
    s: ClaimStatus,
    now: u64,
    index: u64,
    amount: u64,
    siblings: Seq<Seq<u8>>,
    claimant: [u8; 32],
    claimant_is_signer: bool,
    payer: [u8; 32],
) -> Option<ErrorCode> {
    if d.stake_claim_only {
        Some(ErrorCode::MustClaimDirectToStake)
    } else if !window_open(d, now) {
        Some(ErrorCode::OutsideClaimWindow)
    } else if s.claimed_amount >= amount {
        Some(ErrorCode::NoClaimableAmount)
    } else if payer@ != claimant@ && payer@ != d.admin_auth@ {
        Some(ErrorCode::Unauthorized)
    } else if !claimant_is_signer {
        Some(ErrorCode::Unauthorized)
    } else if !proof_valid(d, index, claimant, amount, siblings) {
        Some(ErrorCode::InvalidProof)
    } else if d.total_amount_claimed + (amount - s.claimed_amount) > d.max_total_claim {
        Some(ErrorCode::ExceededMaxClaim)
    } else if d.num_nodes_claimed + 1 > d.max_num_nodes {
        Some(ErrorCode::ExceededMaxNumNodes)
    } else {
        None
    }
}

/// The first reason a stake claim fails, or `None` when it succeeds.
/// `min_stake_duration_epochs` and `max_n_epochs` are the staking
/// collaborator's published bounds.
pub open spec fn stake_claim_error(
    d: MerkleDistributor,
    s: ClaimStatus,
    now: u64,
    index: u64,
    amount: u64,
    siblings: Seq<Seq<u8>>,
    claimant: [u8; 32],
    claimant_is_signer: bool,
    payer: [u8; 32],
    stake_duration_epochs: u32,
    min_stake_duration_epochs: u32,
    max_n_epochs: u32,
) -> Option<ErrorCode> {
    if !window_open(d, now) {
        Some(ErrorCode::OutsideClaimWindow)
    } else if s.claimed_amount >= amount {
        Some(ErrorCode::NoClaimableAmount)
    } else if payer@ != claimant@ && payer@ != d.admin_auth@ {
        Some(ErrorCode::Unauthorized)
    } else if !claimant_is_signer {
        Some(ErrorCode::Unauthorized)
    } else if !proof_valid(d, index, claimant, amount, siblings) {
        Some(ErrorCode::InvalidProof)
    } else if !(min_stake_duration_epochs <= stake_duration_epochs <= max_n_epochs) {
        Some(ErrorCode::InvalidStakeDuration)
    } else if d.stake_claim_only && stake_duration_epochs < MIN_STAKE_ONLY_DURATION_EPOCHS {
        Some(ErrorCode::InvalidStakeDuration)
    } else if d.total_amount_claimed + (amount - s.claimed_amount) > d.max_total_claim {
        Some(ErrorCode::ExceededMaxClaim)
    } else if d.num_nodes_claimed + 1 > d.max_num_nodes {
        Some(ErrorCode::ExceededMaxNumNodes)
    } else {
        None
    }
}

/// The distributor after a successful claim: the delta is added to the
/// consumed entitlement and the call counter moves up by one. The counters
/// track entitlement consumed, not tokens disbursed: the cap is
/// entitlement-based even when vesting pays out less.
pub open spec fn distributor_after_claim(
    d: MerkleDistributor,
    s: ClaimStatus,
    amount: u64,
) -> MerkleDistributor {
    MerkleDistributor {
        total_amount_claimed: (d.total_amount_claimed + (amount - s.claimed_amount)) as u64,
        num_nodes_claimed: (d.num_nodes_claimed + 1) as u64,
        ..d
    }
}

/// The ledger record after a successful claim: the cumulative amount becomes
/// the authenticated entitlement, stamped with the claimant and the time.
pub open spec fn status_after_claim(
    claimant: [u8; 32],
    now: u64,
    amount: u64,
) -> ClaimStatus {
    ClaimStatus { claimant, claimed_at: now as i64, claimed_amount: amount }
}

/// What a successful direct claim pays out of the newly unlocked `delta`:
/// the time-scaled fraction while the vesting ramp is still running, the
/// whole delta once it has ended.
pub open spec fn direct_payout(d: MerkleDistributor, delta: u64, now: u64) -> int {
    if now < d.claim_start_ts + d.later_claim_offset_seconds {
        spec_percentage_of(
            delta as int,
            spec_time_scaled_percentage(
                d.immediate_claim_percentage as int,
                now - d.claim_start_ts,
                d.later_claim_offset_seconds as int,
            ),
        )
    } else {
        delta as int
    }
}

/// What a successful direct claim instructs the caller to do: move
/// `transfer_amount` from the distributor's pooled balance to the claimant,
/// and append the event to the log.
#[derive(Clone, Debug, PartialEq, Eq)]
pub struct ClaimOutcome {
    /// Tokens to move to the claimant's account.
    pub transfer_amount: u64,
    /// The record of this claim.
    pub event: ClaimedEvent,
}

/// What a successful stake claim instructs the caller to do: move the full
/// delta to the staking collaborator's pool and open a position for the
/// requested duration under the given label.
#[derive(Clone, Debug, PartialEq, Eq)]
pub struct StakeOutcome {
    /// Tokens to move and stake: the full newly unlocked delta, unscaled.
    pub stake_amount: u64,
    /// Duration of the position, in epochs.
    pub stake_duration_epochs: u32,
    /// Which stake slot to use, handed through to the collaborator.
    pub stake_bit: u8,
    /// Label of the position, handed through to the collaborator.
    pub stake_account_name: String,
    /// The record of this claim.
    pub event: ClaimedEvent,
}

/// Redeems the entitlement `amount` authenticated by `proof_nodes` directly
/// to the claimant. On success the ledger records the full amount, the
/// counters consume the delta, and the payout is the vesting-scaled part of
/// the delta. On error nothing changes.
pub fn claim(
    distributor: &mut MerkleDistributor,
    claim_status: &mut ClaimStatus,
    now: u64,
    index: u64,
    amount: u64,
    proof_nodes: Vec<[u8; 32]>,
    claimant: [u8; 32],
    claimant_is_signer: bool,
    payer: [u8; 32],
) -> (r: Result<ClaimOutcome, ErrorCode>)
    requires
        old(distributor).wf(),
    ensures
        ({
            let err = direct_claim_error(
                *old(distributor),
                *old(claim_status),
                now,
                index,
                amount,
                proof_hashes(proof_nodes@),
                claimant,
                claimant_is_signer,
                payer,
            );
            match r {
                Ok(outcome) => {
                    let delta = (amount - old(claim_status).claimed_amount) as u64;
                    &&& err is None
                    &&& *final(distributor) == distributor_after_claim(
                        *old(distributor),
                        *old(claim_status),
                        amount,
                    )
                    &&& *final(claim_status) == status_after_claim(claimant, now, amount)
                    &&& outcome.transfer_amount == direct_payout(*old(distributor), delta, now)
                    &&& outcome.event == (ClaimedEvent {
                        root: old(distributor).root,
                        index,
                        claimant,
                        claim_amount: delta,
                    })
                },
                Err(code) => {
                    &&& err == Some(code)
                    &&& *final(distributor) == *old(distributor)
                    &&& *final(claim_status) == *old(claim_status)
                },
            }
        }),
{
    if distributor.stake_claim_only {
        return Err(ErrorCode::MustClaimDirectToStake);
    }
    if !(now >= distributor.claim_start_ts && now <= distributor.claim_end_ts) {
        return Err(ErrorCode::OutsideClaimWindow);
    }
    if claim_status.claimed_amount >= amount {
        return Err(ErrorCode::NoClaimableAmount);
    }
    let payer_is_claimant = crate::bytes::bytes32_eq(&payer, &claimant);
    let payer_is_admin = crate::bytes::bytes32_eq(&payer, &distributor.admin_auth);
    if !payer_is_claimant && !payer_is_admin {
        return Err(ErrorCode::Unauthorized);
    }
    if !claimant_is_signer {
        return Err(ErrorCode::Unauthorized);
    }
    let node = hash_leaf(index, &claimant, amount);
    if !merkle_proof::verify(proof_nodes, distributor.root, node) {
        return Err(ErrorCode::InvalidProof);
    }

    let claim_amount = amount - claim_status.claimed_amount;
    let new_total = match distributor.total_amount_claimed.checked_add(claim_amount) {
        Some(t) => t,
        None => {
            return Err(ErrorCode::ExceededMaxClaim);
        },
    };
    if new_total > distributor.max_total_claim {
        return Err(ErrorCode::ExceededMaxClaim);
    }
    let new_nodes = match distributor.num_nodes_claimed.checked_add(1) {
        Some(n) => n,
        None => {
            return Err(ErrorCode::ExceededMaxNumNodes);
        },
    };
    if new_nodes > distributor.max_num_nodes {
        return Err(ErrorCode::ExceededMaxNumNodes);
    }

    let elapsed = now - distributor.claim_start_ts;
    let transfer_amount = if elapsed < distributor.later_claim_offset_seconds {
        let percent_to_get = get_time_scaled_percentage(
            distributor.immediate_claim_percentage,
            elapsed,
            distributor.later_claim_offset_seconds,
        );
        get_percentage(claim_amount, percent_to_get)
    } else {
        claim_amount
    };

    let event = ClaimedEvent { root: distributor.root, index, claimant, claim_amount };
    claim_status.claimed_amount = amount;
    claim_status.claimed_at = now as i64;
    claim_status.claimant = claimant;
    distributor.total_amount_claimed = new_total;
    distributor.num_nodes_claimed = new_nodes;
    Ok(ClaimOutcome { transfer_amount, event })
}

/// Redeems the entitlement `amount` direct to stake: the full newly unlocked
/// delta, unscaled by vesting, goes to the staking collaborator, provided
/// the requested duration lies within the collaborator's published bounds
/// (and, on a stake-only distributor, is at least
/// [`MIN_STAKE_ONLY_DURATION_EPOCHS`]). On error nothing changes.
pub fn claim_stake(
    distributor: &mut MerkleDistributor,
    claim_status: &mut ClaimStatus,
    now: u64,
    index: u64,
    amount: u64,
    proof_nodes: Vec<[u8; 32]>,
    claimant: [u8; 32],
    claimant_is_signer: bool,
    payer: [u8; 32],
    stake_bit: u8,
    stake_account_name: String,
    stake_duration_epochs: u32,
    min_stake_duration_epochs: u32,
    max_n_epochs: u32,
) -> (r: Result<StakeOutcome, ErrorCode>)
    requires
        old(distributor).wf(),
    ensures
        ({
            let err = stake_claim_error(
                *old(distributor),
                *old(claim_status),
                now,
                index,
                amount,
                proof_hashes(proof_nodes@),
                claimant,
                claimant_is_signer,
                payer,
                stake_duration_epochs,
                min_stake_duration_epochs,
                max_n_epochs,
            );
            match r {
                Ok(outcome) => {
                    let delta = (amount - old(claim_status).claimed_amount) as u64;
                    &&& err is None
                    &&& *final(distributor) == distributor_after_claim(
                        *old(distributor),
                        *old(claim_status),
                        amount,
                    )
                    &&& *final(claim_status) == status_after_claim(claimant, now, amount)
                    &&& outcome.stake_amount == delta
                    &&& outcome.stake_duration_epochs == stake_duration_epochs
                    &&& outcome.stake_bit == stake_bit
                    &&& outcome.stake_account_name@ == stake_account_name@
                    &&& outcome.event == (ClaimedEvent {
                        root: old(distributor).root,
                        index,
                        claimant,
                        claim_amount: delta,
                    })
                },
                Err(code) => {
                    &&& err == Some(code)
                    &&& *final(distributor) == *old(distributor)
                    &&& *final(claim_status) == *old(claim_status)
                },
            }
        }),
{
    if !(now >= distributor.claim_start_ts && now <= distributor.claim_end_ts) {
        return Err(ErrorCode::OutsideClaimWindow);
    }
    if claim_status.claimed_amount >= amount {
        return Err(ErrorCode::NoClaimableAmount);
    }
    let payer_is_claimant = crate::bytes::bytes32_eq(&payer, &claimant);
    let payer_is_admin = crate::bytes::bytes32_eq(&payer, &distributor.admin_auth);
    if !payer_is_claimant && !payer_is_admin {
        return Err(ErrorCode::Unauthorized);
    }
    if !claimant_is_signer {
        return Err(ErrorCode::Unauthorized);
    }
    let node = hash_leaf(index, &claimant, amount);
    if !merkle_proof::verify(proof_nodes, distributor.root, node) {
        return Err(ErrorCode::InvalidProof);
    }
    if !(stake_duration_epochs >= min_stake_duration_epochs && stake_duration_epochs
        <= max_n_epochs) {
        return Err(ErrorCode::InvalidStakeDuration);
    }
    if distributor.stake_claim_only && stake_duration_epochs < MIN_STAKE_ONLY_DURATION_EPOCHS {
        return Err(ErrorCode::InvalidStakeDuration);
    }

    let claim_amount = amount - claim_status.claimed_amount;
    let new_total = match distributor.total_amount_claimed.checked_add(claim_amount) {
        Some(t) => t,
        None => {
            return Err(ErrorCode::ExceededMaxClaim);
        },
    };
    if new_total > distributor.max_total_claim {
        return Err(ErrorCode::ExceededMaxClaim);
    }
    let new_nodes = match distributor.num_nodes_claimed.checked_add(1) {
        Some(n) => n,
        None => {
            return Err(ErrorCode::ExceededMaxNumNodes);
        },
    };
    if new_nodes > distributor.max_num_nodes {
        return Err(ErrorCode::ExceededMaxNumNodes);
    }

    let event = ClaimedEvent { root: distributor.root, index, claimant, claim_amount };
    claim_status.claimed_amount = amount;
    claim_status.claimed_at = now as i64;
    claim_status.claimant = claimant;
    distributor.total_amount_claimed = new_total;
    distributor.num_nodes_claimed = new_nodes;
    Ok(StakeOutcome {
        stake_amount: claim_amount,
        stake_duration_epochs,
        stake_bit,
        stake_account_name,
        event,
    })
}

/// The ledger is monotonic: once a claimant's record holds a cumulative
/// amount, a later direct claim for the same or a smaller amount fails with
/// nothing to redeem, and one for a larger amount, when it succeeds, raises
/// the record to exactly that amount and consumes only the difference.
pub proof fn lemma_ledger_monotonic(
    d: MerkleDistributor,
    s: ClaimStatus,
    now: u64,
    index: u64,
    amount: u64,
    siblings: Seq<Seq<u8>>,
    claimant: [u8; 32],
    claimant_is_signer: bool,
    payer: [u8; 32],
)
    requires
        !d.stake_claim_only,
        window_open(d, now),
    ensures
        amount <= s.claimed_amount ==> direct_claim_error(
            d,
            s,
            now,
            index,
            amount,
            siblings,
            claimant,
            claimant_is_signer,
            payer,
        ) == Some(ErrorCode::NoClaimableAmount),
        direct_claim_error(d, s, now, index, amount, siblings, claimant, claimant_is_signer, payer)
            is None ==> {
            &&& status_after_claim(claimant, now, amount).claimed_amount > s.claimed_amount
            &&& status_after_claim(claimant, now, amount).claimed_amount == amount
            &&& distributor_after_claim(d, s, amount).total_amount_claimed
                == d.total_amount_claimed + (amount - s.claimed_amount)
        },
{
}

/// One direct claim conserves the caps: a successful call leaves both
/// counters within their caps, and a rejected call is the identity on the
/// distributor.
pub proof fn lemma_claim_conserves_caps(
    d: MerkleDistributor,
    s: ClaimStatus,
    now: u64,
    index: u64,
    amount: u64,
    siblings: Seq<Seq<u8>>,
    claimant: [u8; 32],
    claimant_is_signer: bool,
    payer: [u8; 32],
)
    ensures
        direct_claim_error(d, s, now, index, amount, siblings, claimant, claimant_is_signer, payer)
            is None ==> distributor_after_claim(d, s, amount).caps_ok(),
{
}

/// Everything one attempted direct claim needs: the would-be claimant's
/// ledger record and the request values.
pub struct DirectClaimRequest {
    /// The claimant's ledger record going into the call.
    pub status: ClaimStatus,
    /// Time of the call.
    pub now: u64,
    /// Index of the claimed entry.
    pub index: u64,
    /// Cumulative entitlement being claimed.
    pub amount: u64,
    /// The sibling hashes of the membership proof.
    pub siblings: Seq<Seq<u8>>,
    /// Who the entitlement belongs to.
    pub claimant: [u8; 32],
    /// Whether the claimant's control proof is present.
    pub claimant_is_signer: bool,
    /// Who makes the call.
    pub payer: [u8; 32],
}

/// The distributor after one attempted direct claim: updated on success,
/// untouched on error.
pub open spec fn apply_direct_claim(d: MerkleDistributor, q: DirectClaimRequest) -> MerkleDistributor {
    if direct_claim_error(
        d,
        q.status,
        q.now,
        q.index,
        q.amount,
        q.siblings,
        q.claimant,
        q.claimant_is_signer,
        q.payer,
    ) is None {
        distributor_after_claim(d, q.status, q.amount)
    } else {
        d
    }
}

/// The distributor after a whole sequence of attempted direct claims, first
/// request first.
pub open spec fn run_direct_claims(d: MerkleDistributor, qs: Seq<DirectClaimRequest>) -> MerkleDistributor
    decreases qs.len(),
{
    if qs.len() == 0 {
        d
    } else {
        run_direct_claims(apply_direct_claim(d, qs[0]), qs.skip(1))
    }
}

/// Conservation: across any sequence of attempted direct claims, the
/// consumed entitlement never exceeds its cap and the call counter never
/// exceeds its cap — a call that would violate either is rejected and leaves
/// the counters unchanged.
pub proof fn lemma_conservation(d: MerkleDistributor, qs: Seq<DirectClaimRequest>)
    requires
        d.caps_ok(),
    ensures
        run_direct_claims(d, qs).caps_ok(),
    decreases qs.len(),
{
    if qs.len() > 0 {
        lemma_conservation(apply_direct_claim(d, qs[0]), qs.skip(1));
    }
}

} // verus!
