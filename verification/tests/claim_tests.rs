use anchor_lang::solana_program::keccak::hashv;
use merkle_distributor::admin::{new_distributor, update_distributor};
use merkle_distributor::claim::{claim, claim_stake};
use merkle_distributor::state::{ClaimStatus, MerkleDistributor};
use merkle_distributor::ErrorCode;

const ADMIN: [u8; 32] = [1u8; 32];
const BASE: [u8; 32] = [2u8; 32];
const MINT: [u8; 32] = [3u8; 32];
const CLAIMANT: [u8; 32] = [7u8; 32];

fn leaf(index: u64, claimant: &[u8; 32], amount: u64) -> [u8; 32] {
    hashv(&[&index.to_le_bytes(), claimant, &amount.to_le_bytes()]).0
}

fn node(a: &[u8; 32], b: &[u8; 32]) -> [u8; 32] {
    if a <= b {
        hashv(&[a, b]).0
    } else {
        hashv(&[b, a]).0
    }
}

// A distributor whose one-leaf tree grants `amount` to CLAIMANT at index 0.
fn distributor_for(amount: u64, max_total_claim: u64, max_num_nodes: u64) -> MerkleDistributor {
    let root = leaf(0, &CLAIMANT, amount);
    new_distributor(
        BASE,
        ADMIN,
        MINT,
        root,
        max_total_claim,
        max_num_nodes,
        0,
        10000,
        false,
        60_000_000,
        1000,
    )
}

#[test]
fn end_to_end_single_claim() {
    let mut d = distributor_for(1000, 1000, 1);
    let mut s = ClaimStatus::default();

    let outcome = claim(&mut d, &mut s, 0, 0, 1000, vec![], CLAIMANT, true, CLAIMANT).unwrap();
    // at the window's start only the immediate 60% of the delta is payable
    assert_eq!(outcome.transfer_amount, 600);
    // the counters consume the full delta entitlement, not the payout
    assert_eq!(d.total_amount_claimed, 1000);
    assert_eq!(d.num_nodes_claimed, 1);
    assert_eq!(s.claimed_amount, 1000);
    assert_eq!(s.claimed_at, 0);
    assert_eq!(s.claimant, CLAIMANT);
    assert_eq!(outcome.event.root, d.root);
    assert_eq!(outcome.event.index, 0);
    assert_eq!(outcome.event.claimant, CLAIMANT);
    assert_eq!(outcome.event.claim_amount, 1000);

    // a second call for the same amount has nothing new to redeem
    let before = d.clone();
    let err = claim(&mut d, &mut s, 1, 0, 1000, vec![], CLAIMANT, true, CLAIMANT).unwrap_err();
    assert_eq!(err, ErrorCode::NoClaimableAmount);
    assert_eq!(d, before);
    assert_eq!(s.claimed_amount, 1000);
}

#[test]
fn vesting_scales_only_inside_the_ramp() {
    // halfway through the 1000-second ramp: 80% of the delta
    let mut d = distributor_for(1000, 10_000, 10);
    let mut s = ClaimStatus::default();
    let outcome = claim(&mut d, &mut s, 500, 0, 1000, vec![], CLAIMANT, true, CLAIMANT).unwrap();
    assert_eq!(outcome.transfer_amount, 800);

    // once the ramp has ended the whole delta is payable
    let mut d2 = distributor_for(1000, 10_000, 10);
    let mut s2 = ClaimStatus::default();
    let outcome2 =
        claim(&mut d2, &mut s2, 1000, 0, 1000, vec![], CLAIMANT, true, CLAIMANT).unwrap();
    assert_eq!(outcome2.transfer_amount, 1000);
}

#[test]
fn ledger_is_monotonic_across_root_rotations() {
    // first root grants 500, after rotation the new root grants 800
    let root1 = leaf(0, &CLAIMANT, 500);
    let mut d =
        new_distributor(BASE, ADMIN, MINT, root1, 10_000, 10, 0, 10000, false, 60_000_000, 1000);
    let mut s = ClaimStatus::default();

    let o1 = claim(&mut d, &mut s, 2000, 0, 500, vec![], CLAIMANT, true, CLAIMANT).unwrap();
    assert_eq!(o1.event.claim_amount, 500);
    assert_eq!(s.claimed_amount, 500);

    let root2 = leaf(0, &CLAIMANT, 800);
    update_distributor(&mut d, ADMIN, root2, 10_000, 10).unwrap();
    assert_eq!(d.num_nodes_claimed, 0);
    assert_eq!(d.total_amount_claimed, 500);

    // the same or a smaller cumulative amount redeems nothing
    let err = claim(&mut d, &mut s, 2000, 0, 500, vec![], CLAIMANT, true, CLAIMANT).unwrap_err();
    assert_eq!(err, ErrorCode::NoClaimableAmount);
    let err = claim(&mut d, &mut s, 2000, 0, 400, vec![], CLAIMANT, true, CLAIMANT).unwrap_err();
    assert_eq!(err, ErrorCode::NoClaimableAmount);

    // a larger amount redeems only the 300 delta
    let o2 = claim(&mut d, &mut s, 2000, 0, 800, vec![], CLAIMANT, true, CLAIMANT).unwrap();
    assert_eq!(o2.event.claim_amount, 300);
    assert_eq!(o2.transfer_amount, 300);
    assert_eq!(s.claimed_amount, 800);
    assert_eq!(d.total_amount_claimed, 800);
    assert_eq!(d.num_nodes_claimed, 1);
}

#[test]
fn total_claim_cap_is_conserved() {
    // the tree grants 150 but the aggregate cap is 100
    let mut d = distributor_for(150, 100, 5);
    let mut s = ClaimStatus::default();
    let before = d.clone();
    let err = claim(&mut d, &mut s, 2000, 0, 150, vec![], CLAIMANT, true, CLAIMANT).unwrap_err();
    assert_eq!(err, ErrorCode::ExceededMaxClaim);
    assert_eq!(d, before);
    assert_eq!(s, ClaimStatus::default());
}

#[test]
fn node_count_cap_is_conserved() {
    // two claimants but only one claim call allowed
    let other: [u8; 32] = [8u8; 32];
    let l0 = leaf(0, &CLAIMANT, 100);
    let l1 = leaf(1, &other, 200);
    let root = node(&l0, &l1);
    let mut d =
        new_distributor(BASE, ADMIN, MINT, root, 10_000, 1, 0, 10000, false, 60_000_000, 1000);

    let mut s0 = ClaimStatus::default();
    claim(&mut d, &mut s0, 2000, 0, 100, vec![l1], CLAIMANT, true, CLAIMANT).unwrap();
    assert_eq!(d.num_nodes_claimed, 1);

    let before = d.clone();
    let mut s1 = ClaimStatus::default();
    let err = claim(&mut d, &mut s1, 2000, 1, 200, vec![l0], other, true, other).unwrap_err();
    assert_eq!(err, ErrorCode::ExceededMaxNumNodes);
    assert_eq!(d, before);
    assert_eq!(s1, ClaimStatus::default());
}

#[test]
fn claim_outside_window_is_rejected() {
    let root = leaf(0, &CLAIMANT, 1000);
    let mut d =
        new_distributor(BASE, ADMIN, MINT, root, 1000, 1, 100, 10000, false, 60_000_000, 1000);
    let mut s = ClaimStatus::default();
    let err = claim(&mut d, &mut s, 99, 0, 1000, vec![], CLAIMANT, true, CLAIMANT).unwrap_err();
    assert_eq!(err, ErrorCode::OutsideClaimWindow);
    let err = claim(&mut d, &mut s, 10001, 0, 1000, vec![], CLAIMANT, true, CLAIMANT).unwrap_err();
    assert_eq!(err, ErrorCode::OutsideClaimWindow);
    // the window bounds themselves are inside
    assert!(claim(&mut d, &mut s, 100, 0, 1000, vec![], CLAIMANT, true, CLAIMANT).is_ok());
}

#[test]
fn claim_authorization_is_enforced() {
    let mut d = distributor_for(1000, 1000, 5);
    let mut s = ClaimStatus::default();
    let stranger: [u8; 32] = [9u8; 32];

    // a payer who is neither the claimant nor the admin
    let err = claim(&mut d, &mut s, 0, 0, 1000, vec![], CLAIMANT, true, stranger).unwrap_err();
    assert_eq!(err, ErrorCode::Unauthorized);
    // the claimant's control proof is required even for the admin
    let err = claim(&mut d, &mut s, 0, 0, 1000, vec![], CLAIMANT, false, ADMIN).unwrap_err();
    assert_eq!(err, ErrorCode::Unauthorized);
    assert_eq!(d.total_amount_claimed, 0);

    // the admin may claim on the claimant's behalf with that proof present
    assert!(claim(&mut d, &mut s, 0, 0, 1000, vec![], CLAIMANT, true, ADMIN).is_ok());
}

#[test]
fn invalid_proof_is_rejected() {
    let mut d = distributor_for(1000, 1000, 5);
    let mut s = ClaimStatus::default();
    // claiming a different amount than the tree committed
    let err = claim(&mut d, &mut s, 0, 0, 999, vec![], CLAIMANT, true, CLAIMANT).unwrap_err();
    assert_eq!(err, ErrorCode::InvalidProof);
    // a spurious sibling
    let err =
        claim(&mut d, &mut s, 0, 0, 1000, vec![[5u8; 32]], CLAIMANT, true, CLAIMANT).unwrap_err();
    assert_eq!(err, ErrorCode::InvalidProof);
    assert_eq!(d.total_amount_claimed, 0);
}

#[test]
fn stake_only_distributor_refuses_direct_claims() {
    let root = leaf(0, &CLAIMANT, 1000);
    let mut d =
        new_distributor(BASE, ADMIN, MINT, root, 1000, 1, 0, 10000, true, 60_000_000, 1000);
    let mut s = ClaimStatus::default();
    let err = claim(&mut d, &mut s, 0, 0, 1000, vec![], CLAIMANT, true, CLAIMANT).unwrap_err();
    assert_eq!(err, ErrorCode::MustClaimDirectToStake);
}

#[test]
fn stake_claim_moves_the_full_delta() {
    let mut d = distributor_for(1000, 1000, 1);
    let mut s = ClaimStatus::default();
    // at now=0 a direct claim would pay only 600; the stake path forwards all 1000
    let outcome = claim_stake(
        &mut d,
        &mut s,
        0,
        0,
        1000,
        vec![],
        CLAIMANT,
        true,
        CLAIMANT,
        2,
        String::from("position"),
        30,
        10,
        100,
    )
    .unwrap();
    assert_eq!(outcome.stake_amount, 1000);
    assert_eq!(outcome.stake_duration_epochs, 30);
    assert_eq!(outcome.stake_bit, 2);
    assert_eq!(outcome.stake_account_name, "position");
    assert_eq!(outcome.event.claim_amount, 1000);
    assert_eq!(d.total_amount_claimed, 1000);
    assert_eq!(d.num_nodes_claimed, 1);
    assert_eq!(s.claimed_amount, 1000);
}

#[test]
fn stake_duration_bounds_are_enforced() {
    let mut d = distributor_for(1000, 1000, 5);
    let mut s = ClaimStatus::default();
    let name = || String::from("position");
    let err = claim_stake(
        &mut d, &mut s, 0, 0, 1000, vec![], CLAIMANT, true, CLAIMANT, 0, name(), 9, 10, 100,
    )
    .unwrap_err();
    assert_eq!(err, ErrorCode::InvalidStakeDuration);
    let err = claim_stake(
        &mut d, &mut s, 0, 0, 1000, vec![], CLAIMANT, true, CLAIMANT, 0, name(), 101, 10, 100,
    )
    .unwrap_err();
    assert_eq!(err, ErrorCode::InvalidStakeDuration);
    assert_eq!(d.total_amount_claimed, 0);
}

#[test]
fn stake_only_distributor_demands_ninety_epochs() {
    let root = leaf(0, &CLAIMANT, 1000);
    let mut d =
        new_distributor(BASE, ADMIN, MINT, root, 1000, 1, 0, 10000, true, 60_000_000, 1000);
    let mut s = ClaimStatus::default();
    let err = claim_stake(
        &mut d,
        &mut s,
        0,
        0,
        1000,
        vec![],
        CLAIMANT,
        true,
        CLAIMANT,
        0,
        String::from("position"),
        89,
        10,
        200,
    )
    .unwrap_err();
    assert_eq!(err, ErrorCode::InvalidStakeDuration);
    assert!(claim_stake(
        &mut d,
        &mut s,
        0,
        0,
        1000,
        vec![],
        CLAIMANT,
        true,
        CLAIMANT,
        0,
        String::from("position"),
        90,
        10,
        200,
    )
    .is_ok());
}
