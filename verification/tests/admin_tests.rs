use merkle_distributor::admin::{
    admin_claim_after_expiry, new_distributor, update_admin_auth, update_distributor,
    update_distributor_admin_auth, update_distributor_claim_percentages,
    update_distributor_claim_window,
};
use merkle_distributor::state::MerkleDistributor;
use merkle_distributor::ErrorCode;

const ADMIN: [u8; 32] = [1u8; 32];
const STRANGER: [u8; 32] = [9u8; 32];

fn fresh() -> MerkleDistributor {
    new_distributor(
        [2u8; 32],
        ADMIN,
        [3u8; 32],
        [4u8; 32],
        1000,
        10,
        0,
        10000,
        false,
        60_000_000,
        1000,
    )
}

#[test]
fn creation_zeroes_the_counters() {
    let d = fresh();
    assert_eq!(d.total_amount_claimed, 0);
    assert_eq!(d.num_nodes_claimed, 0);
    assert_eq!(d.admin_auth, ADMIN);
    assert_eq!(d.root, [4u8; 32]);
    assert_eq!(d.claim_start_ts, 0);
    assert_eq!(d.claim_end_ts, 10000);
    assert_eq!(d.immediate_claim_percentage, 60_000_000);
    assert_eq!(d.later_claim_offset_seconds, 1000);
    assert!(!d.stake_claim_only);
}

#[test]
fn non_admin_mutates_nothing() {
    let mut d = fresh();
    let before = d.clone();

    let err = update_distributor(&mut d, STRANGER, [5u8; 32], 2000, 20).unwrap_err();
    assert_eq!(err, ErrorCode::DistributorAdminMismatch);
    assert_eq!(d, before);

    let err = update_distributor_admin_auth(&mut d, STRANGER, STRANGER).unwrap_err();
    assert_eq!(err, ErrorCode::DistributorAdminMismatch);
    assert_eq!(d, before);

    let err = update_admin_auth(&mut d, STRANGER, STRANGER, true).unwrap_err();
    assert_eq!(err, ErrorCode::DistributorAdminMismatch);
    assert_eq!(d, before);

    let err = update_distributor_claim_window(&mut d, STRANGER, 1, 10000).unwrap_err();
    assert_eq!(err, ErrorCode::DistributorAdminMismatch);
    assert_eq!(d, before);

    let err = update_distributor_claim_percentages(&mut d, STRANGER, 50_000_000, 500).unwrap_err();
    assert_eq!(err, ErrorCode::DistributorAdminMismatch);
    assert_eq!(d, before);

    let err = admin_claim_after_expiry(&d, STRANGER, 20000, 555).unwrap_err();
    assert_eq!(err, ErrorCode::DistributorAdminMismatch);
    assert_eq!(d, before);
}

#[test]
fn root_rotation_resets_the_call_counter_only() {
    let mut d = fresh();
    d.total_amount_claimed = 300;
    d.num_nodes_claimed = 3;

    update_distributor(&mut d, ADMIN, [5u8; 32], 2000, 20).unwrap();
    assert_eq!(d.root, [5u8; 32]);
    assert_eq!(d.max_total_claim, 2000);
    assert_eq!(d.max_num_nodes, 20);
    assert_eq!(d.num_nodes_claimed, 0);
    // the consumed entitlement keeps counting across rotations
    assert_eq!(d.total_amount_claimed, 300);
}

#[test]
fn root_rotation_must_change_the_root() {
    let mut d = fresh();
    let before = d.clone();
    let err = update_distributor(&mut d, ADMIN, [4u8; 32], 2000, 20).unwrap_err();
    assert_eq!(err, ErrorCode::UpdateRootNoChange);
    assert_eq!(d, before);
}

#[test]
fn admin_transfer_changes_the_authority() {
    let mut d = fresh();
    update_distributor_admin_auth(&mut d, ADMIN, [6u8; 32]).unwrap();
    assert_eq!(d.admin_auth, [6u8; 32]);
    // the old admin no longer passes
    let err = update_distributor(&mut d, ADMIN, [5u8; 32], 2000, 20).unwrap_err();
    assert_eq!(err, ErrorCode::DistributorAdminMismatch);
}

#[test]
fn admin_transfer_needs_the_new_admins_control_proof() {
    let mut d = fresh();
    let before = d.clone();
    let err = update_admin_auth(&mut d, ADMIN, [6u8; 32], false).unwrap_err();
    assert_eq!(err, ErrorCode::Unauthorized);
    assert_eq!(d, before);

    update_admin_auth(&mut d, ADMIN, [6u8; 32], true).unwrap();
    assert_eq!(d.admin_auth, [6u8; 32]);
}

#[test]
fn window_and_percentage_updates_apply() {
    let mut d = fresh();
    update_distributor_claim_window(&mut d, ADMIN, 100, 20000).unwrap();
    assert_eq!(d.claim_start_ts, 100);
    assert_eq!(d.claim_end_ts, 20000);

    update_distributor_claim_percentages(&mut d, ADMIN, 50_000_000, 500).unwrap();
    assert_eq!(d.immediate_claim_percentage, 50_000_000);
    assert_eq!(d.later_claim_offset_seconds, 500);
}

#[test]
fn sweep_only_after_the_window() {
    let d = fresh();
    // inside the window, the end bound included
    let err = admin_claim_after_expiry(&d, ADMIN, 10000, 555).unwrap_err();
    assert_eq!(err, ErrorCode::InsideClaimWindow);
    // after the window the whole remaining pool is swept
    assert_eq!(admin_claim_after_expiry(&d, ADMIN, 10001, 555).unwrap(), 555);
}
