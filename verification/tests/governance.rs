use grainlify_core::errors::UpgradeError;
use grainlify_core::governance::GrainlifyContract;
use grainlify_core::governance::OP_UPGRADE;

fn multisig_three(threshold: u32) -> GrainlifyContract {
    let mut g = GrainlifyContract::new();
    g.init(vec![1, 2, 3], threshold).unwrap();
    g
}

#[test]
fn multisig_init_works() {
    let mut g = GrainlifyContract::new();
    let signers: Vec<u64> = vec![101, 102, 103];
    assert!(g.init(signers, 2).is_ok());
}

#[test]
fn test_set_version() {
    let mut g = GrainlifyContract::new();
    let admin: u64 = 42;
    g.init_admin(admin, 0, 0).unwrap();
    g.set_version(admin, 2, 0, 0).unwrap();
    assert_eq!(g.get_version(), 2);
}

#[test]
fn approval_is_idempotent() {
    let mut g = multisig_three(2);
    let id = g.propose_upgrade(1, vec![0xAA]).unwrap();
    g.approve_upgrade(id, 1).unwrap();
    g.approve_upgrade(id, 1).unwrap();
    g.approve_upgrade(id, 1).unwrap();
    assert_eq!(g.proposals[id as usize].approvals.len(), 1);
    // one signer alone can never reach a threshold of two
    assert_eq!(g.execute_upgrade(id), Err(UpgradeError::ThresholdNotMet));
}

#[test]
fn execute_requires_threshold_and_runs_once() {
    // init with signers {A,B,C} = {1,2,3}, threshold 2
    let mut g = multisig_three(2);
    let h1: Vec<u8> = vec![0x11, 0x22];
    let id = g.propose_upgrade(1, h1.clone()).unwrap();
    assert_eq!(id, 0);
    g.approve_upgrade(0, 1).unwrap();
    g.approve_upgrade(0, 2).unwrap();
    let artifact = g.execute_upgrade(0).unwrap();
    assert_eq!(artifact, h1);
    assert!(g.proposals[0].executed);
    assert_eq!(g.execute_upgrade(0), Err(UpgradeError::AlreadyExecuted));
}

#[test]
fn initializers_exclusive_multisig_first() {
    let mut g = multisig_three(2);
    assert_eq!(g.init_admin(7, 0, 0), Err(UpgradeError::AlreadyInitialized));
    assert_eq!(g.init(vec![4, 5], 1), Err(UpgradeError::AlreadyInitialized));
}

#[test]
fn initializers_exclusive_admin_first() {
    let mut g = GrainlifyContract::new();
    g.init_admin(7, 0, 0).unwrap();
    assert_eq!(g.init(vec![1, 2], 1), Err(UpgradeError::AlreadyInitialized));
    assert_eq!(g.init_admin(8, 0, 0), Err(UpgradeError::AlreadyInitialized));
}

#[test]
fn version_zero_before_init_one_after() {
    let g = GrainlifyContract::new();
    assert_eq!(g.get_version(), 0);

    let mut m = GrainlifyContract::new();
    m.init(vec![1, 2], 1).unwrap();
    assert_eq!(m.get_version(), 1);

    let mut a = GrainlifyContract::new();
    a.init_admin(9, 0, 0).unwrap();
    assert_eq!(a.get_version(), 1);
}

#[test]
fn non_admin_is_rejected_without_state_change() {
    let mut g = GrainlifyContract::new();
    g.init_admin(9, 0, 0).unwrap();
    let before = g.get_analytics();
    assert_eq!(g.set_version(8, 5, 0, 0), Err(UpgradeError::Unauthorized));
    assert_eq!(g.upgrade(8, vec![0xCC], 0, 0), Err(UpgradeError::Unauthorized));
    assert_eq!(g.get_version(), 1);
    assert_eq!(g.get_analytics(), before);
}

#[test]
fn unauthorized_admin_upgrade_leaks_no_counters() {
    // single-admin init with principal P; a caller who cannot authorize as P
    let p: u64 = 77;
    let mut g = GrainlifyContract::new();
    g.init_admin(p, 0, 0).unwrap();
    let h2: Vec<u8> = vec![0xBE, 0xEF];
    assert_eq!(g.upgrade(78, h2, 0, 0), Err(UpgradeError::Unauthorized));
    let a = g.get_analytics();
    // only the successful init entry exists; nothing leaked from the rejection
    assert_eq!(a.operation_count, 1);
    assert_eq!(a.error_count, 0);
}

#[test]
fn admin_upgrade_succeeds_and_records_telemetry() {
    let mut g = GrainlifyContract::new();
    g.init_admin(9, 0, 0).unwrap();
    let hash: Vec<u8> = vec![0x01];
    let installed = g.upgrade(9, hash.clone(), 100, 140).unwrap();
    assert_eq!(installed, hash);
    // code replacement does not auto-increment the version
    assert_eq!(g.get_version(), 1);
    let stats = g.get_performance_stats(OP_UPGRADE);
    assert_eq!(stats.call_count, 1);
    assert_eq!(stats.total_time, 40);
    assert_eq!(stats.last_called, 140);
}

#[test]
fn operations_before_init_are_rejected() {
    let mut g = GrainlifyContract::new();
    assert_eq!(g.propose_upgrade(1, vec![0x00]), Err(UpgradeError::NotFound));
    assert_eq!(g.approve_upgrade(0, 1), Err(UpgradeError::NotFound));
    assert_eq!(g.execute_upgrade(0), Err(UpgradeError::NotFound));
    assert_eq!(g.upgrade(1, vec![0x00], 0, 0), Err(UpgradeError::NotFound));
    assert_eq!(g.set_version(1, 2, 0, 0), Err(UpgradeError::NotFound));
}

#[test]
fn multisig_pipeline_rejections() {
    let mut g = multisig_three(2);
    // the admin path has no admin to find in multisig mode
    assert_eq!(g.upgrade(1, vec![0x00], 0, 0), Err(UpgradeError::NotFound));
    assert_eq!(g.set_version(1, 2, 0, 0), Err(UpgradeError::NotFound));
    // a missing proposal
    assert_eq!(g.approve_upgrade(5, 1), Err(UpgradeError::NotFound));
    assert_eq!(g.execute_upgrade(5), Err(UpgradeError::NotFound));
    // a non-signer approval
    let id = g.propose_upgrade(1, vec![0x42]).unwrap();
    assert_eq!(g.approve_upgrade(id, 99), Err(UpgradeError::Unauthorized));
    // and the proposal store in admin mode is absent
    let mut a = GrainlifyContract::new();
    a.init_admin(9, 0, 0).unwrap();
    assert_eq!(a.propose_upgrade(9, vec![0x00]), Err(UpgradeError::NotFound));
}

#[test]
fn proposal_ids_increase_from_zero() {
    let mut g = multisig_three(1);
    assert_eq!(g.propose_upgrade(1, vec![0x01]).unwrap(), 0);
    assert_eq!(g.propose_upgrade(2, vec![0x02]).unwrap(), 1);
    assert_eq!(g.propose_upgrade(3, vec![0x03]).unwrap(), 2);
    // executed proposals stay queryable and do not free their id
    g.approve_upgrade(1, 3).unwrap();
    assert_eq!(g.execute_upgrade(1).unwrap(), vec![0x02]);
    assert_eq!(g.propose_upgrade(1, vec![0x04]).unwrap(), 3);
    assert_eq!(g.proposals.len(), 4);
}

#[test]
fn full_threshold_needs_every_signer() {
    let mut g = multisig_three(3);
    let id = g.propose_upgrade(1, vec![0x55]).unwrap();
    g.approve_upgrade(id, 1).unwrap();
    g.approve_upgrade(id, 2).unwrap();
    assert_eq!(g.execute_upgrade(id), Err(UpgradeError::ThresholdNotMet));
    g.approve_upgrade(id, 3).unwrap();
    assert_eq!(g.execute_upgrade(id).unwrap(), vec![0x55]);
}

#[test]
fn approval_after_execution_is_rejected() {
    let mut g = multisig_three(1);
    let id = g.propose_upgrade(2, vec![0x07]).unwrap();
    g.approve_upgrade(id, 2).unwrap();
    g.execute_upgrade(id).unwrap();
    assert_eq!(g.approve_upgrade(id, 3), Err(UpgradeError::AlreadyExecuted));
}

#[test]
fn governor_health_and_snapshot() {
    let mut g = GrainlifyContract::new();
    g.init_admin(4, 0, 0).unwrap();
    let h = g.health_check(50);
    assert!(h.is_healthy);
    assert_eq!(h.last_operation, 50);
    assert_eq!(h.total_operations, 1);
    assert_eq!(h.contract_version, "1.0.0");
    let s = g.get_state_snapshot(60);
    assert_eq!(s.timestamp, 60);
    assert_eq!(s.total_operations, 1);
    assert_eq!(s.total_errors, 0);
    assert_eq!(s.total_users, 0);
}

#[test]
fn set_version_may_move_backward() {
    let mut g = GrainlifyContract::new();
    g.init_admin(3, 0, 0).unwrap();
    g.set_version(3, 9, 0, 0).unwrap();
    assert_eq!(g.get_version(), 9);
    g.set_version(3, 4, 0, 0).unwrap();
    assert_eq!(g.get_version(), 4);
}
