use academy_guards::state::{GuardError, GuardState};
use academy_guards::table::{category, guards, Category, EntryPoint, Feature};

/// Every mutating entry point, in the order of the guard table.
const ALL_ENTRY_POINTS: [EntryPoint; 26] = [
    EntryPoint::Deposit,
    EntryPoint::DepositWithCommitment,
    EntryPoint::DepositPartial,
    EntryPoint::PartialPayment,
    EntryPoint::Withdraw,
    EntryPoint::Refund,
    EntryPoint::Dispute,
    EntryPoint::ResolveDispute,
    EntryPoint::VoteForDispute,
    EntryPoint::ResolveDisputeMultiSig,
    EntryPoint::SetPrivacy,
    EntryPoint::RegisterHook,
    EntryPoint::UnregisterHook,
    EntryPoint::SetPaused,
    EntryPoint::PauseFeatures,
    EntryPoint::UnpauseFeatures,
    EntryPoint::SetAdmin,
    EntryPoint::SetFeeConfig,
    EntryPoint::SetPerAssetFee,
    EntryPoint::SetOracleFeeConfig,
    EntryPoint::SetPlatformWallet,
    EntryPoint::RotateFeeCollector,
    EntryPoint::RegisterEphemeralKey,
    EntryPoint::StealthWithdraw,
    EntryPoint::CleanupEscrow,
    EntryPoint::ExtendEscrowTtl,
];

const ADMIN: u64 = 7;
const NEW_ADMIN: u64 = 9;

fn setup_initialized_contract() -> GuardState {
    let mut s = GuardState::new();
    s.initialize(ADMIN).unwrap();
    s
}

#[test]
fn test_all_guards_with_normal_conditions() {
    for op in ALL_ENTRY_POINTS {
        let s = setup_initialized_contract();
        let result = s.check(op, true);
        assert!(result.is_ok(), "Test case '{:?}' should succeed but got error: {:?}", op, result);
    }
}

#[test]
fn test_emergency_mode_blocks_deposits() {
    let mut s = setup_initialized_contract();
    s.activate_emergency_mode(true).unwrap();
    assert!(s.check(EntryPoint::Deposit, true).is_err());
    assert!(s.check(EntryPoint::DepositWithCommitment, true).is_err());
    assert!(s.check(EntryPoint::DepositPartial, true).is_err());
    assert!(s.check(EntryPoint::PartialPayment, true).is_err());
}

#[test]
fn test_emergency_mode_blocks_admin_config() {
    let mut s = setup_initialized_contract();
    s.activate_emergency_mode(true).unwrap();
    assert!(s.set_paused(true, true).is_err());
    assert!(s.pause_features(true, 1).is_err());
    assert!(s.set_admin(true, NEW_ADMIN).is_err());
}

#[test]
fn test_emergency_mode_allows_withdrawals() {
    let mut s = setup_initialized_contract();
    s.activate_emergency_mode(true).unwrap();
    // Withdrawals stay open so that users can reach their funds.
    assert_eq!(s.check(EntryPoint::Withdraw, true), Ok(()));
}

#[test]
fn test_global_pause_blocks_operations() {
    let mut s = setup_initialized_contract();
    s.set_paused(true, true).unwrap();
    assert!(s.check(EntryPoint::Deposit, true).is_err());
    assert!(s.check(EntryPoint::Withdraw, true).is_err());
    assert!(s.check(EntryPoint::Dispute, true).is_err());
}

#[test]
fn test_uninitialized_contract_blocks_operations() {
    let s = GuardState::new();
    assert!(s.check(EntryPoint::SetPrivacy, true).is_err());
    assert!(s.check(EntryPoint::CleanupEscrow, true).is_err());
    assert!(s.check(EntryPoint::ExtendEscrowTtl, true).is_err());
    assert!(s.check(EntryPoint::RegisterHook, true).is_err());
}

#[test]
fn emergency_refusal_names_emergency_mode() {
    let mut s = setup_initialized_contract();
    s.activate_emergency_mode(true).unwrap();
    assert_eq!(s.check(EntryPoint::Deposit, true), Err(GuardError::EmergencyMode));
    assert_eq!(s.check(EntryPoint::RotateFeeCollector, true), Err(GuardError::EmergencyMode));
    assert_eq!(s.check(EntryPoint::Refund, true), Ok(()));
    assert_eq!(s.check(EntryPoint::StealthWithdraw, true), Ok(()));
}

#[test]
fn refused_admin_call_changes_nothing() {
    let mut s = setup_initialized_contract();
    s.activate_emergency_mode(true).unwrap();
    let before = s;
    assert_eq!(s.set_paused(true, true), Err(GuardError::EmergencyMode));
    assert_eq!(s.unpause_features(true, 31), Err(GuardError::EmergencyMode));
    assert_eq!(s, before);
}

#[test]
fn global_pause_refusals_and_lifting() {
    let mut s = setup_initialized_contract();
    s.set_paused(true, true).unwrap();
    assert!(s.paused);
    assert_eq!(s.check(EntryPoint::Refund, true), Err(GuardError::Paused));
    assert_eq!(s.check(EntryPoint::RegisterEphemeralKey, true), Err(GuardError::Paused));
    // Neither hooks, privacy nor administration are held by the global pause.
    assert_eq!(s.check(EntryPoint::RegisterHook, true), Ok(()));
    assert_eq!(s.check(EntryPoint::SetPrivacy, true), Ok(()));
    assert_eq!(s.set_paused(true, false), Ok(()));
    assert!(!s.paused);
    assert_eq!(s.check(EntryPoint::Deposit, true), Ok(()));
}

#[test]
fn uninitialized_refusal_names_initialization() {
    let s = GuardState::new();
    assert_eq!(s.check(EntryPoint::UnregisterHook, true), Err(GuardError::NotInitialized));
    assert_eq!(s.check(EntryPoint::SetPrivacy, false), Err(GuardError::NotInitialized));
    // Deposits carry no initialization guard.
    assert_eq!(s.check(EntryPoint::Deposit, true), Ok(()));
}

#[test]
fn initialize_only_once() {
    let mut s = GuardState::new();
    assert_eq!(s.initialize(ADMIN), Ok(()));
    assert!(s.initialized);
    assert_eq!(s.admin, Some(ADMIN));
    assert_eq!(s.initialize(NEW_ADMIN), Err(GuardError::AlreadyInitialized));
    assert_eq!(s.admin, Some(ADMIN));
}

#[test]
fn unauthorized_caller_refused() {
    let s = setup_initialized_contract();
    assert_eq!(s.check(EntryPoint::Withdraw, false), Err(GuardError::Unauthorized));
    assert_eq!(s.check(EntryPoint::SetAdmin, false), Err(GuardError::Unauthorized));
    // Entry points that take no caller need no authorization.
    assert_eq!(s.check(EntryPoint::Dispute, false), Ok(()));
    assert_eq!(s.check(EntryPoint::CleanupEscrow, false), Ok(()));
    let mut t = s;
    assert_eq!(t.activate_emergency_mode(false), Err(GuardError::Unauthorized));
    assert!(!t.emergency);
}

#[test]
fn emergency_activation_needs_initialization() {
    let mut s = GuardState::new();
    assert_eq!(s.activate_emergency_mode(true), Err(GuardError::NotInitialized));
    assert!(!s.emergency);
}

#[test]
fn reentrant_call_refused_and_exit_restores() {
    let mut s = setup_initialized_contract();
    let before = s;
    assert_eq!(s.enter(EntryPoint::Withdraw, true), Ok(()));
    assert!(s.locked);
    assert_eq!(s.check(EntryPoint::Deposit, true), Err(GuardError::Reentrant));
    assert_eq!(s.enter(EntryPoint::Withdraw, true), Err(GuardError::Reentrant));
    // Privacy carries no reentrancy guard.
    assert_eq!(s.check(EntryPoint::SetPrivacy, true), Ok(()));
    s.exit(EntryPoint::Withdraw);
    assert_eq!(s, before);
}

#[test]
fn enter_without_reentrancy_guard_leaves_lock() {
    let mut s = setup_initialized_contract();
    assert_eq!(s.enter(EntryPoint::SetPrivacy, true), Ok(()));
    assert!(!s.locked);
    s.exit(EntryPoint::SetPrivacy);
    assert!(!s.locked);
}

#[test]
fn feature_pause_and_unpause() {
    let mut s = setup_initialized_contract();
    assert_eq!(s.pause_features(true, 1), Ok(()));
    assert_eq!(s.paused_features, 1);
    assert!(s.is_feature_paused(Feature::Deposits));
    assert!(!s.is_feature_paused(Feature::Withdrawals));
    assert_eq!(s.check(EntryPoint::DepositPartial, true), Err(GuardError::FeaturePaused));
    assert_eq!(s.check(EntryPoint::Withdraw, true), Ok(()));
    assert_eq!(s.pause_features(true, 2 | 16), Ok(()));
    assert_eq!(s.paused_features, 19);
    assert_eq!(s.check(EntryPoint::Withdraw, true), Err(GuardError::FeaturePaused));
    assert_eq!(s.check(EntryPoint::StealthWithdraw, true), Err(GuardError::FeaturePaused));
    assert_eq!(s.unpause_features(true, 1), Ok(()));
    assert_eq!(s.paused_features, 18);
    assert_eq!(s.check(EntryPoint::Deposit, true), Ok(()));
    assert_eq!(s.check(EntryPoint::Withdraw, true), Err(GuardError::FeaturePaused));
}

#[test]
fn unpause_undoes_pause() {
    let mut s = setup_initialized_contract();
    s.pause_features(true, 4).unwrap();
    let before = s;
    s.pause_features(true, 8 | 1).unwrap();
    s.unpause_features(true, 8 | 1).unwrap();
    assert_eq!(s, before);
    assert_eq!(s.check(EntryPoint::Refund, true), Err(GuardError::FeaturePaused));
    assert_eq!(s.check(EntryPoint::SetPrivacy, true), Ok(()));
}

#[test]
fn set_admin_replaces_admin() {
    let mut s = setup_initialized_contract();
    assert_eq!(s.set_admin(true, NEW_ADMIN), Ok(()));
    assert_eq!(s.admin, Some(NEW_ADMIN));
    assert!(s.initialized);
}

#[test]
fn feature_bits() {
    assert_eq!(Feature::Deposits.bit(), 1);
    assert_eq!(Feature::Withdrawals.bit(), 2);
    assert_eq!(Feature::Refunds.bit(), 4);
    assert_eq!(Feature::Privacy.bit(), 8);
    assert_eq!(Feature::Stealth.bit(), 16);
}

#[test]
fn table_rows() {
    assert_eq!(category(EntryPoint::ResolveDisputeMultiSig), Category::Dispute);
    assert_eq!(category(EntryPoint::ExtendEscrowTtl), Category::Maintenance);
    let g = guards(EntryPoint::Withdraw);
    assert!(!g.emergency && g.global_pause && g.reentrancy && g.authorization);
    assert_eq!(g.feature, Some(Feature::Withdrawals));
    let g = guards(EntryPoint::SetPrivacy);
    assert!(g.initialization && !g.reentrancy && !g.global_pause);
    assert_eq!(g.feature, Some(Feature::Privacy));
    let g = guards(EntryPoint::SetPaused);
    assert!(g.emergency && !g.global_pause && g.feature.is_none());
    let g = guards(EntryPoint::RegisterHook);
    assert!(g.initialization && g.reentrancy && !g.authorization);
}

#[test]
fn guard_order_initialization_first() {
    let mut s = GuardState::new();
    s.locked = true;
    s.paused = true;
    assert_eq!(s.check(EntryPoint::CleanupEscrow, true), Err(GuardError::NotInitialized));
    s.initialized = true;
    assert_eq!(s.check(EntryPoint::CleanupEscrow, true), Err(GuardError::Reentrant));
    s.locked = false;
    s.emergency = true;
    assert_eq!(s.check(EntryPoint::Deposit, false), Err(GuardError::Unauthorized));
    assert_eq!(s.check(EntryPoint::Deposit, true), Err(GuardError::EmergencyMode));
    s.emergency = false;
    assert_eq!(s.check(EntryPoint::Deposit, true), Err(GuardError::Paused));
}
