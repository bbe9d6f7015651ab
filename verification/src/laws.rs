use vstd::prelude::*;

use crate::state::{
    emergency_activation_guards, feature_paused, guard_outcome, outcome, with_lock, GuardError,
    GuardState,
};
use crate::table::{category_of, feature_bit, guards_of, Category, EntryPoint, Feature, GuardSet};

verus! {

/// Every guard of `g` holds in state `s` for a caller whose authorization is `authorized`.
pub open spec fn guards_hold(s: GuardState, g: GuardSet, authorized: bool) -> bool {
    &&& g.initialization ==> s.initialized
    &&& g.authorization ==> authorized
    &&& g.reentrancy ==> !s.locked
    &&& g.emergency ==> !s.emergency
    &&& g.global_pause ==> !s.paused
    &&& g.feature is Some ==> !feature_paused(s.paused_features, g.feature->0)
}

/// A call is admitted exactly when every one of its guards holds, and each
/// refusal names a guard that the call has and that does not hold.
pub proof fn lemma_admitted_iff_guards_hold(s: GuardState, g: GuardSet, authorized: bool)
    ensures
        outcome(s, g, authorized) is Ok <==> guards_hold(s, g, authorized),
        outcome(s, g, authorized) == Err::<(), GuardError>(GuardError::NotInitialized) ==> g.initialization
            && !s.initialized,
        outcome(s, g, authorized) == Err::<(), GuardError>(GuardError::Unauthorized) ==> g.authorization
            && !authorized,
        outcome(s, g, authorized) == Err::<(), GuardError>(GuardError::Reentrant) ==> g.reentrancy
            && s.locked,
        outcome(s, g, authorized) == Err::<(), GuardError>(GuardError::EmergencyMode) ==> g.emergency
            && s.emergency,
        outcome(s, g, authorized) == Err::<(), GuardError>(GuardError::Paused) ==> g.global_pause
            && s.paused,
        outcome(s, g, authorized) == Err::<(), GuardError>(GuardError::FeaturePaused) ==> g.feature is Some
            && feature_paused(s.paused_features, g.feature->0),
        outcome(s, g, authorized) != Err::<(), GuardError>(GuardError::AlreadyInitialized),
{
}

/// Under normal conditions (initialized, no emergency, no global or feature
/// pause, no call in progress, the caller authorized) every entry point is admitted.
pub proof fn lemma_normal_conditions_admit_every_entry_point(s: GuardState, op: EntryPoint)
    requires
        s.initialized,
        !s.emergency,
        !s.paused,
        s.paused_features == 0,
        !s.locked,
    ensures
        guard_outcome(s, op, true) is Ok,
{
    let b = feature_bit(guards_of(op).feature->0);
    assert(0u32 & b == 0) by (bit_vector);
}

/// Emergency mode refuses every deposit and every administrative configuration call.
pub proof fn lemma_emergency_blocks_deposits_and_admin_config(
    s: GuardState,
    op: EntryPoint,
    authorized: bool,
)
    requires
        s.emergency,
        category_of(op) == Category::Deposit || category_of(op) == Category::AdminConfig,
    ensures
        guard_outcome(s, op, authorized) is Err,
{
}

/// Emergency mode has no bearing on withdrawals, refunds, disputes, privacy,
/// hooks, stealth operations or maintenance: for those the answer is the same
/// with emergency mode on as with it off.
pub proof fn lemma_emergency_keeps_other_entry_points_open(
    s: GuardState,
    op: EntryPoint,
    authorized: bool,
)
    requires
        category_of(op) != Category::Deposit,
        category_of(op) != Category::AdminConfig,
    ensures
        guard_outcome((GuardState { emergency: true, ..s }), op, authorized) == guard_outcome(
            (GuardState { emergency: false, ..s }),
            op,
            authorized,
        ),
{
}

/// The global pause refuses deposits, withdrawals, refunds, disputes and stealth operations.
pub proof fn lemma_global_pause_blocks_operations(s: GuardState, op: EntryPoint, authorized: bool)
    requires
        s.paused,
        category_of(op) == Category::Deposit || category_of(op) == Category::Withdrawal
            || category_of(op) == Category::Refund || category_of(op) == Category::Dispute
            || category_of(op) == Category::Stealth,
    ensures
        guard_outcome(s, op, authorized) is Err,
{
}

/// Neither the global pause nor any feature pause has a bearing on the
/// administrative entry points, so a pause can always be lifted.
pub proof fn lemma_pauses_never_block_administration(
    s: GuardState,
    op: EntryPoint,
    authorized: bool,
)
    requires
        category_of(op) == Category::AdminConfig,
    ensures
        guard_outcome(s, op, authorized) == guard_outcome(
            (GuardState { paused: false, paused_features: 0, ..s }),
            op,
            authorized,
        ),
{
}

/// An uninitialized contract refuses privacy, hook and maintenance calls with `NotInitialized`.
pub proof fn lemma_uninitialized_blocks_operations(s: GuardState, op: EntryPoint, authorized: bool)
    requires
        !s.initialized,
        category_of(op) == Category::Privacy || category_of(op) == Category::Hook
            || category_of(op) == Category::Maintenance,
    ensures
        guard_outcome(s, op, authorized) == Err::<(), GuardError>(GuardError::NotInitialized),
{
}

/// While a guarded call is in progress, every entry point that is protected
/// against reentrancy is refused.
pub proof fn lemma_reentrant_calls_refused(s: GuardState, op: EntryPoint, authorized: bool)
    requires
        s.locked,
        guards_of(op).reentrancy,
    ensures
        guard_outcome(s, op, authorized) is Err,
{
}

/// Entering an admitted call and then leaving it gives back the state in which it was entered.
pub proof fn lemma_enter_then_exit_restores_state(s: GuardState, op: EntryPoint, authorized: bool)
    requires
        guard_outcome(s, op, authorized) is Ok,
    ensures
        with_lock(
            with_lock(s, s.locked || guards_of(op).reentrancy),
            if guards_of(op).reentrancy {
                false
            } else {
                (s.locked || guards_of(op).reentrancy)
            },
        ) == s,
{
}

/// Pausing the features of `features` pauses exactly those, on top of the ones already paused.
pub proof fn lemma_pause_features_effect(mask: u32, features: u32, f: Feature)
    ensures
        feature_paused(mask | features, f) <==> (feature_paused(mask, f) || features
            & feature_bit(f) != 0),
{
    let b = feature_bit(f);
    assert(((mask | features) & b != 0) <==> (mask & b != 0 || features & b != 0)) by (bit_vector);
}

/// Lifting the pause of the features of `features` lifts exactly those and keeps the others.
pub proof fn lemma_unpause_features_effect(mask: u32, features: u32, f: Feature)
    ensures
        feature_paused(mask & !features, f) <==> (feature_paused(mask, f) && features
            & feature_bit(f) == 0),
{
    match f {
        Feature::Deposits => {
            assert(((mask & !features) & 1 != 0) <==> (mask & 1 != 0 && features & 1 == 0))
                by (bit_vector);
        },
        Feature::Withdrawals => {
            assert(((mask & !features) & 2 != 0) <==> (mask & 2 != 0 && features & 2 == 0))
                by (bit_vector);
        },
        Feature::Refunds => {
            assert(((mask & !features) & 4 != 0) <==> (mask & 4 != 0 && features & 4 == 0))
                by (bit_vector);
        },
        Feature::Privacy => {
            assert(((mask & !features) & 8 != 0) <==> (mask & 8 != 0 && features & 8 == 0))
                by (bit_vector);
        },
        Feature::Stealth => {
            assert(((mask & !features) & 16 != 0) <==> (mask & 16 != 0 && features & 16 == 0))
                by (bit_vector);
        },
    }
}

/// Once the feature of an entry point has been paused, the entry point is refused.
pub proof fn lemma_paused_feature_refuses(
    s: GuardState,
    features: u32,
    op: EntryPoint,
    authorized: bool,
)
    requires
        guards_of(op).feature is Some,
        features & feature_bit(guards_of(op).feature->0) != 0,
    ensures
        guard_outcome(
            (GuardState { paused_features: s.paused_features | features, ..s }),
            op,
            authorized,
        ) is Err,
{
    lemma_pause_features_effect(s.paused_features, features, guards_of(op).feature->0);
}

/// Lifting the pause of features that were just paused, none of which had
/// been paused before, gives back the earlier mask.
pub proof fn lemma_unpause_undoes_pause(mask: u32, features: u32)
    requires
        mask & features == 0,
    ensures
        (mask | features) & !features == mask,
{
    assert(mask & features == 0 ==> (mask | features) & !features == mask) by (bit_vector);
}

/// Each deposit entry point (deposit, deposit with commitment, partial
/// deposit, partial payment) is a deposit operation: it is refused while the
/// contract is globally paused, while the Deposits feature is paused and while
/// emergency mode is active, whoever calls it.
pub proof fn lemma_deposit_entry_points_held_by_pauses_and_emergency(
    s: GuardState,
    op: EntryPoint,
    authorized: bool,
)
    requires
        op == EntryPoint::Deposit || op == EntryPoint::DepositWithCommitment || op
            == EntryPoint::DepositPartial || op == EntryPoint::PartialPayment,
    ensures
        category_of(op) == Category::Deposit,
        s.paused ==> guard_outcome(s, op, authorized) is Err,
        feature_paused(s.paused_features, Feature::Deposits) ==> guard_outcome(
            s,
            op,
            authorized,
        ) is Err,
        s.emergency ==> guard_outcome(s, op, authorized) is Err,
        s.paused && authorized && !s.locked && !s.emergency ==> guard_outcome(s, op, authorized)
            == Err::<(), GuardError>(GuardError::Paused),
{
}

/// Every entry point but `SetPrivacy` is protected against reentrancy: while
/// a guarded call holds the lock, an authorized call of any of them on an
/// initialized contract is refused with `Reentrant`.
pub proof fn lemma_every_entry_point_but_privacy_refused_while_locked(
    s: GuardState,
    op: EntryPoint,
)
    requires
        op != EntryPoint::SetPrivacy,
        s.locked,
        s.initialized,
    ensures
        guards_of(op).reentrancy,
        guard_outcome(s, op, true) == Err::<(), GuardError>(GuardError::Reentrant),
{
}

/// A call that has entered and holds the lock (a withdrawal, say) shuts out
/// every other entry point but `SetPrivacy` until it leaves: entering a
/// refund, a deposit or any such call in the middle of it is refused.
pub proof fn lemma_entered_call_shuts_out_others(
    s: GuardState,
    first: EntryPoint,
    second: EntryPoint,
    authorized: bool,
)
    requires
        guard_outcome(s, first, authorized) is Ok,
        first != EntryPoint::SetPrivacy,
        second != EntryPoint::SetPrivacy,
        s.initialized,
    ensures
        guard_outcome(with_lock(s, s.locked || guards_of(first).reentrancy), second, true)
            == Err::<(), GuardError>(GuardError::Reentrant),
{
}

/// The administrative entry points (global pause, feature pauses, the
/// administrator role, fee settings, platform wallet, fee collector) are
/// admitted for an authorized caller whenever emergency mode is off and no call
/// is in progress, whatever the global pause and the feature pauses are; and
/// they are refused with `Unauthorized` when the caller has not authorized.
pub proof fn lemma_administration_open_through_pauses(s: GuardState, op: EntryPoint)
    requires
        op == EntryPoint::SetPaused || op == EntryPoint::PauseFeatures || op
            == EntryPoint::UnpauseFeatures || op == EntryPoint::SetAdmin || op
            == EntryPoint::SetFeeConfig || op == EntryPoint::SetPerAssetFee || op
            == EntryPoint::SetOracleFeeConfig || op == EntryPoint::SetPlatformWallet || op
            == EntryPoint::RotateFeeCollector,
    ensures
        category_of(op) == Category::AdminConfig,
        !s.emergency && !s.locked ==> guard_outcome(s, op, true) is Ok,
        guard_outcome(s, op, false) == Err::<(), GuardError>(GuardError::Unauthorized),
        s.emergency ==> guard_outcome(s, op, true) == Err::<(), GuardError>(
            GuardError::EmergencyMode,
        ) || guard_outcome(s, op, true) == Err::<(), GuardError>(GuardError::Reentrant),
{
}

/// Emergency mode can be activated on any initialized contract with no call in
/// progress by an authorized caller, whatever the global pause and the feature
/// pauses are; it is refused with `Unauthorized` when the caller has not
/// authorized, and with `NotInitialized` before initialization.
pub proof fn lemma_emergency_activation_open_through_pauses(s: GuardState)
    ensures
        s.initialized && !s.locked ==> outcome(s, emergency_activation_guards(), true) is Ok,
        s.initialized ==> outcome(s, emergency_activation_guards(), false) == Err::<
            (),
            GuardError,
        >(GuardError::Unauthorized),
        !s.initialized ==> outcome(s, emergency_activation_guards(), true) == Err::<
            (),
            GuardError,
        >(GuardError::NotInitialized),
{
}

} // verus!
