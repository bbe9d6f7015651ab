use vstd::prelude::*;

verus! {

/// The mutating entry points of the contract.
#[derive(Clone, Copy, Debug, PartialEq, Eq, Structural)]
pub enum EntryPoint {
    Deposit,
    DepositWithCommitment,
    DepositPartial,
    PartialPayment,
    Withdraw,
    Refund,
    Dispute,
    ResolveDispute,
    VoteForDispute,
    ResolveDisputeMultiSig,
    SetPrivacy,
    RegisterHook,
    UnregisterHook,
    SetPaused,
    PauseFeatures,
    UnpauseFeatures,
    SetAdmin,
    SetFeeConfig,
    SetPerAssetFee,
    SetOracleFeeConfig,
    SetPlatformWallet,
    RotateFeeCollector,
    RegisterEphemeralKey,
    StealthWithdraw,
    CleanupEscrow,
    ExtendEscrowTtl,
}

/// Groups of entry points that share one set of guards.
#[derive(Clone, Copy, Debug, PartialEq, Eq, Structural)]
pub enum Category {
    Deposit,
    Withdrawal,
    Refund,
    Dispute,
    Privacy,
    Hook,
    AdminConfig,
    Stealth,
    Maintenance,
}

pub open spec fn category_of(op: EntryPoint) -> Category {
    match op {
        EntryPoint::Deposit | EntryPoint::DepositWithCommitment | EntryPoint::DepositPartial
        | EntryPoint::PartialPayment => Category::Deposit,
        EntryPoint::Withdraw => Category::Withdrawal,
        EntryPoint::Refund => Category::Refund,
        EntryPoint::Dispute | EntryPoint::ResolveDispute | EntryPoint::VoteForDispute
        | EntryPoint::ResolveDisputeMultiSig => Category::Dispute,
        EntryPoint::SetPrivacy => Category::Privacy,
        EntryPoint::RegisterHook | EntryPoint::UnregisterHook => Category::Hook,
        EntryPoint::SetPaused | EntryPoint::PauseFeatures | EntryPoint::UnpauseFeatures
        | EntryPoint::SetAdmin | EntryPoint::SetFeeConfig | EntryPoint::SetPerAssetFee
        | EntryPoint::SetOracleFeeConfig | EntryPoint::SetPlatformWallet
        | EntryPoint::RotateFeeCollector => Category::AdminConfig,
        EntryPoint::RegisterEphemeralKey | EntryPoint::StealthWithdraw => Category::Stealth,
        EntryPoint::CleanupEscrow | EntryPoint::ExtendEscrowTtl => Category::Maintenance,
    }
}

/// The group an entry point belongs to.
pub fn category(op: EntryPoint) -> (c: Category)
    ensures
        c == category_of(op),
{
    match op {
        EntryPoint::Deposit | EntryPoint::DepositWithCommitment | EntryPoint::DepositPartial
        | EntryPoint::PartialPayment => Category::Deposit,
        EntryPoint::Withdraw => Category::Withdrawal,
        EntryPoint::Refund => Category::Refund,
        EntryPoint::Dispute | EntryPoint::ResolveDispute | EntryPoint::VoteForDispute
        | EntryPoint::ResolveDisputeMultiSig => Category::Dispute,
        EntryPoint::SetPrivacy => Category::Privacy,
        EntryPoint::RegisterHook | EntryPoint::UnregisterHook => Category::Hook,
        EntryPoint::SetPaused | EntryPoint::PauseFeatures | EntryPoint::UnpauseFeatures
        | EntryPoint::SetAdmin | EntryPoint::SetFeeConfig | EntryPoint::SetPerAssetFee
        | EntryPoint::SetOracleFeeConfig | EntryPoint::SetPlatformWallet
        | EntryPoint::RotateFeeCollector => Category::AdminConfig,
        EntryPoint::RegisterEphemeralKey | EntryPoint::StealthWithdraw => Category::Stealth,
        EntryPoint::CleanupEscrow | EntryPoint::ExtendEscrowTtl => Category::Maintenance,
    }
}

/// Features that the administrator can pause one at a time.
#[derive(Clone, Copy, Debug, PartialEq, Eq, Structural)]
pub enum Feature {
    Deposits,
    Withdrawals,
    Refunds,
    Privacy,
    Stealth,
}

/// The bit that stands for a feature in a mask of paused features.
pub open spec fn feature_bit(f: Feature) -> u32 {
    match f {
        Feature::Deposits => 1,
        Feature::Withdrawals => 2,
        Feature::Refunds => 4,
        Feature::Privacy => 8,
        Feature::Stealth => 16,
    }
}

impl Feature {
    /// The bit of this feature in a mask of paused features.
    pub fn bit(self) -> (b: u32)
        ensures
            b == feature_bit(self),
    {
        match self {
            Feature::Deposits => 1,
            Feature::Withdrawals => 2,
            Feature::Refunds => 4,
            Feature::Privacy => 8,
            Feature::Stealth => 16,
        }
    }
}

/// The guards that protect one entry point.
#[derive(Clone, Copy, Debug, PartialEq, Eq, Structural)]
pub struct GuardSet {
    /// The contract must have been initialized.
    pub initialization: bool,
    /// The caller must have authorized the call.
    pub authorization: bool,
    /// No other guarded call may be in progress.
    pub reentrancy: bool,
    /// The call is refused while emergency mode is active.
    pub emergency: bool,
    /// The call is refused while the contract is globally paused.
    pub global_pause: bool,
    /// The call is refused while this feature is paused.
    pub feature: Option<Feature>,
}

/// The entry points that take the address of a caller, who must authorize the call.
pub open spec fn takes_caller(op: EntryPoint) -> bool {
    match op {
        EntryPoint::Dispute | EntryPoint::ResolveDisputeMultiSig | EntryPoint::RegisterHook
        | EntryPoint::UnregisterHook | EntryPoint::CleanupEscrow
        | EntryPoint::ExtendEscrowTtl => false,
        _ => true,
    }
}

/// The guard table: which guards protect which entry point.
pub open spec fn guards_of(op: EntryPoint) -> GuardSet {
    let auth = takes_caller(op);
    match category_of(op) {
        Category::Deposit => GuardSet {
            initialization: false,
            authorization: auth,
            reentrancy: true,
            emergency: true,
            global_pause: true,
            feature: Some(Feature::Deposits),
        },
        Category::Withdrawal => GuardSet {
            initialization: false,
            authorization: auth,
            reentrancy: true,
            emergency: false,
            global_pause: true,
            feature: Some(Feature::Withdrawals),
        },
        Category::Refund => GuardSet {
            initialization: false,
            authorization: auth,
            reentrancy: true,
            emergency: false,
            global_pause: true,
            feature: Some(Feature::Refunds),
        },
        Category::Dispute => GuardSet {
            initialization: false,
            authorization: auth,
            reentrancy: true,
            emergency: false,
            global_pause: true,
            feature: None,
        },
        Category::Privacy => GuardSet {
            initialization: true,
            authorization: auth,
            reentrancy: false,
            emergency: false,
            global_pause: false,
            feature: Some(Feature::Privacy),
        },
        Category::Hook | Category::Maintenance => GuardSet {
            initialization: true,
            authorization: auth,
            reentrancy: true,
            emergency: false,
            global_pause: false,
            feature: None,
        },
        Category::AdminConfig => GuardSet {
            initialization: false,
            authorization: auth,
            reentrancy: true,
            emergency: true,
            global_pause: false,
            feature: None,
        },
        Category::Stealth => GuardSet {
            initialization: false,
            authorization: auth,
            reentrancy: true,
            emergency: false,
            global_pause: true,
            feature: Some(Feature::Stealth),
        },
    }
}

/// Whether the caller of `op` must authorize the call.
pub fn requires_caller_auth(op: EntryPoint) -> (b: bool)
    ensures
        b == takes_caller(op),
{
    match op {
        EntryPoint::Dispute | EntryPoint::ResolveDisputeMultiSig | EntryPoint::RegisterHook
        | EntryPoint::UnregisterHook | EntryPoint::CleanupEscrow
        | EntryPoint::ExtendEscrowTtl => false,
        _ => true,
    }
}

/// The guards that protect `op`, as the guard table gives them.
pub fn guards(op: EntryPoint) -> (g: GuardSet)
    ensures
        g == guards_of(op),
{
    let auth = requires_caller_auth(op);
    match category(op) {
        Category::Deposit => GuardSet {
            initialization: false,
            authorization: auth,
            reentrancy: true,
            emergency: true,
            global_pause: true,
            feature: Some(Feature::Deposits),
        },
        Category::Withdrawal => GuardSet {
            initialization: false,
            authorization: auth,
            reentrancy: true,
            emergency: false,
            global_pause: true,
            feature: Some(Feature::Withdrawals),
        },
        Category::Refund => GuardSet {
            initialization: false,
            authorization: auth,
            reentrancy: true,
            emergency: false,
            global_pause: true,
            feature: Some(Feature::Refunds),
        },
        Category::Dispute => GuardSet {
            initialization: false,
            authorization: auth,
            reentrancy: true,
            emergency: false,
            global_pause: true,
            feature: None,
        },
        Category::Privacy => GuardSet {
            initialization: true,
            authorization: auth,
            reentrancy: false,
            emergency: false,
            global_pause: false,
            feature: Some(Feature::Privacy),
        },
        Category::Hook | Category::Maintenance => GuardSet {
            initialization: true,
            authorization: auth,
            reentrancy: true,
            emergency: false,
            global_pause: false,
            feature: None,
        },
        Category::AdminConfig => GuardSet {
            initialization: false,
            authorization: auth,
            reentrancy: true,
            emergency: true,
            global_pause: false,
            feature: None,
        },
        Category::Stealth => GuardSet {
            initialization: false,
            authorization: auth,
            reentrancy: true,
            emergency: false,
            global_pause: true,
            feature: Some(Feature::Stealth),
        },
    }
}

} // verus!
