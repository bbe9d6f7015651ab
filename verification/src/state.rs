use vstd::prelude::*;

use crate::table::{guards, guards_of, EntryPoint, Feature, GuardSet, feature_bit};

verus! {

/// Why a guard refused a call.
#[derive(Clone, Copy, Debug, PartialEq, Eq, Structural)]
pub enum GuardError {
    /// The contract has not been initialized.
    NotInitialized,
    /// The contract has already been initialized.
    AlreadyInitialized,
    /// The caller did not authorize the call.
    Unauthorized,
    /// Another guarded call is still in progress.
    Reentrant,
    /// Emergency mode is active.
    EmergencyMode,
    /// The contract is globally paused.
    Paused,
    /// The feature that the call belongs to is paused.
    FeaturePaused,
}

/// The part of the contract's state that the guards read and the
/// administrative entry points write.
#[derive(Clone, Copy, Debug, PartialEq, Eq, Structural)]
pub struct GuardState {
    /// Whether `initialize` has succeeded.
    pub initialized: bool,
    /// The administrator's address, once one has been set.
    pub admin: Option<u64>,
    /// Whether emergency mode is active.
    pub emergency: bool,
    /// Whether the contract is globally paused.
    pub paused: bool,
    /// The mask of paused features, one bit per feature.
    pub paused_features: u32,
    /// Whether a guarded call is in progress.
    pub locked: bool,
}

/// Whether feature `f` is paused in the mask `mask`.
pub open spec fn feature_paused(mask: u32, f: Feature) -> bool {
    mask & feature_bit(f) != 0
}

/// What the guards of `g` answer in state `s`, the guards being tried in a fixed
/// order: initialization, authorization, reentrancy, emergency mode, global
/// pause, feature pause.
pub open spec fn outcome(s: GuardState, g: GuardSet, authorized: bool) -> Result<(), GuardError> {
    if g.initialization && !s.initialized {
        Err(GuardError::NotInitialized)
    } else if g.authorization && !authorized {
        Err(GuardError::Unauthorized)
    } else if g.reentrancy && s.locked {
        Err(GuardError::Reentrant)
    } else if g.emergency && s.emergency {
        Err(GuardError::EmergencyMode)
    } else if g.global_pause && s.paused {
        Err(GuardError::Paused)
    } else if g.feature is Some && feature_paused(s.paused_features, g.feature->0) {
        Err(GuardError::FeaturePaused)
    } else {
        Ok(())
    }
}

/// What the guards of entry point `op` answer in state `s`.
pub open spec fn guard_outcome(s: GuardState, op: EntryPoint, authorized: bool) -> Result<
    (),
    GuardError,
> {
    outcome(s, guards_of(op), authorized)
}

/// The guards of `activate_emergency_mode`.
pub open spec fn emergency_activation_guards() -> GuardSet {
    GuardSet {
        initialization: true,
        authorization: true,
        reentrancy: true,
        emergency: false,
        global_pause: false,
        feature: None,
    }
}

/// The state `s` with the reentrancy lock set to `locked`.
pub open spec fn with_lock(s: GuardState, locked: bool) -> GuardState {
    GuardState { locked, ..s }
}

impl GuardState {
    /// The state of a contract that has not been initialized: nothing paused,
    /// no emergency, no call in progress.
    pub fn new() -> (s: Self)
        ensures
            !s.initialized,
            s.admin is None,
            !s.emergency,
            !s.paused,
            s.paused_features == 0,
            !s.locked,
    {
        GuardState {
            initialized: false,
            admin: None,
            emergency: false,
            paused: false,
            paused_features: 0,
            locked: false,
        }
    }

    /// Whether feature `f` is paused.
    pub fn is_feature_paused(&self, f: Feature) -> (b: bool)
        ensures
            b == feature_paused(self.paused_features, f),
    {
        self.paused_features & f.bit() != 0
    }

    /// Runs the guards of `g` in order and reports the first that refuses.
    pub fn check_guards(&self, g: GuardSet, authorized: bool) -> (r: Result<(), GuardError>)
        ensures
            r == outcome(*self, g, authorized),
    {
        if g.initialization && !self.initialized {
            Err(GuardError::NotInitialized)
        } else if g.authorization && !authorized {
            Err(GuardError::Unauthorized)
        } else if g.reentrancy && self.locked {
            Err(GuardError::Reentrant)
        } else if g.emergency && self.emergency {
            Err(GuardError::EmergencyMode)
        } else if g.global_pause && self.paused {
            Err(GuardError::Paused)
        } else {
            match g.feature {
                Some(f) => {
                    if self.is_feature_paused(f) {
                        Err(GuardError::FeaturePaused)
                    } else {
                        Ok(())
                    }
                },
                None => Ok(()),
            }
        }
    }

    /// Whether entry point `op` may proceed in this state; `authorized` says
    /// whether the caller has authorized the call.
    pub fn check(&self, op: EntryPoint, authorized: bool) -> (r: Result<(), GuardError>)
        ensures
            r == guard_outcome(*self, op, authorized),
    {
        self.check_guards(guards(op), authorized)
    }

    /// Enters a guarded call of `op`: runs its guards and, where it is
    /// protected against reentrancy, takes the lock. A refused call changes nothing.
    pub fn enter(&mut self, op: EntryPoint, authorized: bool) -> (r: Result<(), GuardError>)
        ensures
            r == guard_outcome(*old(self), op, authorized),
            old(self).locked && old(self).initialized && authorized && op != EntryPoint::SetPrivacy
                ==> r == Err::<(), GuardError>(GuardError::Reentrant),
            r is Ok ==> *final(self) == with_lock(
                *old(self),
                old(self).locked || guards_of(op).reentrancy,
            ),
            r is Err ==> *final(self) == *old(self),
    {
        let g = guards(op);
        let r = self.check_guards(g, authorized);
        if r.is_ok() && g.reentrancy {
            self.locked = true;
        }
        r
    }

    /// Leaves a guarded call of `op`, releasing the lock where `op` took it.
    pub fn exit(&mut self, op: EntryPoint)
        ensures
            *final(self) == with_lock(
                *old(self),
                if guards_of(op).reentrancy {
                    false
                } else {
                    old(self).locked
                },
            ),
    {
        if guards(op).reentrancy {
            self.locked = false;
        }
    }

    /// Initializes the contract with `admin` as its administrator. Refused with
    /// `AlreadyInitialized` when the contract has been initialized before.
    pub fn initialize(&mut self, admin: u64) -> (r: Result<(), GuardError>)
        ensures
            r is Err <==> old(self).initialized,
            r is Err ==> r == Err::<(), GuardError>(GuardError::AlreadyInitialized) && *final(self)
                == *old(self),
            r is Ok ==> *final(self) == (GuardState {
                initialized: true,
                admin: Some(admin),
                ..*old(self)
            }),
    {
        if self.initialized {
            Err(GuardError::AlreadyInitialized)
        } else {
            self.initialized = true;
            self.admin = Some(admin);
            Ok(())
        }
    }

    /// Activates emergency mode, after which deposits and administrative
    /// configuration are refused while withdrawals stay open.
    pub fn activate_emergency_mode(&mut self, authorized: bool) -> (r: Result<(), GuardError>)
        ensures
            r == outcome(*old(self), emergency_activation_guards(), authorized),
            old(self).initialized && !old(self).locked && authorized ==> r is Ok
                && final(self).emergency,
            !authorized ==> r is Err && *final(self) == *old(self),
            r is Ok ==> *final(self) == (GuardState { emergency: true, ..*old(self) }),
            r is Err ==> *final(self) == *old(self),
    {
        let g = GuardSet {
            initialization: true,
            authorization: true,
            reentrancy: true,
            emergency: false,
            global_pause: false,
            feature: None,
        };
        let r = self.check_guards(g, authorized);
        if r.is_ok() {
            self.emergency = true;
        }
        r
    }

    /// Sets or lifts the global pause.
    pub fn set_paused(&mut self, authorized: bool, paused: bool) -> (r: Result<(), GuardError>)
        ensures
            r == guard_outcome(*old(self), EntryPoint::SetPaused, authorized),
            !old(self).emergency && !old(self).locked && authorized ==> r is Ok
                && final(self).paused == paused,
            !authorized ==> r == Err::<(), GuardError>(GuardError::Unauthorized) && *final(self)
                == *old(self),
            r is Ok ==> *final(self) == (GuardState { paused, ..*old(self) }),
            r is Err ==> *final(self) == *old(self),
    {
        let r = self.check(EntryPoint::SetPaused, authorized);
        if r.is_ok() {
            self.paused = paused;
        }
        r
    }

    /// Pauses every feature whose bit is set in `features`, leaving the others as they were.
    pub fn pause_features(&mut self, authorized: bool, features: u32) -> (r: Result<
        (),
        GuardError,
    >)
        ensures
            r == guard_outcome(*old(self), EntryPoint::PauseFeatures, authorized),
            !old(self).emergency && !old(self).locked && authorized ==> r is Ok
                && final(self).paused_features == old(self).paused_features | features,
            !authorized ==> r == Err::<(), GuardError>(GuardError::Unauthorized) && *final(self)
                == *old(self),
            r is Ok ==> *final(self) == (GuardState {
                paused_features: old(self).paused_features | features,
                ..*old(self)
            }),
            r is Err ==> *final(self) == *old(self),
    {
        let r = self.check(EntryPoint::PauseFeatures, authorized);
        if r.is_ok() {
            self.paused_features = self.paused_features | features;
        }
        r
    }

    /// Lifts the pause of every feature whose bit is set in `features`,
    /// leaving the others as they were.
    pub fn unpause_features(&mut self, authorized: bool, features: u32) -> (r: Result<
        (),
        GuardError,
    >)
        ensures
            r == guard_outcome(*old(self), EntryPoint::UnpauseFeatures, authorized),
            !old(self).emergency && !old(self).locked && authorized ==> r is Ok
                && final(self).paused_features == old(self).paused_features & !features,
            !authorized ==> r == Err::<(), GuardError>(GuardError::Unauthorized) && *final(self)
                == *old(self),
            r is Ok ==> *final(self) == (GuardState {
                paused_features: old(self).paused_features & !features,
                ..*old(self)
            }),
            r is Err ==> *final(self) == *old(self),
    {
        let r = self.check(EntryPoint::UnpauseFeatures, authorized);
        if r.is_ok() {
            self.paused_features = self.paused_features & !features;
        }
        r
    }

    /// Hands the administrator role to `new_admin`.
    pub fn set_admin(&mut self, authorized: bool, new_admin: u64) -> (r: Result<(), GuardError>)
        ensures
            r == guard_outcome(*old(self), EntryPoint::SetAdmin, authorized),
            !old(self).emergency && !old(self).locked && authorized ==> r is Ok
                && final(self).admin == Some(new_admin),
            !authorized ==> r == Err::<(), GuardError>(GuardError::Unauthorized) && *final(self)
                == *old(self),
            r is Ok ==> *final(self) == (GuardState { admin: Some(new_admin), ..*old(self) }),
            r is Err ==> *final(self) == *old(self),
    {
        let r = self.check(EntryPoint::SetAdmin, authorized);
        if r.is_ok() {
            self.admin = Some(new_admin);
        }
        r
    }
}

} // verus!
