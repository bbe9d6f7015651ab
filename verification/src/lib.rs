//! Authorization guards for the mutating entry points of an escrow contract.
//!
//! Every mutating entry point is protected by a fixed set of guards:
//! initialization, caller authorization, reentrancy protection, the
//! emergency-mode check, the global pause and the per-feature pause. This
//! crate states that table, decides whether a call may proceed in a given
//! guard state, and carries out the state changes of the administrative
//! entry points that steer the guards themselves.

pub mod table;
pub mod state;
pub mod laws;
