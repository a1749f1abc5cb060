//! sysforge — verified core of the SYSFORGE OS manager.
//!
//! Principles: no fake installation code (what does not exist is refused
//! with an error code), commands are always `program + args` (never a shell
//! string), destructive operations exist only with a revalidated disk
//! identity, and everything is fail-closed.

use vstd::prelude::*;

pub mod text;
pub mod error;
pub mod executor;
pub mod disk;
pub mod state;
pub mod canonical;
pub mod boot;
pub mod props;
pub mod hw;
pub mod ipc;
pub mod daemon;
pub mod power;
pub mod windows;
pub mod order;
pub mod capability;
pub mod net;
pub mod backup;
pub mod handlers;
pub mod ui;
pub mod doctor;

verus! {

/// Availability of a resource. `Unavailable` always carries the technical
/// reason — never a bare "does not work".
#[derive(Debug, Clone, PartialEq, Eq)]
pub enum Availability {
    Available,
    Unavailable {
        /// Code explaining the unavailability.
        reason_code: String,
        /// Readable technical reason.
        reason: String,
    },
}

impl Availability {
    pub fn unavailable(code: &str, reason: &str) -> (a: Self)
        ensures
            a matches Availability::Unavailable { reason_code, reason: r } && reason_code@ == code@
                && r@ == reason@,
    {
        Availability::Unavailable {
            reason_code: String::from_str(code),
            reason: String::from_str(reason),
        }
    }

    pub fn is_available(&self) -> (b: bool)
        ensures
            b == (*self is Available),
    {
        match self {
            Availability::Available => true,
            _ => false,
        }
    }
}

} // verus!
