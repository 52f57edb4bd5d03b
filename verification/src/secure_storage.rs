//! In-memory model of the secure key-value backend.
//!
//! The real backend (Vault, on-disk storage, in-memory test storage) is an
//! external collaborator with a small contract: report availability, and
//! get/set values under the logical names `author`, `consensus_key`,
//! `execution_key`, `waypoint` and `safety_data`.  This module models that
//! record directly as plain optional fields; the host that talks to a real
//! backend converts between the two representations.

use crate::config::Waypoint;
use crate::crypto::PrivateKey;
use vstd::prelude::*;

verus! {

/// The evaluator's persisted vote-safety bookkeeping.
#[derive(Clone, Copy, Debug, PartialEq, Eq, Structural)]
pub struct SafetyData {
    pub epoch: u64,
    pub last_voted_round: u64,
    pub preferred_round: u64,
}

/// Fresh safety bookkeeping for the given epoch: no round voted or
/// preferred yet.
pub open spec fn spec_fresh_safety_data(epoch: u64) -> SafetyData {
    SafetyData { epoch, last_voted_round: 0, preferred_round: 0 }
}

pub fn fresh_safety_data(epoch: u64) -> (r: SafetyData)
    ensures
        r == spec_fresh_safety_data(epoch),
{
    SafetyData { epoch, last_voted_round: 0, preferred_round: 0 }
}

/// One secure backend's contents.  `available == false` models a backend
/// that reports itself unreachable; every field absent models a store that
/// was never initialized.
#[derive(Clone, Copy, Debug, PartialEq, Eq, Structural)]
pub struct SecureBackend {
    pub available: bool,
    pub author: Option<u64>,
    pub consensus_key: Option<PrivateKey>,
    pub execution_key: Option<PrivateKey>,
    pub waypoint: Option<Waypoint>,
    pub safety_data: Option<SafetyData>,
}

impl SecureBackend {
    /// An available backend with nothing stored in it yet.
    pub fn new_empty() -> (r: Self)
        ensures
            r.available,
            r.author is None,
            r.consensus_key is None,
            r.execution_key is None,
            r.waypoint is None,
            r.safety_data is None,
    {
        SecureBackend {
            available: true,
            author: None,
            consensus_key: None,
            execution_key: None,
            waypoint: None,
            safety_data: None,
        }
    }

    /// Once `author` is present the store counts as initialized.
    pub open spec fn spec_is_initialized(self) -> bool {
        self.author is Some
    }

    pub fn is_initialized(&self) -> (r: bool)
        ensures
            r == self.spec_is_initialized(),
    {
        self.author.is_some()
    }
}

} // verus!
