//! The durable record behind the safety-rule evaluator: the validator's
//! identity (`author`), its consensus and execution private keys, the
//! trust waypoint, and the persisted vote-safety bookkeeping, with an
//! optional read cache over the bookkeeping.
//!
//! Invariant: whenever the cache is enabled and holds a value, it agrees
//! with the backend; every constructor establishes this and every method
//! preserves it, so a cached read never diverges from the durable record.

use crate::config::Waypoint;
use crate::crypto::PrivateKey;
use crate::secure_storage::{SafetyData, SecureBackend, spec_fresh_safety_data, fresh_safety_data};
use vstd::prelude::*;

verus! {

/// The epoch a freshly initialized store starts its bookkeeping in, before
/// the evaluator aligns it with the waypoint.
pub open spec fn spec_initial_epoch() -> u64 {
    1u64
}

#[derive(Clone, Copy, Debug, PartialEq, Eq, Structural)]
pub struct PersistentSafetyStorage {
    pub internal_store: SecureBackend,
    pub enable_cached_safety_data: bool,
    pub cached_safety_data: Option<SafetyData>,
}

/// The storage `initialize` produces: every slot of the backend freshly
/// (over)written from the given identity, bookkeeping reset, cache warm
/// when enabled.
pub open spec fn spec_initialize(
    internal_store: SecureBackend,
    author: u64,
    consensus_private_key: PrivateKey,
    execution_private_key: PrivateKey,
    waypoint: Waypoint,
    enable_cached_safety_data: bool,
) -> PersistentSafetyStorage {
    PersistentSafetyStorage {
        internal_store: SecureBackend {
            available: internal_store.available,
            author: Some(author),
            consensus_key: Some(consensus_private_key),
            execution_key: Some(execution_private_key),
            waypoint: Some(waypoint),
            safety_data: Some(spec_fresh_safety_data(spec_initial_epoch())),
        },
        enable_cached_safety_data,
        cached_safety_data: if enable_cached_safety_data {
            Some(spec_fresh_safety_data(spec_initial_epoch()))
        } else {
            None
        },
    }
}

/// The storage after new bookkeeping is persisted: the backend records it
/// and an enabled cache is refreshed to match.
pub open spec fn spec_set_safety_data(st: PersistentSafetyStorage, data: SafetyData) -> PersistentSafetyStorage {
    PersistentSafetyStorage {
        internal_store: SecureBackend { safety_data: Some(data), ..st.internal_store },
        enable_cached_safety_data: st.enable_cached_safety_data,
        cached_safety_data: if st.enable_cached_safety_data {
            Some(data)
        } else {
            None
        },
    }
}

impl PersistentSafetyStorage {
    /// Cache coherence: an enabled, filled cache agrees with the backend,
    /// and a disabled cache is empty.
    pub open spec fn wf(self) -> bool {
        &&& (self.cached_safety_data is Some ==> self.enable_cached_safety_data)
        &&& (self.cached_safety_data is Some ==> self.internal_store.safety_data
            == self.cached_safety_data)
    }

    /// Wrap an existing backend without touching its contents (the
    /// idempotent production path).
    pub fn new(internal_store: SecureBackend, enable_cached_safety_data: bool) -> (r: Self)
        ensures
            r.internal_store == internal_store,
            r.enable_cached_safety_data == enable_cached_safety_data,
            r.cached_safety_data is None,
            r.wf(),
    {
        PersistentSafetyStorage { internal_store, enable_cached_safety_data, cached_safety_data: None }
    }

    /// (Re-)initialize the backend from the given identity, overwriting
    /// whatever was stored before.
    pub fn initialize(
        internal_store: SecureBackend,
        author: u64,
        consensus_private_key: PrivateKey,
        execution_private_key: PrivateKey,
        waypoint: Waypoint,
        enable_cached_safety_data: bool,
    ) -> (r: Self)
        ensures
            r == spec_initialize(
                internal_store,
                author,
                consensus_private_key,
                execution_private_key,
                waypoint,
                enable_cached_safety_data,
            ),
            r.wf(),
    {
        let data = fresh_safety_data(1);
        PersistentSafetyStorage {
            internal_store: SecureBackend {
                available: internal_store.available,
                author: Some(author),
                consensus_key: Some(consensus_private_key),
                execution_key: Some(execution_private_key),
                waypoint: Some(waypoint),
                safety_data: Some(data),
            },
            enable_cached_safety_data,
            cached_safety_data: if enable_cached_safety_data { Some(data) } else { None },
        }
    }

    /// The validator identity, if the store was ever initialized.
    pub fn author(&self) -> (r: Option<u64>)
        ensures
            r == self.internal_store.author,
    {
        self.internal_store.author
    }

    pub fn consensus_key(&self) -> (r: Option<PrivateKey>)
        ensures
            r == self.internal_store.consensus_key,
    {
        self.internal_store.consensus_key
    }

    pub fn execution_key(&self) -> (r: Option<PrivateKey>)
        ensures
            r == self.internal_store.execution_key,
    {
        self.internal_store.execution_key
    }

    pub fn waypoint(&self) -> (r: Option<Waypoint>)
        ensures
            r == self.internal_store.waypoint,
    {
        self.internal_store.waypoint
    }

    /// Read the persisted bookkeeping, through the cache when enabled.
    /// Thanks to coherence the answer always equals the backend's record.
    pub fn safety_data(&self) -> (r: Option<SafetyData>)
        requires
            self.wf(),
        ensures
            r == self.internal_store.safety_data,
    {
        if self.enable_cached_safety_data {
            match self.cached_safety_data {
                Some(data) => Some(data),
                None => self.internal_store.safety_data,
            }
        } else {
            self.internal_store.safety_data
        }
    }

    /// Persist new bookkeeping, keeping the cache coherent.
    pub fn set_safety_data(&mut self, data: SafetyData)
        ensures
            *final(self) == spec_set_safety_data(*old(self), data),
            final(self).wf(),
    {
        self.internal_store.safety_data = Some(data);
        if self.enable_cached_safety_data {
            self.cached_safety_data = Some(data);
        } else {
            self.cached_safety_data = None;
        }
    }

    /// The backend as it stands now; what a second bootstrap would find.
    pub fn internal_store(&self) -> (r: SecureBackend)
        ensures
            r == self.internal_store,
    {
        self.internal_store
    }
}

} // verus!
