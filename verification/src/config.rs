//! Immutable configuration consumed at validator startup: which isolation
//! topology hosts the safety-rule evaluator, the transport timeout, and
//! the optional sources of initial key material (a test-mode bundle or an
//! initial-identity descriptor).

use crate::crypto::PrivateKey;
use vstd::prelude::*;

verus! {

/// A trusted checkpoint in the ledger's history; bootstrapping trust from
/// it fixes the epoch the evaluator starts in.
#[derive(Clone, Copy, Debug, PartialEq, Eq, Structural)]
pub struct Waypoint {
    pub version: u64,
    pub epoch: u64,
}

/// A network endpoint for the process topology, as plain values; the host
/// turns it into a real socket address.
#[derive(Clone, Copy, Debug, PartialEq, Eq, Structural)]
pub struct ServerAddress {
    pub ip: u32,
    pub port: u16,
}

/// Configuration of the process topology: where the remote safety-rules
/// process listens.
#[derive(Clone, Copy, Debug, PartialEq, Eq, Structural)]
pub struct RemoteServiceConfig {
    pub server_address: ServerAddress,
}

/// The closed set of isolation topologies a manager can be built over.
#[derive(Clone, Copy, Debug, PartialEq, Eq, Structural)]
pub enum SafetyRulesService {
    Local,
    Serializer,
    Thread,
    Process(RemoteServiceConfig),
}

/// Test-mode key material: authoritative when present, and required to be
/// complete (bootstrap aborts on a missing field).
#[derive(Clone, Copy, Debug, PartialEq, Eq, Structural)]
pub struct SafetyRulesTestConfig {
    pub author: u64,
    pub consensus_key: Option<PrivateKey>,
    pub execution_key: Option<PrivateKey>,
    pub waypoint: Option<Waypoint>,
}

/// An initial-identity descriptor: the fields a fresh production store is
/// seeded from, each possibly absent in a malformed descriptor.
#[derive(Clone, Copy, Debug, PartialEq, Eq, Structural)]
pub struct IdentityBlob {
    pub account_address: Option<u64>,
    pub consensus_private_key: Option<PrivateKey>,
    pub account_private_key: Option<PrivateKey>,
}

/// Whether an initial-identity configuration was supplied for seeding an
/// uninitialized production store.
#[derive(Clone, Copy, Debug, PartialEq, Eq, Structural)]
pub enum InitialSafetyRulesConfig {
    NotProvided,
    FromBlob { identity_blob: IdentityBlob, waypoint: Waypoint },
}

/// The safety-rules configuration, fixed for the manager's lifetime.
#[derive(Clone, Copy, Debug, PartialEq, Eq, Structural)]
pub struct SafetyRulesConfig {
    pub service: SafetyRulesService,
    pub network_timeout_ms: u64,
    pub verify_vote_proposal_signature: bool,
    pub export_consensus_key: bool,
    pub test: Option<SafetyRulesTestConfig>,
    pub initial_safety_rules_config: InitialSafetyRulesConfig,
    pub enable_cached_safety_data: bool,
}

} // verus!
