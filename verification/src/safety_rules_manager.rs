//! Bootstrap of the persistent safety storage, and the manager that
//! selects a topology, owns the single topology wrapper, and hands out
//! client handles.
//!
//! Bootstrap is exactly-once and fail-fast: a test configuration always
//! (re-)initializes the store; an already initialized production store is
//! returned untouched; an uninitialized production store is seeded from
//! the initial-identity descriptor or the whole startup is refused.  The
//! caller must treat every `FatalError` as unrecoverable and abort before
//! any client is produced: a validator must never run consensus duties
//! over ambiguous key material.

use crate::config::{InitialSafetyRulesConfig, SafetyRulesConfig, SafetyRulesService};
use crate::persistent_safety_storage::{PersistentSafetyStorage, spec_initialize};
use crate::process::{ProcessService, RemoteClient};
use crate::safety_rules::{SafetyRules, SafetyRulesInput, SafetyRulesOutput, spec_step};
use crate::secure_storage::SecureBackend;
use crate::serializer::{SerializerService, serializer_request};
use crate::thread::ThreadService;
use vstd::prelude::*;

verus! {

/// The unrecoverable startup failures.  Continuing past any of them
/// risks signing with wrong or ambiguous key material, so the host
/// aborts instead of handling them.
#[derive(Clone, Copy, Debug, PartialEq, Eq, Structural)]
pub enum FatalError {
    /// The configured storage backend reports unavailable.
    StorageUnavailable,
    /// A test configuration was declared without a consensus key.
    MissingConsensusKey,
    /// A test configuration was declared without an execution key.
    MissingExecutionKey,
    /// A test configuration was declared without a waypoint.
    MissingWaypoint,
    /// The initial-identity descriptor lacks the account address.
    MissingAccountAddress,
    /// The initial-identity descriptor lacks the consensus key.
    MissingInitialConsensusKey,
    /// The initial-identity descriptor lacks the account key.
    MissingInitialAccountKey,
    /// Production storage is uninitialized and no initial identity was
    /// supplied: there is no source of key material at all.
    StorageUninitialized,
}

/// What bootstrap returns for every configuration and backend state:
/// the exact storage produced, or the exact fatal condition hit.
pub open spec fn spec_bootstrap(config: SafetyRulesConfig, backend: SecureBackend) -> Result<
    PersistentSafetyStorage,
    FatalError,
> {
    if !backend.available {
        Err(FatalError::StorageUnavailable)
    } else {
        match config.test {
            Some(t) => match (t.consensus_key, t.execution_key, t.waypoint) {
                (None, _, _) => Err(FatalError::MissingConsensusKey),
                (Some(_), None, _) => Err(FatalError::MissingExecutionKey),
                (Some(_), Some(_), None) => Err(FatalError::MissingWaypoint),
                (Some(ck), Some(ek), Some(w)) => Ok(
                    spec_initialize(backend, t.author, ck, ek, w, config.enable_cached_safety_data),
                ),
            },
            None => {
                if backend.author is Some {
                    Ok(
                        PersistentSafetyStorage {
                            internal_store: backend,
                            enable_cached_safety_data: config.enable_cached_safety_data,
                            cached_safety_data: None,
                        },
                    )
                } else {
                    match config.initial_safety_rules_config {
                        InitialSafetyRulesConfig::NotProvided => Err(FatalError::StorageUninitialized),
                        InitialSafetyRulesConfig::FromBlob { identity_blob, waypoint } => {
                            match (
                                identity_blob.account_address,
                                identity_blob.consensus_private_key,
                                identity_blob.account_private_key,
                            ) {
                                (None, _, _) => Err(FatalError::MissingAccountAddress),
                                (Some(_), None, _) => Err(FatalError::MissingInitialConsensusKey),
                                (Some(_), Some(_), None) => Err(FatalError::MissingInitialAccountKey),
                                (Some(addr), Some(ck), Some(ak)) => Ok(
                                    spec_initialize(
                                        backend,
                                        addr,
                                        ck,
                                        ak,
                                        waypoint,
                                        config.enable_cached_safety_data,
                                    ),
                                ),
                            }
                        },
                    }
                }
            },
        }
    }
}

/// Resolve and initialize the durable safety storage.
///
/// An `Err` is a fatal startup condition; the host aborts on it before
/// any client exists.  On `Ok` the storage is exactly what
/// `spec_bootstrap` names: overwritten from a (complete) test
/// configuration, or the backend untouched when it was already
/// initialized, or seeded from the (complete) initial identity.
pub fn storage(config: &SafetyRulesConfig, backend: SecureBackend) -> (r: Result<
    PersistentSafetyStorage,
    FatalError,
>)
    ensures
        r == spec_bootstrap(*config, backend),
        (match r {
            Ok(st) => st.wf(),
            Err(_) => true,
        }),
{
    if !backend.available {
        return Err(FatalError::StorageUnavailable);
    }
    match config.test {
        Some(test_config) => {
            let consensus_private_key = match test_config.consensus_key {
                None => {
                    return Err(FatalError::MissingConsensusKey);
                },
                Some(k) => k,
            };
            let execution_private_key = match test_config.execution_key {
                None => {
                    return Err(FatalError::MissingExecutionKey);
                },
                Some(k) => k,
            };
            let waypoint = match test_config.waypoint {
                None => {
                    return Err(FatalError::MissingWaypoint);
                },
                Some(w) => w,
            };
            Ok(
                PersistentSafetyStorage::initialize(
                    backend,
                    test_config.author,
                    consensus_private_key,
                    execution_private_key,
                    waypoint,
                    config.enable_cached_safety_data,
                ),
            )
        },
        None => {
            let existing = PersistentSafetyStorage::new(backend, config.enable_cached_safety_data);
            if existing.author().is_some() {
                // Already initialized: the idempotent no-op path.
                Ok(existing)
            } else {
                match config.initial_safety_rules_config {
                    InitialSafetyRulesConfig::NotProvided => Err(FatalError::StorageUninitialized),
                    InitialSafetyRulesConfig::FromBlob { identity_blob, waypoint } => {
                        let account_address = match identity_blob.account_address {
                            None => {
                                return Err(FatalError::MissingAccountAddress);
                            },
                            Some(a) => a,
                        };
                        let consensus_private_key = match identity_blob.consensus_private_key {
                            None => {
                                return Err(FatalError::MissingInitialConsensusKey);
                            },
                            Some(k) => k,
                        };
                        let account_private_key = match identity_blob.account_private_key {
                            None => {
                                return Err(FatalError::MissingInitialAccountKey);
                            },
                            Some(k) => k,
                        };
                        Ok(
                            PersistentSafetyStorage::initialize(
                                backend,
                                account_address,
                                consensus_private_key,
                                account_private_key,
                                waypoint,
                                config.enable_cached_safety_data,
                            ),
                        )
                    },
                }
            }
        },
    }
}

/// The configurations bootstrap must refuse: an unavailable backend, a
/// declared test configuration missing any field, or an uninitialized
/// production store whose initial identity is absent or incomplete.
pub open spec fn spec_is_fatal(config: SafetyRulesConfig, backend: SecureBackend) -> bool {
    ||| !backend.available
    ||| (match config.test {
        Some(t) => t.consensus_key is None || t.execution_key is None || t.waypoint is None,
        None => false,
    })
    ||| (config.test is None && backend.author is None && (
    match config.initial_safety_rules_config {
        InitialSafetyRulesConfig::NotProvided => true,
        InitialSafetyRulesConfig::FromBlob { identity_blob, .. } => {
            ||| identity_blob.account_address is None
            ||| identity_blob.consensus_private_key is None
            ||| identity_blob.account_private_key is None
        },
    }))
}

/// Fatal-path coverage: bootstrap aborts the startup exactly on the
/// conditions of `spec_is_fatal`, and on no others — so on every other
/// configuration a storage is produced before any client exists.
pub proof fn lemma_bootstrap_fatal_paths(config: SafetyRulesConfig, backend: SecureBackend)
    ensures
        spec_bootstrap(config, backend) is Err <==> spec_is_fatal(config, backend),
{
}

/// Idempotent bootstrap: with no test configuration and an already
/// initialized, available backend, bootstrap returns the backend
/// untouched, and a second bootstrap over what the first left returns
/// the very same storage again.
pub proof fn lemma_bootstrap_idempotent(config: SafetyRulesConfig, backend: SecureBackend)
    requires
        config.test is None,
        backend.available,
        backend.author is Some,
    ensures
        spec_bootstrap(config, backend) is Ok,
        spec_bootstrap(config, backend)->Ok_0.internal_store == backend,
        spec_bootstrap(config, spec_bootstrap(config, backend)->Ok_0.internal_store)
            == spec_bootstrap(config, backend),
{
}

/// Test-mode overwrite: a complete test configuration always
/// reinitializes the store from its own material, whatever the backend
/// held; in particular a second test-mode bootstrap leaves the second
/// configuration's author, keys and waypoint.
pub proof fn lemma_test_mode_overwrite(c1: SafetyRulesConfig, c2: SafetyRulesConfig, backend: SecureBackend)
    requires
        backend.available,
        c1.test matches Some(t1) && t1.consensus_key is Some && t1.execution_key is Some
            && t1.waypoint is Some,
        c2.test matches Some(t2) && t2.consensus_key is Some && t2.execution_key is Some
            && t2.waypoint is Some,
    ensures
        spec_bootstrap(c1, backend) is Ok,
        ({
            let store1 = spec_bootstrap(c1, backend)->Ok_0.internal_store;
            let r2 = spec_bootstrap(c2, store1);
            let t2 = c2.test->0;
            &&& r2 is Ok
            &&& r2->Ok_0.internal_store.author == Some(t2.author)
            &&& r2->Ok_0.internal_store.consensus_key == t2.consensus_key
            &&& r2->Ok_0.internal_store.execution_key == t2.execution_key
            &&& r2->Ok_0.internal_store.waypoint == t2.waypoint
        }),
{
}

/// The one live topology wrapper: exactly one variant per manager, fixed
/// for the manager's lifetime, owning the evaluator (or, for the process
/// topology, the endpoint of the remote process that owns it).
pub enum SafetyRulesWrapper {
    Local(SafetyRules),
    Process(ProcessService),
    Serializer(SerializerService),
    Thread(ThreadService),
}

/// The evaluator a wrapper hosts in this process, if any.
pub open spec fn spec_wrapper_evaluator(w: SafetyRulesWrapper) -> Option<SafetyRules> {
    match w {
        SafetyRulesWrapper::Local(s) => Some(s),
        SafetyRulesWrapper::Serializer(sv) => Some(sv.internal),
        SafetyRulesWrapper::Thread(t) => Some(t.service.internal),
        SafetyRulesWrapper::Process(_) => None,
    }
}

/// One routed request: the wrapper after it, and the response — `None`
/// exactly for the process topology, whose evaluator only the remote
/// side can reach.
pub open spec fn spec_wrapper_step(w: SafetyRulesWrapper, input: SafetyRulesInput) -> (
    SafetyRulesWrapper,
    Option<SafetyRulesOutput>,
) {
    match w {
        SafetyRulesWrapper::Local(s) => (
            SafetyRulesWrapper::Local(spec_step(s, input).0),
            Some(spec_step(s, input).1),
        ),
        SafetyRulesWrapper::Serializer(sv) => (
            SafetyRulesWrapper::Serializer(SerializerService { internal: spec_step(sv.internal, input).0 }),
            Some(spec_step(sv.internal, input).1),
        ),
        SafetyRulesWrapper::Thread(t) => (
            SafetyRulesWrapper::Thread(
                ThreadService {
                    service: SerializerService { internal: spec_step(t.service.internal, input).0 },
                    timeout_ms: t.timeout_ms,
                },
            ),
            Some(spec_step(t.service.internal, input).1),
        ),
        SafetyRulesWrapper::Process(p) => (SafetyRulesWrapper::Process(p), None),
    }
}

/// Topology equivalence: wrappers hosting the same evaluator state
/// answer every request identically, whichever in-process topology each
/// of them uses, and host the same evaluator state again afterwards.
pub proof fn lemma_topology_equivalence(
    w1: SafetyRulesWrapper,
    w2: SafetyRulesWrapper,
    input: SafetyRulesInput,
)
    requires
        spec_wrapper_evaluator(w1) == spec_wrapper_evaluator(w2),
    ensures
        spec_wrapper_step(w1, input).1 == spec_wrapper_step(w2, input).1,
        spec_wrapper_evaluator(spec_wrapper_step(w1, input).0) == spec_wrapper_evaluator(
            spec_wrapper_step(w2, input).0,
        ),
{
}

/// A whole ordered sequence of calls routed through one wrapper: the
/// wrapper after all of them, and one response slot per call.
pub open spec fn spec_wrapper_run(w: SafetyRulesWrapper, inputs: Seq<SafetyRulesInput>) -> (
    SafetyRulesWrapper,
    Seq<Option<SafetyRulesOutput>>,
)
    decreases inputs.len(),
{
    if inputs.len() == 0 {
        (w, Seq::empty())
    } else {
        let first = spec_wrapper_step(w, inputs[0]);
        let rest = spec_wrapper_run(first.0, inputs.subrange(1, inputs.len() as int));
        (rest.0, seq![first.1] + rest.1)
    }
}

/// Total ordering at the manager surface: extending a call sequence by
/// one request appends exactly one more response slot, computed from —
/// and leaving — the wrapper of the serial fold.
pub proof fn lemma_wrapper_run_serial(
    w: SafetyRulesWrapper,
    inputs: Seq<SafetyRulesInput>,
    last: SafetyRulesInput,
)
    ensures
        spec_wrapper_run(w, inputs).1.len() == inputs.len(),
        spec_wrapper_run(w, inputs.push(last)).0 == spec_wrapper_step(
            spec_wrapper_run(w, inputs).0,
            last,
        ).0,
        spec_wrapper_run(w, inputs.push(last)).1 == spec_wrapper_run(w, inputs).1.push(
            spec_wrapper_step(spec_wrapper_run(w, inputs).0, last).1,
        ),
    decreases inputs.len(),
{
    if inputs.len() == 0 {
        let pushed = inputs.push(last);
        assert(pushed[0] == last);
        assert(pushed.subrange(1, 1) =~= Seq::<SafetyRulesInput>::empty());
        assert(spec_wrapper_run(spec_wrapper_step(w, last).0, pushed.subrange(1, 1)).1
            =~= Seq::<Option<SafetyRulesOutput>>::empty());
        assert(spec_wrapper_run(w, pushed).0 == spec_wrapper_step(w, last).0);
        assert(spec_wrapper_run(w, inputs).0 == w);
        assert(spec_wrapper_run(w, pushed).1 =~= spec_wrapper_run(w, inputs).1.push(
            spec_wrapper_step(spec_wrapper_run(w, inputs).0, last).1,
        ));
    } else {
        let first = spec_wrapper_step(w, inputs[0]);
        let tail = inputs.subrange(1, inputs.len() as int);
        lemma_wrapper_run_serial(first.0, tail, last);
        assert(inputs.push(last)[0] == inputs[0]);
        assert(inputs.push(last).subrange(1, inputs.len() as int + 1) =~= tail.push(last));
        assert(spec_wrapper_run(w, inputs.push(last)).1 =~= spec_wrapper_run(w, inputs).1.push(
            spec_wrapper_step(spec_wrapper_run(w, inputs).0, last).1,
        ));
    }
}

/// Topology equivalence over call sequences: given the same hosted
/// evaluator state and the same ordered sequence of calls, any two
/// wrappers produce identical sequences of responses — in particular
/// Local and Thread do.
pub proof fn lemma_topology_equivalence_run(
    w1: SafetyRulesWrapper,
    w2: SafetyRulesWrapper,
    inputs: Seq<SafetyRulesInput>,
)
    requires
        spec_wrapper_evaluator(w1) == spec_wrapper_evaluator(w2),
    ensures
        spec_wrapper_run(w1, inputs).1 == spec_wrapper_run(w2, inputs).1,
        spec_wrapper_evaluator(spec_wrapper_run(w1, inputs).0) == spec_wrapper_evaluator(
            spec_wrapper_run(w2, inputs).0,
        ),
    decreases inputs.len(),
{
    if inputs.len() > 0 {
        lemma_topology_equivalence(w1, w2, inputs[0]);
        lemma_topology_equivalence_run(
            spec_wrapper_step(w1, inputs[0]).0,
            spec_wrapper_step(w2, inputs[0]).0,
            inputs.subrange(1, inputs.len() as int),
        );
    }
}

/// A client handle.  Handles hold no safety state of their own and are
/// interchangeable: a `Direct` handle routes every call through its
/// manager's `handle`, a `Remote` handle tells the host where to dial
/// and how long to wait.
#[derive(Clone, Copy, Debug, PartialEq, Eq, Structural)]
pub enum SafetyRulesClient {
    Direct,
    Remote(RemoteClient),
}

pub struct SafetyRulesManager {
    pub internal_safety_rules: SafetyRulesWrapper,
}

/// What `SafetyRulesManager::new` builds for every configuration: the
/// process topology needs no local bootstrap (the remote process owns
/// its storage); every other topology bootstraps first and wraps one
/// fresh evaluator seeded from the resulting storage.
pub open spec fn spec_manager_new(config: SafetyRulesConfig, backend: SecureBackend) -> Result<
    SafetyRulesWrapper,
    FatalError,
> {
    match config.service {
        SafetyRulesService::Process(conf) => Ok(
            SafetyRulesWrapper::Process(
                ProcessService {
                    server_address: conf.server_address,
                    network_timeout_ms: config.network_timeout_ms,
                },
            ),
        ),
        _ => match spec_bootstrap(config, backend) {
            Err(e) => Err(e),
            Ok(st) => {
                let evaluator = SafetyRules {
                    persistent_storage: st,
                    verify_vote_proposal_signature: config.verify_vote_proposal_signature,
                    export_consensus_key: config.export_consensus_key,
                    epoch_state: None,
                };
                match config.service {
                    SafetyRulesService::Local => Ok(SafetyRulesWrapper::Local(evaluator)),
                    SafetyRulesService::Serializer => Ok(
                        SafetyRulesWrapper::Serializer(SerializerService { internal: evaluator }),
                    ),
                    SafetyRulesService::Thread => Ok(
                        SafetyRulesWrapper::Thread(
                            ThreadService {
                                service: SerializerService { internal: evaluator },
                                timeout_ms: config.network_timeout_ms,
                            },
                        ),
                    ),
                    SafetyRulesService::Process(conf) => Ok(
                        SafetyRulesWrapper::Process(
                            ProcessService {
                                server_address: conf.server_address,
                                network_timeout_ms: config.network_timeout_ms,
                            },
                        ),
                    ),
                }
            },
        },
    }
}

impl SafetyRulesManager {
    /// The evaluator this manager hosts is coherent with its storage.
    pub open spec fn wf(self) -> bool {
        match spec_wrapper_evaluator(self.internal_safety_rules) {
            Some(s) => s.wf(),
            None => true,
        }
    }

    /// Select the topology from the configuration.  The process
    /// topology takes only the endpoint; the others bootstrap storage
    /// and construct one evaluator wrapped in the selected variant.  An
    /// `Err` is fatal: the host aborts, no client is produced.
    pub fn new(config: &SafetyRulesConfig, backend: SecureBackend) -> (r: Result<Self, FatalError>)
        ensures
            (match spec_manager_new(*config, backend) {
                Ok(w) => r matches Ok(m) && m.internal_safety_rules == w && m.wf(),
                Err(e) => r matches Err(e2) && e2 == e,
            }),
    {
        if let SafetyRulesService::Process(conf) = &config.service {
            return Ok(Self::new_process(conf.server_address, config.network_timeout_ms));
        }
        let storage = match storage(config, backend) {
            Err(e) => {
                return Err(e);
            },
            Ok(st) => st,
        };
        let verify_vote_proposal_signature = config.verify_vote_proposal_signature;
        let export_consensus_key = config.export_consensus_key;
        match config.service {
            SafetyRulesService::Local => Ok(
                Self::new_local(storage, verify_vote_proposal_signature, export_consensus_key),
            ),
            SafetyRulesService::Serializer => Ok(
                Self::new_serializer(storage, verify_vote_proposal_signature, export_consensus_key),
            ),
            SafetyRulesService::Thread => Ok(
                Self::new_thread(
                    storage,
                    verify_vote_proposal_signature,
                    export_consensus_key,
                    config.network_timeout_ms,
                ),
            ),
            SafetyRulesService::Process(conf) => Ok(
                Self::new_process(conf.server_address, config.network_timeout_ms),
            ),
        }
    }

    pub fn new_local(
        storage: PersistentSafetyStorage,
        verify_vote_proposal_signature: bool,
        export_consensus_key: bool,
    ) -> (r: Self)
        ensures
            r.internal_safety_rules matches SafetyRulesWrapper::Local(s) && s == (SafetyRules {
                persistent_storage: storage,
                verify_vote_proposal_signature,
                export_consensus_key,
                epoch_state: None,
            }),
    {
        let safety_rules = SafetyRules::new(
            storage,
            verify_vote_proposal_signature,
            export_consensus_key,
        );
        SafetyRulesManager { internal_safety_rules: SafetyRulesWrapper::Local(safety_rules) }
    }

    pub fn new_process(server_addr: crate::config::ServerAddress, timeout_ms: u64) -> (r: Self)
        ensures
            r.internal_safety_rules matches SafetyRulesWrapper::Process(p) && p == (ProcessService {
                server_address: server_addr,
                network_timeout_ms: timeout_ms,
            }),
    {
        let process_service = ProcessService::new(server_addr, timeout_ms);
        SafetyRulesManager { internal_safety_rules: SafetyRulesWrapper::Process(process_service) }
    }

    pub fn new_serializer(
        storage: PersistentSafetyStorage,
        verify_vote_proposal_signature: bool,
        export_consensus_key: bool,
    ) -> (r: Self)
        ensures
            r.internal_safety_rules matches SafetyRulesWrapper::Serializer(sv) && sv.internal
                == (SafetyRules {
                persistent_storage: storage,
                verify_vote_proposal_signature,
                export_consensus_key,
                epoch_state: None,
            }),
    {
        let safety_rules = SafetyRules::new(
            storage,
            verify_vote_proposal_signature,
            export_consensus_key,
        );
        let serializer_service = SerializerService::new(safety_rules);
        SafetyRulesManager { internal_safety_rules: SafetyRulesWrapper::Serializer(serializer_service) }
    }

    pub fn new_thread(
        storage: PersistentSafetyStorage,
        verify_vote_proposal_signature: bool,
        export_consensus_key: bool,
        timeout_ms: u64,
    ) -> (r: Self)
        ensures
            r.internal_safety_rules matches SafetyRulesWrapper::Thread(t) && t.service.internal
                == (SafetyRules {
                persistent_storage: storage,
                verify_vote_proposal_signature,
                export_consensus_key,
                epoch_state: None,
            }) && t.timeout_ms == timeout_ms,
    {
        let thread = ThreadService::new(
            storage,
            verify_vote_proposal_signature,
            export_consensus_key,
            timeout_ms,
        );
        SafetyRulesManager { internal_safety_rules: SafetyRulesWrapper::Thread(thread) }
    }

    /// A handle bound to the single live wrapper; may be called any
    /// number of times, and every handle observes the same globally
    /// ordered sequence of operations through `handle`.
    pub fn client(&self) -> (r: SafetyRulesClient)
        ensures
            (match self.internal_safety_rules {
                SafetyRulesWrapper::Process(p) => r == SafetyRulesClient::Remote(
                    RemoteClient {
                        server_address: p.server_address,
                        network_timeout_ms: p.network_timeout_ms,
                    },
                ),
                _ => r == SafetyRulesClient::Direct,
            }),
    {
        match &self.internal_safety_rules {
            SafetyRulesWrapper::Local(_) => SafetyRulesClient::Direct,
            SafetyRulesWrapper::Process(process) => SafetyRulesClient::Remote(process.client()),
            SafetyRulesWrapper::Serializer(_) => SafetyRulesClient::Direct,
            SafetyRulesWrapper::Thread(_) => SafetyRulesClient::Direct,
        }
    }

    /// Route one request through the live wrapper.  Taking the manager
    /// exclusively is what totally orders the operations: no two requests
    /// ever run against the evaluator at once.  The process topology
    /// answers `None`: its requests travel through the host's transport
    /// instead.
    pub fn handle(&mut self, input: &SafetyRulesInput) -> (r: Option<SafetyRulesOutput>)
        requires
            old(self).wf(),
        ensures
            final(self).wf(),
            final(self).internal_safety_rules == spec_wrapper_step(
                old(self).internal_safety_rules,
                *input,
            ).0,
            r == spec_wrapper_step(old(self).internal_safety_rules, *input).1,
    {
        match &mut self.internal_safety_rules {
            SafetyRulesWrapper::Local(safety_rules) => Some(safety_rules.process(input)),
            SafetyRulesWrapper::Serializer(serializer_service) => Some(
                serializer_request(serializer_service, input),
            ),
            SafetyRulesWrapper::Thread(thread) => Some(thread.handle(input)),
            SafetyRulesWrapper::Process(_) => None,
        }
    }

    /// Route a whole batch of requests, in order.  Exactly one response
    /// slot per request, each computed from the wrapper every earlier
    /// request left behind: the serial order the topology promises.
    pub fn handle_all(&mut self, inputs: &Vec<SafetyRulesInput>) -> (r: Vec<
        Option<SafetyRulesOutput>,
    >)
        requires
            old(self).wf(),
        ensures
            final(self).wf(),
            final(self).internal_safety_rules == spec_wrapper_run(
                old(self).internal_safety_rules,
                inputs@,
            ).0,
            r@ == spec_wrapper_run(old(self).internal_safety_rules, inputs@).1,
    {
        let ghost start = self.internal_safety_rules;
        let mut outputs: Vec<Option<SafetyRulesOutput>> = Vec::new();
        let mut k: usize = 0;
        proof {
            assert(inputs@.subrange(0, 0) =~= Seq::<SafetyRulesInput>::empty());
        }
        while k < inputs.len()
            invariant
                k <= inputs@.len(),
                self.wf(),
                self.internal_safety_rules == spec_wrapper_run(start, inputs@.subrange(0, k as int)).0,
                outputs@ == spec_wrapper_run(start, inputs@.subrange(0, k as int)).1,
            decreases inputs@.len() - k,
        {
            let input = inputs[k];
            let output = self.handle(&input);
            outputs.push(output);
            proof {
                lemma_wrapper_run_serial(start, inputs@.subrange(0, k as int), inputs@[k as int]);
                assert(inputs@.subrange(0, k + 1) =~= inputs@.subrange(0, k as int).push(
                    inputs@[k as int],
                ));
            }
            k = k + 1;
        }
        proof {
            assert(inputs@.subrange(0, inputs@.len() as int) =~= inputs@);
        }
        outputs
    }
}

} // verus!
