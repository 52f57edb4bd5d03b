//! The thread topology: the evaluator owned exclusively by one dedicated
//! worker, callers marshalling requests to it one at a time.
//!
//! The worker's whole behaviour is the serialized request/response step
//! defined in `serializer`; the host supplies the actual thread, mailbox
//! and per-call timeout around it, performing exactly one `handle` per
//! received request.  Because the worker is a single consumer, requests
//! are processed strictly in receipt order, which is the topology's
//! mutual-exclusion argument.

use crate::persistent_safety_storage::PersistentSafetyStorage;
use crate::safety_rules::{SafetyRules, SafetyRulesInput, SafetyRulesOutput, spec_step};
use crate::serializer::{SerializerService, serializer_request};
use vstd::prelude::*;

verus! {

pub struct ThreadService {
    pub service: SerializerService,
    pub timeout_ms: u64,
}

impl ThreadService {
    /// One worker over a fresh evaluator seeded from the bootstrapped
    /// storage, with the per-call timeout a waiting caller observes.
    pub fn new(
        storage: PersistentSafetyStorage,
        verify_vote_proposal_signature: bool,
        export_consensus_key: bool,
        timeout_ms: u64,
    ) -> (r: Self)
        ensures
            r.service.internal.persistent_storage == storage,
            r.service.internal.verify_vote_proposal_signature == verify_vote_proposal_signature,
            r.service.internal.export_consensus_key == export_consensus_key,
            r.service.internal.epoch_state is None,
            r.timeout_ms == timeout_ms,
    {
        let safety_rules = SafetyRules::new(
            storage,
            verify_vote_proposal_signature,
            export_consensus_key,
        );
        ThreadService { service: SerializerService::new(safety_rules), timeout_ms }
    }

    /// Process the one request at the head of the mailbox: marshal it
    /// across the boundary, apply it, marshal the response back.  The
    /// response is exactly what the evaluator itself would answer.
    pub fn handle(&mut self, input: &SafetyRulesInput) -> (r: SafetyRulesOutput)
        requires
            old(self).service.internal.wf(),
        ensures
            final(self).service.internal.wf(),
            final(self).service.internal == spec_step(old(self).service.internal, *input).0,
            final(self).timeout_ms == old(self).timeout_ms,
            r == spec_step(old(self).service.internal, *input).1,
    {
        serializer_request(&mut self.service, input)
    }
}

} // verus!
