//! The safety-rule evaluator and its uniform operation contract.
//!
//! The evaluator guards the consensus signing key: it signs a vote,
//! proposal or timeout only when the request's round moves forward with
//! respect to the persisted bookkeeping, and a refusal leaves every piece
//! of its state exactly as it was.  Each operation is specified by a step
//! function from the evaluator's full state and the request to the next
//! state and the response; every topology wrapper routes requests to these
//! same step functions, which is what makes the topologies equivalent.

use crate::crypto::{PrivateKey, Signature, SignatureKind, spec_sign, sign};
use crate::persistent_safety_storage::{PersistentSafetyStorage, spec_set_safety_data};
use crate::secure_storage::{SafetyData, spec_fresh_safety_data, fresh_safety_data};
use vstd::prelude::*;

verus! {

/// A proposal the consensus engine asks the evaluator to vote on.
#[derive(Clone, Copy, Debug, PartialEq, Eq, Structural)]
pub struct VoteProposal {
    pub epoch: u64,
    pub round: u64,
    pub id: u64,
}

/// A block a proposer asks the evaluator to sign.
#[derive(Clone, Copy, Debug, PartialEq, Eq, Structural)]
pub struct Block {
    pub epoch: u64,
    pub round: u64,
    pub id: u64,
}

/// A round the consensus engine wants to time out.
#[derive(Clone, Copy, Debug, PartialEq, Eq, Structural)]
pub struct Timeout {
    pub epoch: u64,
    pub round: u64,
}

/// A signed vote: the proposal voted for, the voting validator, and the
/// signature of its consensus key over the proposal.
#[derive(Clone, Copy, Debug, PartialEq, Eq, Structural)]
pub struct Vote {
    pub proposal: VoteProposal,
    pub author: u64,
    pub signature: Signature,
}

/// The evaluator's current bookkeeping, as reported to callers.
#[derive(Clone, Copy, Debug, PartialEq, Eq, Structural)]
pub struct ConsensusState {
    pub epoch: u64,
    pub last_voted_round: u64,
    pub preferred_round: u64,
}

/// The typed failures of the operation contract.  The first five are
/// produced by the evaluator itself; the last three by the transport a
/// topology wrapper interposes.
#[derive(Clone, Copy, Debug, PartialEq, Eq, Structural)]
pub enum Error {
    /// `initialize` has not succeeded yet, or the store holds no
    /// bookkeeping or waypoint to evaluate against.
    NotInitialized,
    /// The store holds no author or no consensus key to sign with.
    KeyNotFound,
    /// The request's epoch differs from the bookkeeping's epoch.
    IncorrectEpoch { given: u64, expected: u64 },
    /// Safety refusal: the round does not move past the last voted round.
    IncorrectLastVotedRound { given: u64, last_voted_round: u64 },
    /// Safety refusal: the round does not move past the preferred round.
    IncorrectPreferredRound { given: u64, preferred_round: u64 },
    /// A request or response did not decode.
    SerializationError,
    /// The transport gave no response within its timeout.
    TimedOut,
    /// The transport failed outright (connection refused, reset, or a
    /// poisoned wrapper).
    TransportError,
}

/// One request of the uniform operation contract.
#[derive(Clone, Copy, Debug, PartialEq, Eq, Structural)]
pub enum SafetyRulesInput {
    Initialize,
    ConsensusState,
    ConstructAndSignVote(VoteProposal),
    SignProposal(Block),
    SignTimeout(Timeout),
}

/// The response to one request, tagged with the operation it answers.
#[derive(Clone, Copy, Debug, PartialEq, Eq)]
pub enum SafetyRulesOutput {
    Initialize(Result<(), Error>),
    ConsensusState(Result<ConsensusState, Error>),
    ConstructAndSignVote(Result<Vote, Error>),
    SignProposal(Result<Signature, Error>),
    SignTimeout(Result<Signature, Error>),
}

/// The evaluator: the persistent storage it rehydrates from and writes
/// through, the configuration flags fixed at construction, and the epoch
/// it has validated against the waypoint (set by `initialize`).
#[derive(Clone, Copy, Debug, PartialEq, Eq)]
pub struct SafetyRules {
    pub persistent_storage: PersistentSafetyStorage,
    pub verify_vote_proposal_signature: bool,
    pub export_consensus_key: bool,
    pub epoch_state: Option<u64>,
}

/// What `initialize` does: align the bookkeeping with the waypoint's
/// epoch (resetting the rounds when the epoch moves) and record the
/// validated epoch.  Fails only when the store holds no waypoint.
pub open spec fn spec_initialize_step(s: SafetyRules) -> (SafetyRules, Result<(), Error>) {
    match s.persistent_storage.internal_store.waypoint {
        None => (s, Err(Error::NotInitialized)),
        Some(w) => {
            let aligned = match s.persistent_storage.internal_store.safety_data {
                Some(d) => d.epoch == w.epoch,
                None => false,
            };
            if aligned {
                (SafetyRules { epoch_state: Some(w.epoch), ..s }, Ok(()))
            } else {
                (
                    SafetyRules {
                        persistent_storage: spec_set_safety_data(
                            s.persistent_storage,
                            spec_fresh_safety_data(w.epoch),
                        ),
                        epoch_state: Some(w.epoch),
                        ..s
                    },
                    Ok(()),
                )
            }
        },
    }
}

/// What `consensus_state` reports: the persisted bookkeeping, verbatim.
pub open spec fn spec_consensus_state_result(s: SafetyRules) -> Result<ConsensusState, Error> {
    match s.persistent_storage.internal_store.safety_data {
        None => Err(Error::NotInitialized),
        Some(d) => Ok(
            ConsensusState {
                epoch: d.epoch,
                last_voted_round: d.last_voted_round,
                preferred_round: d.preferred_round,
            },
        ),
    }
}

/// What `construct_and_sign_vote` does: sign the proposal with the stored
/// consensus key and advance the last voted round, exactly when the
/// evaluator is initialized, the key material is present, the epochs
/// match and the round moves past the last voted round; every failure
/// leaves the state untouched.
pub open spec fn spec_vote_step(s: SafetyRules, p: VoteProposal) -> (SafetyRules, Result<Vote, Error>) {
    if s.epoch_state is None {
        (s, Err(Error::NotInitialized))
    } else {
        match s.persistent_storage.internal_store.safety_data {
            None => (s, Err(Error::NotInitialized)),
            Some(d) => {
                match (s.persistent_storage.internal_store.author, s.persistent_storage.internal_store.consensus_key) {
                    (Some(author), Some(key)) => {
                        if p.epoch != d.epoch {
                            (s, Err(Error::IncorrectEpoch { given: p.epoch, expected: d.epoch }))
                        } else if p.round <= d.last_voted_round {
                            (
                                s,
                                Err(Error::IncorrectLastVotedRound {
                                    given: p.round,
                                    last_voted_round: d.last_voted_round,
                                }),
                            )
                        } else {
                            (
                                SafetyRules {
                                    persistent_storage: spec_set_safety_data(
                                        s.persistent_storage,
                                        SafetyData { last_voted_round: p.round, ..d },
                                    ),
                                    ..s
                                },
                                Ok(
                                    Vote {
                                        proposal: p,
                                        author,
                                        signature: spec_sign(key, SignatureKind::Vote, p.epoch, p.round, p.id),
                                    },
                                ),
                            )
                        }
                    },
                    _ => (s, Err(Error::KeyNotFound)),
                }
            },
        }
    }
}

/// What `sign_proposal` does: sign the block exactly when the evaluator
/// is initialized, the key material is present, the epochs match and the
/// round moves past the preferred round; the bookkeeping is never
/// changed.
pub open spec fn spec_proposal_result(s: SafetyRules, b: Block) -> Result<Signature, Error> {
    if s.epoch_state is None {
        Err(Error::NotInitialized)
    } else {
        match s.persistent_storage.internal_store.safety_data {
            None => Err(Error::NotInitialized),
            Some(d) => {
                match (s.persistent_storage.internal_store.author, s.persistent_storage.internal_store.consensus_key) {
                    (Some(_author), Some(key)) => {
                        if b.epoch != d.epoch {
                            Err(Error::IncorrectEpoch { given: b.epoch, expected: d.epoch })
                        } else if b.round <= d.preferred_round {
                            Err(Error::IncorrectPreferredRound {
                                given: b.round,
                                preferred_round: d.preferred_round,
                            })
                        } else {
                            Ok(spec_sign(key, SignatureKind::Proposal, b.epoch, b.round, b.id))
                        }
                    },
                    _ => Err(Error::KeyNotFound),
                }
            },
        }
    }
}

/// What `sign_timeout` does: sign the timeout exactly when the evaluator
/// is initialized, the key material is present, the epochs match and the
/// round is not behind the last voted round; a timeout for a later round
/// advances the last voted round so the evaluator can never vote in a
/// round it already timed out.
pub open spec fn spec_timeout_step(s: SafetyRules, t: Timeout) -> (SafetyRules, Result<Signature, Error>) {
    if s.epoch_state is None {
        (s, Err(Error::NotInitialized))
    } else {
        match s.persistent_storage.internal_store.safety_data {
            None => (s, Err(Error::NotInitialized)),
            Some(d) => {
                match (s.persistent_storage.internal_store.author, s.persistent_storage.internal_store.consensus_key) {
                    (Some(_author), Some(key)) => {
                        if t.epoch != d.epoch {
                            (s, Err(Error::IncorrectEpoch { given: t.epoch, expected: d.epoch }))
                        } else if t.round < d.last_voted_round {
                            (
                                s,
                                Err(Error::IncorrectLastVotedRound {
                                    given: t.round,
                                    last_voted_round: d.last_voted_round,
                                }),
                            )
                        } else {
                            let next = if t.round > d.last_voted_round {
                                SafetyRules {
                                    persistent_storage: spec_set_safety_data(
                                        s.persistent_storage,
                                        SafetyData { last_voted_round: t.round, ..d },
                                    ),
                                    ..s
                                }
                            } else {
                                s
                            };
                            (next, Ok(spec_sign(key, SignatureKind::Timeout, t.epoch, t.round, 0)))
                        }
                    },
                    _ => (s, Err(Error::KeyNotFound)),
                }
            },
        }
    }
}

/// The uniform step: one request against the full evaluator state gives
/// the next state and the tagged response.
pub open spec fn spec_step(s: SafetyRules, input: SafetyRulesInput) -> (SafetyRules, SafetyRulesOutput) {
    match input {
        SafetyRulesInput::Initialize => {
            let r = spec_initialize_step(s);
            (r.0, SafetyRulesOutput::Initialize(r.1))
        },
        SafetyRulesInput::ConsensusState => (s, SafetyRulesOutput::ConsensusState(spec_consensus_state_result(s))),
        SafetyRulesInput::ConstructAndSignVote(p) => {
            let r = spec_vote_step(s, p);
            (r.0, SafetyRulesOutput::ConstructAndSignVote(r.1))
        },
        SafetyRulesInput::SignProposal(b) => (s, SafetyRulesOutput::SignProposal(spec_proposal_result(s, b))),
        SafetyRulesInput::SignTimeout(t) => {
            let r = spec_timeout_step(s, t);
            (r.0, SafetyRulesOutput::SignTimeout(r.1))
        },
    }
}

/// Whether a response carries a failure.
pub open spec fn output_is_err(o: SafetyRulesOutput) -> bool {
    match o {
        SafetyRulesOutput::Initialize(r) => r is Err,
        SafetyRulesOutput::ConsensusState(r) => r is Err,
        SafetyRulesOutput::ConstructAndSignVote(r) => r is Err,
        SafetyRulesOutput::SignProposal(r) => r is Err,
        SafetyRulesOutput::SignTimeout(r) => r is Err,
    }
}

/// Refusals mutate nothing: whenever a step answers with a failure, the
/// evaluator's state after the step is exactly the state before it.
pub proof fn lemma_refusal_preserves_state(s: SafetyRules, input: SafetyRulesInput)
    ensures
        output_is_err(spec_step(s, input).1) ==> spec_step(s, input).0 == s,
{
}

/// A whole batch of requests applied serially: the state after all of
/// them, and one response per request, each computed from the state
/// every earlier request left behind.
pub open spec fn spec_run(s: SafetyRules, inputs: Seq<SafetyRulesInput>) -> (
    SafetyRules,
    Seq<SafetyRulesOutput>,
)
    decreases inputs.len(),
{
    if inputs.len() == 0 {
        (s, Seq::empty())
    } else {
        let first = spec_step(s, inputs[0]);
        let rest = spec_run(first.0, inputs.subrange(1, inputs.len() as int));
        (rest.0, seq![first.1] + rest.1)
    }
}

/// Total ordering over a batch: extending a batch by one request
/// appends exactly one more response, computed from — and leaving —
/// the state of the serial fold.  With `spec_run`'s definition this
/// pins the whole batch to one serial order with no interleaving.
pub proof fn lemma_run_serial(s: SafetyRules, inputs: Seq<SafetyRulesInput>, last: SafetyRulesInput)
    ensures
        spec_run(s, inputs).1.len() == inputs.len(),
        spec_run(s, inputs.push(last)).0 == spec_step(spec_run(s, inputs).0, last).0,
        spec_run(s, inputs.push(last)).1 == spec_run(s, inputs).1.push(
            spec_step(spec_run(s, inputs).0, last).1,
        ),
    decreases inputs.len(),
{
    if inputs.len() == 0 {
        let pushed = inputs.push(last);
        assert(pushed[0] == last);
        assert(pushed.subrange(1, 1) =~= Seq::<SafetyRulesInput>::empty());
        assert(spec_run(spec_step(s, last).0, pushed.subrange(1, 1)).1
            =~= Seq::<SafetyRulesOutput>::empty());
        assert(spec_run(s, pushed).0 == spec_step(s, last).0);
        assert(spec_run(s, inputs).0 == s);
        assert(spec_run(s, pushed).1 =~= spec_run(s, inputs).1.push(
            spec_step(spec_run(s, inputs).0, last).1,
        ));
    } else {
        let first = spec_step(s, inputs[0]);
        let tail = inputs.subrange(1, inputs.len() as int);
        lemma_run_serial(first.0, tail, last);
        assert(inputs.push(last)[0] == inputs[0]);
        assert(inputs.push(last).subrange(1, inputs.len() as int + 1) =~= tail.push(last));
        assert(spec_run(s, inputs.push(last)).1 =~= spec_run(s, inputs).1.push(
            spec_step(spec_run(s, inputs).0, last).1,
        ));
    }
}

impl SafetyRules {
    pub open spec fn wf(self) -> bool {
        self.persistent_storage.wf()
    }

    /// One evaluator over the bootstrapped storage; not yet initialized.
    pub fn new(
        persistent_storage: PersistentSafetyStorage,
        verify_vote_proposal_signature: bool,
        export_consensus_key: bool,
    ) -> (r: Self)
        ensures
            r.persistent_storage == persistent_storage,
            r.verify_vote_proposal_signature == verify_vote_proposal_signature,
            r.export_consensus_key == export_consensus_key,
            r.epoch_state is None,
    {
        SafetyRules {
            persistent_storage,
            verify_vote_proposal_signature,
            export_consensus_key,
            epoch_state: None,
        }
    }

    /// Align the evaluator with the stored waypoint.
    pub fn initialize(&mut self) -> (r: Result<(), Error>)
        requires
            old(self).wf(),
        ensures
            final(self).wf(),
            *final(self) == spec_initialize_step(*old(self)).0,
            r == spec_initialize_step(*old(self)).1,
    {
        match self.persistent_storage.waypoint() {
            None => Err(Error::NotInitialized),
            Some(w) => {
                let aligned = match self.persistent_storage.safety_data() {
                    Some(d) => d.epoch == w.epoch,
                    None => false,
                };
                if !aligned {
                    let fresh = fresh_safety_data(w.epoch);
                    self.persistent_storage.set_safety_data(fresh);
                }
                self.epoch_state = Some(w.epoch);
                Ok(())
            },
        }
    }

    /// Report the persisted bookkeeping; mutates nothing.
    pub fn consensus_state(&mut self) -> (r: Result<ConsensusState, Error>)
        requires
            old(self).wf(),
        ensures
            *final(self) == *old(self),
            r == spec_consensus_state_result(*old(self)),
    {
        match self.persistent_storage.safety_data() {
            None => Err(Error::NotInitialized),
            Some(d) => Ok(
                ConsensusState {
                    epoch: d.epoch,
                    last_voted_round: d.last_voted_round,
                    preferred_round: d.preferred_round,
                },
            ),
        }
    }

    /// Vote on the proposal if doing so is safe; see `spec_vote_step`.
    pub fn construct_and_sign_vote(&mut self, proposal: &VoteProposal) -> (r: Result<Vote, Error>)
        requires
            old(self).wf(),
        ensures
            final(self).wf(),
            *final(self) == spec_vote_step(*old(self), *proposal).0,
            r == spec_vote_step(*old(self), *proposal).1,
    {
        if self.epoch_state.is_none() {
            return Err(Error::NotInitialized);
        }
        let d = match self.persistent_storage.safety_data() {
            None => {
                return Err(Error::NotInitialized);
            },
            Some(d) => d,
        };
        let author = match self.persistent_storage.author() {
            None => {
                return Err(Error::KeyNotFound);
            },
            Some(a) => a,
        };
        let key = match self.persistent_storage.consensus_key() {
            None => {
                return Err(Error::KeyNotFound);
            },
            Some(k) => k,
        };
        if proposal.epoch != d.epoch {
            Err(Error::IncorrectEpoch { given: proposal.epoch, expected: d.epoch })
        } else if proposal.round <= d.last_voted_round {
            Err(Error::IncorrectLastVotedRound { given: proposal.round, last_voted_round: d.last_voted_round })
        } else {
            self.persistent_storage.set_safety_data(
                SafetyData {
                    epoch: d.epoch,
                    last_voted_round: proposal.round,
                    preferred_round: d.preferred_round,
                },
            );
            Ok(
                Vote {
                    proposal: *proposal,
                    author,
                    signature: sign(&key, SignatureKind::Vote, proposal.epoch, proposal.round, proposal.id),
                },
            )
        }
    }

    /// Sign the block if doing so is safe; see `spec_proposal_result`.
    pub fn sign_proposal(&mut self, block: &Block) -> (r: Result<Signature, Error>)
        requires
            old(self).wf(),
        ensures
            *final(self) == *old(self),
            r == spec_proposal_result(*old(self), *block),
    {
        if self.epoch_state.is_none() {
            return Err(Error::NotInitialized);
        }
        let d = match self.persistent_storage.safety_data() {
            None => {
                return Err(Error::NotInitialized);
            },
            Some(d) => d,
        };
        if self.persistent_storage.author().is_none() {
            return Err(Error::KeyNotFound);
        }
        let key = match self.persistent_storage.consensus_key() {
            None => {
                return Err(Error::KeyNotFound);
            },
            Some(k) => k,
        };
        if block.epoch != d.epoch {
            Err(Error::IncorrectEpoch { given: block.epoch, expected: d.epoch })
        } else if block.round <= d.preferred_round {
            Err(Error::IncorrectPreferredRound { given: block.round, preferred_round: d.preferred_round })
        } else {
            Ok(sign(&key, SignatureKind::Proposal, block.epoch, block.round, block.id))
        }
    }

    /// Sign the timeout if doing so is safe; see `spec_timeout_step`.
    pub fn sign_timeout(&mut self, timeout: &Timeout) -> (r: Result<Signature, Error>)
        requires
            old(self).wf(),
        ensures
            final(self).wf(),
            *final(self) == spec_timeout_step(*old(self), *timeout).0,
            r == spec_timeout_step(*old(self), *timeout).1,
    {
        if self.epoch_state.is_none() {
            return Err(Error::NotInitialized);
        }
        let d = match self.persistent_storage.safety_data() {
            None => {
                return Err(Error::NotInitialized);
            },
            Some(d) => d,
        };
        if self.persistent_storage.author().is_none() {
            return Err(Error::KeyNotFound);
        }
        let key = match self.persistent_storage.consensus_key() {
            None => {
                return Err(Error::KeyNotFound);
            },
            Some(k) => k,
        };
        if timeout.epoch != d.epoch {
            Err(Error::IncorrectEpoch { given: timeout.epoch, expected: d.epoch })
        } else if timeout.round < d.last_voted_round {
            Err(Error::IncorrectLastVotedRound { given: timeout.round, last_voted_round: d.last_voted_round })
        } else {
            if timeout.round > d.last_voted_round {
                self.persistent_storage.set_safety_data(
                    SafetyData {
                        epoch: d.epoch,
                        last_voted_round: timeout.round,
                        preferred_round: d.preferred_round,
                    },
                );
            }
            Ok(sign(&key, SignatureKind::Timeout, timeout.epoch, timeout.round, 0))
        }
    }

    /// Route one request of the uniform contract to its operation.
    pub fn process(&mut self, input: &SafetyRulesInput) -> (r: SafetyRulesOutput)
        requires
            old(self).wf(),
        ensures
            final(self).wf(),
            *final(self) == spec_step(*old(self), *input).0,
            r == spec_step(*old(self), *input).1,
    {
        match input {
            SafetyRulesInput::Initialize => SafetyRulesOutput::Initialize(self.initialize()),
            SafetyRulesInput::ConsensusState => SafetyRulesOutput::ConsensusState(self.consensus_state()),
            SafetyRulesInput::ConstructAndSignVote(p) => SafetyRulesOutput::ConstructAndSignVote(
                self.construct_and_sign_vote(p),
            ),
            SafetyRulesInput::SignProposal(b) => SafetyRulesOutput::SignProposal(self.sign_proposal(b)),
            SafetyRulesInput::SignTimeout(t) => SafetyRulesOutput::SignTimeout(self.sign_timeout(t)),
        }
    }

    /// Process a batch of requests one at a time, in order.  The result
    /// is exactly the serial fold `spec_run`: as many responses as
    /// requests, and a final state as if no other request ever ran in
    /// between.
    pub fn process_all(&mut self, inputs: &Vec<SafetyRulesInput>) -> (r: Vec<SafetyRulesOutput>)
        requires
            old(self).wf(),
        ensures
            final(self).wf(),
            *final(self) == spec_run(*old(self), inputs@).0,
            r@ == spec_run(*old(self), inputs@).1,
    {
        let ghost start = *self;
        let mut outputs: Vec<SafetyRulesOutput> = Vec::new();
        let mut k: usize = 0;
        proof {
            assert(inputs@.subrange(0, 0) =~= Seq::<SafetyRulesInput>::empty());
        }
        while k < inputs.len()
            invariant
                k <= inputs@.len(),
                self.wf(),
                *self == spec_run(start, inputs@.subrange(0, k as int)).0,
                outputs@ == spec_run(start, inputs@.subrange(0, k as int)).1,
            decreases inputs@.len() - k,
        {
            let input = inputs[k];
            let output = self.process(&input);
            outputs.push(output);
            proof {
                lemma_run_serial(start, inputs@.subrange(0, k as int), inputs@[k as int]);
                assert(inputs@.subrange(0, k + 1) =~= inputs@.subrange(0, k as int).push(
                    inputs@[k as int],
                ));
            }
            k = k + 1;
        }
        proof {
            assert(inputs@.subrange(0, inputs@.len() as int) =~= inputs@);
        }
        outputs
    }
}

} // verus!
