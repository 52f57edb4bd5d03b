use safety_rules::config::{InitialSafetyRulesConfig, SafetyRulesConfig, SafetyRulesService,
    SafetyRulesTestConfig, Waypoint};
use safety_rules::crypto::{verify, PrivateKey, PublicKey, SignatureKind};
use safety_rules::safety_rules::{Block, Error, SafetyRules, Timeout, VoteProposal};
use safety_rules::safety_rules_manager::storage;
use safety_rules::secure_storage::{SafetyData, SecureBackend};

fn seeded_evaluator(author: u64, key: u64, epoch: u64, cached: bool) -> SafetyRules {
    let config = SafetyRulesConfig {
        service: SafetyRulesService::Local,
        network_timeout_ms: 30_000,
        verify_vote_proposal_signature: true,
        export_consensus_key: false,
        test: Some(SafetyRulesTestConfig {
            author,
            consensus_key: Some(PrivateKey { value: key }),
            execution_key: Some(PrivateKey { value: key + 1 }),
            waypoint: Some(Waypoint { version: 0, epoch }),
        }),
        initial_safety_rules_config: InitialSafetyRulesConfig::NotProvided,
        enable_cached_safety_data: cached,
    };
    let st = storage(&config, SecureBackend::new_empty()).unwrap();
    SafetyRules::new(st, true, false)
}

#[test]
fn operations_refused_before_initialize() {
    let mut sr = seeded_evaluator(1, 10, 1, true);
    let vote = sr.construct_and_sign_vote(&VoteProposal { epoch: 1, round: 1, id: 5 });
    assert_eq!(vote, Err(Error::NotInitialized));
    let sig = sr.sign_proposal(&Block { epoch: 1, round: 1, id: 5 });
    assert_eq!(sig, Err(Error::NotInitialized));
    let sig = sr.sign_timeout(&Timeout { epoch: 1, round: 1 });
    assert_eq!(sig, Err(Error::NotInitialized));
}

#[test]
fn initialize_aligns_epoch_with_waypoint() {
    let mut sr = seeded_evaluator(1, 10, 4, true);
    assert_eq!(sr.initialize(), Ok(()));
    let state = sr.consensus_state().unwrap();
    assert_eq!(state.epoch, 4);
    assert_eq!(state.last_voted_round, 0);
    assert_eq!(state.preferred_round, 0);
}

#[test]
fn vote_round_one_signed_by_configured_author() {
    // Scenario: storage seeded via test config (author=A, waypoint=W0),
    // local evaluator, initialize, then vote for round 1 under the
    // waypoint's epoch.
    let author: u64 = 11;
    let key: u64 = 900;
    let mut sr = seeded_evaluator(author, key, 1, true);
    assert_eq!(sr.initialize(), Ok(()));
    let vote = sr
        .construct_and_sign_vote(&VoteProposal { epoch: 1, round: 1, id: 77 })
        .unwrap();
    assert_eq!(vote.author, author);
    assert_eq!(vote.signature.signer, PublicKey { value: key });
    assert_eq!(vote.signature.kind, SignatureKind::Vote);
    assert_eq!(vote.signature.epoch, 1);
    assert_eq!(vote.signature.round, 1);
    assert_eq!(vote.signature.id, 77);

    // A subsequent, earlier round on the same epoch: safety refusal,
    // state unchanged.
    let before = sr.consensus_state().unwrap();
    let refused = sr.construct_and_sign_vote(&VoteProposal { epoch: 1, round: 0, id: 78 });
    assert_eq!(
        refused,
        Err(Error::IncorrectLastVotedRound { given: 0, last_voted_round: 1 })
    );
    let after = sr.consensus_state().unwrap();
    assert_eq!(before, after);
}

#[test]
fn double_vote_same_round_refused() {
    let mut sr = seeded_evaluator(1, 10, 1, true);
    sr.initialize().unwrap();
    sr.construct_and_sign_vote(&VoteProposal { epoch: 1, round: 3, id: 1 })
        .unwrap();
    let second = sr.construct_and_sign_vote(&VoteProposal { epoch: 1, round: 3, id: 2 });
    assert_eq!(
        second,
        Err(Error::IncorrectLastVotedRound { given: 3, last_voted_round: 3 })
    );
}

#[test]
fn vote_wrong_epoch_refused_without_mutation() {
    let mut sr = seeded_evaluator(1, 10, 2, true);
    sr.initialize().unwrap();
    let before = sr.consensus_state().unwrap();
    let refused = sr.construct_and_sign_vote(&VoteProposal { epoch: 5, round: 1, id: 1 });
    assert_eq!(refused, Err(Error::IncorrectEpoch { given: 5, expected: 2 }));
    assert_eq!(sr.consensus_state().unwrap(), before);
}

#[test]
fn sign_proposal_respects_preferred_round() {
    let mut sr = seeded_evaluator(1, 10, 1, true);
    sr.initialize().unwrap();
    let sig = sr.sign_proposal(&Block { epoch: 1, round: 2, id: 9 }).unwrap();
    assert_eq!(sig.kind, SignatureKind::Proposal);
    assert_eq!(sig.round, 2);
    // preferred_round stays 0, so round 0 is refused.
    let refused = sr.sign_proposal(&Block { epoch: 1, round: 0, id: 9 });
    assert_eq!(
        refused,
        Err(Error::IncorrectPreferredRound { given: 0, preferred_round: 0 })
    );
}

#[test]
fn sign_timeout_advances_last_voted_round() {
    let mut sr = seeded_evaluator(1, 10, 1, true);
    sr.initialize().unwrap();
    let sig = sr.sign_timeout(&Timeout { epoch: 1, round: 5 }).unwrap();
    assert_eq!(sig.kind, SignatureKind::Timeout);
    assert_eq!(sr.consensus_state().unwrap().last_voted_round, 5);
    // Voting in the timed-out round is now refused.
    let refused = sr.construct_and_sign_vote(&VoteProposal { epoch: 1, round: 5, id: 1 });
    assert_eq!(
        refused,
        Err(Error::IncorrectLastVotedRound { given: 5, last_voted_round: 5 })
    );
    // A timeout for the same round is still signable.
    assert!(sr.sign_timeout(&Timeout { epoch: 1, round: 5 }).is_ok());
    // A timeout behind the last voted round is refused.
    let refused = sr.sign_timeout(&Timeout { epoch: 1, round: 4 });
    assert_eq!(
        refused,
        Err(Error::IncorrectLastVotedRound { given: 4, last_voted_round: 5 })
    );
}

#[test]
fn vote_signature_verifies_against_public_key() {
    let mut sr = seeded_evaluator(2, 300, 1, true);
    sr.initialize().unwrap();
    let vote = sr
        .construct_and_sign_vote(&VoteProposal { epoch: 1, round: 2, id: 8 })
        .unwrap();
    let pk = PublicKey { value: 300 };
    assert!(verify(&vote.signature, &pk, SignatureKind::Vote, 1, 2, 8));
    assert!(!verify(&vote.signature, &pk, SignatureKind::Vote, 1, 2, 9));
    assert!(!verify(&vote.signature, &PublicKey { value: 301 }, SignatureKind::Vote, 1, 2, 8));
    assert!(!verify(&vote.signature, &pk, SignatureKind::Timeout, 1, 2, 8));
}

#[test]
fn missing_key_material_is_reported() {
    // A production store that resolves an author but has lost its
    // consensus key: the evaluator refuses to sign, with a distinct
    // error.
    let mut backend = SecureBackend::new_empty();
    backend.author = Some(5);
    backend.waypoint = Some(Waypoint { version: 0, epoch: 1 });
    backend.safety_data = Some(SafetyData { epoch: 1, last_voted_round: 0, preferred_round: 0 });
    let config = SafetyRulesConfig {
        service: SafetyRulesService::Local,
        network_timeout_ms: 30_000,
        verify_vote_proposal_signature: true,
        export_consensus_key: false,
        test: None,
        initial_safety_rules_config: InitialSafetyRulesConfig::NotProvided,
        enable_cached_safety_data: false,
    };
    let st = storage(&config, backend).unwrap();
    let mut sr = SafetyRules::new(st, true, false);
    sr.initialize().unwrap();
    let vote = sr.construct_and_sign_vote(&VoteProposal { epoch: 1, round: 1, id: 1 });
    assert_eq!(vote, Err(Error::KeyNotFound));
}

#[test]
fn cache_enabled_and_disabled_agree() {
    let mut cached = seeded_evaluator(1, 10, 1, true);
    let mut plain = seeded_evaluator(1, 10, 1, false);
    cached.initialize().unwrap();
    plain.initialize().unwrap();
    for round in [1u64, 2, 4, 3, 9] {
        let a = cached.construct_and_sign_vote(&VoteProposal { epoch: 1, round, id: round });
        let b = plain.construct_and_sign_vote(&VoteProposal { epoch: 1, round, id: round });
        assert_eq!(a, b);
    }
    assert_eq!(cached.consensus_state().unwrap(), plain.consensus_state().unwrap());
}
