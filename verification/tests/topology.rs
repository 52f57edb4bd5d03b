use safety_rules::config::{InitialSafetyRulesConfig, SafetyRulesConfig, SafetyRulesService,
    SafetyRulesTestConfig, Waypoint};
use safety_rules::crypto::PrivateKey;
use safety_rules::safety_rules::{Error, SafetyRulesInput, SafetyRulesOutput, SafetyRules,
    VoteProposal};
use safety_rules::safety_rules_manager::{SafetyRulesClient, SafetyRulesManager, storage};
use safety_rules::secure_storage::SecureBackend;
use safety_rules::serializer::{decode_output, encode_input, SerializerService};

fn seeded_config(service: SafetyRulesService) -> SafetyRulesConfig {
    SafetyRulesConfig {
        service,
        network_timeout_ms: 30_000,
        verify_vote_proposal_signature: true,
        export_consensus_key: false,
        test: Some(SafetyRulesTestConfig {
            author: 3,
            consensus_key: Some(PrivateKey { value: 40 }),
            execution_key: Some(PrivateKey { value: 41 }),
            waypoint: Some(Waypoint { version: 0, epoch: 1 }),
        }),
        initial_safety_rules_config: InitialSafetyRulesConfig::NotProvided,
        enable_cached_safety_data: true,
    }
}

fn call_sequence() -> Vec<SafetyRulesInput> {
    vec![
        SafetyRulesInput::Initialize,
        SafetyRulesInput::ConsensusState,
        SafetyRulesInput::ConstructAndSignVote(VoteProposal { epoch: 1, round: 1, id: 10 }),
        SafetyRulesInput::ConstructAndSignVote(VoteProposal { epoch: 1, round: 1, id: 11 }),
        SafetyRulesInput::ConstructAndSignVote(VoteProposal { epoch: 1, round: 3, id: 12 }),
        SafetyRulesInput::SignTimeout(safety_rules::safety_rules::Timeout { epoch: 1, round: 4 }),
        SafetyRulesInput::ConsensusState,
    ]
}

fn run_through_manager(service: SafetyRulesService) -> Vec<SafetyRulesOutput> {
    let config = seeded_config(service);
    let mut manager = SafetyRulesManager::new(&config, SecureBackend::new_empty()).unwrap();
    assert_eq!(manager.client(), SafetyRulesClient::Direct);
    call_sequence()
        .iter()
        .map(|input| manager.handle(input).expect("in-process topology answers directly"))
        .collect()
}

#[test]
fn local_and_thread_topologies_answer_identically() {
    // Identical seeded state, identical ordered calls: the response
    // sequences must agree, and the serializer topology agrees too.
    let local = run_through_manager(SafetyRulesService::Local);
    let thread = run_through_manager(SafetyRulesService::Thread);
    let serializer = run_through_manager(SafetyRulesService::Serializer);
    assert_eq!(local, thread);
    assert_eq!(local, serializer);
    // And the sequence really exercised both success and refusal.
    assert!(matches!(local[2], SafetyRulesOutput::ConstructAndSignVote(Ok(_))));
    assert!(matches!(local[3], SafetyRulesOutput::ConstructAndSignVote(Err(_))));
}

#[test]
fn batch_processing_gives_one_response_per_request_in_order() {
    let config = seeded_config(SafetyRulesService::Local);
    let st = storage(&config, SecureBackend::new_empty()).unwrap();
    let mut sr = SafetyRules::new(st, true, false);
    let inputs = call_sequence();
    let outputs = sr.process_all(&inputs);
    assert_eq!(outputs.len(), inputs.len());
    // The batch equals the same calls issued one at a time.
    let st2 = storage(&config, SecureBackend::new_empty()).unwrap();
    let mut one_at_a_time = SafetyRules::new(st2, true, false);
    let singly: Vec<SafetyRulesOutput> = inputs
        .iter()
        .map(|input| one_at_a_time.process(input))
        .collect();
    assert_eq!(outputs, singly);
}

#[test]
fn manager_batch_equals_single_calls() {
    let config = seeded_config(SafetyRulesService::Thread);
    let mut batched = SafetyRulesManager::new(&config, SecureBackend::new_empty()).unwrap();
    let mut singly = SafetyRulesManager::new(&config, SecureBackend::new_empty()).unwrap();
    let inputs = call_sequence();
    let batch_outputs = batched.handle_all(&inputs);
    assert_eq!(batch_outputs.len(), inputs.len());
    for (input, batched_output) in inputs.iter().zip(batch_outputs) {
        assert_eq!(singly.handle(input), batched_output);
    }
}

#[test]
fn serializer_service_refuses_garbage() {
    let config = seeded_config(SafetyRulesService::Serializer);
    let st = storage(&config, SecureBackend::new_empty()).unwrap();
    let mut service = SerializerService::new(SafetyRules::new(st, true, false));
    let before = service.internal;
    assert_eq!(
        service.handle_message(&vec![0u8, 1, 2, 3]),
        Err(Error::SerializationError)
    );
    assert_eq!(service.internal, before);
}

#[test]
fn serializer_service_answers_encoded_requests() {
    let config = seeded_config(SafetyRulesService::Serializer);
    let st = storage(&config, SecureBackend::new_empty()).unwrap();
    let mut service = SerializerService::new(SafetyRules::new(st, true, false));
    let init = service
        .handle_message(&encode_input(&SafetyRulesInput::Initialize))
        .unwrap();
    assert_eq!(
        decode_output(init.as_slice()),
        Some(SafetyRulesOutput::Initialize(Ok(())))
    );
    let vote_req = encode_input(&SafetyRulesInput::ConstructAndSignVote(VoteProposal {
        epoch: 1,
        round: 2,
        id: 5,
    }));
    let vote_resp = service.handle_message(&vote_req).unwrap();
    match decode_output(vote_resp.as_slice()) {
        Some(SafetyRulesOutput::ConstructAndSignVote(Ok(vote))) => {
            assert_eq!(vote.proposal, VoteProposal { epoch: 1, round: 2, id: 5 });
            assert_eq!(vote.author, 3);
        },
        other => panic!("unexpected response: {:?}", other),
    }
}
