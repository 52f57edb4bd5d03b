use safety_rules::crypto::{PublicKey, Signature, SignatureKind};
use safety_rules::safety_rules::{
    Block, ConsensusState, Error, SafetyRulesInput, SafetyRulesOutput, Timeout, Vote,
    VoteProposal,
};
use safety_rules::serializer::{decode_input, decode_output, encode_input, encode_output};

fn input_round_trips(input: SafetyRulesInput) {
    let bytes = encode_input(&input);
    assert_eq!(decode_input(bytes.as_slice()), Some(input));
}

fn output_round_trips(output: SafetyRulesOutput) {
    let bytes = encode_output(&output);
    assert_eq!(decode_output(bytes.as_slice()), Some(output));
}

#[test]
fn every_request_kind_round_trips() {
    input_round_trips(SafetyRulesInput::Initialize);
    input_round_trips(SafetyRulesInput::ConsensusState);
    input_round_trips(SafetyRulesInput::ConstructAndSignVote(VoteProposal {
        epoch: 3,
        round: 0x1234_5678_9abc_def0,
        id: u64::MAX,
    }));
    input_round_trips(SafetyRulesInput::SignProposal(Block { epoch: 0, round: 1, id: 2 }));
    input_round_trips(SafetyRulesInput::SignTimeout(Timeout { epoch: 9, round: 9 }));
}

#[test]
fn request_encoding_is_distinguishable() {
    let a = encode_input(&SafetyRulesInput::ConstructAndSignVote(VoteProposal {
        epoch: 1,
        round: 2,
        id: 3,
    }));
    let b = encode_input(&SafetyRulesInput::SignProposal(Block { epoch: 1, round: 2, id: 3 }));
    assert_ne!(a, b);
    let c = encode_input(&SafetyRulesInput::Initialize);
    assert_eq!(c, vec![1u8]);
}

#[test]
fn every_response_kind_round_trips() {
    let sig = Signature {
        signer: PublicKey { value: 42 },
        kind: SignatureKind::Proposal,
        epoch: 1,
        round: 2,
        id: 3,
    };
    output_round_trips(SafetyRulesOutput::Initialize(Ok(())));
    output_round_trips(SafetyRulesOutput::ConsensusState(Ok(ConsensusState {
        epoch: 7,
        last_voted_round: 8,
        preferred_round: 9,
    })));
    output_round_trips(SafetyRulesOutput::ConstructAndSignVote(Ok(Vote {
        proposal: VoteProposal { epoch: 1, round: 2, id: 3 },
        author: 11,
        signature: Signature {
            signer: PublicKey { value: 5 },
            kind: SignatureKind::Vote,
            epoch: 1,
            round: 2,
            id: 3,
        },
    })));
    output_round_trips(SafetyRulesOutput::SignProposal(Ok(sig)));
    output_round_trips(SafetyRulesOutput::SignTimeout(Ok(Signature {
        signer: PublicKey { value: 5 },
        kind: SignatureKind::Timeout,
        epoch: 4,
        round: 6,
        id: 0,
    })));
}

#[test]
fn every_error_kind_round_trips() {
    let errors = [
        Error::NotInitialized,
        Error::KeyNotFound,
        Error::IncorrectEpoch { given: 1, expected: 2 },
        Error::IncorrectLastVotedRound { given: 3, last_voted_round: 4 },
        Error::IncorrectPreferredRound { given: 5, preferred_round: 6 },
        Error::SerializationError,
        Error::TimedOut,
        Error::TransportError,
    ];
    for e in errors {
        output_round_trips(SafetyRulesOutput::Initialize(Err(e)));
        output_round_trips(SafetyRulesOutput::ConsensusState(Err(e)));
        output_round_trips(SafetyRulesOutput::ConstructAndSignVote(Err(e)));
        output_round_trips(SafetyRulesOutput::SignProposal(Err(e)));
        output_round_trips(SafetyRulesOutput::SignTimeout(Err(e)));
    }
}

#[test]
fn garbage_bytes_do_not_decode() {
    assert_eq!(decode_input(&[]), None);
    assert_eq!(decode_input(&[0u8]), None);
    assert_eq!(decode_input(&[99u8]), None);
    // Right tag, wrong length.
    assert_eq!(decode_input(&[3u8, 1, 2]), None);
    assert_eq!(decode_output(&[]), None);
    assert_eq!(decode_output(&[1u8]), None);
    // Unknown ok/err flag.
    assert_eq!(decode_output(&[1u8, 7u8]), None);
    // Unknown signature kind byte inside an otherwise well-formed
    // proposal response.
    let mut bytes = encode_output(&SafetyRulesOutput::SignProposal(Ok(Signature {
        signer: PublicKey { value: 1 },
        kind: SignatureKind::Vote,
        epoch: 1,
        round: 1,
        id: 1,
    })));
    bytes[10] = 200;
    assert_eq!(decode_output(bytes.as_slice()), None);
}
