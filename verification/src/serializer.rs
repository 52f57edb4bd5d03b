//! Wire codec for the uniform operation contract, and the serializer
//! topology built on it.
//!
//! The thread and process topologies marshal every request and response
//! through this encoding; the serializer topology performs the same
//! encode/decode round trip in process, with no transport, purely to keep
//! the wire schema honest.  The fidelity laws `lemma_input_round_trip` and
//! `lemma_output_round_trip` state that decoding an encoded value always
//! gives the value back.
//!
//! Layout: one tag byte per request kind, then the request's fields as
//! little-endian 64-bit words.  A response carries its operation tag, an
//! ok/err byte, and then either the artifact's fields or an error tag with
//! the error's fields.

use crate::crypto::{PublicKey, Signature, SignatureKind};
use crate::safety_rules::{
    Block, ConsensusState, Error, SafetyRules, SafetyRulesInput, SafetyRulesOutput, Timeout,
    Vote, VoteProposal, spec_step,
};
use vstd::bytes::{
    lemma_auto_spec_u64_to_from_le_bytes, spec_u64_from_le_bytes, spec_u64_to_le_bytes,
    u64_from_le_bytes, u64_to_le_bytes,
};
use vstd::prelude::*;
use vstd::slice::slice_subrange;

verus! {

/// The 64-bit word stored little-endian at offset `i`.
pub open spec fn spec_u64_at(s: Seq<u8>, i: int) -> u64 {
    spec_u64_from_le_bytes(s.subrange(i, i + 8))
}

fn push_u64(out: &mut Vec<u8>, x: u64)
    ensures
        final(out)@ == old(out)@ + spec_u64_to_le_bytes(x),
{
    let mut bytes = u64_to_le_bytes(x);
    out.append(&mut bytes);
}

fn read_u64(bytes: &[u8], i: usize) -> (r: u64)
    requires
        i + 8 <= bytes@.len(),
    ensures
        r == spec_u64_at(bytes@, i as int),
{
    // Binding the length shows Verus that `i + 8` fits in usize.
    let n = bytes.len();
    proof {
        assert(i + 8 <= n);
    }
    let sub = slice_subrange(bytes, i, i + 8);
    u64_from_le_bytes(sub)
}

// ---------------------------------------------------------------------
// Requests
// ---------------------------------------------------------------------

pub open spec fn spec_encode_input(input: SafetyRulesInput) -> Seq<u8> {
    match input {
        SafetyRulesInput::Initialize => seq![1u8],
        SafetyRulesInput::ConsensusState => seq![2u8],
        SafetyRulesInput::ConstructAndSignVote(p) => seq![3u8] + spec_u64_to_le_bytes(p.epoch)
            + spec_u64_to_le_bytes(p.round) + spec_u64_to_le_bytes(p.id),
        SafetyRulesInput::SignProposal(b) => seq![4u8] + spec_u64_to_le_bytes(b.epoch)
            + spec_u64_to_le_bytes(b.round) + spec_u64_to_le_bytes(b.id),
        SafetyRulesInput::SignTimeout(t) => seq![5u8] + spec_u64_to_le_bytes(t.epoch)
            + spec_u64_to_le_bytes(t.round),
    }
}

pub open spec fn spec_decode_input(s: Seq<u8>) -> Option<SafetyRulesInput> {
    if s.len() == 0 {
        None
    } else if s[0] == 1 {
        if s.len() == 1 {
            Some(SafetyRulesInput::Initialize)
        } else {
            None
        }
    } else if s[0] == 2 {
        if s.len() == 1 {
            Some(SafetyRulesInput::ConsensusState)
        } else {
            None
        }
    } else if s[0] == 3 {
        if s.len() == 25 {
            Some(
                SafetyRulesInput::ConstructAndSignVote(
                    VoteProposal {
                        epoch: spec_u64_at(s, 1),
                        round: spec_u64_at(s, 9),
                        id: spec_u64_at(s, 17),
                    },
                ),
            )
        } else {
            None
        }
    } else if s[0] == 4 {
        if s.len() == 25 {
            Some(
                SafetyRulesInput::SignProposal(
                    Block {
                        epoch: spec_u64_at(s, 1),
                        round: spec_u64_at(s, 9),
                        id: spec_u64_at(s, 17),
                    },
                ),
            )
        } else {
            None
        }
    } else if s[0] == 5 {
        if s.len() == 17 {
            Some(
                SafetyRulesInput::SignTimeout(
                    Timeout { epoch: spec_u64_at(s, 1), round: spec_u64_at(s, 9) },
                ),
            )
        } else {
            None
        }
    } else {
        None
    }
}

pub fn encode_input(input: &SafetyRulesInput) -> (r: Vec<u8>)
    ensures
        r@ == spec_encode_input(*input),
{
    let mut out: Vec<u8> = Vec::new();
    match input {
        SafetyRulesInput::Initialize => {
            out.push(1u8);
        },
        SafetyRulesInput::ConsensusState => {
            out.push(2u8);
        },
        SafetyRulesInput::ConstructAndSignVote(p) => {
            out.push(3u8);
            push_u64(&mut out, p.epoch);
            push_u64(&mut out, p.round);
            push_u64(&mut out, p.id);
        },
        SafetyRulesInput::SignProposal(b) => {
            out.push(4u8);
            push_u64(&mut out, b.epoch);
            push_u64(&mut out, b.round);
            push_u64(&mut out, b.id);
        },
        SafetyRulesInput::SignTimeout(t) => {
            out.push(5u8);
            push_u64(&mut out, t.epoch);
            push_u64(&mut out, t.round);
        },
    }
    proof {
        assert(out@ =~= spec_encode_input(*input));
    }
    out
}

pub fn decode_input(bytes: &[u8]) -> (r: Option<SafetyRulesInput>)
    ensures
        r == spec_decode_input(bytes@),
{
    proof {
        lemma_auto_spec_u64_to_from_le_bytes();
    }
    if bytes.len() == 0 {
        return None;
    }
    let tag = bytes[0];
    if tag == 1 {
        if bytes.len() == 1 {
            Some(SafetyRulesInput::Initialize)
        } else {
            None
        }
    } else if tag == 2 {
        if bytes.len() == 1 {
            Some(SafetyRulesInput::ConsensusState)
        } else {
            None
        }
    } else if tag == 3 {
        if bytes.len() == 25 {
            Some(
                SafetyRulesInput::ConstructAndSignVote(
                    VoteProposal {
                        epoch: read_u64(bytes, 1),
                        round: read_u64(bytes, 9),
                        id: read_u64(bytes, 17),
                    },
                ),
            )
        } else {
            None
        }
    } else if tag == 4 {
        if bytes.len() == 25 {
            Some(
                SafetyRulesInput::SignProposal(
                    Block {
                        epoch: read_u64(bytes, 1),
                        round: read_u64(bytes, 9),
                        id: read_u64(bytes, 17),
                    },
                ),
            )
        } else {
            None
        }
    } else if tag == 5 {
        if bytes.len() == 17 {
            Some(
                SafetyRulesInput::SignTimeout(
                    Timeout { epoch: read_u64(bytes, 1), round: read_u64(bytes, 9) },
                ),
            )
        } else {
            None
        }
    } else {
        None
    }
}

/// Request fidelity: decoding an encoded request gives the request back.
pub proof fn lemma_input_round_trip(input: SafetyRulesInput)
    ensures
        spec_decode_input(spec_encode_input(input)) == Some(input),
{
    lemma_auto_spec_u64_to_from_le_bytes();
    let s = spec_encode_input(input);
    match input {
        SafetyRulesInput::Initialize => {},
        SafetyRulesInput::ConsensusState => {},
        SafetyRulesInput::ConstructAndSignVote(p) => {
            assert(s.subrange(1, 9) =~= spec_u64_to_le_bytes(p.epoch));
            assert(s.subrange(9, 17) =~= spec_u64_to_le_bytes(p.round));
            assert(s.subrange(17, 25) =~= spec_u64_to_le_bytes(p.id));
        },
        SafetyRulesInput::SignProposal(b) => {
            assert(s.subrange(1, 9) =~= spec_u64_to_le_bytes(b.epoch));
            assert(s.subrange(9, 17) =~= spec_u64_to_le_bytes(b.round));
            assert(s.subrange(17, 25) =~= spec_u64_to_le_bytes(b.id));
        },
        SafetyRulesInput::SignTimeout(t) => {
            assert(s.subrange(1, 9) =~= spec_u64_to_le_bytes(t.epoch));
            assert(s.subrange(9, 17) =~= spec_u64_to_le_bytes(t.round));
        },
    }
}

// ---------------------------------------------------------------------
// Signatures and errors
// ---------------------------------------------------------------------

pub open spec fn spec_encode_kind(k: SignatureKind) -> u8 {
    match k {
        SignatureKind::Vote => 1u8,
        SignatureKind::Proposal => 2u8,
        SignatureKind::Timeout => 3u8,
    }
}

pub open spec fn spec_decode_kind(b: u8) -> Option<SignatureKind> {
    if b == 1 {
        Some(SignatureKind::Vote)
    } else if b == 2 {
        Some(SignatureKind::Proposal)
    } else if b == 3 {
        Some(SignatureKind::Timeout)
    } else {
        None
    }
}

pub open spec fn spec_encode_signature(sig: Signature) -> Seq<u8> {
    spec_u64_to_le_bytes(sig.signer.value) + seq![spec_encode_kind(sig.kind)]
        + spec_u64_to_le_bytes(sig.epoch) + spec_u64_to_le_bytes(sig.round)
        + spec_u64_to_le_bytes(sig.id)
}

pub open spec fn spec_decode_signature(s: Seq<u8>) -> Option<Signature> {
    if s.len() == 33 {
        match spec_decode_kind(s[8]) {
            Some(kind) => Some(
                Signature {
                    signer: PublicKey { value: spec_u64_at(s, 0) },
                    kind,
                    epoch: spec_u64_at(s, 9),
                    round: spec_u64_at(s, 17),
                    id: spec_u64_at(s, 25),
                },
            ),
            None => None,
        }
    } else {
        None
    }
}

fn encode_signature(out: &mut Vec<u8>, sig: &Signature)
    ensures
        final(out)@ == old(out)@ + spec_encode_signature(*sig),
{
    push_u64(out, sig.signer.value);
    match sig.kind {
        SignatureKind::Vote => out.push(1u8),
        SignatureKind::Proposal => out.push(2u8),
        SignatureKind::Timeout => out.push(3u8),
    }
    push_u64(out, sig.epoch);
    push_u64(out, sig.round);
    push_u64(out, sig.id);
    proof {
        assert(final(out)@ =~= old(out)@ + spec_encode_signature(*sig));
    }
}

fn decode_signature(bytes: &[u8]) -> (r: Option<Signature>)
    ensures
        r == spec_decode_signature(bytes@),
{
    if bytes.len() != 33 {
        return None;
    }
    let kind = match bytes[8] {
        1u8 => SignatureKind::Vote,
        2u8 => SignatureKind::Proposal,
        3u8 => SignatureKind::Timeout,
        _ => {
            return None;
        },
    };
    Some(
        Signature {
            signer: PublicKey { value: read_u64(bytes, 0) },
            kind,
            epoch: read_u64(bytes, 9),
            round: read_u64(bytes, 17),
            id: read_u64(bytes, 25),
        },
    )
}

/// Signature fidelity.
pub proof fn lemma_signature_round_trip(sig: Signature)
    ensures
        spec_decode_signature(spec_encode_signature(sig)) == Some(sig),
{
    lemma_auto_spec_u64_to_from_le_bytes();
    let s = spec_encode_signature(sig);
    assert(s.subrange(0, 8) =~= spec_u64_to_le_bytes(sig.signer.value));
    assert(s.subrange(9, 17) =~= spec_u64_to_le_bytes(sig.epoch));
    assert(s.subrange(17, 25) =~= spec_u64_to_le_bytes(sig.round));
    assert(s.subrange(25, 33) =~= spec_u64_to_le_bytes(sig.id));
}

pub open spec fn spec_encode_error(e: Error) -> Seq<u8> {
    match e {
        Error::NotInitialized => seq![1u8],
        Error::KeyNotFound => seq![2u8],
        Error::IncorrectEpoch { given, expected } => seq![3u8] + spec_u64_to_le_bytes(given)
            + spec_u64_to_le_bytes(expected),
        Error::IncorrectLastVotedRound { given, last_voted_round } => seq![4u8]
            + spec_u64_to_le_bytes(given) + spec_u64_to_le_bytes(last_voted_round),
        Error::IncorrectPreferredRound { given, preferred_round } => seq![5u8]
            + spec_u64_to_le_bytes(given) + spec_u64_to_le_bytes(preferred_round),
        Error::SerializationError => seq![6u8],
        Error::TimedOut => seq![7u8],
        Error::TransportError => seq![8u8],
    }
}

pub open spec fn spec_decode_error(s: Seq<u8>) -> Option<Error> {
    if s.len() == 0 {
        None
    } else if s[0] == 1 && s.len() == 1 {
        Some(Error::NotInitialized)
    } else if s[0] == 2 && s.len() == 1 {
        Some(Error::KeyNotFound)
    } else if s[0] == 3 && s.len() == 17 {
        Some(Error::IncorrectEpoch { given: spec_u64_at(s, 1), expected: spec_u64_at(s, 9) })
    } else if s[0] == 4 && s.len() == 17 {
        Some(
            Error::IncorrectLastVotedRound {
                given: spec_u64_at(s, 1),
                last_voted_round: spec_u64_at(s, 9),
            },
        )
    } else if s[0] == 5 && s.len() == 17 {
        Some(
            Error::IncorrectPreferredRound {
                given: spec_u64_at(s, 1),
                preferred_round: spec_u64_at(s, 9),
            },
        )
    } else if s[0] == 6 && s.len() == 1 {
        Some(Error::SerializationError)
    } else if s[0] == 7 && s.len() == 1 {
        Some(Error::TimedOut)
    } else if s[0] == 8 && s.len() == 1 {
        Some(Error::TransportError)
    } else {
        None
    }
}

fn encode_error(out: &mut Vec<u8>, e: &Error)
    ensures
        final(out)@ == old(out)@ + spec_encode_error(*e),
{
    match e {
        Error::NotInitialized => out.push(1u8),
        Error::KeyNotFound => out.push(2u8),
        Error::IncorrectEpoch { given, expected } => {
            out.push(3u8);
            push_u64(out, *given);
            push_u64(out, *expected);
        },
        Error::IncorrectLastVotedRound { given, last_voted_round } => {
            out.push(4u8);
            push_u64(out, *given);
            push_u64(out, *last_voted_round);
        },
        Error::IncorrectPreferredRound { given, preferred_round } => {
            out.push(5u8);
            push_u64(out, *given);
            push_u64(out, *preferred_round);
        },
        Error::SerializationError => out.push(6u8),
        Error::TimedOut => out.push(7u8),
        Error::TransportError => out.push(8u8),
    }
    proof {
        assert(final(out)@ =~= old(out)@ + spec_encode_error(*e));
    }
}

fn decode_error(bytes: &[u8]) -> (r: Option<Error>)
    ensures
        r == spec_decode_error(bytes@),
{
    if bytes.len() == 0 {
        return None;
    }
    let tag = bytes[0];
    if tag == 1 && bytes.len() == 1 {
        Some(Error::NotInitialized)
    } else if tag == 2 && bytes.len() == 1 {
        Some(Error::KeyNotFound)
    } else if tag == 3 && bytes.len() == 17 {
        Some(Error::IncorrectEpoch { given: read_u64(bytes, 1), expected: read_u64(bytes, 9) })
    } else if tag == 4 && bytes.len() == 17 {
        Some(
            Error::IncorrectLastVotedRound {
                given: read_u64(bytes, 1),
                last_voted_round: read_u64(bytes, 9),
            },
        )
    } else if tag == 5 && bytes.len() == 17 {
        Some(
            Error::IncorrectPreferredRound {
                given: read_u64(bytes, 1),
                preferred_round: read_u64(bytes, 9),
            },
        )
    } else if tag == 6 && bytes.len() == 1 {
        Some(Error::SerializationError)
    } else if tag == 7 && bytes.len() == 1 {
        Some(Error::TimedOut)
    } else if tag == 8 && bytes.len() == 1 {
        Some(Error::TransportError)
    } else {
        None
    }
}

/// Error fidelity.
pub proof fn lemma_error_round_trip(e: Error)
    ensures
        spec_decode_error(spec_encode_error(e)) == Some(e),
{
    lemma_auto_spec_u64_to_from_le_bytes();
    let s = spec_encode_error(e);
    match e {
        Error::IncorrectEpoch { given, expected } => {
            assert(s.subrange(1, 9) =~= spec_u64_to_le_bytes(given));
            assert(s.subrange(9, 17) =~= spec_u64_to_le_bytes(expected));
        },
        Error::IncorrectLastVotedRound { given, last_voted_round } => {
            assert(s.subrange(1, 9) =~= spec_u64_to_le_bytes(given));
            assert(s.subrange(9, 17) =~= spec_u64_to_le_bytes(last_voted_round));
        },
        Error::IncorrectPreferredRound { given, preferred_round } => {
            assert(s.subrange(1, 9) =~= spec_u64_to_le_bytes(given));
            assert(s.subrange(9, 17) =~= spec_u64_to_le_bytes(preferred_round));
        },
        _ => {},
    }
}

// ---------------------------------------------------------------------
// Responses
// ---------------------------------------------------------------------

pub open spec fn spec_encode_output(o: SafetyRulesOutput) -> Seq<u8> {
    match o {
        SafetyRulesOutput::Initialize(Ok(_)) => seq![1u8, 0u8],
        SafetyRulesOutput::Initialize(Err(e)) => seq![1u8, 1u8] + spec_encode_error(e),
        SafetyRulesOutput::ConsensusState(Ok(cs)) => seq![2u8, 0u8]
            + spec_u64_to_le_bytes(cs.epoch) + spec_u64_to_le_bytes(cs.last_voted_round)
            + spec_u64_to_le_bytes(cs.preferred_round),
        SafetyRulesOutput::ConsensusState(Err(e)) => seq![2u8, 1u8] + spec_encode_error(e),
        SafetyRulesOutput::ConstructAndSignVote(Ok(v)) => seq![3u8, 0u8]
            + spec_u64_to_le_bytes(v.proposal.epoch) + spec_u64_to_le_bytes(v.proposal.round)
            + spec_u64_to_le_bytes(v.proposal.id) + spec_u64_to_le_bytes(v.author)
            + spec_encode_signature(v.signature),
        SafetyRulesOutput::ConstructAndSignVote(Err(e)) => seq![3u8, 1u8] + spec_encode_error(e),
        SafetyRulesOutput::SignProposal(Ok(sig)) => seq![4u8, 0u8] + spec_encode_signature(sig),
        SafetyRulesOutput::SignProposal(Err(e)) => seq![4u8, 1u8] + spec_encode_error(e),
        SafetyRulesOutput::SignTimeout(Ok(sig)) => seq![5u8, 0u8] + spec_encode_signature(sig),
        SafetyRulesOutput::SignTimeout(Err(e)) => seq![5u8, 1u8] + spec_encode_error(e),
    }
}

pub open spec fn spec_decode_output(s: Seq<u8>) -> Option<SafetyRulesOutput> {
    if s.len() < 2 {
        None
    } else if s[1] == 1 {
        match spec_decode_error(s.subrange(2, s.len() as int)) {
            Some(e) => {
                if s[0] == 1 {
                    Some(SafetyRulesOutput::Initialize(Err(e)))
                } else if s[0] == 2 {
                    Some(SafetyRulesOutput::ConsensusState(Err(e)))
                } else if s[0] == 3 {
                    Some(SafetyRulesOutput::ConstructAndSignVote(Err(e)))
                } else if s[0] == 4 {
                    Some(SafetyRulesOutput::SignProposal(Err(e)))
                } else if s[0] == 5 {
                    Some(SafetyRulesOutput::SignTimeout(Err(e)))
                } else {
                    None
                }
            },
            None => None,
        }
    } else if s[1] == 0 {
        if s[0] == 1 {
            if s.len() == 2 {
                Some(SafetyRulesOutput::Initialize(Ok(())))
            } else {
                None
            }
        } else if s[0] == 2 {
            if s.len() == 26 {
                Some(
                    SafetyRulesOutput::ConsensusState(
                        Ok(
                            ConsensusState {
                                epoch: spec_u64_at(s, 2),
                                last_voted_round: spec_u64_at(s, 10),
                                preferred_round: spec_u64_at(s, 18),
                            },
                        ),
                    ),
                )
            } else {
                None
            }
        } else if s[0] == 3 {
            if s.len() == 67 {
                match spec_decode_signature(s.subrange(34, 67)) {
                    Some(sig) => Some(
                        SafetyRulesOutput::ConstructAndSignVote(
                            Ok(
                                Vote {
                                    proposal: VoteProposal {
                                        epoch: spec_u64_at(s, 2),
                                        round: spec_u64_at(s, 10),
                                        id: spec_u64_at(s, 18),
                                    },
                                    author: spec_u64_at(s, 26),
                                    signature: sig,
                                },
                            ),
                        ),
                    ),
                    None => None,
                }
            } else {
                None
            }
        } else if s[0] == 4 {
            if s.len() == 35 {
                match spec_decode_signature(s.subrange(2, 35)) {
                    Some(sig) => Some(SafetyRulesOutput::SignProposal(Ok(sig))),
                    None => None,
                }
            } else {
                None
            }
        } else if s[0] == 5 {
            if s.len() == 35 {
                match spec_decode_signature(s.subrange(2, 35)) {
                    Some(sig) => Some(SafetyRulesOutput::SignTimeout(Ok(sig))),
                    None => None,
                }
            } else {
                None
            }
        } else {
            None
        }
    } else {
        None
    }
}

pub fn encode_output(o: &SafetyRulesOutput) -> (r: Vec<u8>)
    ensures
        r@ == spec_encode_output(*o),
{
    let mut out: Vec<u8> = Vec::new();
    match o {
        SafetyRulesOutput::Initialize(res) => {
            out.push(1u8);
            match res {
                Ok(_) => out.push(0u8),
                Err(e) => {
                    out.push(1u8);
                    encode_error(&mut out, e);
                },
            }
        },
        SafetyRulesOutput::ConsensusState(res) => {
            out.push(2u8);
            match res {
                Ok(cs) => {
                    out.push(0u8);
                    push_u64(&mut out, cs.epoch);
                    push_u64(&mut out, cs.last_voted_round);
                    push_u64(&mut out, cs.preferred_round);
                },
                Err(e) => {
                    out.push(1u8);
                    encode_error(&mut out, e);
                },
            }
        },
        SafetyRulesOutput::ConstructAndSignVote(res) => {
            out.push(3u8);
            match res {
                Ok(v) => {
                    out.push(0u8);
                    push_u64(&mut out, v.proposal.epoch);
                    push_u64(&mut out, v.proposal.round);
                    push_u64(&mut out, v.proposal.id);
                    push_u64(&mut out, v.author);
                    encode_signature(&mut out, &v.signature);
                },
                Err(e) => {
                    out.push(1u8);
                    encode_error(&mut out, e);
                },
            }
        },
        SafetyRulesOutput::SignProposal(res) => {
            out.push(4u8);
            match res {
                Ok(sig) => {
                    out.push(0u8);
                    encode_signature(&mut out, sig);
                },
                Err(e) => {
                    out.push(1u8);
                    encode_error(&mut out, e);
                },
            }
        },
        SafetyRulesOutput::SignTimeout(res) => {
            out.push(5u8);
            match res {
                Ok(sig) => {
                    out.push(0u8);
                    encode_signature(&mut out, sig);
                },
                Err(e) => {
                    out.push(1u8);
                    encode_error(&mut out, e);
                },
            }
        },
    }
    proof {
        assert(out@ =~= spec_encode_output(*o));
    }
    out
}

pub fn decode_output(bytes: &[u8]) -> (r: Option<SafetyRulesOutput>)
    ensures
        r == spec_decode_output(bytes@),
{
    if bytes.len() < 2 {
        return None;
    }
    let tag = bytes[0];
    let flag = bytes[1];
    if flag == 1 {
        let err_bytes = slice_subrange(bytes, 2, bytes.len());
        match decode_error(err_bytes) {
            Some(e) => {
                if tag == 1 {
                    Some(SafetyRulesOutput::Initialize(Err(e)))
                } else if tag == 2 {
                    Some(SafetyRulesOutput::ConsensusState(Err(e)))
                } else if tag == 3 {
                    Some(SafetyRulesOutput::ConstructAndSignVote(Err(e)))
                } else if tag == 4 {
                    Some(SafetyRulesOutput::SignProposal(Err(e)))
                } else if tag == 5 {
                    Some(SafetyRulesOutput::SignTimeout(Err(e)))
                } else {
                    None
                }
            },
            None => None,
        }
    } else if flag == 0 {
        if tag == 1 {
            if bytes.len() == 2 {
                Some(SafetyRulesOutput::Initialize(Ok(())))
            } else {
                None
            }
        } else if tag == 2 {
            if bytes.len() == 26 {
                Some(
                    SafetyRulesOutput::ConsensusState(
                        Ok(
                            ConsensusState {
                                epoch: read_u64(bytes, 2),
                                last_voted_round: read_u64(bytes, 10),
                                preferred_round: read_u64(bytes, 18),
                            },
                        ),
                    ),
                )
            } else {
                None
            }
        } else if tag == 3 {
            if bytes.len() == 67 {
                let sig_bytes = slice_subrange(bytes, 34, 67);
                match decode_signature(sig_bytes) {
                    Some(sig) => Some(
                        SafetyRulesOutput::ConstructAndSignVote(
                            Ok(
                                Vote {
                                    proposal: VoteProposal {
                                        epoch: read_u64(bytes, 2),
                                        round: read_u64(bytes, 10),
                                        id: read_u64(bytes, 18),
                                    },
                                    author: read_u64(bytes, 26),
                                    signature: sig,
                                },
                            ),
                        ),
                    ),
                    None => None,
                }
            } else {
                None
            }
        } else if tag == 4 {
            if bytes.len() == 35 {
                let sig_bytes = slice_subrange(bytes, 2, 35);
                match decode_signature(sig_bytes) {
                    Some(sig) => Some(SafetyRulesOutput::SignProposal(Ok(sig))),
                    None => None,
                }
            } else {
                None
            }
        } else if tag == 5 {
            if bytes.len() == 35 {
                let sig_bytes = slice_subrange(bytes, 2, 35);
                match decode_signature(sig_bytes) {
                    Some(sig) => Some(SafetyRulesOutput::SignTimeout(Ok(sig))),
                    None => None,
                }
            } else {
                None
            }
        } else {
            None
        }
    } else {
        None
    }
}

/// Response fidelity: decoding an encoded response gives the response
/// back, for every operation and for success and failure alike.
pub proof fn lemma_output_round_trip(o: SafetyRulesOutput)
    ensures
        spec_decode_output(spec_encode_output(o)) == Some(o),
{
    lemma_auto_spec_u64_to_from_le_bytes();
    let s = spec_encode_output(o);
    match o {
        SafetyRulesOutput::Initialize(Ok(u)) => {
            assert(u =~= ());
            assert(spec_decode_output(s) =~~= Some(o));
        },
        SafetyRulesOutput::Initialize(Err(e)) => {
            lemma_error_round_trip(e);
            assert(s.subrange(2, s.len() as int) =~= spec_encode_error(e));
        },
        SafetyRulesOutput::ConsensusState(Ok(cs)) => {
            assert(s.subrange(2, 10) =~= spec_u64_to_le_bytes(cs.epoch));
            assert(s.subrange(10, 18) =~= spec_u64_to_le_bytes(cs.last_voted_round));
            assert(s.subrange(18, 26) =~= spec_u64_to_le_bytes(cs.preferred_round));
        },
        SafetyRulesOutput::ConsensusState(Err(e)) => {
            lemma_error_round_trip(e);
            assert(s.subrange(2, s.len() as int) =~= spec_encode_error(e));
        },
        SafetyRulesOutput::ConstructAndSignVote(Ok(v)) => {
            lemma_signature_round_trip(v.signature);
            assert(s.subrange(2, 10) =~= spec_u64_to_le_bytes(v.proposal.epoch));
            assert(s.subrange(10, 18) =~= spec_u64_to_le_bytes(v.proposal.round));
            assert(s.subrange(18, 26) =~= spec_u64_to_le_bytes(v.proposal.id));
            assert(s.subrange(26, 34) =~= spec_u64_to_le_bytes(v.author));
            assert(s.subrange(34, 67) =~= spec_encode_signature(v.signature));
        },
        SafetyRulesOutput::ConstructAndSignVote(Err(e)) => {
            lemma_error_round_trip(e);
            assert(s.subrange(2, s.len() as int) =~= spec_encode_error(e));
        },
        SafetyRulesOutput::SignProposal(Ok(sig)) => {
            lemma_signature_round_trip(sig);
            assert(s.subrange(2, 35) =~= spec_encode_signature(sig));
        },
        SafetyRulesOutput::SignProposal(Err(e)) => {
            lemma_error_round_trip(e);
            assert(s.subrange(2, s.len() as int) =~= spec_encode_error(e));
        },
        SafetyRulesOutput::SignTimeout(Ok(sig)) => {
            lemma_signature_round_trip(sig);
            assert(s.subrange(2, 35) =~= spec_encode_signature(sig));
        },
        SafetyRulesOutput::SignTimeout(Err(e)) => {
            lemma_error_round_trip(e);
            assert(s.subrange(2, s.len() as int) =~= spec_encode_error(e));
        },
    }
}

// ---------------------------------------------------------------------
// The serializer topology
// ---------------------------------------------------------------------

/// The serializer topology's service: the evaluator behind the wire
/// codec.  `handle_message` is also the body of the remote side of the
/// thread and process topologies: one serialized request in, one
/// serialized response out.
pub struct SerializerService {
    pub internal: SafetyRules,
}

impl SerializerService {
    pub fn new(internal: SafetyRules) -> (r: Self)
        ensures
            r.internal == internal,
    {
        SerializerService { internal }
    }

    /// Decode one request, apply it to the evaluator, encode the
    /// response.  A request that does not decode changes nothing and is
    /// answered with a serialization failure.
    pub fn handle_message(&mut self, input_message: &Vec<u8>) -> (r: Result<Vec<u8>, Error>)
        requires
            old(self).internal.wf(),
        ensures
            final(self).internal.wf(),
            (match spec_decode_input(input_message@) {
                Some(input) => {
                    &&& final(self).internal == spec_step(old(self).internal, input).0
                    &&& (match r {
                        Ok(bytes) => bytes@ == spec_encode_output(
                            spec_step(old(self).internal, input).1,
                        ),
                        Err(_) => false,
                    })
                },
                None => {
                    &&& *final(self) == *old(self)
                    &&& (match r {
                        Ok(_) => false,
                        Err(e) => e == Error::SerializationError,
                    })
                },
            }),
    {
        match decode_input(input_message.as_slice()) {
            Some(input) => {
                let output = self.internal.process(&input);
                Ok(encode_output(&output))
            },
            None => Err(Error::SerializationError),
        }
    }
}

/// One client call through the serializer topology: encode the request,
/// hand it to the service, decode the response.  The fidelity laws make
/// this indistinguishable from calling the evaluator directly.
pub fn serializer_request(service: &mut SerializerService, input: &SafetyRulesInput) -> (r: SafetyRulesOutput)
    requires
        old(service).internal.wf(),
    ensures
        final(service).internal.wf(),
        final(service).internal == spec_step(old(service).internal, *input).0,
        r == spec_step(old(service).internal, *input).1,
{
    let request = encode_input(input);
    proof {
        lemma_input_round_trip(*input);
    }
    match service.handle_message(&request) {
        Ok(response) => {
            proof {
                lemma_output_round_trip(spec_step(old(service).internal, *input).1);
            }
            match decode_output(response.as_slice()) {
                Some(output) => output,
                None => {
                    // Excluded by response fidelity: what the service
                    // encoded always decodes.
                    proof {
                        assert(false);
                    }
                    SafetyRulesOutput::Initialize(Err(Error::SerializationError))
                },
            }
        },
        Err(_) => {
            // Excluded by request fidelity: an encoded request always
            // decodes, so the service never refuses it.
            proof {
                assert(false);
            }
            SafetyRulesOutput::Initialize(Err(Error::SerializationError))
        },
    }
}

} // verus!
