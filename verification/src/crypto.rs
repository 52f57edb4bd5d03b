//! Key material and signed artifacts, modelled as plain scalars.
//!
//! The real system signs with Ed25519 keys held in secure storage; this
//! layer never inspects the bytes of a key or a signature, it only moves
//! them around and compares them.  A key is therefore modelled as a plain
//! scalar and a signature as the signer's public key together with the
//! exact message fields it covers, which is all the surrounding logic
//! ever relies on.

use vstd::prelude::*;

verus! {

/// A consensus or execution private key.
#[derive(Clone, Copy, Debug, PartialEq, Eq, Structural)]
pub struct PrivateKey {
    pub value: u64,
}

/// The public half of a key pair.
#[derive(Clone, Copy, Debug, PartialEq, Eq, Structural)]
pub struct PublicKey {
    pub value: u64,
}

/// Which operation produced a signature; keeps a timeout signature from
/// ever colliding with a vote or proposal signature over the same fields.
#[derive(Clone, Copy, Debug, PartialEq, Eq, Structural)]
pub enum SignatureKind {
    Vote,
    Proposal,
    Timeout,
}

/// A signed artifact: the signer's public key and the message it covers.
#[derive(Clone, Copy, Debug, PartialEq, Eq, Structural)]
pub struct Signature {
    pub signer: PublicKey,
    pub kind: SignatureKind,
    pub epoch: u64,
    pub round: u64,
    pub id: u64,
}

/// The public key derived from a private key.
pub open spec fn spec_public_key(sk: PrivateKey) -> PublicKey {
    PublicKey { value: sk.value }
}

/// The signature a private key produces over the given message fields.
pub open spec fn spec_sign(sk: PrivateKey, kind: SignatureKind, epoch: u64, round: u64, id: u64) -> Signature {
    Signature { signer: spec_public_key(sk), kind, epoch, round, id }
}

pub fn public_key(sk: &PrivateKey) -> (r: PublicKey)
    ensures
        r == spec_public_key(*sk),
{
    PublicKey { value: sk.value }
}

pub fn sign(sk: &PrivateKey, kind: SignatureKind, epoch: u64, round: u64, id: u64) -> (r: Signature)
    ensures
        r == spec_sign(*sk, kind, epoch, round, id),
{
    Signature { signer: public_key(sk), kind, epoch, round, id }
}

/// Whether `sig` is `pk`'s signature of the given message fields.
pub open spec fn spec_verify(sig: Signature, pk: PublicKey, kind: SignatureKind, epoch: u64, round: u64, id: u64) -> bool {
    sig == (Signature { signer: pk, kind, epoch, round, id })
}

pub fn verify(sig: &Signature, pk: &PublicKey, kind: SignatureKind, epoch: u64, round: u64, id: u64) -> (r: bool)
    ensures
        r == spec_verify(*sig, *pk, kind, epoch, round, id),
{
    sig.signer == *pk && sig.kind == kind && sig.epoch == epoch && sig.round == round && sig.id == id
}

} // verus!
