//! The process topology: the evaluator lives in a separate operating
//! system process reached at a configured network address, bounded by a
//! timeout per call.
//!
//! No socket is opened here.  This module fixes everything the host
//! needs to run the transport: the endpoint and timeout a client dials,
//! the exact bytes a request puts on the wire, how a response's bytes
//! are read back, and (for the remote side) the serialized step in
//! `serializer::SerializerService::handle_message`.  What holds of every
//! outcome — that a response decodes to the tagged output or the call
//! surfaces a transport error — is then the caller's to handle; this
//! layer never retries.

use crate::config::ServerAddress;
use crate::safety_rules::{SafetyRulesInput, SafetyRulesOutput};
use crate::serializer::{
    decode_output, encode_input, spec_decode_output, spec_encode_input,
};
use vstd::prelude::*;

verus! {

/// The manager-side record of a process topology.
#[derive(Clone, Copy, Debug, PartialEq, Eq, Structural)]
pub struct ProcessService {
    pub server_address: ServerAddress,
    pub network_timeout_ms: u64,
}

impl ProcessService {
    pub fn new(server_address: ServerAddress, network_timeout_ms: u64) -> (r: Self)
        ensures
            r.server_address == server_address,
            r.network_timeout_ms == network_timeout_ms,
    {
        ProcessService { server_address, network_timeout_ms }
    }

    /// A client handle for this endpoint; handles are interchangeable.
    pub fn client(&self) -> (r: RemoteClient)
        ensures
            r.server_address == self.server_address,
            r.network_timeout_ms == self.network_timeout_ms,
    {
        RemoteClient {
            server_address: self.server_address,
            network_timeout_ms: self.network_timeout_ms,
        }
    }
}

/// A client of a remote safety-rules service: where to dial, how long to
/// wait, and the wire codec for what travels.
#[derive(Clone, Copy, Debug, PartialEq, Eq, Structural)]
pub struct RemoteClient {
    pub server_address: ServerAddress,
    pub network_timeout_ms: u64,
}

impl RemoteClient {
    /// The bytes the host must send for this request.
    pub fn request_bytes(&self, input: &SafetyRulesInput) -> (r: Vec<u8>)
        ensures
            r@ == spec_encode_input(*input),
    {
        encode_input(input)
    }

    /// Read a response off the wire; a payload that does not decode is
    /// distinguishable from every genuine response.
    pub fn response_from_bytes(&self, bytes: &Vec<u8>) -> (r: Option<SafetyRulesOutput>)
        ensures
            r == spec_decode_output(bytes@),
    {
        decode_output(bytes.as_slice())
    }
}

} // verus!
