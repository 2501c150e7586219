//! The error taxonomy. Every error aborts the whole request; the caller sees
//! the kind and no state mutation survives.

use vstd::prelude::*;

verus! {

#[derive(Debug, Clone, Copy, PartialEq, Eq, Structural)]
pub enum ContractError {
    /// A required record (configuration or custody) is absent.
    NotFound,
    /// The caller is not the configured admin.
    Unauthorized,
    /// The intake payload explicitly requested an abort.
    Failed,
    /// The intake payload could not be decoded into an instruction.
    DeserializationError,
    /// The instantiate reply carried no parsable contract address.
    MalformedReply,
    /// A reply arrived under an id that was never dispatched.
    UnrecognizedReply,
    /// The approval query against the NFT contract did not confirm authority.
    RemoteCallFailed,
}

} // verus!
