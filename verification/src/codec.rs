//! Calls into the encoding routines of the CosmWasm libraries. Each call
//! computes a function of its byte or string argument alone; the functions
//! are named here and the wrappers' contracts state the results in terms of
//! those names.

use vstd::prelude::*;

verus! {

/// The string that a byte sequence decodes to when it is a well-formed JSON
/// string, as `cosmwasm_std::from_json` decodes it.
pub uninterp spec fn json_decoded_string(bytes: Seq<u8>) -> Option<Seq<char>>;

/// The contract address carried by an instantiate reply payload, when the
/// payload is a well-formed protobuf `MsgInstantiateContractResponse`, as
/// `cw_utils::parse_instantiate_response_data` parses it.
pub uninterp spec fn instantiate_reply_address(bytes: Seq<u8>) -> Option<Seq<char>>;

/// The base64 rendering of a byte sequence, as
/// `cosmwasm_std::Binary::to_base64` renders it.
pub uninterp spec fn base64_of(bytes: Seq<u8>) -> Seq<char>;

/// Relies on `cosmwasm_std::from_json::<String>`: the decode depends on the
/// bytes alone, succeeds exactly on a well-formed JSON string, and yields the
/// decoded string.
#[verifier::external_body]
pub(crate) fn decode_json_string(bytes: &Vec<u8>) -> (r: Option<String>)
    ensures
        r is Some <==> json_decoded_string(bytes@) is Some,
        r matches Some(s) ==> json_decoded_string(bytes@) == Some(s@),
{
    cosmwasm_std::from_json::<String>(bytes.as_slice()).ok()
}

/// Relies on `cw_utils::parse_instantiate_response_data`: the parse depends
/// on the bytes alone, succeeds exactly on a well-formed payload, and yields
/// the contract address the payload carries.
#[verifier::external_body]
pub(crate) fn parse_instantiate_reply(bytes: &Vec<u8>) -> (r: Option<String>)
    ensures
        r is Some <==> instantiate_reply_address(bytes@) is Some,
        r matches Some(a) ==> instantiate_reply_address(bytes@) == Some(a@),
{
    match cw_utils::parse_instantiate_response_data(bytes.as_slice()) {
        Ok(parsed) => Some(parsed.contract_address),
        Err(_) => None,
    }
}

/// Relies on `cosmwasm_std::Binary::to_base64`: the rendering depends on the
/// bytes alone.
#[verifier::external_body]
pub(crate) fn encode_base64(bytes: &Vec<u8>) -> (r: String)
    ensures
        r@ == base64_of(bytes@),
{
    cosmwasm_std::Binary(bytes.clone()).to_base64()
}

} // verus!
