//! The calls into outside crates that the library makes, each with the
//! contract the library relies on.

use vstd::prelude::*;

verus! {

/// The JSON-RPC error type of `jsonrpsee`.
#[verifier::external_type_specification]
#[verifier::external_body]
pub struct ExRpcError(jsonrpsee::core::Error);

/// The `jsonrpsee` error that carries a custom error object with the given
/// code and message and no data.
pub uninterp spec fn rpc_call_error(code: i32, message: Seq<char>) -> jsonrpsee::core::Error;

/// Calls `jsonrpsee::types::error::ErrorObject::owned(code, message, None)`
/// and turns it into a `jsonrpsee::core::Error` through `CallError::Custom`.
/// The contract names the result by the code and the message it is built
/// from; that `jsonrpsee` then reports this code and message is not stated.
#[verifier::external_body]
pub(crate) fn custom_call_error(code: i32, message: String) -> (r: jsonrpsee::core::Error)
    ensures
        r == rpc_call_error(code, message@),
{
    jsonrpsee::types::error::CallError::Custom(
        jsonrpsee::types::error::ErrorObject::owned(code, message, None::<()>),
    ).into()
}

} // verus!
