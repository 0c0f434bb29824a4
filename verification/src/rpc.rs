//! The node's emergency-finalization RPC: checking the submitted
//! justification and the errors the call answers with.

use vstd::prelude::*;

use crate::external::{custom_call_error, rpc_call_error};

verus! {

/// Base code for all errors of this RPC.
pub const BASE_ERROR: i32 = 2000;

/// Code of the error for a malformed justification argument.
pub const MALFORMATTED_JUSTIFICATION_ARG_ERROR: i32 = BASE_ERROR + 1;

/// Code of the error for a justification that could not be passed on.
pub const FAILED_JUSTIFICATION_SEND_ERROR: i32 = BASE_ERROR + 2;

/// Length in bytes of an emergency signature (an ed25519 signature).
pub const SIGNATURE_LENGTH: usize = 64;

/// Errors of the emergency-finalization RPC.
#[derive(Clone, Debug, PartialEq, Eq)]
pub enum NodeRpcError {
    /// The justification argument is malformed.
    MalformattedJustificationArg(String),
    /// The node could not pass the justification on for import.
    FailedJustificationSend(String),
}

impl NodeRpcError {
    /// The JSON-RPC error code of this error.
    pub open spec fn error_code(&self) -> i32 {
        match self {
            NodeRpcError::MalformattedJustificationArg(_) => MALFORMATTED_JUSTIFICATION_ARG_ERROR,
            NodeRpcError::FailedJustificationSend(_) => FAILED_JUSTIFICATION_SEND_ERROR,
        }
    }

    /// The text of this error.
    pub open spec fn error_message(&self) -> String {
        match self {
            NodeRpcError::MalformattedJustificationArg(m) => *m,
            NodeRpcError::FailedJustificationSend(m) => *m,
        }
    }

    /// The JSON-RPC error code of this error.
    pub fn code(&self) -> (r: i32)
        ensures
            r == self.error_code(),
    {
        match self {
            NodeRpcError::MalformattedJustificationArg(_) => MALFORMATTED_JUSTIFICATION_ARG_ERROR,
            NodeRpcError::FailedJustificationSend(_) => FAILED_JUSTIFICATION_SEND_ERROR,
        }
    }

    /// The text of this error.
    pub fn into_message(self) -> (r: String)
        ensures
            r == self.error_message(),
    {
        match self {
            NodeRpcError::MalformattedJustificationArg(m) => m,
            NodeRpcError::FailedJustificationSend(m) => m,
        }
    }

    /// The JSON-RPC error answered for this error: a custom call error with
    /// this error's code and text.
    pub fn into_rpc_error(self) -> (r: jsonrpsee::core::Error)
        ensures
            r == rpc_call_error(self.error_code(), self.error_message()@),
    {
        let code = self.code();
        custom_call_error(code, self.into_message())
    }

    /// The error for a justification that the translator refused.
    pub fn untranslatable_justification() -> (r: NodeRpcError)
        ensures
            r matches NodeRpcError::MalformattedJustificationArg(m) && m@ == "todo"@,
    {
        NodeRpcError::MalformattedJustificationArg(String::from_str("todo"))
    }

    /// The error for a justification that could not be sent for import.
    pub fn justification_not_sent() -> (r: NodeRpcError)
        ensures
            r matches NodeRpcError::FailedJustificationSend(m) && m@
                == "AlephNodeApiServer failed to send JustifictionNotification via its channel"@,
    {
        NodeRpcError::FailedJustificationSend(
            String::from_str("AlephNodeApiServer failed to send JustifictionNotification via its channel"),
        )
    }
}

/// An emergency signature: exactly `SIGNATURE_LENGTH` bytes.
#[derive(Clone, Debug, PartialEq, Eq)]
pub struct EmergencySignature {
    bytes: Vec<u8>,
}

impl View for EmergencySignature {
    type V = Seq<u8>;

    closed spec fn view(&self) -> Seq<u8> {
        self.bytes@
    }
}

impl EmergencySignature {
    /// The signature's bytes.
    pub fn into_bytes(self) -> (r: Vec<u8>)
        ensures
            r@ == self@,
    {
        self.bytes
    }
}

/// The emergency signature carried by the RPC's justification argument:
/// accepted exactly when it has `SIGNATURE_LENGTH` bytes.
pub fn emergency_signature(justification: Vec<u8>) -> (r: Result<EmergencySignature, NodeRpcError>)
    ensures
        (r is Ok) == (justification@.len() == SIGNATURE_LENGTH),
        r matches Ok(s) ==> s@ == justification@,
        r matches Err(e) ==> e matches NodeRpcError::MalformattedJustificationArg(m) && m@
            == "Provided justification cannot be converted into correct type"@,
{
    if justification.len() == SIGNATURE_LENGTH {
        Ok(EmergencySignature { bytes: justification })
    } else {
        Err(
            NodeRpcError::MalformattedJustificationArg(
                String::from_str("Provided justification cannot be converted into correct type"),
            ),
        )
    }
}

} // verus!
