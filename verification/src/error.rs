//! Errors of the JSON-RPC answer.

use vstd::prelude::*;

verus! {

/// The JSON-RPC code of a request that is refused.
pub const INVALID_REQUEST: i32 = -32600;

/// The JSON-RPC code of a failure inside the server.
pub const INTERNAL_ERROR: i32 = -32603;

/// A JSON-RPC error.
pub struct ErrorData {
    pub code: i32,
    pub message: String,
    pub data: Option<serde_json::Value>,
}

/// A JSON-RPC error with its text as a sequence.
#[verifier::ext_equal]
pub struct ErrorView {
    pub code: i32,
    pub message: Seq<char>,
    pub data: Option<serde_json::Value>,
}

impl View for ErrorData {
    type V = ErrorView;

    open spec fn view(&self) -> ErrorView {
        ErrorView { code: self.code, message: self.message@, data: self.data }
    }
}

/// The error of a request that is refused with `message`.
pub open spec fn invalid_request_view(message: Seq<char>) -> ErrorView {
    ErrorView { code: INVALID_REQUEST, message, data: None }
}

/// The error of a failure inside the server, with `message`.
pub open spec fn internal_error_view(message: Seq<char>) -> ErrorView {
    ErrorView { code: INTERNAL_ERROR, message, data: None }
}

/// `rmcp::ErrorData::invalid_request` without further data: the error has the
/// code -32600 and the message that was handed in.
#[verifier::external_body]
pub(crate) fn invalid_request(message: String) -> (error: ErrorData)
    ensures
        error@ == invalid_request_view(message@),
{
    let error = rmcp::ErrorData::invalid_request(message, None);
    ErrorData { code: error.code.0, message: error.message.into_owned(), data: error.data }
}

/// `rmcp::ErrorData::internal_error` without further data: the error has the
/// code -32603 and the message that was handed in.
#[verifier::external_body]
pub(crate) fn internal_error(message: String) -> (error: ErrorData)
    ensures
        error@ == internal_error_view(message@),
{
    let error = rmcp::ErrorData::internal_error(message, None);
    ErrorData { code: error.code.0, message: error.message.into_owned(), data: error.data }
}

} // verus!
