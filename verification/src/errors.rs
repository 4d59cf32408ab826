use vstd::prelude::*;

verus! {

/// An error answered to a JSON-RPC request: the JSON-RPC error code, a stable
/// machine-readable code and a human-readable message.
#[derive(Debug)]
pub struct ServiceError {
    pub rpc_code: i64,
    pub code: &'static str,
    pub message: String,
}

/// A `ServiceError` as values.
pub struct ErrorView {
    pub rpc_code: int,
    pub code: Seq<char>,
    pub message: Seq<char>,
}

impl View for ServiceError {
    type V = ErrorView;

    open spec fn view(&self) -> ErrorView {
        ErrorView { rpc_code: self.rpc_code as int, code: self.code@, message: self.message@ }
    }
}

/// The error for request parameters that are missing or malformed.
pub open spec fn invalid_params_error(message: Seq<char>) -> ErrorView {
    ErrorView { rpc_code: -32602, code: "INVALID_PARAMS"@, message }
}

/// An error of the runtime's own domain, told apart by `code`.
pub open spec fn domain_error(code: Seq<char>, message: Seq<char>) -> ErrorView {
    ErrorView { rpc_code: -32000, code, message }
}

impl ServiceError {
    pub fn invalid(message: String) -> (e: Self)
        ensures
            e@ == invalid_params_error(message@),
    {
        ServiceError { rpc_code: -32602, code: "INVALID_PARAMS", message }
    }

    /// The error answered to a line that is not a JSON-RPC request.
    pub fn parse_error(message: String) -> (e: Self)
        ensures
            e@ == (ErrorView { rpc_code: -32700, code: "PARSE_ERROR"@, message: message@ }),
    {
        ServiceError { rpc_code: -32700, code: "PARSE_ERROR", message }
    }

    pub fn domain(code: &'static str, message: String) -> (e: Self)
        ensures
            e@ == domain_error(code@, message@),
    {
        ServiceError { rpc_code: -32000, code, message }
    }
}

} // verus!
