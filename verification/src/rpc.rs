//! Error responses of requests.

use vstd::prelude::*;

verus! {

/// The parameters of a request are unusable.
pub const INVALID_PARAMS: i64 = -32602;

/// The request cannot be answered in the present state of the connection.
pub const INVALID_REQUEST: i64 = -32600;

/// Something went wrong inside the server.
pub const INTERNAL_ERROR: i64 = -32603;

/// The request was understood but failed.
pub const REQUEST_FAILED: i64 = -32803;

/// The error of a response: a numeric code and a message for people.
#[derive(Debug, Eq, PartialEq)]
pub struct RpcError {
    pub code: i64,
    pub message: String,
}

/// What an error response says.
pub struct Failure {
    pub code: i64,
    pub message: Seq<char>,
}

impl View for RpcError {
    type V = Failure;

    open spec fn view(&self) -> Failure {
        Failure { code: self.code, message: self.message@ }
    }
}

/// Unusable parameters, with the reason.
pub open spec fn bad_params(message: Seq<char>) -> Failure {
    Failure { code: INVALID_PARAMS, message }
}

/// A request out of place, with the reason.
pub open spec fn bad_request(message: Seq<char>) -> Failure {
    Failure { code: INVALID_REQUEST, message }
}

/// A request out of place, without a particular reason.
pub open spec fn plain_bad_request() -> Failure {
    bad_request("Invalid request"@)
}

/// A failure inside the server, with its description.
pub open spec fn internal(message: Seq<char>) -> Failure {
    Failure { code: INTERNAL_ERROR, message }
}

/// A failed request, with the description of the failure.
pub open spec fn failed(message: Seq<char>) -> Failure {
    Failure { code: REQUEST_FAILED, message }
}

impl RpcError {
    /// Unusable parameters.
    pub fn invalid_params(message: String) -> (error: RpcError)
        ensures
            error@ == bad_params(message@),
    {
        RpcError { code: INVALID_PARAMS, message }
    }

    /// A request out of place, with the given reason.
    pub fn invalid_request_because(message: String) -> (error: RpcError)
        ensures
            error@ == bad_request(message@),
    {
        RpcError { code: INVALID_REQUEST, message }
    }

    /// A request out of place.
    pub fn invalid_request() -> (error: RpcError)
        ensures
            error@ == plain_bad_request(),
    {
        RpcError { code: INVALID_REQUEST, message: "Invalid request".to_owned() }
    }

    /// A failure inside the server.
    pub fn internal_error(message: String) -> (error: RpcError)
        ensures
            error@ == internal(message@),
    {
        RpcError { code: INTERNAL_ERROR, message }
    }

    /// A request that was understood but failed.
    pub fn request_failed(message: String) -> (error: RpcError)
        ensures
            error@ == failed(message@),
    {
        RpcError { code: REQUEST_FAILED, message }
    }
}

/// Whether an answer is an error response with this code and message.
pub open spec fn fails_with<T>(answer: Result<T, Failure>, code: int, message: Seq<char>) -> bool {
    answer matches Err(failure) && failure.code == code && failure.message == message
}

/// Each reason for an error has its own code, and the message that was given for it.
pub proof fn lemma_failures_have_codes(message: Seq<char>)
    ensures
        fails_with(Err::<(), Failure>(bad_params(message)), -32602, message),
        fails_with(Err::<(), Failure>(bad_request(message)), -32600, message),
        fails_with(Err::<(), Failure>(plain_bad_request()), -32600, "Invalid request"@),
        fails_with(Err::<(), Failure>(internal(message)), -32603, message),
        fails_with(Err::<(), Failure>(failed(message)), -32803, message),
{
}

} // verus!
