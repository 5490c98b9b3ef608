//! Delivery of mocked HTTP responses to a canister under test.

use crate::client::{occurs_at, HttpHeader, HttpsOutcallError, IcError, RejectCode};
use vstd::prelude::*;
use vstd::string::StringExecFns;

verus! {

/// Number of bytes allowed to a response when the request does not say.
pub const DEFAULT_MAX_RESPONSE_BYTES: u64 = 2_000_000;

/// Number of rounds the canister is given to make its HTTP requests.
pub const MAX_TICKS: usize = 10;

/// A mocked response: status, headers and body.
#[derive(Debug, Clone, PartialEq, Eq)]
pub struct CanisterHttpReply {
    /// Status code of the response.
    pub status: u16,
    /// Headers of the response.
    pub headers: Vec<HttpHeader>,
    /// Body of the response.
    pub body: Vec<u8>,
}

/// A mocked rejection of the request.
#[derive(Debug, Clone, PartialEq, Eq)]
pub struct CanisterHttpReject {
    /// Number of the reject code.
    pub reject_code: u64,
    /// Message of the rejection.
    pub message: String,
}

/// What the canister gets for an HTTP request: a response or a rejection.
#[derive(Debug, Clone, PartialEq, Eq)]
pub enum CanisterHttpResponse {
    /// A response.
    CanisterHttpReply(CanisterHttpReply),
    /// A rejection.
    CanisterHttpReject(CanisterHttpReject),
}

/// The digit that stands for a number below ten.
pub open spec fn digit(n: nat) -> char {
    if n == 0 {
        '0'
    } else if n == 1 {
        '1'
    } else if n == 2 {
        '2'
    } else if n == 3 {
        '3'
    } else if n == 4 {
        '4'
    } else if n == 5 {
        '5'
    } else if n == 6 {
        '6'
    } else if n == 7 {
        '7'
    } else if n == 8 {
        '8'
    } else {
        '9'
    }
}

/// The number written in decimal digits, without leading zeros.
pub open spec fn decimal(n: nat) -> Seq<char>
    decreases n,
{
    if n < 10 {
        seq![digit(n)]
    } else {
        decimal(n / 10).push(digit(n % 10))
    }
}

/// Calls `to_string` on a `u64`, which writes the number in decimal digits.
///
/// Trusted: the text is the number in decimal digits, without sign or leading zeros.
#[verifier::external_body]
fn decimal_text(n: u64) -> (text: String)
    ensures
        text@ == decimal(n as nat),
{
    n.to_string()
}

/// The message of the rejection of a response whose body is larger than allowed.
pub open spec fn size_limit_message(max_response_bytes: u64) -> Seq<char> {
    "Http body exceeds size limit of "@ + decimal(max_response_bytes as nat) + " bytes."@
}

/// Number of bytes allowed to the response to a request with the given allowance.
pub open spec fn response_limit(max_response_bytes: Option<u64>) -> u64 {
    match max_response_bytes {
        Some(limit) => limit,
        None => DEFAULT_MAX_RESPONSE_BYTES,
    }
}

/// Whether the mocked response has a body that is larger than the request allows.
pub open spec fn exceeds_limit(
    max_response_bytes: Option<u64>,
    response: CanisterHttpResponse,
) -> bool {
    response matches CanisterHttpResponse::CanisterHttpReply(reply) && reply.body@.len()
        > response_limit(max_response_bytes)
}

/// Delivers a mocked response as the platform would: a response whose body is larger than
/// the request allows is replaced by a rejection that says so; any other response, and any
/// rejection, is delivered as it is. Headers do not count.
pub fn check_response_size(
    max_response_bytes: Option<u64>,
    response: CanisterHttpResponse,
) -> (delivered: CanisterHttpResponse)
    ensures
        !exceeds_limit(max_response_bytes, response) ==> delivered == response,
        exceeds_limit(max_response_bytes, response) ==> {
            &&& delivered matches CanisterHttpResponse::CanisterHttpReject(reject)
            &&& reject.reject_code == RejectCode::SysFatal.number()
            &&& reject.message@ == size_limit_message(response_limit(max_response_bytes))
        },
{
    if let CanisterHttpResponse::CanisterHttpReply(reply) = &response {
        let max_response_bytes = match max_response_bytes {
            Some(limit) => limit,
            None => DEFAULT_MAX_RESPONSE_BYTES,
        };
        if reply.body.len() as u64 > max_response_bytes {
            // Approximates the platform, which counts the headers too.
            let limit = decimal_text(max_response_bytes);
            return CanisterHttpResponse::CanisterHttpReject(
                CanisterHttpReject {
                    reject_code: RejectCode::SysFatal.as_u32() as u64,
                    message: String::from_str("Http body exceeds size limit of ").concat(
                        limit.as_str(),
                    ).concat(" bytes."),
                },
            );
        }
    }
    response
}

/// The rejection of a response whose body is larger than allowed is one that the client
/// recognizes as a response that was too large, so that a retry with a larger allowance
/// follows.
pub proof fn lemma_size_limit_rejection_is_too_large(max_response_bytes: u64, message: String)
    requires
        message@ == size_limit_message(max_response_bytes),
    ensures
        (IcError::CallRejected { code: RejectCode::SysFatal, message }).response_too_large(),
{
    reveal_strlit("Http body exceeds size limit of ");
    reveal_strlit("size limit");
    assert(message@.subrange(18, 28) =~= "size limit"@);
    assert(occurs_at(message@, "size limit"@, 18));
}

/// Tells whether the canister is to be given another round to make its HTTP requests: as
/// long as it has made none and fewer than [`MAX_TICKS`] rounds have passed.
pub fn keep_ticking(ticks: usize, pending_requests: usize) -> (again: bool)
    ensures
        again == (pending_requests == 0 && ticks < MAX_TICKS),
{
    pending_requests == 0 && ticks < MAX_TICKS
}

} // verus!
