//! Retrying an outcall whose response was larger than the request allowed.

use crate::client::{
    HttpsOutcallError, IcHttpRequest, MaxResponseBytesRequestExtension, HTTP_MAX_SIZE,
};
use vstd::prelude::*;

verus! {

/// Twice the given allowance, but no more than the platform can deliver.
pub open spec fn doubled(max_response_bytes: u64) -> u64 {
    if 2 * max_response_bytes > HTTP_MAX_SIZE {
        HTTP_MAX_SIZE
    } else {
        (2 * max_response_bytes) as u64
    }
}

/// The allowance to retry with after a response was too large for the current allowance,
/// if a retry can help: twice the current allowance, where that is more than the current
/// one. A request without an allowance already has the largest one.
pub open spec fn next_max_response_bytes(current: Option<u64>) -> Option<u64> {
    match current {
        Some(previous) => if doubled(previous) > previous {
            Some(doubled(previous))
        } else {
            None
        },
        None => None,
    }
}

/// The allowance to retry with after a call with the allowance `current` had the given
/// result, if the call is to be retried: only a response that was too large is retried.
pub open spec fn retry_allowance<Response, Error: HttpsOutcallError>(
    current: Option<u64>,
    result: Result<Response, Error>,
) -> Option<u64> {
    match result {
        Ok(_) => None,
        Err(error) => if error.response_too_large() {
            next_max_response_bytes(current)
        } else {
            None
        },
    }
}

/// How much an allowance can still grow.
pub open spec fn remaining_growth(current: Option<u64>) -> nat {
    match current {
        Some(previous) => if previous < HTTP_MAX_SIZE {
            (HTTP_MAX_SIZE - previous) as nat
        } else {
            0
        },
        None => 0,
    }
}

/// Every retry uses a larger allowance than the call before it, and none above what the
/// platform can deliver: so only finitely many retries follow one another.
pub proof fn lemma_retry_grows(current: Option<u64>)
    requires
        next_max_response_bytes(current) is Some,
    ensures
        current is Some,
        current->0 < next_max_response_bytes(current)->0 <= HTTP_MAX_SIZE,
        remaining_growth(next_max_response_bytes(current)) < remaining_growth(current),
{
}

/// Retry policy that doubles the allowance for the response when the response was too large
/// for it.
#[derive(Debug, Clone, Copy, PartialEq, Eq, Structural)]
pub struct DoubleMaxResponseBytes;

impl DoubleMaxResponseBytes {
    /// Decides whether the call is to be retried after the given result. If so, the
    /// allowance of the request is doubled; else the request stays as it is.
    pub fn retry<Request, Response, Error>(
        &mut self,
        request: &mut Request,
        result: &Result<Response, Error>,
    ) -> (retry: bool) where Request: MaxResponseBytesRequestExtension, Error: HttpsOutcallError
        ensures
            retry == retry_allowance(old(request).spec_max_response_bytes(), *result) is Some,
            retry ==> *final(request) == old(request).with_max_response_bytes(
                retry_allowance(old(request).spec_max_response_bytes(), *result)->0,
            ),
            retry ==> final(request).spec_max_response_bytes() == retry_allowance(
                old(request).spec_max_response_bytes(),
                *result,
            ),
            !retry ==> *final(request) == *old(request),
    {
        match result {
            Err(error) => {
                if error.is_response_too_large() {
                    if let Some(previous_estimate) = request.get_max_response_bytes() {
                        let new_estimate = double(previous_estimate);
                        if new_estimate > previous_estimate {
                            request.set_max_response_bytes(new_estimate);
                            return true;
                        }
                    }
                }
                false
            },
            Ok(_) => false,
        }
    }

    /// Tells whether a request is worth keeping for a retry: it is when its allowance can
    /// still grow.
    pub fn can_retry<Request>(&self, request: &Request) -> (worth: bool) where
        Request: MaxResponseBytesRequestExtension,

        ensures
            worth == (request.spec_max_response_bytes() matches Some(max_response_bytes)
                && max_response_bytes < HTTP_MAX_SIZE),
    {
        match request.get_max_response_bytes() {
            Some(max_response_bytes) => max_response_bytes < HTTP_MAX_SIZE,
            None => false,
        }
    }
}

/// Twice the given allowance, but no more than the platform can deliver.
fn double(max_response_bytes: u64) -> (twice: u64)
    ensures
        twice == doubled(max_response_bytes),
{
    if max_response_bytes > HTTP_MAX_SIZE / 2 {
        HTTP_MAX_SIZE
    } else {
        2 * max_response_bytes
    }
}

/// Whether `outcome` is what calling `transport` with `request` gives when each response
/// that is too large is followed by a call with twice the allowance, and at most `retries`
/// calls follow the first one: the result of the last call, which is the first one whose
/// result does not ask for a retry, or else the one after which no retry is left.
pub open spec fn retried_outcome<Response, Error, F>(
    transport: F,
    request: IcHttpRequest,
    retries: nat,
    outcome: Result<Response, Error>,
) -> bool where F: Fn(&IcHttpRequest) -> Result<Response, Error>, Error: HttpsOutcallError
    decreases retries,
{
    exists|result: Result<Response, Error>| #[trigger]
        call_ensures(transport, (&request,), result) && if retries > 0 && retry_allowance(
            request.max_response_bytes,
            result,
        ) is Some {
            retried_outcome(
                transport,
                IcHttpRequest {
                    max_response_bytes: retry_allowance(request.max_response_bytes, result),
                    ..request
                },
                (retries - 1) as nat,
                outcome,
            )
        } else {
            outcome == result
        }
}

/// Calls the transport with the request, and again with twice the allowance for the
/// response as long as the transport reports that the response was too large, the allowance
/// can grow, and fewer than `max_retries` calls have followed the first one. Any other
/// result is returned as it is. With `max_retries` of one the call is retried once.
pub fn call_with_retry<Response, Error, F>(
    transport: &F,
    request: IcHttpRequest,
    max_retries: u32,
) -> (outcome: Result<Response, Error>) where
    F: Fn(&IcHttpRequest) -> Result<Response, Error>,
    Error: HttpsOutcallError,

    requires
        call_requires(*transport, (&request,)),
        forall|allowance: u64| #[trigger]
            call_requires(
                *transport,
                (&IcHttpRequest { max_response_bytes: Some(allowance), ..request },),
            ),
    ensures
        retried_outcome(*transport, request, max_retries as nat, outcome),
{
    let mut policy = DoubleMaxResponseBytes;
    let mut attempt = request;
    let mut retries_left = max_retries;
    loop
        invariant
            call_requires(*transport, (&attempt,)),
            forall|allowance: u64| #[trigger]
                call_requires(
                    *transport,
                    (&IcHttpRequest { max_response_bytes: Some(allowance), ..request },),
                ),
            attempt == request || exists|allowance: u64|
                attempt == (IcHttpRequest { max_response_bytes: Some(allowance), ..request }),
            forall|last: Result<Response, Error>|
                retried_outcome(*transport, attempt, retries_left as nat, last)
                    ==> retried_outcome(*transport, request, max_retries as nat, last),
        decreases retries_left,
    {
        let ghost current = attempt;
        let result = transport(&attempt);
        if retries_left == 0 || !policy.retry(&mut attempt, &result) {
            assert(retried_outcome(*transport, current, retries_left as nat, result));
            return result;
        }
        proof {
            // An outcome of the retry is an outcome of the call that asked for the retry.
            assert forall|last: Result<Response, Error>|
                retried_outcome(
                    *transport,
                    attempt,
                    (retries_left - 1) as nat,
                    last,
                ) implies retried_outcome(*transport, current, retries_left as nat, last) by {
                assert(call_ensures(*transport, (&current,), result));
            }
        }
        retries_left = retries_left - 1;
    }
}

} // verus!
