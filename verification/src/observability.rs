//! Hooks that see requests, responses and errors as they pass, without changing them.

use crate::convert::Service;
use vstd::prelude::*;

verus! {

/// A service around which three hooks are called: one with each request before the inner
/// service is called, and one with the response or one with the error after it. What the
/// first hook returns for a request is handed to the hook that is called after it. The
/// outcome of a call is that of the inner service.
#[derive(Debug, Clone)]
pub struct Observability<S, OnRequest, OnResponse, OnError> {
    /// The service that answers the requests.
    pub inner: S,
    /// Called with each request.
    pub on_request: OnRequest,
    /// Called with each response.
    pub on_response: OnResponse,
    /// Called with each error.
    pub on_error: OnError,
}

impl<S, OnRequest, OnResponse, OnError> Observability<S, OnRequest, OnResponse, OnError> {
    /// Puts the hooks around the service.
    pub fn new(inner: S, on_request: OnRequest, on_response: OnResponse, on_error: OnError) -> (service:
        Self)
        ensures
            service.inner == inner,
            service.on_request == on_request,
            service.on_response == on_response,
            service.on_error == on_error,
    {
        Observability { inner, on_request, on_response, on_error }
    }
}

impl<Request, S, Data, OnRequest, OnResponse, OnError> Service<Request> for Observability<
    S,
    OnRequest,
    OnResponse,
    OnError,
> where
    S: Service<Request>,
    OnRequest: Fn(&Request) -> Data,
    OnResponse: Fn(Data, &S::Response),
    OnError: Fn(Data, &S::Error),
 {
    type Response = S::Response;

    type Error = S::Error;

    open spec fn accepts(&self, request: Request) -> bool {
        &&& self.inner.accepts(request)
        &&& call_requires(self.on_request, (&request,))
        &&& forall|data: Data, response: S::Response|
            call_requires(self.on_response, (data, &response))
        &&& forall|data: Data, error: S::Error| call_requires(self.on_error, (data, &error))
    }

    open spec fn responds(&self, request: Request, outcome: Result<S::Response, S::Error>) -> bool {
        self.inner.responds(request, outcome)
    }

    fn call(&mut self, request: Request) -> (outcome: Result<S::Response, S::Error>) {
        let data = (self.on_request)(&request);
        let outcome = self.inner.call(request);
        match &outcome {
            Ok(response) => (self.on_response)(data, response),
            Err(error) => (self.on_error)(data, error),
        }
        outcome
    }
}

} // verus!
