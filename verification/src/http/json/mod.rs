//! JSON and JSON-RPC payloads carried over HTTP.
//!
//! A service that exchanges bytes becomes one that exchanges JSON payloads when a
//! [`JsonRequestConverter`] is put in front of it and a [`JsonResponseConverter`] behind it:
//!
//! ```text
//!                 │                     ▲
//!      Request<I> │                     │ Response<O>
//!               ┌─┴─────────────────────┴───┐
//!               │   JsonResponseConverter   │
//!               └─┬─────────────────────▲───┘
//!                 │                     │
//!               ┌─▼─────────────────────┴───┐
//!               │   JsonRequestConverter    │
//!               └─┬─────────────────────┬───┘
//!      HttpRequest│                     │HttpResponse
//!                 ▼                     │
//!               ┌─ ─ ─ ─ ─ ─ ─ ─ ─ ─ ─ ─ ─ ─┐
//!               │          SERVICE          │
//!               └─ ─ ─ ─ ─ ─ ─ ─ ─ ─ ─ ─ ─ ─┘
//! ```

pub mod codec;
pub mod id;
pub mod id_set;
pub mod request;
pub mod response;
pub mod value;
pub mod version;

pub use id::{Id, IdView};
pub use id_set::IdSet;
pub use request::{
    BatchJsonRpcRequest, HttpBatchJsonRpcRequest, HttpJsonRpcRequest, JsonRequestConversionError,
    JsonRequestConverter, JsonRpcRequest,
};
pub use response::{
    BatchJsonRpcResponse, ConsistentJsonRpcIdFilter, ConsistentResponseIdFilterError,
    CreateJsonRpcIdFilter, HttpBatchJsonRpcResponse, HttpJsonRpcResponse,
    JsonResponseConversionError, JsonResponseConverter, JsonRpcError, JsonRpcResponse,
    JsonRpcResult,
};
pub use version::Version;

use crate::client::IcHttpRequest;
use crate::convert::{ConvertError, ConvertRequest, ConvertResponse, FilterResponse, Service};
use crate::http::json::id_set::first_occurrences;
use crate::http::json::response::{
    batch_verdict, check_batch_response_ids, check_response_id, expected_response_id,
    expected_response_ids, is_consistent_batch, is_consistent_response, request_id_views,
    single_verdict,
};
use crate::http::{HttpConversion, HttpConversionLayer, HttpRequest, Request, Response};
use std::marker::PhantomData;
use vstd::prelude::*;

verus! {

/// A service that exchanges JSON payloads, built around a service `S` that exchanges bytes
/// and reports errors of type `E`.
pub type JsonConversion<S, I, O, E> = ConvertResponse<
    ConvertRequest<S, ConvertError<JsonRequestConverter<I>, E>>,
    ConvertError<JsonResponseConverter<O>, E>,
>;

/// A service that makes JSON-RPC calls over HTTP, built around a transport `S` that reports
/// errors of type `E`.
pub type JsonRpcHttp<S, I, O, E> = FilterResponse<
    JsonConversion<HttpConversion<S, E>, I, O, E>,
    ConvertError<CreateJsonRpcIdFilter<I, O>, E>,
>;

/// Middleware that puts a [`JsonRequestConverter`] in front of a service and a
/// [`JsonResponseConverter`] behind it.
#[derive(Debug)]
pub struct JsonConversionLayer<I, O> {
    _marker: PhantomData<(I, O)>,
}

impl<I, O> JsonConversionLayer<I, O> {
    /// Returns a new [`JsonConversionLayer`].
    pub fn new() -> Self {
        Self { _marker: PhantomData }
    }

    /// Wraps the given service, which then exchanges JSON payloads.
    pub fn layer<S: Service<HttpRequest>>(&self, inner: S) -> (service: JsonConversion<
        S,
        I,
        O,
        S::Error,
    >)
        ensures
            service.inner.inner == inner,
    {
        ConvertResponse::new(
            ConvertRequest::new(inner, ConvertError::new(JsonRequestConverter::<I>::new())),
            ConvertError::new(JsonResponseConverter::<O>::new()),
        )
    }
}

impl<I, O> Clone for JsonConversionLayer<I, O> {
    fn clone(&self) -> Self {
        Self { _marker: self._marker }
    }
}

impl<I, O> Default for JsonConversionLayer<I, O> {
    fn default() -> Self {
        Self::new()
    }
}

/// Middleware that combines an [`HttpConversionLayer`], a [`JsonConversionLayer`] and a
/// [`CreateJsonRpcIdFilter`] into a JSON-RPC over HTTP service.
///
/// It serves single requests and responses as well as batches of them. The filter makes
/// sure that each response carries the identifier of the request it answers.
#[derive(Debug)]
pub struct JsonRpcHttpLayer<RequestBody, ResponseBody> {
    _marker: PhantomData<(RequestBody, ResponseBody)>,
}

impl<RequestBody, ResponseBody> JsonRpcHttpLayer<RequestBody, ResponseBody> {
    /// Returns a new [`JsonRpcHttpLayer`].
    pub fn new() -> Self {
        Self { _marker: PhantomData }
    }

    /// Wraps the given transport, which then makes JSON-RPC calls over HTTP.
    pub fn layer<S: Service<IcHttpRequest>>(&self, inner: S) -> (service: JsonRpcHttp<
        S,
        RequestBody,
        ResponseBody,
        S::Error,
    >)
        ensures
            service.inner.inner.inner.inner.inner == inner,
    {
        let http = HttpConversionLayer.layer(inner);
        let json = ConvertResponse::new(
            ConvertRequest::new(
                http,
                ConvertError::new(JsonRequestConverter::<RequestBody>::new()),
            ),
            ConvertError::new(JsonResponseConverter::<ResponseBody>::new()),
        );
        FilterResponse::new(
            json,
            ConvertError::new(CreateJsonRpcIdFilter::<RequestBody, ResponseBody>::new()),
        )
    }
}

impl<RequestBody, ResponseBody> Clone for JsonRpcHttpLayer<RequestBody, ResponseBody> {
    fn clone(&self) -> Self {
        Self { _marker: self._marker }
    }
}

impl<RequestBody, ResponseBody> Default for JsonRpcHttpLayer<RequestBody, ResponseBody> {
    fn default() -> Self {
        Self::new()
    }
}

/// A JSON-RPC request/response pair and the meaning of its identifiers: which identifier
/// the response to a request is expected to carry, and whether a response carries it.
pub trait JsonRpcCall<RequestBody, ResponseBody> {
    /// The type used to identify requests and responses.
    type Id;

    /// Whether a response to the request is expected: a notification has none.
    spec fn expects_response(request: &Request<RequestBody>) -> bool;

    /// Whether `id` is what identifies the response to the request.
    spec fn is_expected_response_id(request: &Request<RequestBody>, id: Self::Id) -> bool;

    /// Whether `verdict` is what the check of the response against `request_id` gives.
    spec fn is_verdict(
        request_id: &Self::Id,
        response: &Response<ResponseBody>,
        verdict: Result<(), ConsistentResponseIdFilterError>,
    ) -> bool;

    /// Returns the expected response ID for a given request.
    fn expected_response_id(request: &Request<RequestBody>) -> (id: Self::Id)
        requires
            Self::expects_response(request),
        ensures
            Self::is_expected_response_id(request, id),
    ;

    /// Checks that a response has a consistent ID for the given request ID.
    fn has_consistent_response_id(
        request_id: &Self::Id,
        response: &Response<ResponseBody>,
    ) -> (verdict: Result<(), ConsistentResponseIdFilterError>)
        ensures
            Self::is_verdict(request_id, response, verdict),
    ;
}

impl<Params, Outcome> JsonRpcCall<JsonRpcRequest<Params>, JsonRpcResponse<Outcome>> for (
    JsonRpcRequest<Params>,
    JsonRpcResponse<Outcome>,
) {
    type Id = Id;

    open spec fn expects_response(request: &Request<JsonRpcRequest<Params>>) -> bool {
        !(request.body.spec_id()@ is Null)
    }

    open spec fn is_expected_response_id(request: &Request<JsonRpcRequest<Params>>, id: Id) -> bool {
        id == request.body.spec_id()
    }

    open spec fn is_verdict(
        request_id: &Id,
        response: &Response<JsonRpcResponse<Outcome>>,
        verdict: Result<(), ConsistentResponseIdFilterError>,
    ) -> bool {
        single_verdict(*request_id, *response, verdict)
    }

    fn expected_response_id(request: &Request<JsonRpcRequest<Params>>) -> (id: Id) {
        expected_response_id(&request.body)
    }

    fn has_consistent_response_id(
        request_id: &Id,
        response: &Response<JsonRpcResponse<Outcome>>,
    ) -> (verdict: Result<(), ConsistentResponseIdFilterError>) {
        check_response_id(request_id, response)
    }
}

impl<Params, Outcome> JsonRpcCall<Vec<JsonRpcRequest<Params>>, Vec<JsonRpcResponse<Outcome>>> for (
    Vec<JsonRpcRequest<Params>>,
    Vec<JsonRpcResponse<Outcome>>,
) {
    type Id = IdSet;

    open spec fn expects_response(requests: &Request<Vec<JsonRpcRequest<Params>>>) -> bool {
        !request_id_views(requests.body@).contains(IdView::Null)
    }

    open spec fn is_expected_response_id(
        requests: &Request<Vec<JsonRpcRequest<Params>>>,
        ids: IdSet,
    ) -> bool {
        &&& ids@ == request_id_views(requests.body@).to_set()
        &&& ids.order() == first_occurrences(request_id_views(requests.body@))
    }

    open spec fn is_verdict(
        request_ids: &IdSet,
        responses: &Response<Vec<JsonRpcResponse<Outcome>>>,
        verdict: Result<(), ConsistentResponseIdFilterError>,
    ) -> bool {
        batch_verdict(*request_ids, *responses, verdict)
    }

    fn expected_response_id(requests: &Request<Vec<JsonRpcRequest<Params>>>) -> (ids: IdSet) {
        expected_response_ids(&requests.body)
    }

    fn has_consistent_response_id(
        request_ids: &IdSet,
        responses: &Response<Vec<JsonRpcResponse<Outcome>>>,
    ) -> (verdict: Result<(), ConsistentResponseIdFilterError>) {
        check_batch_response_ids(request_ids, responses)
    }
}

/// Whatever the stages below the filter do, a response that a JSON-RPC over HTTP service
/// hands out answers the request it was called with: it carries the identifier of the
/// request, or it is one that the server had to send without it.
pub proof fn lemma_response_answers_request<S, I, O, E>(
    service: FilterResponse<S, ConvertError<CreateJsonRpcIdFilter<JsonRpcRequest<I>, JsonRpcResponse<O>>, E>>,
    request: Request<JsonRpcRequest<I>>,
    response: Response<JsonRpcResponse<O>>,
) where
    S: Service<Request<JsonRpcRequest<I>>, Response = Response<JsonRpcResponse<O>>, Error = E>,
    E: From<ConsistentResponseIdFilterError>,

    requires
        service.responds(request, Ok::<Response<JsonRpcResponse<O>>, E>(response)),
    ensures
        is_consistent_response(request.body.spec_id(), response.body),
{
}

/// Whatever the stages below the filter do, a batch of responses that a JSON-RPC over HTTP
/// service hands out answers the batch of requests it was called with.
pub proof fn lemma_batch_response_answers_request<S, I, O, E>(
    service: FilterResponse<
        S,
        ConvertError<CreateJsonRpcIdFilter<Vec<JsonRpcRequest<I>>, Vec<JsonRpcResponse<O>>>, E>,
    >,
    requests: Request<Vec<JsonRpcRequest<I>>>,
    responses: Response<Vec<JsonRpcResponse<O>>>,
) where
    S: Service<
        Request<Vec<JsonRpcRequest<I>>>,
        Response = Response<Vec<JsonRpcResponse<O>>>,
        Error = E,
    >,
    E: From<ConsistentResponseIdFilterError>,

    requires
        service.responds(requests, Ok::<Response<Vec<JsonRpcResponse<O>>>, E>(responses)),
    ensures
        is_consistent_batch(request_id_views(requests.body@).to_set(), responses.body@),
{
}

} // verus!
