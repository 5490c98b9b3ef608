//! JSON-RPC responses and the check that their identifiers match the requests'.

use crate::convert::{Convert, CreateResponseFilter, Filter};
use crate::http::json::id::{Id, IdView};
use crate::http::json::id_set::{first_occurrences, IdSet};
use crate::http::json::request::JsonRpcRequest;
use crate::http::json::value::{
    error_text, json_error_text, json_from_slice, lossy_text, parse_json, utf8_lossy,
};
use crate::http::json::version::Version;
use crate::http::{HttpResponse, Request, Response};
use std::marker::PhantomData;
use vstd::prelude::*;

verus! {

/// Error returned when converting responses with [`JsonResponseConverter`].
#[derive(Clone, Debug, PartialEq, Eq)]
pub enum JsonResponseConversionError {
    /// Response body could not be read as JSON of the expected form.
    InvalidJsonResponse {
        /// Response status code
        status: u16,
        /// Response body, read as text
        body: String,
        /// What the parser objected to
        parsing_error: String,
    },
}

/// Whether `output` reports that the body of the given response could not be read, for the
/// given reason: the error keeps the status of the response and its body as text.
pub open spec fn is_invalid_json_response<T>(
    input: HttpResponse,
    reason: Seq<char>,
    output: Result<Response<T>, JsonResponseConversionError>,
) -> bool {
    &&& output matches Err(
        JsonResponseConversionError::InvalidJsonResponse { status, body, parsing_error },
    )
    &&& status == input.status
    &&& body@ == utf8_lossy(input.body@)
    &&& parsing_error@ == reason
}

/// Whether `output` is the given response with its body read as JSON, where `parsed` is the
/// outcome of reading the body: the response with the value as its body and nothing else
/// changed, or the error that keeps the status, the body as text and what the parser
/// objected to.
pub open spec fn is_parsed_response<T>(
    input: HttpResponse,
    parsed: Result<T, Seq<char>>,
    output: Result<Response<T>, JsonResponseConversionError>,
) -> bool {
    match parsed {
        Ok(value) => output == Ok::<Response<T>, JsonResponseConversionError>(
            Response { status: input.status, headers: input.headers, body: value },
        ),
        Err(reason) => is_invalid_json_response(input, reason, output),
    }
}

/// Converts responses whose body is JSON text into responses whose body is the value that
/// the text stands for.
#[derive(Debug)]
pub struct JsonResponseConverter<T> {
    _marker: PhantomData<T>,
}

impl<T> JsonResponseConverter<T> {
    /// Creates a new instance of [`JsonResponseConverter`].
    pub fn new() -> Self {
        Self { _marker: PhantomData }
    }

    /// Puts the value read from the body in the place of the body of the response, or
    /// reports why the body could not be read. `parsed` is the outcome of reading the body.
    pub fn convert_parsed(&mut self, response: HttpResponse, parsed: Result<T, String>) -> (output:
        Result<Response<T>, JsonResponseConversionError>)
        ensures
            *final(self) == *old(self),
            is_parsed_response(
                response,
                match parsed {
                    Ok(value) => Ok::<T, Seq<char>>(value),
                    Err(reason) => Err::<T, Seq<char>>(reason@),
                },
                output,
            ),
    {
        match parsed {
            Ok(body) => Ok(Response { status: response.status, headers: response.headers, body }),
            Err(parsing_error) => Err(
                JsonResponseConversionError::InvalidJsonResponse {
                    status: response.status,
                    body: lossy_text(&response.body),
                    parsing_error,
                },
            ),
        }
    }
}

// A derived `Clone` would ask for `T: Clone`, which is not needed.
impl<T> Clone for JsonResponseConverter<T> {
    fn clone(&self) -> Self {
        Self { _marker: self._marker }
    }
}

impl<T> Default for JsonResponseConverter<T> {
    fn default() -> Self {
        Self::new()
    }
}

impl Convert<HttpResponse> for JsonResponseConverter<serde_json::Value> {
    type Output = Response<serde_json::Value>;

    type Error = JsonResponseConversionError;

    open spec fn converts(
        &self,
        input: HttpResponse,
        output: Result<Response<serde_json::Value>, JsonResponseConversionError>,
    ) -> bool {
        is_parsed_response(
            input,
            match json_from_slice(input.body@) {
                Ok(value) => Ok::<serde_json::Value, Seq<char>>(value),
                Err(error) => Err::<serde_json::Value, Seq<char>>(json_error_text(error)),
            },
            output,
        )
    }

    fn try_convert(&mut self, response: HttpResponse) -> (output: Result<
        Response<serde_json::Value>,
        JsonResponseConversionError,
    >)
        ensures
            *final(self) == *old(self),
    {
        let parsed = match parse_json(&response.body) {
            Ok(value) => Ok(value),
            Err(error) => Err(error_text(&error)),
        };
        self.convert_parsed(response, parsed)
    }
}

/// Code of the JSON-RPC error sent when the server could not parse the request.
pub const PARSE_ERROR_CODE: i64 = -32700;

/// Code of the JSON-RPC error sent when the request was not a valid request object.
pub const INVALID_REQUEST_CODE: i64 = -32600;

/// Outcome of a JSON-RPC call: the result, or the error the server reported.
pub type JsonRpcResult<T> = Result<T, JsonRpcError>;

/// A JSON-RPC error object.
#[derive(Clone, Debug, PartialEq, Eq)]
pub struct JsonRpcError {
    /// Indicates the type of error that occurred.
    pub code: i64,
    /// Short description of the error.
    pub message: String,
    /// Additional information about the error, if any; its content is up to the server.
    pub data: Option<serde_json::Value>,
}

impl JsonRpcError {
    /// Creates a JSON-RPC error without `data`.
    pub fn new(code: i64, message: String) -> (error: Self)
        ensures
            error.code == code,
            error.message == message,
            error.data is None,
    {
        Self { code, message, data: None }
    }

    /// Whether the code says that the server could not parse the request.
    pub fn is_parse_error(&self) -> (parse_error: bool)
        ensures
            parse_error == (self.code == PARSE_ERROR_CODE),
    {
        self.code == PARSE_ERROR_CODE
    }

    /// Whether the code says that the request was not a valid request object.
    pub fn is_invalid_request(&self) -> (invalid_request: bool)
        ensures
            invalid_request == (self.code == INVALID_REQUEST_CODE),
    {
        self.code == INVALID_REQUEST_CODE
    }
}

/// The two shapes a response body can have; a response never holds both or neither.
#[derive(Debug, Clone, PartialEq, Eq)]
enum JsonRpcResultEnvelope<T> {
    /// Successful JSON-RPC response, written under the key `result`.
    Success(T),
    /// Failed JSON-RPC response, written under the key `error`.
    Failure(JsonRpcError),
}

impl<T> JsonRpcResultEnvelope<T> {
    spec fn result(self) -> JsonRpcResult<T> {
        match self {
            JsonRpcResultEnvelope::Success(result) => Ok(result),
            JsonRpcResultEnvelope::Failure(error) => Err(error),
        }
    }

    fn into_result(self) -> (result: JsonRpcResult<T>)
        ensures
            result == self.result(),
    {
        match self {
            JsonRpcResultEnvelope::Success(result) => Ok(result),
            JsonRpcResultEnvelope::Failure(error) => Err(error),
        }
    }

    fn as_result(&self) -> (result: Result<&T, &JsonRpcError>)
        ensures
            match result {
                Ok(value) => self.result() == Ok::<T, JsonRpcError>(*value),
                Err(error) => self.result() == Err::<T, JsonRpcError>(*error),
            },
    {
        match self {
            JsonRpcResultEnvelope::Success(result) => Ok(result),
            JsonRpcResultEnvelope::Failure(error) => Err(error),
        }
    }

    fn as_result_mut(&mut self) -> (result: Result<&mut T, &mut JsonRpcError>)
        ensures
            match result {
                Ok(value) => old(self).result() == Ok::<T, JsonRpcError>(*value)
                    && final(self).result() == Ok::<T, JsonRpcError>(*final(value)),
                Err(error) => old(self).result() == Err::<T, JsonRpcError>(*error)
                    && final(self).result() == Err::<T, JsonRpcError>(*final(error)),
            },
    {
        match self {
            JsonRpcResultEnvelope::Success(result) => Ok(result),
            JsonRpcResultEnvelope::Failure(error) => Err(error),
        }
    }

    fn map<R, F: FnOnce(T) -> R>(self, f: F) -> (mapped: JsonRpcResultEnvelope<R>)
        requires
            self.result() matches Ok(value) ==> call_requires(f, (value,)),
        ensures
            match self.result() {
                Ok(value) => mapped.result() matches Ok(new_value) && call_ensures(
                    f,
                    (value,),
                    new_value,
                ),
                Err(error) => mapped.result() == Err::<R, JsonRpcError>(error),
            },
    {
        match self {
            JsonRpcResultEnvelope::Success(result) => JsonRpcResultEnvelope::Success(f(result)),
            JsonRpcResultEnvelope::Failure(error) => JsonRpcResultEnvelope::Failure(error),
        }
    }
}

/// JSON-RPC response body: the identifier of the request it answers, and the outcome.
#[derive(Clone, Debug, PartialEq, Eq)]
pub struct JsonRpcResponse<T> {
    jsonrpc: Version,
    id: Id,
    result: JsonRpcResultEnvelope<T>,
}

impl<T> JsonRpcResponse<T> {
    /// Identifier carried by the response.
    pub closed spec fn spec_id(&self) -> Id {
        self.id
    }

    /// Outcome carried by the response.
    pub closed spec fn spec_result(&self) -> JsonRpcResult<T> {
        self.result.result()
    }

    /// Code of the error carried by the response, if it carries one.
    pub open spec fn error_code(&self) -> Option<i64> {
        match self.spec_result() {
            Ok(_) => None,
            Err(error) => Some(error.code),
        }
    }

    /// Creates a successful response from a request ID and the result.
    pub fn from_ok(id: Id, result: T) -> (response: Self)
        ensures
            response.spec_id() == id,
            response.spec_result() == Ok::<T, JsonRpcError>(result),
    {
        Self { jsonrpc: Version::V2, result: JsonRpcResultEnvelope::Success(result), id }
    }

    /// Creates an error response from a request ID and an error object.
    pub fn from_error(id: Id, error: JsonRpcError) -> (response: Self)
        ensures
            response.spec_id() == id,
            response.spec_result() == Err::<T, JsonRpcError>(error),
    {
        Self { jsonrpc: Version::V2, result: JsonRpcResultEnvelope::Failure(error), id }
    }

    /// Creates a response from a request ID and either a result or an error object.
    pub fn from_parts(id: Id, result: JsonRpcResult<T>) -> (response: Self)
        ensures
            response.spec_id() == id,
            response.spec_result() == result,
    {
        match result {
            Ok(r) => JsonRpcResponse::from_ok(id, r),
            Err(e) => JsonRpcResponse::from_error(id, e),
        }
    }

    /// Splits the response into the request ID and the outcome.
    pub fn into_parts(self) -> (parts: (Id, JsonRpcResult<T>))
        ensures
            parts.0 == self.spec_id(),
            parts.1 == self.spec_result(),
    {
        (self.id, self.result.into_result())
    }

    /// Similar to [`Self::into_parts`] but only takes a reference.
    pub fn as_parts(&self) -> (parts: (&Id, Result<&T, &JsonRpcError>))
        ensures
            *parts.0 == self.spec_id(),
            match parts.1 {
                Ok(value) => self.spec_result() == Ok::<T, JsonRpcError>(*value),
                Err(error) => self.spec_result() == Err::<T, JsonRpcError>(*error),
            },
    {
        (&self.id, self.as_result())
    }

    /// Converts this response into its outcome.
    pub fn into_result(self) -> (result: JsonRpcResult<T>)
        ensures
            result == self.spec_result(),
    {
        self.result.into_result()
    }

    /// Similar to [`Self::into_result`] but only takes a reference.
    pub fn as_result(&self) -> (result: Result<&T, &JsonRpcError>)
        ensures
            match result {
                Ok(value) => self.spec_result() == Ok::<T, JsonRpcError>(*value),
                Err(error) => self.spec_result() == Err::<T, JsonRpcError>(*error),
            },
    {
        self.result.as_result()
    }

    /// Gives mutable access to the outcome; the identifier stays as it is.
    pub fn as_result_mut(&mut self) -> (result: Result<&mut T, &mut JsonRpcError>)
        ensures
            final(self).spec_id() == old(self).spec_id(),
            match result {
                Ok(value) => old(self).spec_result() == Ok::<T, JsonRpcError>(*value)
                    && final(self).spec_result() == Ok::<T, JsonRpcError>(*final(value)),
                Err(error) => old(self).spec_result() == Err::<T, JsonRpcError>(*error)
                    && final(self).spec_result() == Err::<T, JsonRpcError>(*final(error)),
            },
    {
        self.result.as_result_mut()
    }

    /// Returns the response ID.
    pub fn id(&self) -> (id: &Id)
        ensures
            *id == self.spec_id(),
    {
        &self.id
    }

    /// Maps the result of a successful response by the given function; an error stays as it is.
    pub fn map<R, F: FnOnce(T) -> R>(self, f: F) -> (mapped: JsonRpcResponse<R>)
        requires
            self.spec_result() matches Ok(value) ==> call_requires(f, (value,)),
        ensures
            mapped.spec_id() == self.spec_id(),
            match self.spec_result() {
                Ok(value) => mapped.spec_result() matches Ok(new_value) && call_ensures(
                    f,
                    (value,),
                    new_value,
                ),
                Err(error) => mapped.spec_result() == Err::<R, JsonRpcError>(error),
            },
    {
        JsonRpcResponse { jsonrpc: self.jsonrpc, id: self.id, result: self.result.map(f) }
    }
}

/// JSON-RPC response over HTTP.
pub type HttpJsonRpcResponse<T> = Response<JsonRpcResponse<T>>;

/// Body of a batch JSON-RPC response.
pub type BatchJsonRpcResponse<T> = Vec<JsonRpcResponse<T>>;

/// Batch JSON-RPC response over HTTP.
pub type HttpBatchJsonRpcResponse<T> = Response<Vec<JsonRpcResponse<T>>>;

/// Error returned when the identifiers of a response do not fit those of the request.
#[derive(Clone, Debug, PartialEq, Eq)]
pub enum ConsistentResponseIdFilterError {
    /// ID of the response does not match that of the request.
    InconsistentId {
        /// Response status code.
        status: u16,
        /// ID from the request.
        request_id: Id,
        /// ID from the response.
        response_id: Id,
    },
    /// IDs in the response either contain unexpected IDs or are missing some request IDs.
    InconsistentBatchIds {
        /// Response status code.
        status: u16,
        /// IDs from the requests.
        request_ids: IdSet,
        /// IDs from the responses.
        response_ids: IdSet,
    },
}

/// Whether the response is one the server had to send without the identifier of the request:
/// its identifier is null and it reports a parse error or an invalid request.
pub open spec fn null_id_is_expected<T>(response: JsonRpcResponse<T>) -> bool {
    &&& response.spec_id()@ is Null
    &&& (response.error_code() == Some(PARSE_ERROR_CODE) || response.error_code() == Some(
        INVALID_REQUEST_CODE,
    ))
}

/// Whether a response answers the request that was sent under `request_id`.
pub open spec fn is_consistent_response<T>(request_id: Id, response: JsonRpcResponse<T>) -> bool {
    request_id@ == response.spec_id()@ || null_id_is_expected(response)
}

/// The identifiers of the responses, in the order of the responses.
pub open spec fn response_id_views<T>(responses: Seq<JsonRpcResponse<T>>) -> Seq<IdView> {
    responses.map_values(|response: JsonRpcResponse<T>| response.spec_id()@)
}

/// The identifiers of the requests, in the order of the requests.
pub open spec fn request_id_views<T>(requests: Seq<JsonRpcRequest<T>>) -> Seq<IdView> {
    requests.map_values(|request: JsonRpcRequest<T>| request.spec_id()@)
}

/// Number of responses that the server had to send without the identifier of a request.
pub open spec fn expected_missing_id_count<T>(responses: Seq<JsonRpcResponse<T>>) -> nat
    decreases responses.len(),
{
    if responses.len() == 0 {
        0
    } else {
        expected_missing_id_count(responses.drop_last()) + if null_id_is_expected(
            responses.last(),
        ) {
            1nat
        } else {
            0nat
        }
    }
}

/// Whether a batch of responses answers the batch of requests sent under `request_ids`:
/// no response carries an identifier that was not sent, and no more sent identifiers are
/// missing from the responses than there are responses that had to be sent without one.
pub open spec fn is_consistent_batch<T>(
    request_ids: Set<IdView>,
    responses: Seq<JsonRpcResponse<T>>,
) -> bool {
    let response_ids = response_id_views(responses).to_set();
    &&& response_ids.subset_of(request_ids)
    &&& request_ids.difference(response_ids).len() <= expected_missing_id_count(responses)
}

/// Tells whether the response is one the server had to send without the identifier of the
/// request.
pub fn should_have_null_id<T>(response: &JsonRpcResponse<T>) -> (expected: bool)
    ensures
        expected == null_id_is_expected(*response),
{
    let (response_id, result) = response.as_parts();
    response_id.is_null() && match result {
        Ok(_) => false,
        Err(e) => e.is_parse_error() || e.is_invalid_request(),
    }
}

/// Returns the identifier under which the response to the request is expected.
///
/// A request with a null identifier is a notification: no response to it is expected.
pub fn expected_response_id<T>(request: &JsonRpcRequest<T>) -> (id: Id)
    requires
        !(request.spec_id()@ is Null),
    ensures
        id == request.spec_id(),
{
    request.id().clone()
}

/// Collects the identifiers under which the responses to a batch of requests are expected.
pub fn expected_response_ids<T>(requests: &Vec<JsonRpcRequest<T>>) -> (ids: IdSet)
    requires
        !request_id_views(requests@).contains(IdView::Null),
    ensures
        ids@ == request_id_views(requests@).to_set(),
        ids.order() == first_occurrences(request_id_views(requests@)),
        !ids@.contains(IdView::Null),
{
    let ghost views = request_id_views(requests@);
    let mut ids = IdSet::new();
    let mut i: usize = 0;
    while i < requests.len()
        invariant
            i <= requests.len(),
            views == request_id_views(requests@),
            !views.contains(IdView::Null),
            ids@ == views.take(i as int).to_set(),
            ids.order() == first_occurrences(views.take(i as int)),
        decreases requests.len() - i,
    {
        proof {
            let before = views.take(i as int);
            assert(views.take(i + 1) =~= before.push(views[i as int]));
            assert(views.take(i + 1).drop_last() =~= before);
            before.lemma_push_to_set_commute(views[i as int]);
            ids.lemma_view_of_order();
        }
        let id = expected_response_id(&requests[i]);
        ids.insert(id);
        i += 1;
    }
    proof {
        assert(views.take(i as int) =~= views);
    }
    ids
}

/// Collects the identifiers that the responses of a batch carry.
pub fn response_ids<T>(responses: &Vec<JsonRpcResponse<T>>) -> (ids: IdSet)
    ensures
        ids@ == response_id_views(responses@).to_set(),
        ids.order() == first_occurrences(response_id_views(responses@)),
{
    let ghost views = response_id_views(responses@);
    let mut ids = IdSet::new();
    let mut i: usize = 0;
    while i < responses.len()
        invariant
            i <= responses.len(),
            views == response_id_views(responses@),
            ids@ == views.take(i as int).to_set(),
            ids.order() == first_occurrences(views.take(i as int)),
        decreases responses.len() - i,
    {
        proof {
            let before = views.take(i as int);
            assert(views.take(i + 1) =~= before.push(views[i as int]));
            assert(views.take(i + 1).drop_last() =~= before);
            before.lemma_push_to_set_commute(views[i as int]);
            ids.lemma_view_of_order();
        }
        ids.insert(responses[i].id().clone());
        i += 1;
    }
    proof {
        assert(views.take(i as int) =~= views);
    }
    ids
}

/// Counts the responses of a batch that the server had to send without the identifier of a
/// request.
pub fn count_expected_missing_ids<T>(responses: &Vec<JsonRpcResponse<T>>) -> (count: usize)
    ensures
        count == expected_missing_id_count(responses@),
{
    let mut count: usize = 0;
    let mut i: usize = 0;
    while i < responses.len()
        invariant
            i <= responses.len(),
            count <= i,
            count == expected_missing_id_count(responses@.take(i as int)),
        decreases responses.len() - i,
    {
        proof {
            assert(responses@.take(i + 1).drop_last() =~= responses@.take(i as int));
        }
        if should_have_null_id(&responses[i]) {
            count += 1;
        }
        i += 1;
    }
    proof {
        assert(responses@.take(i as int) =~= responses@);
    }
    count
}

/// What the check of one response against the identifier of its request gives: nothing to
/// object, or the two identifiers that do not fit together.
pub open spec fn single_verdict<T>(
    request_id: Id,
    response: Response<JsonRpcResponse<T>>,
    verdict: Result<(), ConsistentResponseIdFilterError>,
) -> bool {
    if is_consistent_response(request_id, response.body) {
        verdict == Ok::<(), ConsistentResponseIdFilterError>(())
    } else {
        verdict == Err::<(), ConsistentResponseIdFilterError>(
            ConsistentResponseIdFilterError::InconsistentId {
                status: response.status,
                request_id,
                response_id: response.body.spec_id(),
            },
        )
    }
}

/// Whether `error` reports the identifiers that were sent and those that came back with the
/// given batch of responses, together with the status of the responses.
pub open spec fn reports_batch_ids<T>(
    error: ConsistentResponseIdFilterError,
    request_ids: IdSet,
    responses: Response<Vec<JsonRpcResponse<T>>>,
) -> bool {
    &&& error matches ConsistentResponseIdFilterError::InconsistentBatchIds {
        status,
        request_ids: sent,
        response_ids: received,
    }
    &&& status == responses.status
    &&& sent@ == request_ids@
    &&& sent.order() == request_ids.order()
    &&& received@ == response_id_views(responses.body@).to_set()
    &&& received.order() == first_occurrences(response_id_views(responses.body@))
}

/// What the check of a batch of responses against the identifiers of the requests gives:
/// nothing to object, or the identifiers that were sent and those that came back.
pub open spec fn batch_verdict<T>(
    request_ids: IdSet,
    responses: Response<Vec<JsonRpcResponse<T>>>,
    verdict: Result<(), ConsistentResponseIdFilterError>,
) -> bool {
    if is_consistent_batch(request_ids@, responses.body@) {
        verdict == Ok::<(), ConsistentResponseIdFilterError>(())
    } else {
        verdict matches Err(error) && reports_batch_ids(error, request_ids, responses)
    }
}

/// Checks that a response carries the identifier of the request, or is one that the server
/// had to send without it.
pub fn check_response_id<T>(request_id: &Id, response: &Response<JsonRpcResponse<T>>) -> (verdict:
    Result<(), ConsistentResponseIdFilterError>)
    ensures
        single_verdict(*request_id, *response, verdict),
{
    let response_id = response.body.id();
    if *request_id == *response_id || should_have_null_id(&response.body) {
        Ok(())
    } else {
        Err(
            ConsistentResponseIdFilterError::InconsistentId {
                status: response.status,
                request_id: request_id.clone(),
                response_id: response_id.clone(),
            },
        )
    }
}

/// Checks the identifiers of a batch of responses against those of the requests.
pub fn check_batch_response_ids<T>(
    request_ids: &IdSet,
    responses: &Response<Vec<JsonRpcResponse<T>>>,
) -> (verdict: Result<(), ConsistentResponseIdFilterError>)
    ensures
        batch_verdict(*request_ids, *responses, verdict),
{
    let expected_missing_id_count = count_expected_missing_ids(&responses.body);
    let response_ids = response_ids(&responses.body);
    let missing_id_count = request_ids.difference_len(&response_ids);
    let unexpected_id_count = response_ids.difference_len(request_ids);
    proof {
        response_ids.lemma_view_of_order();
        let unexpected = response_ids@.difference(request_ids@);
        if unexpected_id_count == 0 {
            assert forall|id: IdView| response_ids@.contains(id) implies request_ids@.contains(
                id,
            ) by {
                if !request_ids@.contains(id) {
                    assert(unexpected.contains(id));
                }
            }
        } else {
            if response_ids@.subset_of(request_ids@) {
                assert(unexpected =~= Set::<IdView>::empty());
            }
        }
    }
    if (unexpected_id_count == 0) && (missing_id_count <= expected_missing_id_count) {
        Ok(())
    } else {
        Err(
            ConsistentResponseIdFilterError::InconsistentBatchIds {
                status: responses.status,
                request_ids: request_ids.clone(),
                response_ids,
            },
        )
    }
}

/// Makes, for each request, the filter that checks the identifiers of the response to it.
pub struct CreateJsonRpcIdFilter<Request, Response> {
    _marker: PhantomData<(Request, Response)>,
}

impl<Request, Response> CreateJsonRpcIdFilter<Request, Response> {
    /// Creates a new instance of [`CreateJsonRpcIdFilter`].
    pub fn new() -> Self {
        Self { _marker: PhantomData }
    }
}

impl<Request, Response> Clone for CreateJsonRpcIdFilter<Request, Response> {
    fn clone(&self) -> Self {
        Self { _marker: self._marker }
    }
}

impl<Request, Response> Default for CreateJsonRpcIdFilter<Request, Response> {
    fn default() -> Self {
        Self::new()
    }
}

/// Ensures that the identifiers of a response fit those of the request, which the filter
/// holds.
pub struct ConsistentJsonRpcIdFilter<Request, Response, RequestId> {
    request_id: RequestId,
    _marker: PhantomData<(Request, Response)>,
}

impl<Request, Response, RequestId> ConsistentJsonRpcIdFilter<Request, Response, RequestId> {
    /// The identifier, or identifiers, that the filter expects.
    pub closed spec fn request_id(&self) -> RequestId {
        self.request_id
    }
}

impl<I, O> ConsistentJsonRpcIdFilter<JsonRpcRequest<I>, JsonRpcResponse<O>, Id> {
    /// Creates a filter for the response to the request that was sent under the given
    /// identifier. A notification has no response, so the identifier is not null.
    pub fn new(request_id: Id) -> (filter: Self)
        requires
            !(request_id@ is Null),
        ensures
            filter.request_id() == request_id,
    {
        Self { request_id, _marker: PhantomData }
    }
}

impl<I, O> ConsistentJsonRpcIdFilter<Vec<JsonRpcRequest<I>>, Vec<JsonRpcResponse<O>>, IdSet> {
    /// Creates a filter for the responses to the requests that were sent under the given
    /// identifiers. A notification has no response, so none of the identifiers is null.
    pub fn new(request_ids: IdSet) -> (filter: Self)
        requires
            !request_ids@.contains(IdView::Null),
        ensures
            filter.request_id() == request_ids,
    {
        Self { request_id: request_ids, _marker: PhantomData }
    }
}

impl<I, O> Filter<Response<JsonRpcResponse<O>>> for ConsistentJsonRpcIdFilter<
    JsonRpcRequest<I>,
    JsonRpcResponse<O>,
    Id,
> {
    type Error = ConsistentResponseIdFilterError;

    open spec fn filters(
        &self,
        input: Response<JsonRpcResponse<O>>,
        output: Result<Response<JsonRpcResponse<O>>, ConsistentResponseIdFilterError>,
    ) -> bool {
        if is_consistent_response(self.request_id(), input.body) {
            output == Ok::<Response<JsonRpcResponse<O>>, ConsistentResponseIdFilterError>(input)
        } else {
            output == Err::<Response<JsonRpcResponse<O>>, ConsistentResponseIdFilterError>(
                ConsistentResponseIdFilterError::InconsistentId {
                    status: input.status,
                    request_id: self.request_id(),
                    response_id: input.body.spec_id(),
                },
            )
        }
    }

    fn filter(&mut self, response: Response<JsonRpcResponse<O>>) -> (output: Result<
        Response<JsonRpcResponse<O>>,
        ConsistentResponseIdFilterError,
    >)
        ensures
            final(self).request_id() == old(self).request_id(),
    {
        match check_response_id(&self.request_id, &response) {
            Ok(()) => Ok(response),
            Err(error) => Err(error),
        }
    }
}

impl<I, O> Filter<Response<Vec<JsonRpcResponse<O>>>> for ConsistentJsonRpcIdFilter<
    Vec<JsonRpcRequest<I>>,
    Vec<JsonRpcResponse<O>>,
    IdSet,
> {
    type Error = ConsistentResponseIdFilterError;

    open spec fn filters(
        &self,
        input: Response<Vec<JsonRpcResponse<O>>>,
        output: Result<Response<Vec<JsonRpcResponse<O>>>, ConsistentResponseIdFilterError>,
    ) -> bool {
        if is_consistent_batch(self.request_id()@, input.body@) {
            output == Ok::<Response<Vec<JsonRpcResponse<O>>>, ConsistentResponseIdFilterError>(
                input,
            )
        } else {
            output matches Err(error) && reports_batch_ids(error, self.request_id(), input)
        }
    }

    fn filter(&mut self, responses: Response<Vec<JsonRpcResponse<O>>>) -> (output: Result<
        Response<Vec<JsonRpcResponse<O>>>,
        ConsistentResponseIdFilterError,
    >)
        ensures
            final(self).request_id() == old(self).request_id(),
    {
        match check_batch_response_ids(&self.request_id, &responses) {
            Ok(()) => Ok(responses),
            Err(error) => Err(error),
        }
    }
}

impl<I, O> CreateResponseFilter<
    Request<JsonRpcRequest<I>>,
    Response<JsonRpcResponse<O>>,
> for CreateJsonRpcIdFilter<JsonRpcRequest<I>, JsonRpcResponse<O>> {
    type Filter = ConsistentJsonRpcIdFilter<JsonRpcRequest<I>, JsonRpcResponse<O>, Id>;

    type Error = ConsistentResponseIdFilterError;

    open spec fn can_create(&self, request: &Request<JsonRpcRequest<I>>) -> bool {
        !(request.body.spec_id()@ is Null)
    }

    open spec fn creates(
        &self,
        request: &Request<JsonRpcRequest<I>>,
        filter: ConsistentJsonRpcIdFilter<JsonRpcRequest<I>, JsonRpcResponse<O>, Id>,
    ) -> bool {
        filter.request_id() == request.body.spec_id()
    }

    fn create_filter(&self, request: &Request<JsonRpcRequest<I>>) -> (filter:
        ConsistentJsonRpcIdFilter<JsonRpcRequest<I>, JsonRpcResponse<O>, Id>) {
        let request_id = expected_response_id(&request.body);
        ConsistentJsonRpcIdFilter::<JsonRpcRequest<I>, JsonRpcResponse<O>, Id>::new(request_id)
    }
}

impl<I, O> CreateResponseFilter<
    Request<Vec<JsonRpcRequest<I>>>,
    Response<Vec<JsonRpcResponse<O>>>,
> for CreateJsonRpcIdFilter<Vec<JsonRpcRequest<I>>, Vec<JsonRpcResponse<O>>> {
    type Filter = ConsistentJsonRpcIdFilter<Vec<JsonRpcRequest<I>>, Vec<JsonRpcResponse<O>>, IdSet>;

    type Error = ConsistentResponseIdFilterError;

    open spec fn can_create(&self, requests: &Request<Vec<JsonRpcRequest<I>>>) -> bool {
        !request_id_views(requests.body@).contains(IdView::Null)
    }

    open spec fn creates(
        &self,
        requests: &Request<Vec<JsonRpcRequest<I>>>,
        filter: ConsistentJsonRpcIdFilter<Vec<JsonRpcRequest<I>>, Vec<JsonRpcResponse<O>>, IdSet>,
    ) -> bool {
        &&& filter.request_id()@ == request_id_views(requests.body@).to_set()
        &&& filter.request_id().order() == first_occurrences(request_id_views(requests.body@))
    }

    fn create_filter(&self, requests: &Request<Vec<JsonRpcRequest<I>>>) -> (filter:
        ConsistentJsonRpcIdFilter<Vec<JsonRpcRequest<I>>, Vec<JsonRpcResponse<O>>, IdSet>) {
        let request_ids = expected_response_ids(&requests.body);
        ConsistentJsonRpcIdFilter::<Vec<JsonRpcRequest<I>>, Vec<JsonRpcResponse<O>>, IdSet>::new(
            request_ids,
        )
    }
}

/// A response that carries the identifier of the request passes the filter, whether it
/// reports a result or an error.
pub proof fn lemma_matching_id_is_accepted<I, O>(
    filter: ConsistentJsonRpcIdFilter<JsonRpcRequest<I>, JsonRpcResponse<O>, Id>,
    response: Response<JsonRpcResponse<O>>,
    output: Result<Response<JsonRpcResponse<O>>, ConsistentResponseIdFilterError>,
)
    requires
        filter.request_id()@ == response.body.spec_id()@,
        filter.filters(response, output),
    ensures
        output == Ok::<Response<JsonRpcResponse<O>>, ConsistentResponseIdFilterError>(response),
{
}

/// A response with a null identifier passes the filter if and only if it reports a parse
/// error or an invalid request; it then passes unchanged.
pub proof fn lemma_null_id_is_accepted_only_for_unreadable_requests<I, O>(
    filter: ConsistentJsonRpcIdFilter<JsonRpcRequest<I>, JsonRpcResponse<O>, Id>,
    response: Response<JsonRpcResponse<O>>,
    output: Result<Response<JsonRpcResponse<O>>, ConsistentResponseIdFilterError>,
)
    requires
        !(filter.request_id()@ is Null),
        response.body.spec_id()@ is Null,
        filter.filters(response, output),
    ensures
        output is Ok <==> (response.body.error_code() == Some(PARSE_ERROR_CODE)
            || response.body.error_code() == Some(INVALID_REQUEST_CODE)),
        output is Ok ==> output == Ok::<
            Response<JsonRpcResponse<O>>,
            ConsistentResponseIdFilterError,
        >(response),
{
}

/// The identifier expected for a request is the one that an accepted response carries:
/// a response that echoes the identifier of the request passes the filter made for that
/// request, and a response that passes carries that identifier unless the server had to
/// answer without one.
pub proof fn lemma_accepted_response_carries_expected_id<I, O>(
    creator: CreateJsonRpcIdFilter<JsonRpcRequest<I>, JsonRpcResponse<O>>,
    request: Request<JsonRpcRequest<I>>,
    filter: ConsistentJsonRpcIdFilter<JsonRpcRequest<I>, JsonRpcResponse<O>, Id>,
    response: Response<JsonRpcResponse<O>>,
    output: Result<Response<JsonRpcResponse<O>>, ConsistentResponseIdFilterError>,
)
    requires
        creator.can_create(&request),
        creator.creates(&request, filter),
        filter.filters(response, output),
    ensures
        response.body.spec_id()@ == request.body.spec_id()@ ==> output == Ok::<
            Response<JsonRpcResponse<O>>,
            ConsistentResponseIdFilterError,
        >(response),
        output is Ok && !(response.body.spec_id()@ is Null) ==> response.body.spec_id()@
            == request.body.spec_id()@,
{
}

/// No response of a batch that carries a null identifier is counted as answering a request:
/// when none of the identifiers that were sent is null, a batch of responses is consistent
/// if and only if it carries exactly the identifiers that were sent.
pub proof fn lemma_consistent_batch_carries_the_sent_ids<T>(
    request_ids: Set<IdView>,
    responses: Seq<JsonRpcResponse<T>>,
)
    requires
        request_ids.finite(),
        !request_ids.contains(IdView::Null),
    ensures
        is_consistent_batch(request_ids, responses) <==> response_id_views(responses).to_set()
            == request_ids,
{
    let response_ids = response_id_views(responses).to_set();
    vstd::seq_lib::seq_to_set_is_finite(response_id_views(responses));
    if response_ids == request_ids {
        assert(request_ids.difference(response_ids) =~= Set::<IdView>::empty());
    }
    if is_consistent_batch(request_ids, responses) {
        lemma_no_expected_missing_without_null_id(responses);
        let missing = request_ids.difference(response_ids);
        assert forall|id: IdView| request_ids.contains(id) implies response_ids.contains(id) by {
            if !response_ids.contains(id) {
                assert(missing.contains(id));
            }
        }
        assert(response_ids =~= request_ids);
    }
}

/// Where no response carries a null identifier, no response is counted as one that the
/// server had to send without the identifier of a request.
pub proof fn lemma_no_expected_missing_without_null_id<T>(responses: Seq<JsonRpcResponse<T>>)
    requires
        !response_id_views(responses).contains(IdView::Null),
    ensures
        expected_missing_id_count(responses) == 0,
    decreases responses.len(),
{
    if responses.len() > 0 {
        let views = response_id_views(responses);
        let rest = responses.drop_last();
        assert(views[responses.len() - 1] == responses.last().spec_id()@);
        assert(!response_id_views(rest).contains(IdView::Null)) by {
            if response_id_views(rest).contains(IdView::Null) {
                let k = choose|k: int|
                    0 <= k < response_id_views(rest).len() && response_id_views(rest)[k]
                        == IdView::Null;
                assert(views[k] == IdView::Null);
            }
        }
        lemma_no_expected_missing_without_null_id(rest);
    }
}

} // verus!
