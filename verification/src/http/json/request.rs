//! JSON-RPC requests.

use crate::convert::Convert;
use crate::http::json::id::Id;
use crate::http::json::value::{error_text, json_error_text, json_to_vec, serialize_json};
use crate::http::json::version::Version;
use crate::http::{HttpRequest, Request};
use std::marker::PhantomData;
use vstd::prelude::*;

verus! {

/// Body of a JSON-RPC request: the method to call, its parameters, and the identifier
/// under which the response is expected.
#[derive(Clone, Debug, PartialEq, Eq)]
pub struct JsonRpcRequest<T> {
    jsonrpc: Version,
    method: String,
    id: Id,
    params: Option<T>,
}

impl<T> JsonRpcRequest<T> {
    /// Identifier carried by the request.
    pub closed spec fn spec_id(&self) -> Id {
        self.id
    }

    /// Name of the method to call.
    pub closed spec fn spec_method(&self) -> String {
        self.method
    }

    /// Parameters of the call, if any.
    pub closed spec fn spec_params(&self) -> Option<T> {
        self.params
    }

    /// Creates a request for the given method and parameters, with the identifier zero.
    pub fn new(method: String, params: T) -> (request: Self)
        ensures
            request.spec_method() == method,
            request.spec_params() == Some(params),
            request.spec_id() == Id::Number(0),
    {
        Self { jsonrpc: Version::V2, method, id: Id::zero(), params: Some(params) }
    }

    /// Creates a request from its parts.
    pub fn from_parts(method: String, id: Id, params: Option<T>) -> (request: Self)
        ensures
            request.spec_method() == method,
            request.spec_params() == params,
            request.spec_id() == id,
    {
        Self { jsonrpc: Version::V2, method, id, params }
    }

    /// Splits the request into the name of the method, the identifier and the parameters.
    pub fn into_parts(self) -> (parts: (String, Id, Option<T>))
        ensures
            parts.0 == self.spec_method(),
            parts.1 == self.spec_id(),
            parts.2 == self.spec_params(),
    {
        (self.method, self.id, self.params)
    }

    /// Replaces the identifier of the request.
    pub fn with_id(self, id: Id) -> (request: Self)
        ensures
            request.spec_id() == id,
            request.spec_method() == self.spec_method(),
            request.spec_params() == self.spec_params(),
    {
        Self { jsonrpc: self.jsonrpc, method: self.method, id, params: self.params }
    }

    /// Replaces the identifier of the request in place.
    pub fn set_id(&mut self, id: Id)
        ensures
            final(self).spec_id() == id,
            final(self).spec_method() == old(self).spec_method(),
            final(self).spec_params() == old(self).spec_params(),
    {
        self.id = id;
    }

    /// Name of the method to call.
    pub fn method(&self) -> (method: &str)
        ensures
            method@ == self.spec_method()@,
    {
        self.method.as_str()
    }

    /// Identifier of the request.
    pub fn id(&self) -> (id: &Id)
        ensures
            *id == self.spec_id(),
    {
        &self.id
    }

    /// Parameters of the call, if any.
    pub fn params(&self) -> (params: Option<&T>)
        ensures
            match params {
                Some(value) => self.spec_params() == Some(*value),
                None => self.spec_params() is None,
            },
    {
        self.params.as_ref()
    }
}

/// Body of a batch JSON-RPC request.
pub type BatchJsonRpcRequest<T> = Vec<JsonRpcRequest<T>>;

/// JSON-RPC request over HTTP.
pub type HttpJsonRpcRequest<T> = crate::http::Request<JsonRpcRequest<T>>;

/// Batch JSON-RPC request over HTTP.
pub type HttpBatchJsonRpcRequest<T> = crate::http::Request<Vec<JsonRpcRequest<T>>>;

/// Error returned when converting requests with [`JsonRequestConverter`].
#[derive(Clone, Debug, PartialEq, Eq)]
pub enum JsonRequestConversionError {
    /// The body of the request could not be written as JSON; the text says why.
    InvalidJson(String),
}

/// Whether `output` is the given request with its body written as JSON, where `serialized`
/// is the outcome of writing the body: the request with the bytes as its body and nothing
/// else changed, or the error with the text that says why the body could not be written.
pub open spec fn is_serialized_request<T>(
    input: Request<T>,
    serialized: Result<Seq<u8>, Seq<char>>,
    output: Result<HttpRequest, JsonRequestConversionError>,
) -> bool {
    match serialized {
        Ok(bytes) => {
            &&& output matches Ok(request)
            &&& request.body@ == bytes
            &&& request.method == input.method
            &&& request.url == input.url
            &&& request.headers == input.headers
            &&& request.max_response_bytes == input.max_response_bytes
            &&& request.transform_context == input.transform_context
        },
        Err(reason) => {
            &&& output matches Err(JsonRequestConversionError::InvalidJson(text))
            &&& text@ == reason
        },
    }
}

/// What writing the given JSON value as bytes gives: the bytes, or the text that says why
/// the value could not be written.
pub open spec fn serialized(value: serde_json::Value) -> Result<Seq<u8>, Seq<char>> {
    match json_to_vec(value) {
        Ok(bytes) => Ok(bytes),
        Err(error) => Err(json_error_text(error)),
    }
}

/// Converts requests whose body is a value into requests whose body is that value written
/// as JSON text.
#[derive(Debug)]
pub struct JsonRequestConverter<T> {
    _marker: PhantomData<T>,
}

impl<T> JsonRequestConverter<T> {
    /// Creates a new instance of [`JsonRequestConverter`].
    pub fn new() -> Self {
        Self { _marker: PhantomData }
    }

    /// Puts the body written as JSON in the place of the body of the request, or reports
    /// why the body could not be written. `serialized` is the outcome of writing the body.
    pub fn convert_serialized(
        &mut self,
        request: Request<T>,
        serialized: Result<Vec<u8>, String>,
    ) -> (output: Result<HttpRequest, JsonRequestConversionError>)
        ensures
            *final(self) == *old(self),
            is_serialized_request(
                request,
                match serialized {
                    Ok(bytes) => Ok::<Seq<u8>, Seq<char>>(bytes@),
                    Err(reason) => Err::<Seq<u8>, Seq<char>>(reason@),
                },
                output,
            ),
    {
        match serialized {
            Ok(body) => Ok(
                Request {
                    method: request.method,
                    url: request.url,
                    headers: request.headers,
                    body,
                    max_response_bytes: request.max_response_bytes,
                    transform_context: request.transform_context,
                },
            ),
            Err(reason) => Err(JsonRequestConversionError::InvalidJson(reason)),
        }
    }
}

impl<T> Clone for JsonRequestConverter<T> {
    fn clone(&self) -> Self {
        Self { _marker: self._marker }
    }
}

impl<T> Default for JsonRequestConverter<T> {
    fn default() -> Self {
        Self::new()
    }
}

impl Convert<Request<serde_json::Value>> for JsonRequestConverter<serde_json::Value> {
    type Output = HttpRequest;

    type Error = JsonRequestConversionError;

    open spec fn converts(
        &self,
        input: Request<serde_json::Value>,
        output: Result<HttpRequest, JsonRequestConversionError>,
    ) -> bool {
        is_serialized_request(input, serialized(input.body), output)
    }

    fn try_convert(&mut self, request: Request<serde_json::Value>) -> (output: Result<
        HttpRequest,
        JsonRequestConversionError,
    >)
        ensures
            *final(self) == *old(self),
    {
        let serialized = write_json(&request.body);
        self.convert_serialized(request, serialized)
    }
}

/// Writes the JSON value as bytes, or says why it cannot be written.
pub fn write_json(value: &serde_json::Value) -> (written: Result<Vec<u8>, String>)
    ensures
        match written {
            Ok(bytes) => serialized(*value) == Ok::<Seq<u8>, Seq<char>>(bytes@),
            Err(reason) => serialized(*value) == Err::<Seq<u8>, Seq<char>>(reason@),
        },
{
    match serialize_json(value) {
        Ok(bytes) => Ok(bytes),
        Err(error) => Err(error_text(&error)),
    }
}

} // verus!
