//! The JSON-RPC 2.0 wire format: how requests and responses are written as JSON values and
//! read back from them.
//!
//! A request is written as `{"jsonrpc":"2.0","method":<string>,"params":<value>,"id":<id>}`,
//! a response as `{"jsonrpc":"2.0","id":<id>,"result":<value>}` or as
//! `{"jsonrpc":"2.0","id":<id>,"error":{"code":<int>,"message":<string>,"data":<value>}}`,
//! where `data` is optional. An identifier is a number, a string or null. A batch is an
//! array of requests or of responses.

use crate::convert::Convert;
use crate::http::json::id::{Id, IdView};
use crate::http::json::request::{
    is_serialized_request, serialized, write_json, JsonRequestConversionError,
    JsonRequestConverter, JsonRpcRequest,
};
use crate::http::json::response::{
    is_invalid_json_response, JsonResponseConversionError, JsonResponseConverter, JsonRpcError,
    JsonRpcResponse,
};
use crate::http::json::value::{
    array_value, as_array, as_i64, as_text, as_u64, empty_object, error_text, field, field_count,
    integer_value, is_null, json_as_array, json_as_i64, json_as_object, json_as_str, json_as_u64,
    json_error_text, json_from_slice, json_is_null, null_value, number_value, parse_json,
    text_value, with_field,
};
use crate::http::{HttpRequest, HttpResponse, Request, Response};
use vstd::prelude::*;
use vstd::string::StringExecFns;

verus! {

/// Why a JSON value is not a JSON-RPC request or response.
#[derive(Clone, Copy, Debug, PartialEq, Eq, Structural)]
pub enum JsonRpcDecodeError {
    /// The value is not an object.
    NotAnObject,
    /// The member `jsonrpc` is missing or is not the string `"2.0"`.
    InvalidVersion,
    /// The member `method` is missing or is not a string.
    InvalidMethod,
    /// The member `id` is missing or is neither a number that fits in 64 bits, nor a string,
    /// nor null.
    InvalidId,
    /// The response has both of the members `result` and `error`, or neither.
    InvalidResult,
    /// The member `error` is not an object with an integer `code`, a string `message`,
    /// possibly `data`, and nothing else.
    InvalidError,
    /// The value is not an array.
    NotAnArray,
}

impl JsonRpcDecodeError {
    /// The text of the error.
    pub open spec fn text(self) -> Seq<char> {
        match self {
            JsonRpcDecodeError::NotAnObject => "expected a JSON object"@,
            JsonRpcDecodeError::InvalidVersion => "missing or invalid member `jsonrpc`"@,
            JsonRpcDecodeError::InvalidMethod => "missing or invalid member `method`"@,
            JsonRpcDecodeError::InvalidId => "missing or invalid member `id`"@,
            JsonRpcDecodeError::InvalidResult => "expected exactly one of the members `result` and `error`"@,
            JsonRpcDecodeError::InvalidError => "invalid member `error`"@,
            JsonRpcDecodeError::NotAnArray => "expected a JSON array"@,
        }
    }

    /// The text of the error.
    pub fn message(&self) -> (message: String)
        ensures
            message@ == self.text(),
    {
        match self {
            JsonRpcDecodeError::NotAnObject => String::from_str("expected a JSON object"),
            JsonRpcDecodeError::InvalidVersion => String::from_str(
                "missing or invalid member `jsonrpc`",
            ),
            JsonRpcDecodeError::InvalidMethod => String::from_str(
                "missing or invalid member `method`",
            ),
            JsonRpcDecodeError::InvalidId => String::from_str("missing or invalid member `id`"),
            JsonRpcDecodeError::InvalidResult => String::from_str(
                "expected exactly one of the members `result` and `error`",
            ),
            JsonRpcDecodeError::InvalidError => String::from_str("invalid member `error`"),
            JsonRpcDecodeError::NotAnArray => String::from_str("expected a JSON array"),
        }
    }
}

/// Mathematical value of a [`JsonRpcError`].
pub struct JsonRpcErrorView {
    /// Indicates the type of error that occurred.
    pub code: i64,
    /// Short description of the error.
    pub message: Seq<char>,
    /// Additional information about the error, if any.
    pub data: Option<serde_json::Value>,
}

/// Mathematical value of a [`JsonRpcRequest`] whose parameters are a JSON value.
pub struct JsonRpcRequestView {
    /// Name of the method to call.
    pub method: Seq<char>,
    /// Identifier of the request.
    pub id: IdView,
    /// Parameters of the call, if any.
    pub params: Option<serde_json::Value>,
}

/// Mathematical value of a [`JsonRpcResponse`] whose result is a JSON value.
pub struct JsonRpcResponseView {
    /// Identifier of the request that the response answers.
    pub id: IdView,
    /// The result, or the error the server reported.
    pub result: Result<serde_json::Value, JsonRpcErrorView>,
}

impl View for JsonRpcError {
    type V = JsonRpcErrorView;

    open spec fn view(&self) -> JsonRpcErrorView {
        JsonRpcErrorView { code: self.code, message: self.message@, data: self.data }
    }
}

impl View for JsonRpcRequest<serde_json::Value> {
    type V = JsonRpcRequestView;

    open spec fn view(&self) -> JsonRpcRequestView {
        JsonRpcRequestView {
            method: self.spec_method()@,
            id: self.spec_id()@,
            params: self.spec_params(),
        }
    }
}

impl View for JsonRpcResponse<serde_json::Value> {
    type V = JsonRpcResponseView;

    open spec fn view(&self) -> JsonRpcResponseView {
        JsonRpcResponseView {
            id: self.spec_id()@,
            result: match self.spec_result() {
                Ok(value) => Ok(value),
                Err(error) => Err(error@),
            },
        }
    }
}

/// The keys of the members of requests, responses and errors are all different.
pub proof fn lemma_keys_are_distinct()
    ensures
        "jsonrpc"@ != "method"@,
        "jsonrpc"@ != "params"@,
        "jsonrpc"@ != "id"@,
        "jsonrpc"@ != "result"@,
        "jsonrpc"@ != "error"@,
        "method"@ != "params"@,
        "method"@ != "id"@,
        "params"@ != "id"@,
        "id"@ != "result"@,
        "id"@ != "error"@,
        "result"@ != "error"@,
        "method"@ != "result"@,
        "params"@ != "result"@,
        "method"@ != "error"@,
        "params"@ != "error"@,
        "code"@ != "message"@,
        "code"@ != "data"@,
        "message"@ != "data"@,
{
    reveal_strlit("jsonrpc");
    reveal_strlit("method");
    reveal_strlit("params");
    reveal_strlit("id");
    reveal_strlit("result");
    reveal_strlit("error");
    reveal_strlit("code");
    reveal_strlit("message");
    reveal_strlit("data");
    assert("id"@.len() == 2);
    assert("method"@[0] != "result"@[0]);
    assert("params"@[0] != "result"@[0]);
    assert("jsonrpc"@[0] != "message"@[0]);
    assert("code"@[0] != "data"@[0]);
}

/// The identifier that a JSON value stands for, if it stands for one: null, a number that
/// fits in 64 bits, or a string.
pub open spec fn decoded_id(value: serde_json::Value) -> Option<IdView> {
    if json_is_null(value) {
        Some(IdView::Null)
    } else if json_as_u64(value) is Some {
        Some(IdView::Number(json_as_u64(value)->0))
    } else if json_as_str(value) is Some {
        Some(IdView::String(json_as_str(value)->0))
    } else {
        None
    }
}

/// Writes an identifier as a JSON value.
pub fn encode_id(id: &Id) -> (value: serde_json::Value)
    ensures
        decoded_id(value) == Some(id@),
{
    match id {
        Id::Number(number) => number_value(*number),
        Id::String(text) => text_value(text.clone()),
        Id::Null => null_value(),
    }
}

/// Reads an identifier from a JSON value, if the value stands for one.
pub fn decode_id(value: &serde_json::Value) -> (id: Option<Id>)
    ensures
        match id {
            Some(id) => decoded_id(*value) == Some(id@),
            None => decoded_id(*value) is None,
        },
{
    if is_null(value) {
        Some(Id::Null)
    } else {
        match as_u64(value) {
            Some(number) => Some(Id::Number(number)),
            None => match as_text(value) {
                Some(text) => Some(Id::String(text)),
                None => None,
            },
        }
    }
}

/// The parameters that the member `params` of a request stands for: none if the member is
/// missing or null.
pub open spec fn decoded_params(fields: Map<Seq<char>, serde_json::Value>) -> Option<
    serde_json::Value,
> {
    if fields.dom().contains("params"@) && !json_is_null(fields["params"@]) {
        Some(fields["params"@])
    } else {
        None
    }
}

/// The request that a JSON value stands for, or why it stands for none.
pub open spec fn decoded_request(value: serde_json::Value) -> Result<
    JsonRpcRequestView,
    JsonRpcDecodeError,
> {
    match json_as_object(value) {
        None => Err(JsonRpcDecodeError::NotAnObject),
        Some(fields) => if !(fields.dom().contains("jsonrpc"@) && json_as_str(fields["jsonrpc"@])
            == Some("2.0"@)) {
            Err(JsonRpcDecodeError::InvalidVersion)
        } else if !(fields.dom().contains("method"@) && json_as_str(fields["method"@]) is Some) {
            Err(JsonRpcDecodeError::InvalidMethod)
        } else if !(fields.dom().contains("id"@) && decoded_id(fields["id"@]) is Some) {
            Err(JsonRpcDecodeError::InvalidId)
        } else {
            Ok(
                JsonRpcRequestView {
                    method: json_as_str(fields["method"@])->0,
                    id: decoded_id(fields["id"@])->0,
                    params: decoded_params(fields),
                },
            )
        },
    }
}

/// Whether the JSON value is the given request as it is written on the wire: an object
/// with the members `jsonrpc`, `method`, `id` and `params`, where `params` is null if the
/// request has no parameters.
pub open spec fn is_encoded_request(request: JsonRpcRequestView, value: serde_json::Value) -> bool {
    &&& json_as_object(value) matches Some(fields)
    &&& fields.dom() =~= set!["jsonrpc"@, "method"@, "id"@, "params"@]
    &&& json_as_str(fields["jsonrpc"@]) == Some("2.0"@)
    &&& json_as_str(fields["method"@]) == Some(request.method)
    &&& decoded_id(fields["id"@]) == Some(request.id)
    &&& match request.params {
        Some(params) => fields["params"@] == params,
        None => json_is_null(fields["params"@]),
    }
}

/// A request that is written on the wire and read back is the request that was written,
/// whatever its identifier is. Parameters that are JSON null are read back as no parameters.
pub proof fn lemma_request_round_trip(request: JsonRpcRequestView, value: serde_json::Value)
    requires
        is_encoded_request(request, value),
    ensures
        decoded_request(value) == Ok::<JsonRpcRequestView, JsonRpcDecodeError>(
            JsonRpcRequestView {
                params: match request.params {
                    Some(params) => if json_is_null(params) {
                        None
                    } else {
                        Some(params)
                    },
                    None => None,
                },
                ..request
            },
        ),
{
}

/// Writes a request as a JSON value.
pub fn encode_request(request: &JsonRpcRequest<serde_json::Value>) -> (value: serde_json::Value)
    ensures
        is_encoded_request(request@, value),
{
    proof {
        lemma_keys_are_distinct();
    }
    let params = match request.params() {
        Some(params) => params.clone(),
        None => null_value(),
    };
    let value = empty_object();
    let value = with_field(value, "jsonrpc", text_value(String::from_str("2.0")));
    let value = with_field(value, "method", text_value(String::from_str(request.method())));
    let value = with_field(value, "id", encode_id(request.id()));
    let value = with_field(value, "params", params);
    value
}

/// Reads a request from a JSON value, or says why the value is none.
pub fn decode_request(value: &serde_json::Value) -> (request: Result<
    JsonRpcRequest<serde_json::Value>,
    JsonRpcDecodeError,
>)
    ensures
        match decoded_request(*value) {
            Ok(view) => request matches Ok(decoded) && decoded@ == view,
            Err(error) => request == Err::<JsonRpcRequest<serde_json::Value>, JsonRpcDecodeError>(
                error,
            ),
        },
{
    if field_count(value).is_none() {
        return Err(JsonRpcDecodeError::NotAnObject);
    }
    if !has_version(value) {
        return Err(JsonRpcDecodeError::InvalidVersion);
    }
    let method = match field(value, "method") {
        Some(method) => match as_text(method) {
            Some(method) => method,
            None => {
                return Err(JsonRpcDecodeError::InvalidMethod);
            },
        },
        None => {
            return Err(JsonRpcDecodeError::InvalidMethod);
        },
    };
    let id = match field(value, "id") {
        Some(id) => match decode_id(id) {
            Some(id) => id,
            None => {
                return Err(JsonRpcDecodeError::InvalidId);
            },
        },
        None => {
            return Err(JsonRpcDecodeError::InvalidId);
        },
    };
    let params = match field(value, "params") {
        Some(params) => if is_null(params) {
            None
        } else {
            Some(params.clone())
        },
        None => None,
    };
    Ok(JsonRpcRequest::from_parts(method, id, params))
}

/// Tells whether the object has the member `jsonrpc` with the value `"2.0"`.
fn has_version(value: &serde_json::Value) -> (valid: bool)
    requires
        json_as_object(*value) is Some,
    ensures
        valid == {
            let fields = json_as_object(*value)->0;
            fields.dom().contains("jsonrpc"@) && json_as_str(fields["jsonrpc"@]) == Some("2.0"@)
        },
{
    match field(value, "jsonrpc") {
        Some(version) => match as_text(version) {
            Some(version) => version == String::from_str("2.0"),
            None => false,
        },
        None => false,
    }
}

/// The additional information that the member `data` of an error stands for: none if the
/// member is missing or null.
pub open spec fn decoded_data(fields: Map<Seq<char>, serde_json::Value>) -> Option<
    serde_json::Value,
> {
    if fields.dom().contains("data"@) && !json_is_null(fields["data"@]) {
        Some(fields["data"@])
    } else {
        None
    }
}

/// The error object that a JSON value stands for, if it stands for one: an object with an
/// integer `code`, a string `message`, possibly `data`, and no other member.
pub open spec fn decoded_error(value: serde_json::Value) -> Option<JsonRpcErrorView> {
    match json_as_object(value) {
        None => None,
        Some(fields) => if fields.dom().contains("code"@) && json_as_i64(fields["code"@]) is Some
            && fields.dom().contains("message"@) && json_as_str(fields["message"@]) is Some
            && fields.dom().subset_of(set!["code"@, "message"@, "data"@]) {
            Some(
                JsonRpcErrorView {
                    code: json_as_i64(fields["code"@])->0,
                    message: json_as_str(fields["message"@])->0,
                    data: decoded_data(fields),
                },
            )
        } else {
            None
        },
    }
}

/// The response that a JSON value stands for, or why it stands for none.
pub open spec fn decoded_response(value: serde_json::Value) -> Result<
    JsonRpcResponseView,
    JsonRpcDecodeError,
> {
    match json_as_object(value) {
        None => Err(JsonRpcDecodeError::NotAnObject),
        Some(fields) => if !(fields.dom().contains("jsonrpc"@) && json_as_str(fields["jsonrpc"@])
            == Some("2.0"@)) {
            Err(JsonRpcDecodeError::InvalidVersion)
        } else if !(fields.dom().contains("id"@) && decoded_id(fields["id"@]) is Some) {
            Err(JsonRpcDecodeError::InvalidId)
        } else if fields.dom().contains("result"@) == fields.dom().contains("error"@) {
            Err(JsonRpcDecodeError::InvalidResult)
        } else if fields.dom().contains("result"@) {
            Ok(
                JsonRpcResponseView {
                    id: decoded_id(fields["id"@])->0,
                    result: Ok(fields["result"@]),
                },
            )
        } else {
            match decoded_error(fields["error"@]) {
                Some(error) => Ok(
                    JsonRpcResponseView { id: decoded_id(fields["id"@])->0, result: Err(error) },
                ),
                None => Err(JsonRpcDecodeError::InvalidError),
            }
        },
    }
}

/// Whether the JSON value is the given error object as it is written on the wire: an
/// object with the members `code` and `message`, and with the member `data` if the error has
/// additional information.
pub open spec fn is_encoded_error(error: JsonRpcErrorView, value: serde_json::Value) -> bool {
    &&& json_as_object(value) matches Some(fields)
    &&& json_as_i64(fields["code"@]) == Some(error.code)
    &&& json_as_str(fields["message"@]) == Some(error.message)
    &&& match error.data {
        Some(data) => fields.dom() =~= set!["code"@, "message"@, "data"@] && fields["data"@]
            == data,
        None => fields.dom() =~= set!["code"@, "message"@],
    }
}

/// Whether the JSON value is the given response as it is written on the wire: an object
/// with the members `jsonrpc` and `id`, and with either the member `result` or the member
/// `error`.
pub open spec fn is_encoded_response(response: JsonRpcResponseView, value: serde_json::Value) -> bool {
    &&& json_as_object(value) matches Some(fields)
    &&& json_as_str(fields["jsonrpc"@]) == Some("2.0"@)
    &&& decoded_id(fields["id"@]) == Some(response.id)
    &&& match response.result {
        Ok(result) => fields.dom() =~= set!["jsonrpc"@, "id"@, "result"@] && fields["result"@]
            == result,
        Err(error) => fields.dom() =~= set!["jsonrpc"@, "id"@, "error"@] && is_encoded_error(
            error,
            fields["error"@],
        ),
    }
}

/// An error object that is written on the wire and read back is the error object that was
/// written. Additional information that is JSON null is read back as none.
pub proof fn lemma_error_round_trip(error: JsonRpcErrorView, value: serde_json::Value)
    requires
        is_encoded_error(error, value),
    ensures
        decoded_error(value) == Some(
            JsonRpcErrorView {
                data: match error.data {
                    Some(data) => if json_is_null(data) {
                        None
                    } else {
                        Some(data)
                    },
                    None => None,
                },
                ..error
            },
        ),
{
    lemma_keys_are_distinct();
}

/// A response that is written on the wire and read back is the response that was written,
/// whatever its identifier is and whether it carries a result or an error. Additional
/// information of an error that is JSON null is read back as none.
pub proof fn lemma_response_round_trip(response: JsonRpcResponseView, value: serde_json::Value)
    requires
        is_encoded_response(response, value),
    ensures
        decoded_response(value) == Ok::<JsonRpcResponseView, JsonRpcDecodeError>(
            JsonRpcResponseView {
                result: match response.result {
                    Ok(result) => Ok(result),
                    Err(error) => Err(
                        JsonRpcErrorView {
                            data: match error.data {
                                Some(data) => if json_is_null(data) {
                                    None
                                } else {
                                    Some(data)
                                },
                                None => None,
                            },
                            ..error
                        },
                    ),
                },
                ..response
            },
        ),
{
    lemma_keys_are_distinct();
    let fields = json_as_object(value)->0;
    if let Err(error) = response.result {
        lemma_error_round_trip(error, fields["error"@]);
    }
}

/// Writes an error object as a JSON value.
pub fn encode_error(error: &JsonRpcError) -> (value: serde_json::Value)
    ensures
        is_encoded_error(error@, value),
{
    proof {
        lemma_keys_are_distinct();
    }
    let value = empty_object();
    let value = with_field(value, "code", integer_value(error.code));
    let value = with_field(value, "message", text_value(error.message.clone()));
    match &error.data {
        Some(data) => with_field(value, "data", data.clone()),
        None => value,
    }
}

/// Reads an error object from a JSON value, if the value stands for one.
pub fn decode_error(value: &serde_json::Value) -> (error: Option<JsonRpcError>)
    ensures
        match error {
            Some(error) => decoded_error(*value) == Some(error@),
            None => decoded_error(*value) is None,
        },
{
    let count = match field_count(value) {
        Some(count) => count,
        None => {
            return None;
        },
    };
    let code = match field(value, "code") {
        Some(code) => match as_i64(code) {
            Some(code) => code,
            None => {
                return None;
            },
        },
        None => {
            return None;
        },
    };
    let message = match field(value, "message") {
        Some(message) => match as_text(message) {
            Some(message) => message,
            None => {
                return None;
            },
        },
        None => {
            return None;
        },
    };
    let data = field(value, "data");
    let known: usize = if data.is_some() {
        3
    } else {
        2
    };
    proof {
        lemma_only_known_members(json_as_object(*value)->0);
    }
    if count != known {
        return None;
    }
    let data = match data {
        Some(data) => if is_null(data) {
            None
        } else {
            Some(data.clone())
        },
        None => None,
    };
    Some(JsonRpcError { code, message, data })
}

/// An object with the members `code` and `message` has no member besides these and `data`
/// exactly when it has as many members as it has of these three.
proof fn lemma_only_known_members(fields: Map<Seq<char>, serde_json::Value>)
    requires
        fields.dom().finite(),
        fields.dom().contains("code"@),
        fields.dom().contains("message"@),
    ensures
        fields.dom().subset_of(set!["code"@, "message"@, "data"@]) <==> fields.dom().len() == (
        if fields.dom().contains("data"@) {
            3nat
        } else {
            2nat
        }),
{
    lemma_keys_are_distinct();
    let known = if fields.dom().contains("data"@) {
        set!["code"@, "message"@, "data"@]
    } else {
        set!["code"@, "message"@]
    };
    if fields.dom().len() == known.len() {
        vstd::set_lib::lemma_subset_equality(known, fields.dom());
    }
    if fields.dom().subset_of(set!["code"@, "message"@, "data"@]) {
        assert(fields.dom() =~= known);
    }
}

/// Writes a response as a JSON value.
pub fn encode_response(response: &JsonRpcResponse<serde_json::Value>) -> (value: serde_json::Value)
    ensures
        is_encoded_response(response@, value),
{
    proof {
        lemma_keys_are_distinct();
    }
    let value = empty_object();
    let value = with_field(value, "jsonrpc", text_value(String::from_str("2.0")));
    let value = with_field(value, "id", encode_id(response.id()));
    match response.as_result() {
        Ok(result) => with_field(value, "result", result.clone()),
        Err(error) => with_field(value, "error", encode_error(error)),
    }
}

/// Reads a response from a JSON value, or says why the value is none.
pub fn decode_response(value: &serde_json::Value) -> (response: Result<
    JsonRpcResponse<serde_json::Value>,
    JsonRpcDecodeError,
>)
    ensures
        match decoded_response(*value) {
            Ok(view) => response matches Ok(decoded) && decoded@ == view,
            Err(error) => response == Err::<JsonRpcResponse<serde_json::Value>, JsonRpcDecodeError>(
                error,
            ),
        },
{
    if field_count(value).is_none() {
        return Err(JsonRpcDecodeError::NotAnObject);
    }
    if !has_version(value) {
        return Err(JsonRpcDecodeError::InvalidVersion);
    }
    let id = match field(value, "id") {
        Some(id) => match decode_id(id) {
            Some(id) => id,
            None => {
                return Err(JsonRpcDecodeError::InvalidId);
            },
        },
        None => {
            return Err(JsonRpcDecodeError::InvalidId);
        },
    };
    match field(value, "result") {
        Some(result) => match field(value, "error") {
            Some(_) => Err(JsonRpcDecodeError::InvalidResult),
            None => Ok(JsonRpcResponse::from_ok(id, result.clone())),
        },
        None => match field(value, "error") {
            Some(error) => match decode_error(error) {
                Some(error) => Ok(JsonRpcResponse::from_error(id, error)),
                None => Err(JsonRpcDecodeError::InvalidError),
            },
            None => Err(JsonRpcDecodeError::InvalidResult),
        },
    }
}

/// Whether the JSON value is the given batch of requests as it is written on the wire: an
/// array of the requests, in their order.
pub open spec fn is_encoded_batch_request(
    requests: Seq<JsonRpcRequest<serde_json::Value>>,
    value: serde_json::Value,
) -> bool {
    &&& json_as_array(value) matches Some(elements)
    &&& elements.len() == requests.len()
    &&& forall|i: int|
        0 <= i < requests.len() ==> is_encoded_request(#[trigger] requests[i]@, elements[i])
}

/// The responses that the elements of a JSON array stand for, or why the first element that
/// stands for none does so.
pub open spec fn decoded_responses(elements: Seq<serde_json::Value>) -> Result<
    Seq<JsonRpcResponseView>,
    JsonRpcDecodeError,
>
    decreases elements.len(),
{
    if elements.len() == 0 {
        Ok(Seq::empty())
    } else {
        match decoded_responses(elements.drop_last()) {
            Ok(responses) => match decoded_response(elements.last()) {
                Ok(response) => Ok(responses.push(response)),
                Err(error) => Err(error),
            },
            Err(error) => Err(error),
        }
    }
}

/// The batch of responses that a JSON value stands for, or why it stands for none.
pub open spec fn decoded_batch_response(value: serde_json::Value) -> Result<
    Seq<JsonRpcResponseView>,
    JsonRpcDecodeError,
> {
    match json_as_array(value) {
        Some(elements) => decoded_responses(elements),
        None => Err(JsonRpcDecodeError::NotAnArray),
    }
}

/// The mathematical values of a batch of responses, in their order.
pub open spec fn response_views(responses: Seq<JsonRpcResponse<serde_json::Value>>) -> Seq<
    JsonRpcResponseView,
> {
    responses.map_values(|response: JsonRpcResponse<serde_json::Value>| response@)
}

/// Writes a batch of requests as a JSON value.
pub fn encode_batch_request(requests: &Vec<JsonRpcRequest<serde_json::Value>>) -> (value:
    serde_json::Value)
    ensures
        is_encoded_batch_request(requests@, value),
{
    let mut elements: Vec<serde_json::Value> = Vec::new();
    let mut i: usize = 0;
    while i < requests.len()
        invariant
            i <= requests.len(),
            elements.len() == i,
            forall|k: int| 0 <= k < i ==> is_encoded_request(#[trigger] requests[k]@, elements[k]),
        decreases requests.len() - i,
    {
        elements.push(encode_request(&requests[i]));
        i += 1;
    }
    array_value(elements)
}

/// Reads a batch of responses from a JSON value, or says why the value is none.
pub fn decode_batch_response(value: &serde_json::Value) -> (responses: Result<
    Vec<JsonRpcResponse<serde_json::Value>>,
    JsonRpcDecodeError,
>)
    ensures
        match decoded_batch_response(*value) {
            Ok(views) => responses matches Ok(decoded) && response_views(decoded@) == views,
            Err(error) => responses == Err::<
                Vec<JsonRpcResponse<serde_json::Value>>,
                JsonRpcDecodeError,
            >(error),
        },
{
    let elements = match as_array(value) {
        Some(elements) => elements,
        None => {
            return Err(JsonRpcDecodeError::NotAnArray);
        },
    };
    let mut responses: Vec<JsonRpcResponse<serde_json::Value>> = Vec::new();
    let mut i: usize = 0;
    proof {
        assert(response_views(responses@) =~= Seq::<JsonRpcResponseView>::empty());
    }
    while i < elements.len()
        invariant
            i <= elements.len(),
            json_as_array(*value) == Some(elements@),
            decoded_responses(elements@.take(i as int)) == Ok::<
                Seq<JsonRpcResponseView>,
                JsonRpcDecodeError,
            >(response_views(responses@)),
        decreases elements.len() - i,
    {
        proof {
            assert(elements@.take(i + 1).drop_last() =~= elements@.take(i as int));
        }
        let ghost before = responses@;
        match decode_response(&elements[i]) {
            Ok(response) => {
                responses.push(response);
                proof {
                    assert(response_views(responses@) =~= response_views(before).push(response@));
                }
            },
            Err(error) => {
                proof {
                    lemma_first_invalid_response(elements@, i as int, error);
                }
                return Err(error);
            },
        }
        i += 1;
    }
    proof {
        assert(elements@.take(i as int) =~= elements@);
    }
    Ok(responses)
}

/// Where the elements before the position `i` all stand for responses and the element at
/// `i` stands for none, the whole array stands for no batch, for the reason that the
/// element at `i` stands for no response.
proof fn lemma_first_invalid_response(
    elements: Seq<serde_json::Value>,
    i: int,
    error: JsonRpcDecodeError,
)
    requires
        0 <= i < elements.len(),
        decoded_responses(elements.take(i)) is Ok,
        decoded_response(elements[i]) == Err::<JsonRpcResponseView, JsonRpcDecodeError>(error),
    ensures
        decoded_responses(elements) == Err::<Seq<JsonRpcResponseView>, JsonRpcDecodeError>(error),
    decreases elements.len() - i,
{
    assert(elements.take(i + 1).drop_last() =~= elements.take(i));
    assert(decoded_responses(elements.take(i + 1)) == Err::<
        Seq<JsonRpcResponseView>,
        JsonRpcDecodeError,
    >(error));
    lemma_invalid_prefix(elements, i + 1, error);
}

/// Where the first `n` elements of an array stand for no batch, neither does the array,
/// and for the same reason.
proof fn lemma_invalid_prefix(elements: Seq<serde_json::Value>, n: int, error: JsonRpcDecodeError)
    requires
        0 <= n <= elements.len(),
        decoded_responses(elements.take(n)) == Err::<
            Seq<JsonRpcResponseView>,
            JsonRpcDecodeError,
        >(error),
    ensures
        decoded_responses(elements) == Err::<Seq<JsonRpcResponseView>, JsonRpcDecodeError>(error),
    decreases elements.len() - n,
{
    if n == elements.len() {
        assert(elements.take(n) =~= elements);
    } else {
        assert(elements.take(n + 1).drop_last() =~= elements.take(n));
        lemma_invalid_prefix(elements, n + 1, error);
    }
}

/// Whether `output` is the given response with its body read as the JSON-RPC response that
/// `decoded` is, or the report that the body stands for none.
pub open spec fn is_decoded_response(
    input: HttpResponse,
    decoded: Result<JsonRpcResponseView, Seq<char>>,
    output: Result<Response<JsonRpcResponse<serde_json::Value>>, JsonResponseConversionError>,
) -> bool {
    match decoded {
        Ok(view) => {
            &&& output matches Ok(response)
            &&& response.status == input.status
            &&& response.headers == input.headers
            &&& response.body@ == view
        },
        Err(reason) => is_invalid_json_response(input, reason, output),
    }
}

/// Whether `output` is the given response with its body read as the batch of JSON-RPC
/// responses that `decoded` is, or the report that the body stands for none.
pub open spec fn is_decoded_batch_response(
    input: HttpResponse,
    decoded: Result<Seq<JsonRpcResponseView>, Seq<char>>,
    output: Result<Response<Vec<JsonRpcResponse<serde_json::Value>>>, JsonResponseConversionError>,
) -> bool {
    match decoded {
        Ok(views) => {
            &&& output matches Ok(response)
            &&& response.status == input.status
            &&& response.headers == input.headers
            &&& response_views(response.body@) == views
        },
        Err(reason) => is_invalid_json_response(input, reason, output),
    }
}

/// What reading the given bytes as a JSON-RPC response gives: the response, or the text
/// that says why the bytes are no JSON or the JSON is no response.
pub open spec fn response_of_bytes(bytes: Seq<u8>) -> Result<JsonRpcResponseView, Seq<char>> {
    match json_from_slice(bytes) {
        Ok(value) => match decoded_response(value) {
            Ok(view) => Ok(view),
            Err(error) => Err(error.text()),
        },
        Err(error) => Err(json_error_text(error)),
    }
}

/// What reading the given bytes as a batch of JSON-RPC responses gives: the responses, or
/// the text that says why the bytes are no JSON or the JSON is no batch of responses.
pub open spec fn batch_response_of_bytes(bytes: Seq<u8>) -> Result<
    Seq<JsonRpcResponseView>,
    Seq<char>,
> {
    match json_from_slice(bytes) {
        Ok(value) => match decoded_batch_response(value) {
            Ok(views) => Ok(views),
            Err(error) => Err(error.text()),
        },
        Err(error) => Err(json_error_text(error)),
    }
}

impl Convert<Request<JsonRpcRequest<serde_json::Value>>> for JsonRequestConverter<
    JsonRpcRequest<serde_json::Value>,
> {
    type Output = HttpRequest;

    type Error = JsonRequestConversionError;

    open spec fn converts(
        &self,
        input: Request<JsonRpcRequest<serde_json::Value>>,
        output: Result<HttpRequest, JsonRequestConversionError>,
    ) -> bool {
        exists|value: serde_json::Value| #[trigger]
            is_encoded_request(input.body@, value) && is_serialized_request(
                input,
                serialized(value),
                output,
            )
    }

    fn try_convert(&mut self, request: Request<JsonRpcRequest<serde_json::Value>>) -> (output:
        Result<HttpRequest, JsonRequestConversionError>)
        ensures
            *final(self) == *old(self),
    {
        let value = encode_request(&request.body);
        let written = write_json(&value);
        let output = self.convert_serialized(request, written);
        output
    }
}

impl Convert<Request<Vec<JsonRpcRequest<serde_json::Value>>>> for JsonRequestConverter<
    Vec<JsonRpcRequest<serde_json::Value>>,
> {
    type Output = HttpRequest;

    type Error = JsonRequestConversionError;

    open spec fn converts(
        &self,
        input: Request<Vec<JsonRpcRequest<serde_json::Value>>>,
        output: Result<HttpRequest, JsonRequestConversionError>,
    ) -> bool {
        exists|value: serde_json::Value| #[trigger]
            is_encoded_batch_request(input.body@, value) && is_serialized_request(
                input,
                serialized(value),
                output,
            )
    }

    fn try_convert(&mut self, request: Request<Vec<JsonRpcRequest<serde_json::Value>>>) -> (output:
        Result<HttpRequest, JsonRequestConversionError>)
        ensures
            *final(self) == *old(self),
    {
        let value = encode_batch_request(&request.body);
        let written = write_json(&value);
        let output = self.convert_serialized(request, written);
        output
    }
}

impl Convert<HttpResponse> for JsonResponseConverter<JsonRpcResponse<serde_json::Value>> {
    type Output = Response<JsonRpcResponse<serde_json::Value>>;

    type Error = JsonResponseConversionError;

    open spec fn converts(
        &self,
        input: HttpResponse,
        output: Result<Response<JsonRpcResponse<serde_json::Value>>, JsonResponseConversionError>,
    ) -> bool {
        is_decoded_response(input, response_of_bytes(input.body@), output)
    }

    fn try_convert(&mut self, response: HttpResponse) -> (output: Result<
        Response<JsonRpcResponse<serde_json::Value>>,
        JsonResponseConversionError,
    >)
        ensures
            *final(self) == *old(self),
    {
        let decoded = match parse_json(&response.body) {
            Ok(value) => match decode_response(&value) {
                Ok(decoded) => Ok(decoded),
                Err(error) => Err(error.message()),
            },
            Err(error) => Err(error_text(&error)),
        };
        self.convert_parsed(response, decoded)
    }
}

impl Convert<HttpResponse> for JsonResponseConverter<Vec<JsonRpcResponse<serde_json::Value>>> {
    type Output = Response<Vec<JsonRpcResponse<serde_json::Value>>>;

    type Error = JsonResponseConversionError;

    open spec fn converts(
        &self,
        input: HttpResponse,
        output: Result<
            Response<Vec<JsonRpcResponse<serde_json::Value>>>,
            JsonResponseConversionError,
        >,
    ) -> bool {
        is_decoded_batch_response(input, batch_response_of_bytes(input.body@), output)
    }

    fn try_convert(&mut self, response: HttpResponse) -> (output: Result<
        Response<Vec<JsonRpcResponse<serde_json::Value>>>,
        JsonResponseConversionError,
    >)
        ensures
            *final(self) == *old(self),
    {
        let decoded = match parse_json(&response.body) {
            Ok(value) => match decode_batch_response(&value) {
                Ok(decoded) => Ok(decoded),
                Err(error) => Err(error.message()),
            },
            Err(error) => Err(error_text(&error)),
        };
        self.convert_parsed(response, decoded)
    }
}

} // verus!
