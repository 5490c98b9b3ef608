use canhttp::client::{IcError, IcHttpRequest, IcHttpResponse, RejectCode};
use canhttp::convert::{service_fn, Convert, Service};
use canhttp::http::json::codec::{
    decode_batch_response, decode_error, decode_id, decode_request, decode_response,
    encode_batch_request, encode_error, encode_id, encode_request, encode_response,
    JsonRpcDecodeError,
};
use canhttp::http::json::response::expected_response_id;
use canhttp::http::json::{
    ConsistentResponseIdFilterError, Id, IdSet, JsonRequestConversionError, JsonRequestConverter,
    JsonResponseConversionError, JsonResponseConverter, JsonRpcError, JsonRpcHttpLayer,
    JsonRpcRequest, JsonRpcResponse,
};
use canhttp::http::{
    HttpRequestConversionError, HttpResponseConversionError, Request, Response,
};
use serde_json::Value;

fn json(text: &str) -> Value {
    serde_json::from_str(text).unwrap()
}

fn ids() -> Vec<Id> {
    vec![
        Id::Number(0),
        Id::Number(999),
        Id::Number(u64::MAX),
        Id::String(String::new()),
        Id::String("abc".to_string()),
        Id::String("42".to_string()),
        Id::String("null".to_string()),
        Id::String("жñ\"\\\n".to_string()),
        Id::Null,
    ]
}

#[test]
fn id_is_written_as_number_string_or_null() {
    assert_eq!(encode_id(&Id::Number(7)), json("7"));
    assert_eq!(encode_id(&Id::Number(u64::MAX)), json("18446744073709551615"));
    assert_eq!(encode_id(&Id::String("7".to_string())), json("\"7\""));
    assert_eq!(encode_id(&Id::Null), Value::Null);
}

#[test]
fn id_is_read_from_number_string_or_null() {
    assert_eq!(decode_id(&json("7")), Some(Id::Number(7)));
    assert_eq!(decode_id(&json("\"7\"")), Some(Id::String("7".to_string())));
    assert_eq!(decode_id(&json("null")), Some(Id::Null));
    assert_eq!(decode_id(&json("-1")), None);
    assert_eq!(decode_id(&json("1.5")), None);
    assert_eq!(decode_id(&json("true")), None);
    assert_eq!(decode_id(&json("[1]")), None);
    assert_eq!(decode_id(&json("{}")), None);
}

#[test]
fn id_round_trip_for_all_variants() {
    for id in ids() {
        assert_eq!(decode_id(&encode_id(&id)), Some(id));
    }
}

#[test]
fn request_is_written_with_version_method_params_and_id() {
    let request =
        JsonRpcRequest::new("getSlot".to_string(), json(r#"[{"commitment": "finalized"}]"#))
            .with_id(Id::Number(999));
    assert_eq!(
        encode_request(&request),
        json(r#"{"jsonrpc":"2.0","method":"getSlot","params":[{"commitment":"finalized"}],"id":999}"#)
    );
    let request = JsonRpcRequest::from_parts("m".to_string(), Id::String("x".to_string()), None);
    assert_eq!(
        encode_request(&request),
        json(r#"{"jsonrpc":"2.0","method":"m","params":null,"id":"x"}"#)
    );
    let request = JsonRpcRequest::from_parts("notify".to_string(), Id::Null, Some(json("{}")));
    assert_eq!(
        encode_request(&request),
        json(r#"{"jsonrpc":"2.0","method":"notify","params":{},"id":null}"#)
    );
}

#[test]
fn request_is_read_from_its_members() {
    assert_eq!(
        decode_request(&json(r#"{"id": 5, "jsonrpc": "2.0", "method": "m", "params": [1], "extra": true}"#)),
        Ok(JsonRpcRequest::from_parts("m".to_string(), Id::Number(5), Some(json("[1]"))))
    );
    assert_eq!(
        decode_request(&json(r#"{"id": null, "jsonrpc": "2.0", "method": ""}"#)),
        Ok(JsonRpcRequest::from_parts(String::new(), Id::Null, None))
    );
    assert_eq!(
        decode_request(&json(r#"{"id": "a", "jsonrpc": "2.0", "method": "m", "params": null}"#)),
        Ok(JsonRpcRequest::from_parts("m".to_string(), Id::String("a".to_string()), None))
    );
}

#[test]
fn request_with_invalid_members_is_refused() {
    assert_eq!(decode_request(&json("[]")), Err(JsonRpcDecodeError::NotAnObject));
    assert_eq!(decode_request(&json("\"text\"")), Err(JsonRpcDecodeError::NotAnObject));
    assert_eq!(
        decode_request(&json(r#"{"id": 1, "method": "m"}"#)),
        Err(JsonRpcDecodeError::InvalidVersion)
    );
    assert_eq!(
        decode_request(&json(r#"{"jsonrpc": "1.0", "id": 1, "method": "m"}"#)),
        Err(JsonRpcDecodeError::InvalidVersion)
    );
    assert_eq!(
        decode_request(&json(r#"{"jsonrpc": 2.0, "id": 1, "method": "m"}"#)),
        Err(JsonRpcDecodeError::InvalidVersion)
    );
    assert_eq!(
        decode_request(&json(r#"{"jsonrpc": "2.0", "id": 1}"#)),
        Err(JsonRpcDecodeError::InvalidMethod)
    );
    assert_eq!(
        decode_request(&json(r#"{"jsonrpc": "2.0", "id": 1, "method": 5}"#)),
        Err(JsonRpcDecodeError::InvalidMethod)
    );
    assert_eq!(
        decode_request(&json(r#"{"jsonrpc": "2.0", "method": "m"}"#)),
        Err(JsonRpcDecodeError::InvalidId)
    );
    assert_eq!(
        decode_request(&json(r#"{"jsonrpc": "2.0", "method": "m", "id": [1]}"#)),
        Err(JsonRpcDecodeError::InvalidId)
    );
}

#[test]
fn request_round_trip_for_all_variants_of_id() {
    let all_params = [
        Some(json(r#"[{"commitment": "finalized"}]"#)),
        Some(json("[]")),
        Some(json("{\"a\": {\"b\": [1, 2.5, \"c\", null, false]}}")),
        Some(json("0")),
        Some(json("\"\"")),
        None,
    ];
    for id in ids() {
        for params in all_params.clone() {
            let request = JsonRpcRequest::from_parts("eth_getBlockByNumber".to_string(), id.clone(), params);
            let value = encode_request(&request);
            assert_eq!(decode_request(&value), Ok(request.clone()));
            let bytes = serde_json::to_vec(&value).unwrap();
            assert_eq!(decode_request(&serde_json::from_slice(&bytes).unwrap()), Ok(request));
        }
    }
}

#[test]
fn request_with_null_parameters_is_read_back_without_parameters() {
    let request = JsonRpcRequest::new("m".to_string(), Value::Null).with_id(Id::Number(1));
    assert_eq!(request.params(), Some(&Value::Null));
    assert_eq!(
        decode_request(&encode_request(&request)),
        Ok(JsonRpcRequest::from_parts("m".to_string(), Id::Number(1), None))
    );
}

#[test]
fn response_is_written_with_version_id_and_result_or_error() {
    assert_eq!(
        encode_response(&JsonRpcResponse::from_ok(Id::Number(1), json("366632694"))),
        json(r#"{"jsonrpc":"2.0","id":1,"result":366632694}"#)
    );
    assert_eq!(
        encode_response(&JsonRpcResponse::from_ok(Id::String("a".to_string()), Value::Null)),
        json(r#"{"jsonrpc":"2.0","id":"a","result":null}"#)
    );
    assert_eq!(
        encode_response(&JsonRpcResponse::from_error(
            Id::Null,
            JsonRpcError::new(-32700, "Parse error".to_string())
        )),
        json(r#"{"jsonrpc":"2.0","id":null,"error":{"code":-32700,"message":"Parse error"}}"#)
    );
    let with_data = JsonRpcError {
        code: -32000,
        message: "Server error".to_string(),
        data: Some(json(r#"{"retry": true}"#)),
    };
    assert_eq!(
        encode_response(&JsonRpcResponse::from_error(Id::Number(2), with_data.clone())),
        json(r#"{"jsonrpc":"2.0","id":2,"error":{"code":-32000,"message":"Server error","data":{"retry":true}}}"#)
    );
    assert_eq!(
        encode_error(&with_data),
        json(r#"{"code":-32000,"message":"Server error","data":{"retry":true}}"#)
    );
}

#[test]
fn response_is_read_from_its_members() {
    assert_eq!(
        decode_response(&json(r#"{"jsonrpc":"2.0","result":366632694,"id":1}"#)),
        Ok(JsonRpcResponse::from_ok(Id::Number(1), json("366632694")))
    );
    assert_eq!(
        decode_response(&json(r#"{"jsonrpc":"2.0","result":null,"id":"1","unknown":{}}"#)),
        Ok(JsonRpcResponse::from_ok(Id::String("1".to_string()), Value::Null))
    );
    assert_eq!(
        decode_response(&json(
            r#"{"jsonrpc":"2.0","error":{"code":-32600,"message":"Invalid Request"},"id":null}"#
        )),
        Ok(JsonRpcResponse::from_error(
            Id::Null,
            JsonRpcError::new(-32600, "Invalid Request".to_string())
        ))
    );
    assert_eq!(
        decode_response(&json(
            r#"{"jsonrpc":"2.0","error":{"code":1,"message":"m","data":[1,2]},"id":3}"#
        )),
        Ok(JsonRpcResponse::from_error(
            Id::Number(3),
            JsonRpcError { code: 1, message: "m".to_string(), data: Some(json("[1,2]")) }
        ))
    );
    assert_eq!(
        decode_response(&json(
            r#"{"jsonrpc":"2.0","error":{"code":1,"message":"m","data":null},"id":3}"#
        )),
        Ok(JsonRpcResponse::from_error(Id::Number(3), JsonRpcError::new(1, "m".to_string())))
    );
}

#[test]
fn response_must_have_exactly_one_of_result_and_error() {
    assert_eq!(
        decode_response(&json(r#"{"jsonrpc":"2.0","id":1}"#)),
        Err(JsonRpcDecodeError::InvalidResult)
    );
    assert_eq!(
        decode_response(&json(
            r#"{"jsonrpc":"2.0","id":1,"result":1,"error":{"code":1,"message":"m"}}"#
        )),
        Err(JsonRpcDecodeError::InvalidResult)
    );
    assert_eq!(
        decode_response(&json(r#"{"jsonrpc":"2.0","id":1,"result":1,"error":null}"#)),
        Err(JsonRpcDecodeError::InvalidResult)
    );
}

#[test]
fn response_with_invalid_members_is_refused() {
    assert_eq!(decode_response(&json("null")), Err(JsonRpcDecodeError::NotAnObject));
    assert_eq!(decode_response(&json("[{}]")), Err(JsonRpcDecodeError::NotAnObject));
    assert_eq!(
        decode_response(&json(r#"{"id":1,"result":1}"#)),
        Err(JsonRpcDecodeError::InvalidVersion)
    );
    assert_eq!(
        decode_response(&json(r#"{"jsonrpc":"2","id":1,"result":1}"#)),
        Err(JsonRpcDecodeError::InvalidVersion)
    );
    assert_eq!(
        decode_response(&json(r#"{"jsonrpc":"2.0","result":1}"#)),
        Err(JsonRpcDecodeError::InvalidId)
    );
    for id in ["-1", "1.5", "true", "[]", "{}", "18446744073709551616"] {
        assert_eq!(
            decode_response(&json(&format!(r#"{{"jsonrpc":"2.0","id":{id},"result":1}}"#))),
            Err(JsonRpcDecodeError::InvalidId)
        );
    }
}

#[test]
fn error_object_is_read_strictly() {
    assert_eq!(
        decode_error(&json(r#"{"code":-32601,"message":"Method not found"}"#)),
        Some(JsonRpcError::new(-32601, "Method not found".to_string()))
    );
    assert_eq!(
        decode_error(&json(r#"{"code":-9223372036854775808,"message":"","data":0}"#)),
        Some(JsonRpcError { code: i64::MIN, message: String::new(), data: Some(json("0")) })
    );
    for invalid in [
        r#"{"code":1,"message":"m","extra":1}"#,
        r#"{"code":1,"message":"m","data":1,"extra":1}"#,
        r#"{"code":1,"message":"m","Data":1}"#,
        r#"{"code":1}"#,
        r#"{"message":"m"}"#,
        r#"{"code":"1","message":"m"}"#,
        r#"{"code":1.5,"message":"m"}"#,
        r#"{"code":9223372036854775808,"message":"m"}"#,
        r#"{"code":1,"message":2}"#,
        r#"{"code":1,"message":null}"#,
        r#"{}"#,
        r#"[]"#,
        r#""error""#,
        r#"null"#,
    ] {
        assert_eq!(decode_error(&json(invalid)), None, "{invalid}");
        assert_eq!(
            decode_response(&json(&format!(r#"{{"jsonrpc":"2.0","id":1,"error":{invalid}}}"#))),
            Err(JsonRpcDecodeError::InvalidError),
            "{invalid}"
        );
    }
}

#[test]
fn response_round_trip_for_all_variants_of_id() {
    let errors = [
        JsonRpcError::new(-32700, "Parse error".to_string()),
        JsonRpcError { code: 0, message: String::new(), data: Some(json("\"details\"")) },
        JsonRpcError { code: i64::MAX, message: "x".to_string(), data: Some(json("{\"a\":[]}")) },
    ];
    for id in ids() {
        for result in [json("1"), json("null"), json("[{\"a\": 1}]"), json("\"text\"")] {
            let response = JsonRpcResponse::from_ok(id.clone(), result);
            assert_eq!(decode_response(&encode_response(&response)), Ok(response));
        }
        for error in errors.clone() {
            let response = JsonRpcResponse::<Value>::from_error(id.clone(), error);
            let bytes = serde_json::to_vec(&encode_response(&response)).unwrap();
            assert_eq!(decode_response(&serde_json::from_slice(&bytes).unwrap()), Ok(response));
        }
    }
}

#[test]
fn decode_errors_have_messages() {
    assert_eq!(JsonRpcDecodeError::NotAnObject.message(), "expected a JSON object");
    assert_eq!(
        JsonRpcDecodeError::InvalidVersion.message(),
        "missing or invalid member `jsonrpc`"
    );
    assert_eq!(JsonRpcDecodeError::InvalidMethod.message(), "missing or invalid member `method`");
    assert_eq!(JsonRpcDecodeError::InvalidId.message(), "missing or invalid member `id`");
    assert_eq!(
        JsonRpcDecodeError::InvalidResult.message(),
        "expected exactly one of the members `result` and `error`"
    );
    assert_eq!(JsonRpcDecodeError::InvalidError.message(), "invalid member `error`");
    assert_eq!(JsonRpcDecodeError::NotAnArray.message(), "expected a JSON array");
}

#[test]
fn batch_of_requests_is_written_as_an_array() {
    let requests = vec![
        JsonRpcRequest::new("getSlot".to_string(), json("[1]")).with_id(Id::Number(0)),
        JsonRpcRequest::new("getSlot".to_string(), json("[2]")).with_id(Id::Number(1)),
    ];
    assert_eq!(
        encode_batch_request(&requests),
        json(
            r#"[{"jsonrpc":"2.0","method":"getSlot","params":[1],"id":0},
                {"jsonrpc":"2.0","method":"getSlot","params":[2],"id":1}]"#
        )
    );
    assert_eq!(encode_batch_request(&vec![]), json("[]"));
}

#[test]
fn batch_of_responses_is_read_from_an_array() {
    assert_eq!(
        decode_batch_response(&json(
            r#"[{"jsonrpc":"2.0","id":1,"result":10},
                {"jsonrpc":"2.0","id":null,"error":{"code":-32700,"message":"Parse error"}},
                {"jsonrpc":"2.0","id":"0","result":[]}]"#
        )),
        Ok(vec![
            JsonRpcResponse::from_ok(Id::Number(1), json("10")),
            JsonRpcResponse::from_error(
                Id::Null,
                JsonRpcError::new(-32700, "Parse error".to_string())
            ),
            JsonRpcResponse::from_ok(Id::String("0".to_string()), json("[]")),
        ])
    );
    assert_eq!(decode_batch_response(&json("[]")), Ok(vec![]));
}

#[test]
fn batch_of_responses_is_refused_for_its_first_invalid_element() {
    assert_eq!(
        decode_batch_response(&json(r#"{"jsonrpc":"2.0","id":1,"result":10}"#)),
        Err(JsonRpcDecodeError::NotAnArray)
    );
    assert_eq!(
        decode_batch_response(&json(
            r#"[{"jsonrpc":"2.0","id":1,"result":10}, {"jsonrpc":"2.0","id":2}, 5]"#
        )),
        Err(JsonRpcDecodeError::InvalidResult)
    );
    assert_eq!(
        decode_batch_response(&json(r#"[5, {"jsonrpc":"2.0","id":2}]"#)),
        Err(JsonRpcDecodeError::NotAnObject)
    );
}

#[test]
fn json_rpc_request_converter_writes_the_request_as_json_text() {
    let mut converter = JsonRequestConverter::<JsonRpcRequest<Value>>::new();
    let request = Request::post(
        "https://example.com".to_string(),
        JsonRpcRequest::new("getSlot".to_string(), json("[]")).with_id(Id::Number(3)),
    )
    .header("Content-Type".to_string(), "application/json".to_string());
    let converted = converter.try_convert(request.clone()).unwrap();
    assert_eq!(
        serde_json::from_slice::<Value>(&converted.body).unwrap(),
        json(r#"{"jsonrpc":"2.0","method":"getSlot","params":[],"id":3}"#)
    );
    assert_eq!(converted.url, request.url);
    assert_eq!(converted.headers, request.headers);
    assert_eq!(converted.method, request.method);

    let mut converter = JsonRequestConverter::<Vec<JsonRpcRequest<Value>>>::new();
    let converted = converter
        .try_convert(Request::post("u".to_string(), vec![request.body.clone(), request.body]))
        .unwrap();
    assert_eq!(
        serde_json::from_slice::<Value>(&converted.body).unwrap(),
        json(
            r#"[{"jsonrpc":"2.0","method":"getSlot","params":[],"id":3},
                {"jsonrpc":"2.0","method":"getSlot","params":[],"id":3}]"#
        )
    );
}

fn http(status: u16, body: &str) -> Response<Vec<u8>> {
    Response { status, headers: vec![], body: body.as_bytes().to_vec() }
}

#[test]
fn json_rpc_response_converter_reads_the_response_from_json_text() {
    let mut converter = JsonResponseConverter::<JsonRpcResponse<Value>>::new();
    assert_eq!(
        converter.try_convert(http(200, r#"{"jsonrpc":"2.0","result":366632694,"id":999}"#)),
        Ok(Response {
            status: 200,
            headers: vec![],
            body: JsonRpcResponse::from_ok(Id::Number(999), json("366632694")),
        })
    );
    assert_eq!(
        converter.try_convert(http(200, r#"{"jsonrpc":"2.0","result":1,"id":999"#)),
        Err(JsonResponseConversionError::InvalidJsonResponse {
            status: 200,
            body: r#"{"jsonrpc":"2.0","result":1,"id":999"#.to_string(),
            parsing_error: "EOF while parsing an object at line 1 column 36".to_string(),
        })
    );
    assert_eq!(
        converter.try_convert(http(500, r#"{"jsonrpc":"2.0","id":999}"#)),
        Err(JsonResponseConversionError::InvalidJsonResponse {
            status: 500,
            body: r#"{"jsonrpc":"2.0","id":999}"#.to_string(),
            parsing_error: "expected exactly one of the members `result` and `error`".to_string(),
        })
    );

    let mut converter = JsonResponseConverter::<Vec<JsonRpcResponse<Value>>>::new();
    assert_eq!(
        converter.try_convert(http(200, r#"[{"jsonrpc":"2.0","result":1,"id":0}]"#)),
        Ok(Response {
            status: 200,
            headers: vec![],
            body: vec![JsonRpcResponse::from_ok(Id::Number(0), json("1"))],
        })
    );
    assert_eq!(
        converter.try_convert(http(200, r#"{"jsonrpc":"2.0","result":1,"id":0}"#)),
        Err(JsonResponseConversionError::InvalidJsonResponse {
            status: 200,
            body: r#"{"jsonrpc":"2.0","result":1,"id":0}"#.to_string(),
            parsing_error: "expected a JSON array".to_string(),
        })
    );
}

#[derive(Debug, PartialEq)]
enum PipelineError {
    Transport(IcError),
    HttpRequest(HttpRequestConversionError),
    HttpResponse(HttpResponseConversionError),
    JsonRequest(JsonRequestConversionError),
    JsonResponse(JsonResponseConversionError),
    Id(ConsistentResponseIdFilterError),
}

impl From<HttpRequestConversionError> for PipelineError {
    fn from(error: HttpRequestConversionError) -> Self {
        PipelineError::HttpRequest(error)
    }
}

impl From<HttpResponseConversionError> for PipelineError {
    fn from(error: HttpResponseConversionError) -> Self {
        PipelineError::HttpResponse(error)
    }
}

impl From<JsonRequestConversionError> for PipelineError {
    fn from(error: JsonRequestConversionError) -> Self {
        PipelineError::JsonRequest(error)
    }
}

impl From<JsonResponseConversionError> for PipelineError {
    fn from(error: JsonResponseConversionError) -> Self {
        PipelineError::JsonResponse(error)
    }
}

impl From<ConsistentResponseIdFilterError> for PipelineError {
    fn from(error: ConsistentResponseIdFilterError) -> Self {
        PipelineError::Id(error)
    }
}

fn answer(request: &JsonRpcRequest<Value>) -> JsonRpcResponse<Value> {
    match request.method() {
        "getSlot" => JsonRpcResponse::from_ok(request.id().clone(), json("366632694")),
        "wrongId" => JsonRpcResponse::from_ok(Id::Number(123_456), json("1")),
        "unreadable" => JsonRpcResponse::from_error(
            Id::Null,
            JsonRpcError::new(-32700, "Parse error".to_string()),
        ),
        _ => JsonRpcResponse::from_error(
            request.id().clone(),
            JsonRpcError::new(-32601, "Method not found".to_string()),
        ),
    }
}

fn server(request: IcHttpRequest) -> Result<IcHttpResponse, PipelineError> {
    if request.url != "https://api.example.com" {
        return Err(PipelineError::Transport(IcError::CallRejected {
            code: RejectCode::DestinationInvalid,
            message: "unknown host".to_string(),
        }));
    }
    let body: Value = serde_json::from_slice(&request.body.unwrap()).unwrap();
    let response = match body.as_array() {
        Some(requests) => Value::Array(
            requests
                .iter()
                .filter(|request| request["method"] != "dropped")
                .map(|request| encode_response(&answer(&decode_request(request).unwrap())))
                .collect(),
        ),
        None => encode_response(&answer(&decode_request(&body).unwrap())),
    };
    Ok(IcHttpResponse {
        status: 200,
        headers: vec![],
        body: serde_json::to_vec(&response).unwrap(),
    })
}

fn call(method: &str, id: Id) -> Request<JsonRpcRequest<Value>> {
    Request::post(
        "https://api.example.com".to_string(),
        JsonRpcRequest::new(method.to_string(), json(r#"[{"commitment": "finalized"}]"#))
            .with_id(id),
    )
}

#[test]
fn json_rpc_call_returns_the_response_with_the_expected_id() {
    let mut client = JsonRpcHttpLayer::<JsonRpcRequest<Value>, JsonRpcResponse<Value>>::new()
        .layer(service_fn(server));
    for id in ids() {
        if id.is_null() {
            continue;
        }
        let request = call("getSlot", id.clone());
        let expected = expected_response_id(&request.body);
        let response = client.call(request).unwrap();
        assert_eq!(response.status, 200);
        assert_eq!(response.body.id(), &expected);
        assert_eq!(response.body.clone().into_parts(), (id, Ok(json("366632694"))));
    }
}

#[test]
fn json_rpc_call_returns_errors_of_the_server_as_responses() {
    let mut client = JsonRpcHttpLayer::<JsonRpcRequest<Value>, JsonRpcResponse<Value>>::new()
        .layer(service_fn(server));
    let response = client.call(call("unknownMethod", Id::Number(5))).unwrap();
    assert_eq!(
        response.body.into_parts(),
        (Id::Number(5), Err(JsonRpcError::new(-32601, "Method not found".to_string())))
    );
    let response = client.call(call("unreadable", Id::Number(5))).unwrap();
    assert_eq!(
        response.body.into_parts(),
        (Id::Null, Err(JsonRpcError::new(-32700, "Parse error".to_string())))
    );
}

#[test]
fn json_rpc_call_rejects_a_response_with_another_id() {
    let mut client = JsonRpcHttpLayer::<JsonRpcRequest<Value>, JsonRpcResponse<Value>>::new()
        .layer(service_fn(server));
    assert_eq!(
        client.call(call("wrongId", Id::Number(5))),
        Err(PipelineError::Id(ConsistentResponseIdFilterError::InconsistentId {
            status: 200,
            request_id: Id::Number(5),
            response_id: Id::Number(123_456),
        }))
    );
}

#[test]
fn json_rpc_call_hands_on_errors_of_the_transport() {
    let mut client = JsonRpcHttpLayer::<JsonRpcRequest<Value>, JsonRpcResponse<Value>>::new()
        .layer(service_fn(server));
    let mut request = call("getSlot", Id::Number(5));
    request.url = "https://elsewhere.example.com".to_string();
    assert_eq!(
        client.call(request),
        Err(PipelineError::Transport(IcError::CallRejected {
            code: RejectCode::DestinationInvalid,
            message: "unknown host".to_string(),
        }))
    );
}

fn batch(calls: &[(&str, u64)]) -> Request<Vec<JsonRpcRequest<Value>>> {
    Request::post(
        "https://api.example.com".to_string(),
        calls
            .iter()
            .map(|(method, id)| {
                JsonRpcRequest::new(method.to_string(), json("[]")).with_id(Id::Number(*id))
            })
            .collect(),
    )
}

fn numbers(ids: &[u64]) -> IdSet {
    let mut set = IdSet::new();
    for id in ids {
        set.insert(Id::Number(*id));
    }
    set
}

#[test]
fn batch_json_rpc_call_returns_all_responses() {
    let mut client =
        JsonRpcHttpLayer::<Vec<JsonRpcRequest<Value>>, Vec<JsonRpcResponse<Value>>>::new()
            .layer(service_fn(server));
    let responses = client.call(batch(&[("getSlot", 0), ("other", 1), ("getSlot", 2)])).unwrap();
    assert_eq!(
        responses.body,
        vec![
            JsonRpcResponse::from_ok(Id::Number(0), json("366632694")),
            JsonRpcResponse::from_error(
                Id::Number(1),
                JsonRpcError::new(-32601, "Method not found".to_string())
            ),
            JsonRpcResponse::from_ok(Id::Number(2), json("366632694")),
        ]
    );
}

#[test]
fn batch_json_rpc_call_rejects_missing_and_foreign_ids() {
    let mut client =
        JsonRpcHttpLayer::<Vec<JsonRpcRequest<Value>>, Vec<JsonRpcResponse<Value>>>::new()
            .layer(service_fn(server));
    assert_eq!(
        client.call(batch(&[("getSlot", 1), ("dropped", 2), ("getSlot", 3)])),
        Err(PipelineError::Id(ConsistentResponseIdFilterError::InconsistentBatchIds {
            status: 200,
            request_ids: numbers(&[1, 2, 3]),
            response_ids: numbers(&[1, 3]),
        }))
    );
    assert_eq!(
        client.call(batch(&[("getSlot", 1), ("wrongId", 2)])),
        Err(PipelineError::Id(ConsistentResponseIdFilterError::InconsistentBatchIds {
            status: 200,
            request_ids: numbers(&[1, 2]),
            response_ids: numbers(&[1, 123_456]),
        }))
    );
}
