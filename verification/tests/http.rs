use canhttp::client::{
    HttpHeader, HttpMethod, IcError, IcHttpRequest, IcHttpResponse,
    MaxResponseBytesRequestExtension, RejectCode, TransformContext,
    TransformContextRequestExtension,
};
use canhttp::convert::{service_fn, Convert, Service};
use canhttp::http::json::{
    ConsistentResponseIdFilterError, Id, JsonConversionLayer, JsonRequestConversionError,
    JsonResponseConversionError, JsonRpcHttpLayer, JsonRpcRequest, JsonRpcResponse,
};
use canhttp::http::{
    find_header, HttpConversionLayer, HttpRequestConversionError, HttpRequestConverter,
    HttpResponseConversionError, HttpResponseConverter, Method, Request, Response,
};
use serde_json::Value;

fn transform() -> TransformContext {
    TransformContext { canister: vec![9], method: "transform".to_string(), context: vec![1, 2] }
}

#[test]
fn request_builder_sets_method_url_body_and_headers() {
    let request = Request::post("https://example.com/anything".to_string(), b"Hello".to_vec())
        .header("X-Id".to_string(), "42".to_string())
        .header("Content-Type".to_string(), "text/plain".to_string())
        .max_response_bytes(1_000);
    assert_eq!(
        request,
        Request {
            method: Method::Post,
            url: "https://example.com/anything".to_string(),
            headers: vec![
                HttpHeader { name: "X-Id".to_string(), value: "42".to_string() },
                HttpHeader { name: "Content-Type".to_string(), value: "text/plain".to_string() },
            ],
            body: b"Hello".to_vec(),
            max_response_bytes: Some(1_000),
            transform_context: None,
        }
    );
    let request = Request::new(Method::Get, "u".to_string(), ());
    assert_eq!(request.method, Method::Get);
    assert!(request.headers.is_empty());
    assert_eq!(request.get_max_response_bytes(), None);
}

#[test]
fn max_response_bytes_and_transform_context_can_be_set_and_read() {
    let mut request = Request::post("u".to_string(), 0_u8);
    assert_eq!(request.get_max_response_bytes(), None);
    assert_eq!(request.get_transform_context(), None);
    request.set_max_response_bytes(5);
    request.set_transform_context(transform());
    assert_eq!(request.get_max_response_bytes(), Some(5));
    assert_eq!(request.get_transform_context(), Some(&transform()));
    let request = request.max_response_bytes(6).transform_context(transform());
    assert_eq!(request.max_response_bytes, Some(6));
    assert_eq!(request.url, "u");

    let native = IcHttpRequest {
        url: "u".to_string(),
        max_response_bytes: None,
        method: HttpMethod::GET,
        headers: vec![],
        body: None,
        transform: None,
    };
    let changed = native.clone().max_response_bytes(7).transform_context(transform());
    assert_eq!(changed.get_max_response_bytes(), Some(7));
    assert_eq!(changed.get_transform_context(), Some(&transform()));
    assert_eq!(
        changed,
        IcHttpRequest { max_response_bytes: Some(7), transform: Some(transform()), ..native }
    );
}

#[test]
fn http_request_converter_hands_everything_to_the_transport() {
    let request = Request::post("https://example.com".to_string(), b"body".to_vec())
        .header("a".to_string(), "b".to_string())
        .max_response_bytes(10)
        .transform_context(transform());
    assert_eq!(
        HttpRequestConverter.try_convert(request),
        Ok(IcHttpRequest {
            url: "https://example.com".to_string(),
            max_response_bytes: Some(10),
            method: HttpMethod::POST,
            headers: vec![HttpHeader { name: "a".to_string(), value: "b".to_string() }],
            body: Some(b"body".to_vec()),
            transform: Some(transform()),
        })
    );
    let get = HttpRequestConverter.try_convert(Request::new(Method::Get, "u".to_string(), vec![])).unwrap();
    assert_eq!(get.method, HttpMethod::GET);
    assert_eq!(get.body, Some(vec![]));
    assert_eq!(get.max_response_bytes, None);
    let head = HttpRequestConverter.try_convert(Request::new(Method::Head, "u".to_string(), vec![])).unwrap();
    assert_eq!(head.method, HttpMethod::HEAD);
}

#[test]
fn http_request_converter_refuses_methods_the_transport_cannot_perform() {
    for method in [Method::Put, Method::Delete, Method::Connect, Method::Options, Method::Trace, Method::Patch] {
        assert_eq!(
            HttpRequestConverter.try_convert(Request::new(method, "u".to_string(), vec![])),
            Err(HttpRequestConversionError::UnsupportedHttpMethod(method))
        );
    }
}

#[test]
fn http_response_converter_reads_status_headers_and_body() {
    let headers = vec![HttpHeader { name: "a".to_string(), value: "b".to_string() }];
    assert_eq!(
        HttpResponseConverter.try_convert(IcHttpResponse {
            status: 404,
            headers: headers.clone(),
            body: b"not found".to_vec(),
        }),
        Ok(Response { status: 404, headers, body: b"not found".to_vec() })
    );
    for status in [100_u128, 200, 999] {
        let converted = HttpResponseConverter
            .try_convert(IcHttpResponse { status, headers: vec![], body: vec![] })
            .unwrap();
        assert_eq!(converted.status as u128, status);
    }
}

#[test]
fn http_response_converter_refuses_what_is_no_status_code() {
    for status in [0_u128, 99, 1_000, 65_536 + 200, u128::MAX] {
        assert_eq!(
            HttpResponseConverter.try_convert(IcHttpResponse {
                status,
                headers: vec![],
                body: vec![]
            }),
            Err(HttpResponseConversionError::InvalidStatusCode(status))
        );
    }
}

#[derive(Debug, PartialEq)]
enum PipelineError {
    Transport(IcError),
    HttpRequest(HttpRequestConversionError),
    HttpResponse(HttpResponseConversionError),
    JsonRequest(JsonRequestConversionError),
    JsonResponse(JsonResponseConversionError),
    Id(ConsistentResponseIdFilterError),
}

impl From<IcError> for PipelineError {
    fn from(error: IcError) -> Self {
        PipelineError::Transport(error)
    }
}

impl From<HttpRequestConversionError> for PipelineError {
    fn from(error: HttpRequestConversionError) -> Self {
        PipelineError::HttpRequest(error)
    }
}

impl From<HttpResponseConversionError> for PipelineError {
    fn from(error: HttpResponseConversionError) -> Self {
        PipelineError::HttpResponse(error)
    }
}

impl From<JsonRequestConversionError> for PipelineError {
    fn from(error: JsonRequestConversionError) -> Self {
        PipelineError::JsonRequest(error)
    }
}

impl From<JsonResponseConversionError> for PipelineError {
    fn from(error: JsonResponseConversionError) -> Self {
        PipelineError::JsonResponse(error)
    }
}

impl From<ConsistentResponseIdFilterError> for PipelineError {
    fn from(error: ConsistentResponseIdFilterError) -> Self {
        PipelineError::Id(error)
    }
}

fn echo(request: IcHttpRequest) -> Result<IcHttpResponse, PipelineError> {
    if request.url == "https://down.example.com" {
        return Err(PipelineError::Transport(IcError::CallRejected {
            code: RejectCode::SysTransient,
            message: "down".to_string(),
        }));
    }
    let status = if request.url == "https://broken.example.com" { 1_000 } else { 200 };
    Ok(IcHttpResponse {
        status,
        headers: request.headers,
        body: request.body.unwrap_or_default(),
    })
}

#[test]
fn http_layer_wraps_a_transport() {
    let mut service = HttpConversionLayer.layer(service_fn(echo));
    let request = Request::post("https://example.com".to_string(), b"ping".to_vec())
        .header("a".to_string(), "b".to_string());
    assert_eq!(
        service.call(request),
        Ok(Response {
            status: 200,
            headers: vec![HttpHeader { name: "a".to_string(), value: "b".to_string() }],
            body: b"ping".to_vec(),
        })
    );
    assert_eq!(
        service.call(Request::new(Method::Put, "https://example.com".to_string(), vec![])),
        Err(PipelineError::HttpRequest(HttpRequestConversionError::UnsupportedHttpMethod(
            Method::Put
        )))
    );
    assert_eq!(
        service.call(Request::post("https://broken.example.com".to_string(), vec![])),
        Err(PipelineError::HttpResponse(HttpResponseConversionError::InvalidStatusCode(1_000)))
    );
    assert_eq!(
        service.call(Request::post("https://down.example.com".to_string(), vec![])),
        Err(PipelineError::Transport(IcError::CallRejected {
            code: RejectCode::SysTransient,
            message: "down".to_string(),
        }))
    );
}

#[test]
fn json_layer_wraps_a_service_that_exchanges_bytes() {
    let bytes = HttpConversionLayer.layer(service_fn(echo));
    let mut service = JsonConversionLayer::<Value, Value>::new().layer(bytes);
    let body = serde_json::from_str::<Value>(r#"{"key": "value"}"#).unwrap();
    let response = service.call(Request::post("https://example.com".to_string(), body.clone())).unwrap();
    assert_eq!(response.status, 200);
    assert_eq!(response.body["key"], Value::String("value".to_string()));
    assert_eq!(response.body, body);
}

#[test]
fn json_rpc_layer_can_be_put_around_a_transport() {
    let layer = JsonRpcHttpLayer::<JsonRpcRequest<Value>, JsonRpcResponse<Value>>::new();
    let service = layer.clone().layer(service_fn(echo));
    let _another = JsonRpcHttpLayer::<JsonRpcRequest<Value>, JsonRpcResponse<Value>>::default()
        .layer(service_fn(echo));
    let mut transport = service.inner.inner.inner.inner.inner;
    let request = IcHttpRequest {
        url: "u".to_string(),
        max_response_bytes: None,
        method: HttpMethod::GET,
        headers: vec![],
        body: Some(vec![1]),
        transform: None,
    };
    assert_eq!(
        transport.call(request),
        Ok(IcHttpResponse { status: 200, headers: vec![], body: vec![1] })
    );
    assert_eq!(Id::zero(), Id::Number(0));
}

#[test]
fn header_lookup_ignores_the_case_of_ascii_letters() {
    let header = |name: &str, value: &str| HttpHeader {
        name: name.to_string(),
        value: value.to_string(),
    };
    let headers = vec![
        header("Content-Type", "application/json"),
        header("X-Id", "42"),
        header("x-id", "43"),
        header("Straße", "1"),
    ];
    assert_eq!(find_header(&headers, "content-type"), Some(&headers[0]));
    assert_eq!(find_header(&headers, "CONTENT-TYPE"), Some(&headers[0]));
    assert_eq!(find_header(&headers, "x-ID"), Some(&headers[1]));
    assert_eq!(find_header(&headers, "straße"), Some(&headers[3]));
    assert_eq!(find_header(&headers, "STRASSE"), None);
    assert_eq!(find_header(&headers, "content_type"), None);
    assert_eq!(find_header(&headers, ""), None);
    assert_eq!(find_header(&vec![], "x-id"), None);

    let response = Response { status: 200, headers: headers.clone(), body: () };
    assert_eq!(response.get_header("X-ID").map(|h| h.value.as_str()), Some("42"));
    assert_eq!(response.get_header("Accept"), None);
    let request = Request::post("u".to_string(), ())
        .header("Accept".to_string(), "*/*".to_string());
    assert_eq!(request.get_header("accept").map(|h| h.value.as_str()), Some("*/*"));
    assert_eq!(request.get_header("X-ID"), None);
}
