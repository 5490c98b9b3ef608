//! Structured HTTP requests and responses, and the JSON layers built on them.

pub mod json;

use crate::client::{HttpHeader, HttpMethod, IcHttpRequest, IcHttpResponse, TransformContext};
use crate::client::{MaxResponseBytesRequestExtension, TransformContextRequestExtension};
use crate::convert::{Convert, ConvertError, ConvertRequest, ConvertResponse, Service};
use vstd::prelude::*;

verus! {

/// Method of a structured HTTP request.
#[derive(Debug, Clone, Copy, PartialEq, Eq, Structural)]
pub enum Method {
    /// GET
    Get,
    /// POST
    Post,
    /// HEAD
    Head,
    /// PUT
    Put,
    /// DELETE
    Delete,
    /// CONNECT
    Connect,
    /// OPTIONS
    Options,
    /// TRACE
    Trace,
    /// PATCH
    Patch,
}

/// A structured HTTP request with a body of type `T`.
#[derive(Debug, Clone, PartialEq, Eq)]
pub struct Request<T> {
    /// Method of the request.
    pub method: Method,
    /// Target URL.
    pub url: String,
    /// Headers, in the order they were added.
    pub headers: Vec<HttpHeader>,
    /// Body of the request.
    pub body: T,
    /// Maximal size of the response in bytes; without a value the platform maximum applies.
    pub max_response_bytes: Option<u64>,
    /// Canonicalization of the response, if any.
    pub transform_context: Option<TransformContext>,
}

/// A structured HTTP response with a body of type `T`.
#[derive(Debug, Clone, PartialEq, Eq)]
pub struct Response<T> {
    /// Status code of the response.
    pub status: u16,
    /// Headers, in the order they were received.
    pub headers: Vec<HttpHeader>,
    /// Body of the response.
    pub body: T,
}

/// HTTP request with a body made of bytes.
pub type HttpRequest = Request<Vec<u8>>;

/// HTTP response with a body made of bytes.
pub type HttpResponse = Response<Vec<u8>>;

impl<T> Request<T> {
    /// Creates a request with the given method, URL and body, without headers, with the
    /// platform maximum as the allowance for the response and without canonicalization.
    pub fn new(method: Method, url: String, body: T) -> (request: Self)
        ensures
            request.method == method,
            request.url == url,
            request.headers@ == Seq::<HttpHeader>::empty(),
            request.body == body,
            request.max_response_bytes is None,
            request.transform_context is None,
    {
        Request {
            method,
            url,
            headers: Vec::new(),
            body,
            max_response_bytes: None,
            transform_context: None,
        }
    }

    /// Creates a POST request with the given URL and body, without headers, with the
    /// platform maximum as the allowance for the response and without canonicalization.
    pub fn post(url: String, body: T) -> (request: Self)
        ensures
            request.method == Method::Post,
            request.url == url,
            request.headers@ == Seq::<HttpHeader>::empty(),
            request.body == body,
            request.max_response_bytes is None,
            request.transform_context is None,
    {
        Self::new(Method::Post, url, body)
    }

    /// Adds a header after those the request already has.
    pub fn header(self, name: String, value: String) -> (request: Self)
        ensures
            request.headers@ == self.headers@.push(HttpHeader { name, value }),
            request.method == self.method,
            request.url == self.url,
            request.body == self.body,
            request.max_response_bytes == self.max_response_bytes,
            request.transform_context == self.transform_context,
    {
        let mut request = self;
        request.headers.push(HttpHeader { name, value });
        request
    }
}

impl<T> MaxResponseBytesRequestExtension for Request<T> {
    open spec fn spec_max_response_bytes(&self) -> Option<u64> {
        self.max_response_bytes
    }

    open spec fn with_max_response_bytes(self, value: u64) -> Self {
        Request { max_response_bytes: Some(value), ..self }
    }

    fn set_max_response_bytes(&mut self, value: u64) {
        self.max_response_bytes = Some(value);
    }

    fn get_max_response_bytes(&self) -> (value: Option<u64>) {
        self.max_response_bytes
    }
}

impl<T> TransformContextRequestExtension for Request<T> {
    open spec fn spec_transform_context(&self) -> Option<TransformContext> {
        self.transform_context
    }

    open spec fn with_transform_context(self, value: TransformContext) -> Self {
        Request { transform_context: Some(value), ..self }
    }

    fn set_transform_context(&mut self, value: TransformContext) {
        self.transform_context = Some(value);
    }

    fn get_transform_context(&self) -> (value: Option<&TransformContext>) {
        self.transform_context.as_ref()
    }
}

/// The character in lower case, if it is an ASCII letter in upper case; else the character.
pub open spec fn ascii_lowercase(c: char) -> char {
    if 'A' <= c <= 'Z' {
        ((c as u32) + 32) as char
    } else {
        c
    }
}

/// Whether two names of headers are the same name: names of headers are compared without
/// regard to the case of ASCII letters.
pub open spec fn is_same_header_name(a: Seq<char>, b: Seq<char>) -> bool {
    a.map_values(|c: char| ascii_lowercase(c)) == b.map_values(|c: char| ascii_lowercase(c))
}

/// Calls `str::eq_ignore_ascii_case`.
///
/// Trusted: the call compares the two texts as if every ASCII letter in upper case were
/// the same letter in lower case.
#[verifier::external_body]
fn eq_ignore_ascii_case(a: &str, b: &str) -> (same: bool)
    ensures
        same == is_same_header_name(a@, b@),
{
    a.eq_ignore_ascii_case(b)
}

/// The position of the first of the headers that has the given name, if one has it.
pub open spec fn first_header(headers: Seq<HttpHeader>, name: Seq<char>) -> Option<int>
    decreases headers.len(),
{
    if headers.len() == 0 {
        None
    } else {
        match first_header(headers.drop_last(), name) {
            Some(position) => Some(position),
            None => if is_same_header_name(headers.last().name@, name) {
                Some(headers.len() - 1)
            } else {
                None
            },
        }
    }
}

/// Looks up the first of the headers that has the given name, whatever the case of its
/// letters.
pub fn find_header<'a>(headers: &'a Vec<HttpHeader>, name: &str) -> (found: Option<&'a HttpHeader>)
    ensures
        match first_header(headers@, name@) {
            Some(position) => 0 <= position < headers@.len() && found == Some(
                &headers@[position],
            ),
            None => found is None,
        },
{
    let mut i: usize = 0;
    while i < headers.len()
        invariant
            i <= headers.len(),
            first_header(headers@.take(i as int), name@) is None,
        decreases headers.len() - i,
    {
        proof {
            assert(headers@.take(i + 1).drop_last() =~= headers@.take(i as int));
        }
        if eq_ignore_ascii_case(headers[i].name.as_str(), name) {
            proof {
                lemma_first_header_of_prefix(headers@, i + 1, name@);
            }
            return Some(&headers[i]);
        }
        i += 1;
    }
    proof {
        assert(headers@.take(i as int) =~= headers@);
    }
    None
}

/// A header that is the first with its name among the first `n` headers is the first with
/// that name among all of them.
proof fn lemma_first_header_of_prefix(headers: Seq<HttpHeader>, n: int, name: Seq<char>)
    requires
        0 <= n <= headers.len(),
        first_header(headers.take(n), name) is Some,
    ensures
        first_header(headers, name) == first_header(headers.take(n), name),
    decreases headers.len() - n,
{
    if n == headers.len() {
        assert(headers.take(n) =~= headers);
    } else {
        assert(headers.take(n + 1).drop_last() =~= headers.take(n));
        lemma_first_header_of_prefix(headers, n + 1, name);
    }
}

impl<T> Request<T> {
    /// Looks up the first header of the request that has the given name, whatever the case
    /// of its letters.
    pub fn get_header(&self, name: &str) -> (found: Option<&HttpHeader>)
        ensures
            match first_header(self.headers@, name@) {
                Some(position) => 0 <= position < self.headers@.len() && found == Some(
                    &self.headers@[position],
                ),
                None => found is None,
            },
    {
        find_header(&self.headers, name)
    }
}

impl<T> Response<T> {
    /// Looks up the first header of the response that has the given name, whatever the case
    /// of its letters.
    pub fn get_header(&self, name: &str) -> (found: Option<&HttpHeader>)
        ensures
            match first_header(self.headers@, name@) {
                Some(position) => 0 <= position < self.headers@.len() && found == Some(
                    &self.headers@[position],
                ),
                None => found is None,
            },
    {
        find_header(&self.headers, name)
    }
}

/// Error returned when a structured request cannot be handed to the transport.
#[derive(Clone, Debug, PartialEq, Eq)]
pub enum HttpRequestConversionError {
    /// The transport cannot perform requests with this method.
    UnsupportedHttpMethod(Method),
}

/// Error returned when what the transport delivered is not a response.
#[derive(Clone, Debug, PartialEq, Eq)]
pub enum HttpResponseConversionError {
    /// The status is not an HTTP status code; the number is what the transport delivered.
    InvalidStatusCode(u128),
}

/// The method of the transport that stands for the given method, if the transport can
/// perform it.
pub open spec fn transport_method(method: Method) -> Option<HttpMethod> {
    match method {
        Method::Get => Some(HttpMethod::GET),
        Method::Post => Some(HttpMethod::POST),
        Method::Head => Some(HttpMethod::HEAD),
        _ => None,
    }
}

/// The argument of the transport call that stands for the given request.
pub open spec fn transport_request(request: HttpRequest) -> Result<
    IcHttpRequest,
    HttpRequestConversionError,
> {
    match transport_method(request.method) {
        Some(method) => Ok(
            IcHttpRequest {
                url: request.url,
                max_response_bytes: request.max_response_bytes,
                method,
                headers: request.headers,
                body: Some(request.body),
                transform: request.transform_context,
            },
        ),
        None => Err(HttpRequestConversionError::UnsupportedHttpMethod(request.method)),
    }
}

/// Whether the number is an HTTP status code: a number of three digits.
pub open spec fn is_status_code(status: u128) -> bool {
    100 <= status <= 999
}

/// The response that the given result of the transport call stands for.
pub open spec fn structured_response(response: IcHttpResponse) -> Result<
    HttpResponse,
    HttpResponseConversionError,
> {
    if is_status_code(response.status) {
        Ok(
            Response {
                status: response.status as u16,
                headers: response.headers,
                body: response.body,
            },
        )
    } else {
        Err(HttpResponseConversionError::InvalidStatusCode(response.status))
    }
}

/// Converts structured requests into arguments of the transport call.
#[derive(Debug, Clone, Copy, PartialEq, Eq, Structural)]
pub struct HttpRequestConverter;

/// Converts results of the transport call into structured responses.
#[derive(Debug, Clone, Copy, PartialEq, Eq, Structural)]
pub struct HttpResponseConverter;

impl Convert<HttpRequest> for HttpRequestConverter {
    type Output = IcHttpRequest;

    type Error = HttpRequestConversionError;

    open spec fn converts(
        &self,
        input: HttpRequest,
        output: Result<IcHttpRequest, HttpRequestConversionError>,
    ) -> bool {
        output == transport_request(input)
    }

    fn try_convert(&mut self, request: HttpRequest) -> (output: Result<
        IcHttpRequest,
        HttpRequestConversionError,
    >)
        ensures
            *final(self) == *old(self),
    {
        let method = match request.method {
            Method::Get => HttpMethod::GET,
            Method::Post => HttpMethod::POST,
            Method::Head => HttpMethod::HEAD,
            unsupported => {
                return Err(HttpRequestConversionError::UnsupportedHttpMethod(unsupported));
            },
        };
        Ok(
            IcHttpRequest {
                url: request.url,
                max_response_bytes: request.max_response_bytes,
                method,
                headers: request.headers,
                body: Some(request.body),
                transform: request.transform_context,
            },
        )
    }
}

impl Convert<IcHttpResponse> for HttpResponseConverter {
    type Output = HttpResponse;

    type Error = HttpResponseConversionError;

    open spec fn converts(
        &self,
        input: IcHttpResponse,
        output: Result<HttpResponse, HttpResponseConversionError>,
    ) -> bool {
        output == structured_response(input)
    }

    fn try_convert(&mut self, response: IcHttpResponse) -> (output: Result<
        HttpResponse,
        HttpResponseConversionError,
    >)
        ensures
            *final(self) == *old(self),
    {
        if 100 <= response.status && response.status <= 999 {
            Ok(
                Response {
                    status: response.status as u16,
                    headers: response.headers,
                    body: response.body,
                },
            )
        } else {
            Err(HttpResponseConversionError::InvalidStatusCode(response.status))
        }
    }
}

/// A transport that exchanges structured requests and responses, built around a transport
/// `S` that exchanges the transport's own shapes and reports errors of type `E`.
pub type HttpConversion<S, E> = ConvertResponse<
    ConvertRequest<S, ConvertError<HttpRequestConverter, E>>,
    ConvertError<HttpResponseConverter, E>,
>;

/// Middleware that puts [`HttpRequestConverter`] in front of a service and
/// [`HttpResponseConverter`] behind it.
#[derive(Debug, Clone, Copy, PartialEq, Eq, Structural)]
pub struct HttpConversionLayer;

impl HttpConversionLayer {
    /// Wraps the given service, which then exchanges structured requests and responses.
    pub fn layer<S: Service<IcHttpRequest>>(&self, inner: S) -> (service: HttpConversion<
        S,
        S::Error,
    >)
        ensures
            service.inner.inner == inner,
            service.inner.converter.inner() == HttpRequestConverter,
            service.converter.inner() == HttpResponseConverter,
    {
        ConvertResponse::new(
            ConvertRequest::new(inner, ConvertError::new(HttpRequestConverter)),
            ConvertError::new(HttpResponseConverter),
        )
    }
}

} // verus!
