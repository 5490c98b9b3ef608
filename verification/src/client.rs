//! The transport's own request and response shapes, and the errors it reports.

use crate::convert::ConvertError;
use vstd::prelude::*;

verus! {

/// Maximal size of a response the platform can deliver, in bytes.
pub const HTTP_MAX_SIZE: u64 = 2_000_000;

/// One HTTP header: a name and its value.
#[derive(Debug, Clone, PartialEq, Eq)]
pub struct HttpHeader {
    /// Name of the header.
    pub name: String,
    /// Value of the header.
    pub value: String,
}

/// HTTP methods the transport can perform.
#[derive(Debug, Clone, Copy, PartialEq, Eq, Structural)]
pub enum HttpMethod {
    /// GET
    GET,
    /// POST
    POST,
    /// HEAD
    HEAD,
}

/// How the replicas canonicalize a response before agreeing on it.
#[derive(Debug, Clone, PartialEq, Eq)]
pub struct TransformContext {
    /// Raw bytes of the principal of the canister that exposes the transform function.
    pub canister: Vec<u8>,
    /// Name of the transform function.
    pub method: String,
    /// Context handed to the transform function together with the response.
    pub context: Vec<u8>,
}

/// Argument of the transport call.
#[derive(Debug, Clone, PartialEq, Eq)]
pub struct IcHttpRequest {
    /// The requested URL.
    pub url: String,
    /// Maximal size of the response in bytes; without a value the platform maximum applies.
    pub max_response_bytes: Option<u64>,
    /// Method of the request.
    pub method: HttpMethod,
    /// Headers of the request.
    pub headers: Vec<HttpHeader>,
    /// Body of the request, if any.
    pub body: Option<Vec<u8>>,
    /// Canonicalization of the response, if any.
    pub transform: Option<TransformContext>,
}

/// Result of the transport call.
#[derive(Debug, Clone, PartialEq, Eq)]
pub struct IcHttpResponse {
    /// The response status (e.g. 200, 404).
    pub status: u128,
    /// Headers of the response.
    pub headers: Vec<HttpHeader>,
    /// Body of the response.
    pub body: Vec<u8>,
}

/// A transport request together with the cycles attached to the call.
#[derive(Debug, Clone, PartialEq, Eq)]
pub struct IcHttpRequestWithCycles {
    /// Request to be made.
    pub request: IcHttpRequest,
    /// Number of cycles to attach.
    pub cycles: u128,
}

/// Why the platform rejected a call.
#[derive(Debug, Clone, Copy, PartialEq, Eq, Structural)]
pub enum RejectCode {
    /// Fatal system error, retry unlikely to be useful; written 1.
    SysFatal,
    /// Transient system error, retry might be possible; written 2.
    SysTransient,
    /// Invalid destination; written 3.
    DestinationInvalid,
    /// Explicit reject by the canister; written 4.
    CanisterReject,
    /// The canister failed or trapped; written 5.
    CanisterError,
    /// The response is unknown; written 6.
    SysUnknown,
}

impl RejectCode {
    /// The reject code that is written as the given number, if there is one.
    pub open spec fn of_number(code: u32) -> Option<RejectCode> {
        if code == 1 {
            Some(RejectCode::SysFatal)
        } else if code == 2 {
            Some(RejectCode::SysTransient)
        } else if code == 3 {
            Some(RejectCode::DestinationInvalid)
        } else if code == 4 {
            Some(RejectCode::CanisterReject)
        } else if code == 5 {
            Some(RejectCode::CanisterError)
        } else if code == 6 {
            Some(RejectCode::SysUnknown)
        } else {
            None
        }
    }

    /// The number the reject code is written as.
    pub open spec fn number(self) -> u32 {
        match self {
            RejectCode::SysFatal => 1,
            RejectCode::SysTransient => 2,
            RejectCode::DestinationInvalid => 3,
            RejectCode::CanisterReject => 4,
            RejectCode::CanisterError => 5,
            RejectCode::SysUnknown => 6,
        }
    }

    /// Reads a reject code from its number; a number that stands for none gives `None`.
    pub fn from_u32(code: u32) -> (reject_code: Option<RejectCode>)
        ensures
            reject_code == Self::of_number(code),
    {
        match code {
            1 => Some(RejectCode::SysFatal),
            2 => Some(RejectCode::SysTransient),
            3 => Some(RejectCode::DestinationInvalid),
            4 => Some(RejectCode::CanisterReject),
            5 => Some(RejectCode::CanisterError),
            6 => Some(RejectCode::SysUnknown),
            _ => None,
        }
    }

    /// The number the reject code is written as.
    pub fn as_u32(self) -> (code: u32)
        ensures
            code == self.number(),
            Self::of_number(code) == Some(self),
    {
        match self {
            RejectCode::SysFatal => 1,
            RejectCode::SysTransient => 2,
            RejectCode::DestinationInvalid => 3,
            RejectCode::CanisterReject => 4,
            RejectCode::CanisterError => 5,
            RejectCode::SysUnknown => 6,
        }
    }
}

/// Error returned by the platform when making an HTTPs outcall.
#[derive(Clone, Debug, PartialEq, Eq)]
pub enum IcError {
    /// The call is rejected. A call that could not be performed at all is reported in this
    /// way too, with the code [`RejectCode::SysFatal`].
    CallRejected {
        /// Why the platform rejected the call.
        code: RejectCode,
        /// Associated helper message.
        message: String,
    },
    /// The liquid cycle balance is insufficient to perform the call.
    InsufficientLiquidCycleBalance {
        /// The liquid cycle balance available in the canister.
        available: u128,
        /// The required cycles to perform the call.
        required: u128,
    },
}

/// What the call primitive of the platform reports when a call fails.
#[derive(Clone, Debug, PartialEq, Eq)]
pub enum CallError {
    /// The call was rejected.
    CallRejected {
        /// The reject code as the platform wrote it.
        raw_reject_code: u32,
        /// The message that came with the rejection.
        reject_message: String,
    },
    /// The call could not be performed.
    CallPerformFailed {
        /// Description of the failure.
        message: String,
    },
    /// The liquid cycle balance is insufficient to perform the call.
    InsufficientLiquidCycleBalance {
        /// The liquid cycle balance available in the canister.
        available: u128,
        /// The required cycles to perform the call.
        required: u128,
    },
    /// The response to the call could not be decoded.
    CandidDecodeFailed {
        /// Description of the failure.
        message: String,
    },
}

/// The error an outcall reports for a failure of the call primitive, where it reports one:
/// a response that cannot be decoded would be a fault of the platform and is not reported.
pub open spec fn converted_error(error: CallError) -> Option<IcError> {
    match error {
        CallError::CallRejected { raw_reject_code, reject_message } => Some(
            IcError::CallRejected {
                code: match RejectCode::of_number(raw_reject_code) {
                    Some(code) => code,
                    None => RejectCode::SysFatal,
                },
                message: reject_message,
            },
        ),
        CallError::CallPerformFailed { message } => Some(
            IcError::CallRejected { code: RejectCode::SysFatal, message },
        ),
        CallError::InsufficientLiquidCycleBalance { available, required } => Some(
            IcError::InsufficientLiquidCycleBalance { available, required },
        ),
        CallError::CandidDecodeFailed { .. } => None,
    }
}

/// The call primitive that performs HTTPs outcalls. The call itself is made outside this
/// library; what the library decides is how its failures are reported.
#[derive(Clone, Copy, Debug, PartialEq, Eq, Structural)]
pub struct Client;

impl Client {
    /// Creates a new client whose errors are converted into a custom error type.
    pub fn new_with_error<CustomError: From<IcError>>() -> (client: ConvertError<
        Client,
        CustomError,
    >)
        ensures
            client.inner() == Client,
    {
        ConvertError::new(Client)
    }

    /// Turns a failure of the call primitive into the error of an outcall.
    ///
    /// A reject code that is not known is reported as [`RejectCode::SysFatal`], since none
    /// of the other codes applies; so is a call that could not be performed. A response
    /// that cannot be decoded would be a fault of the platform and is not handled.
    pub fn convert_error(error: CallError) -> (converted: IcError)
        requires
            !(error is CandidDecodeFailed),
        ensures
            converted_error(error) == Some(converted),
    {
        match error {
            CallError::CallRejected { raw_reject_code, reject_message } => IcError::CallRejected {
                code: match RejectCode::from_u32(raw_reject_code) {
                    Some(code) => code,
                    None => RejectCode::SysFatal,
                },
                message: reject_message,
            },
            CallError::CallPerformFailed { message } => IcError::CallRejected {
                code: RejectCode::SysFatal,
                message,
            },
            CallError::InsufficientLiquidCycleBalance {
                available,
                required,
            } => IcError::InsufficientLiquidCycleBalance { available, required },
            CallError::CandidDecodeFailed { .. } => vstd::pervasive::unreached(),
        }
    }
}

/// Add support for max response bytes.
pub trait MaxResponseBytesRequestExtension: Sized {
    /// The max response bytes of the request, if any.
    spec fn spec_max_response_bytes(&self) -> Option<u64>;

    /// The request with the given max response bytes, and unchanged otherwise.
    spec fn with_max_response_bytes(self, value: u64) -> Self;

    /// Set the max response bytes.
    ///
    /// The value does not exceed the platform maximum of 2MB. The call will be charged based
    /// on this parameter. If not provided, the maximum of 2MB will be used.
    fn set_max_response_bytes(&mut self, value: u64)
        requires
            value <= HTTP_MAX_SIZE,
        ensures
            *final(self) == old(self).with_max_response_bytes(value),
            final(self).spec_max_response_bytes() == Some(value),
    ;

    /// Retrieves the current max response bytes value, if any.
    fn get_max_response_bytes(&self) -> (value: Option<u64>)
        ensures
            value == self.spec_max_response_bytes(),
    ;

    /// Convenience method to use the builder pattern.
    fn max_response_bytes(self, value: u64) -> (request: Self)
        requires
            value <= HTTP_MAX_SIZE,
        ensures
            request == self.with_max_response_bytes(value),
            request.spec_max_response_bytes() == Some(value),
    {
        let mut request = self;
        request.set_max_response_bytes(value);
        request
    }
}

impl MaxResponseBytesRequestExtension for IcHttpRequest {
    open spec fn spec_max_response_bytes(&self) -> Option<u64> {
        self.max_response_bytes
    }

    open spec fn with_max_response_bytes(self, value: u64) -> Self {
        IcHttpRequest { max_response_bytes: Some(value), ..self }
    }

    fn set_max_response_bytes(&mut self, value: u64) {
        self.max_response_bytes = Some(value);
    }

    fn get_max_response_bytes(&self) -> (value: Option<u64>) {
        self.max_response_bytes
    }
}

/// Add support for transform context to specify how the response will be canonicalized by
/// the replica to maximize chances of consensus.
pub trait TransformContextRequestExtension: Sized {
    /// The transform context of the request, if any.
    spec fn spec_transform_context(&self) -> Option<TransformContext>;

    /// The request with the given transform context, and unchanged otherwise.
    spec fn with_transform_context(self, value: TransformContext) -> Self;

    /// Set the transform context.
    fn set_transform_context(&mut self, value: TransformContext)
        ensures
            *final(self) == old(self).with_transform_context(value),
            final(self).spec_transform_context() == Some(value),
    ;

    /// Retrieve the current transform context, if any.
    fn get_transform_context(&self) -> (value: Option<&TransformContext>)
        ensures
            match value {
                Some(context) => self.spec_transform_context() == Some(*context),
                None => self.spec_transform_context() is None,
            },
    ;

    /// Convenience method to use the builder pattern.
    fn transform_context(self, value: TransformContext) -> (request: Self)
        ensures
            request == self.with_transform_context(value),
            request.spec_transform_context() == Some(value),
    {
        let mut request = self;
        request.set_transform_context(value);
        request
    }
}

impl TransformContextRequestExtension for IcHttpRequest {
    open spec fn spec_transform_context(&self) -> Option<TransformContext> {
        self.transform
    }

    open spec fn with_transform_context(self, value: TransformContext) -> Self {
        IcHttpRequest { transform: Some(value), ..self }
    }

    fn set_transform_context(&mut self, value: TransformContext) {
        self.transform = Some(value);
    }

    fn get_transform_context(&self) -> (value: Option<&TransformContext>) {
        self.transform.as_ref()
    }
}

/// Whether `pattern` occurs in `text` as a run of consecutive characters that begins at the
/// position `start`.
pub open spec fn occurs_at(text: Seq<char>, pattern: Seq<char>, start: int) -> bool {
    &&& 0 <= start
    &&& start + pattern.len() <= text.len()
    &&& text.subrange(start, start + pattern.len()) == pattern
}

/// Whether `pattern` occurs in `text` as a run of consecutive characters.
pub open spec fn contains_text(text: Seq<char>, pattern: Seq<char>) -> bool {
    exists|start: int| occurs_at(text, pattern, start)
}

/// Calls `str::contains` with a string as the pattern.
///
/// Trusted: the call returns `true` exactly when the pattern matches a sub-slice of the
/// text, that is, when its characters occur in the text one after the other.
#[verifier::external_body]
pub(crate) fn text_contains(text: &str, pattern: &str) -> (found: bool)
    ensures
        found == contains_text(text@, pattern@),
{
    text.contains(pattern)
}

/// Characterize errors that are specific to HTTPs outcalls.
pub trait HttpsOutcallError {
    /// Whether the error says that the response was larger than the request allowed.
    spec fn response_too_large(&self) -> bool;

    /// Determines whether the error indicates that the response was larger than the
    /// `max_response_bytes` specified in the request.
    ///
    /// If true, retrying with a larger value for `max_response_bytes` may help.
    fn is_response_too_large(&self) -> (too_large: bool)
        ensures
            too_large == self.response_too_large(),
    ;
}

impl HttpsOutcallError for IcError {
    open spec fn response_too_large(&self) -> bool {
        match self {
            IcError::CallRejected { code, message } => {
                &&& *code == RejectCode::SysFatal
                &&& (contains_text(message@, "size limit"@) || contains_text(
                    message@,
                    "length limit"@,
                ))
            },
            IcError::InsufficientLiquidCycleBalance { .. } => false,
        }
    }

    fn is_response_too_large(&self) -> (too_large: bool) {
        match self {
            IcError::CallRejected { code, message } => {
                *code == RejectCode::SysFatal && (text_contains(message.as_str(), "size limit")
                    || text_contains(message.as_str(), "length limit"))
            },
            IcError::InsufficientLiquidCycleBalance { .. } => false,
        }
    }
}

} // verus!
