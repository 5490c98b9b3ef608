//! One error type for a whole pipeline: it says which stage failed, and keeps what that
//! stage reported.

use crate::client::{HttpsOutcallError, IcError};
use crate::cycles::CyclesAccountingError;
use crate::http::json::{
    ConsistentResponseIdFilterError, JsonRequestConversionError, JsonResponseConversionError,
};
use crate::http::{HttpRequestConversionError, HttpResponseConversionError};
use vstd::prelude::*;
use vstd::std_specs::convert::FromSpecImpl;

verus! {

/// Error of a call through a pipeline of this library.
#[derive(Clone, Debug, PartialEq, Eq)]
pub enum PipelineError {
    /// The transport failed.
    Ic(IcError),
    /// The caller could not be charged for the call; no call was made.
    CyclesAccounting(CyclesAccountingError),
    /// The request could not be handed to the transport; no call was made.
    HttpRequest(HttpRequestConversionError),
    /// What the transport delivered is not a response.
    HttpResponse(HttpResponseConversionError),
    /// The body of the request could not be written as JSON; no call was made.
    JsonRequest(JsonRequestConversionError),
    /// The body of the response could not be read as JSON of the expected form.
    JsonResponse(JsonResponseConversionError),
    /// The identifiers of the response do not fit those of the request.
    InconsistentId(ConsistentResponseIdFilterError),
}

impl From<IcError> for PipelineError {
    fn from(error: IcError) -> (converted: Self) {
        PipelineError::Ic(error)
    }
}

impl FromSpecImpl<IcError> for PipelineError {
    open spec fn obeys_from_spec() -> bool {
        true
    }

    open spec fn from_spec(error: IcError) -> Self {
        PipelineError::Ic(error)
    }
}

impl From<CyclesAccountingError> for PipelineError {
    fn from(error: CyclesAccountingError) -> (converted: Self) {
        PipelineError::CyclesAccounting(error)
    }
}

impl FromSpecImpl<CyclesAccountingError> for PipelineError {
    open spec fn obeys_from_spec() -> bool {
        true
    }

    open spec fn from_spec(error: CyclesAccountingError) -> Self {
        PipelineError::CyclesAccounting(error)
    }
}

impl From<HttpRequestConversionError> for PipelineError {
    fn from(error: HttpRequestConversionError) -> (converted: Self) {
        PipelineError::HttpRequest(error)
    }
}

impl FromSpecImpl<HttpRequestConversionError> for PipelineError {
    open spec fn obeys_from_spec() -> bool {
        true
    }

    open spec fn from_spec(error: HttpRequestConversionError) -> Self {
        PipelineError::HttpRequest(error)
    }
}

impl From<HttpResponseConversionError> for PipelineError {
    fn from(error: HttpResponseConversionError) -> (converted: Self) {
        PipelineError::HttpResponse(error)
    }
}

impl FromSpecImpl<HttpResponseConversionError> for PipelineError {
    open spec fn obeys_from_spec() -> bool {
        true
    }

    open spec fn from_spec(error: HttpResponseConversionError) -> Self {
        PipelineError::HttpResponse(error)
    }
}

impl From<JsonRequestConversionError> for PipelineError {
    fn from(error: JsonRequestConversionError) -> (converted: Self) {
        PipelineError::JsonRequest(error)
    }
}

impl FromSpecImpl<JsonRequestConversionError> for PipelineError {
    open spec fn obeys_from_spec() -> bool {
        true
    }

    open spec fn from_spec(error: JsonRequestConversionError) -> Self {
        PipelineError::JsonRequest(error)
    }
}

impl From<JsonResponseConversionError> for PipelineError {
    fn from(error: JsonResponseConversionError) -> (converted: Self) {
        PipelineError::JsonResponse(error)
    }
}

impl FromSpecImpl<JsonResponseConversionError> for PipelineError {
    open spec fn obeys_from_spec() -> bool {
        true
    }

    open spec fn from_spec(error: JsonResponseConversionError) -> Self {
        PipelineError::JsonResponse(error)
    }
}

impl From<ConsistentResponseIdFilterError> for PipelineError {
    fn from(error: ConsistentResponseIdFilterError) -> (converted: Self) {
        PipelineError::InconsistentId(error)
    }
}

impl FromSpecImpl<ConsistentResponseIdFilterError> for PipelineError {
    open spec fn obeys_from_spec() -> bool {
        true
    }

    open spec fn from_spec(error: ConsistentResponseIdFilterError) -> Self {
        PipelineError::InconsistentId(error)
    }
}

impl HttpsOutcallError for PipelineError {
    /// An error says that the response was too large only if it is an error of the
    /// transport that says so: the error of the transport is looked for first.
    open spec fn response_too_large(&self) -> bool {
        match self {
            PipelineError::Ic(error) => error.response_too_large(),
            _ => false,
        }
    }

    fn is_response_too_large(&self) -> (too_large: bool) {
        match self {
            PipelineError::Ic(error) => error.is_response_too_large(),
            _ => false,
        }
    }
}

impl PipelineError {
    /// The error of the transport that this error holds, if the transport failed.
    pub fn as_ic_error(&self) -> (error: Option<&IcError>)
        ensures
            match error {
                Some(error) => *self == PipelineError::Ic(*error),
                None => !(self is Ic),
            },
    {
        match self {
            PipelineError::Ic(error) => Some(error),
            _ => None,
        }
    }
}

/// An error of the transport that became the error of a pipeline is still recognized as a
/// response that was too large, exactly when it was one before.
pub proof fn lemma_too_large_survives_conversion(error: IcError)
    ensures
        <PipelineError as vstd::std_specs::convert::FromSpec<IcError>>::from_spec(error).response_too_large()
            == error.response_too_large(),
{
}

} // verus!
