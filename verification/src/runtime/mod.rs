//! Decisions of the runtimes through which canisters are called: what a failed call is
//! reported as, which canned response comes next, and how a mocked HTTP response is
//! delivered.

pub mod mock;
pub mod proxy;
pub mod stub;

pub use proxy::{ProxyArgs, ProxyError, ProxyRuntime, ProxySucceed};
pub use stub::StubRuntime;

use crate::client::RejectCode;
use vstd::prelude::*;
use vstd::std_specs::convert::FromSpecImpl;

verus! {

/// A principal of the platform, as `candid` holds it; opaque to the verifier.
#[verifier::external_type_specification]
#[verifier::external_body]
pub struct ExPrincipal(candid::Principal);

/// `candid::Principal` is `Copy`, and its `clone` hands back the principal itself.
pub assume_specification[ <candid::Principal as Clone>::clone ](
    principal: &candid::Principal,
) -> (copy: candid::Principal)
    ensures
        copy == *principal,
;

/// Error returned by a call to a canister.
#[derive(Clone, Debug, PartialEq, Eq)]
pub enum IcError {
    /// The call is rejected.
    CallRejected {
        /// Why the platform rejected the call.
        code: RejectCode,
        /// Associated helper message.
        message: String,
    },
    /// The liquid cycle balance is insufficient to perform the call.
    InsufficientLiquidCycleBalance {
        /// The liquid cycle balance available in the canister.
        available: u128,
        /// The required cycles to perform the call.
        required: u128,
    },
    /// The response to the call could not be decoded.
    CandidDecodeFailed {
        /// Why the response could not be decoded.
        message: String,
    },
}

impl From<crate::client::IcError> for IcError {
    fn from(error: crate::client::IcError) -> (converted: Self) {
        match error {
            crate::client::IcError::CallRejected { code, message } => IcError::CallRejected {
                code,
                message,
            },
            crate::client::IcError::InsufficientLiquidCycleBalance {
                available,
                required,
            } => IcError::InsufficientLiquidCycleBalance { available, required },
        }
    }
}

impl FromSpecImpl<crate::client::IcError> for IcError {
    open spec fn obeys_from_spec() -> bool {
        true
    }

    open spec fn from_spec(error: crate::client::IcError) -> Self {
        match error {
            crate::client::IcError::CallRejected { code, message } => IcError::CallRejected {
                code,
                message,
            },
            crate::client::IcError::InsufficientLiquidCycleBalance {
                available,
                required,
            } => IcError::InsufficientLiquidCycleBalance { available, required },
        }
    }
}

} // verus!
