//! Calls that are forwarded through a proxy canister, which attaches cycles to them.

use crate::client::RejectCode;
use crate::runtime::IcError;
use vstd::prelude::*;
use vstd::string::StringExecFns;

verus! {

/// Name of the method of the proxy canister that forwards a call.
pub const PROXY_METHOD: &'static str = "proxy";

/// Argument of the proxy canister: the call to forward and the cycles to attach to it.
#[derive(Debug, Clone)]
pub struct ProxyArgs {
    /// The canister to call.
    pub canister_id: candid::Principal,
    /// The method to call.
    pub method: String,
    /// The encoded arguments of the call.
    pub args: Vec<u8>,
    /// The cycles to attach to the call.
    pub cycles: u128,
}

impl ProxyArgs {
    /// Describes the call to forward.
    pub fn new(canister_id: candid::Principal, method: String, args: Vec<u8>, cycles: u128) -> (proxy_args:
        Self)
        ensures
            proxy_args.canister_id == canister_id,
            proxy_args.method == method,
            proxy_args.args == args,
            proxy_args.cycles == cycles,
    {
        Self { canister_id, method, args, cycles }
    }
}

/// What the proxy canister returns when the forwarded call succeeded.
#[derive(Debug, Clone, PartialEq, Eq)]
pub struct ProxySucceed {
    /// The encoded response of the forwarded call.
    pub result: Vec<u8>,
}

/// What the proxy canister returns when it could not forward the call or the call failed.
#[derive(Debug, Clone, PartialEq, Eq)]
pub enum ProxyError {
    /// The proxy canister has not enough cycles to attach.
    InsufficientCycles {
        /// The cycles the proxy canister has.
        available: u128,
        /// The cycles the call asks for.
        required: u128,
    },
    /// The forwarded call failed.
    CallFailed {
        /// Why the call failed.
        reason: String,
    },
    /// The caller may not use the proxy canister.
    UnauthorizedUser,
}

/// A call to make: the canister, the method, the argument and the cycles to attach.
#[derive(Debug, Clone)]
pub struct ForwardedCall {
    /// The canister to call.
    pub canister_id: candid::Principal,
    /// The method to call.
    pub method: String,
    /// The argument of the call.
    pub args: ProxyArgs,
    /// The cycles to attach to the call.
    pub cycles: u128,
}

/// Runtime wrapping another runtime, where update calls are forwarded through a proxy
/// canister to attach cycles to them.
pub struct ProxyRuntime<R> {
    runtime: R,
    proxy_canister_id: candid::Principal,
}

impl<R> ProxyRuntime<R> {
    /// The runtime that makes the calls.
    pub closed spec fn runtime(&self) -> R {
        self.runtime
    }

    /// The proxy canister that update calls are forwarded through.
    pub closed spec fn proxy_canister_id(&self) -> candid::Principal {
        self.proxy_canister_id
    }

    /// Creates a new [`ProxyRuntime`] wrapping the given runtime by forwarding update calls
    /// through the given proxy canister to attach cycles.
    pub fn new(runtime: R, proxy_canister_id: candid::Principal) -> (proxy: Self)
        ensures
            proxy.runtime() == runtime,
            proxy.proxy_canister_id() == proxy_canister_id,
    {
        ProxyRuntime { runtime, proxy_canister_id }
    }

    /// Modifies the underlying runtime by applying a transformation function.
    ///
    /// The transformation does not necessarily produce a runtime of the same type.
    pub fn with_runtime<S, F: FnOnce(R) -> S>(self, transformation: F) -> (proxy: ProxyRuntime<S>)
        requires
            call_requires(transformation, (self.runtime(),)),
        ensures
            call_ensures(transformation, (self.runtime(),), proxy.runtime()),
            proxy.proxy_canister_id() == self.proxy_canister_id(),
    {
        ProxyRuntime {
            runtime: transformation(self.runtime),
            proxy_canister_id: self.proxy_canister_id,
        }
    }

    /// The underlying runtime.
    pub fn as_ref(&self) -> (runtime: &R)
        ensures
            *runtime == self.runtime(),
    {
        &self.runtime
    }

    /// The call that stands for an update call of `method` on the canister `id` with the
    /// given encoded arguments and cycles: a call of the proxy canister, which gets the
    /// call to forward as its argument. No cycles are attached to the call of the proxy
    /// canister itself.
    pub fn update_call(&self, id: candid::Principal, method: String, args: Vec<u8>, cycles: u128) -> (call:
        ForwardedCall)
        ensures
            call.canister_id == self.proxy_canister_id(),
            call.method@ == PROXY_METHOD@,
            call.args.canister_id == id,
            call.args.method == method,
            call.args.args == args,
            call.args.cycles == cycles,
            call.cycles == 0,
    {
        ForwardedCall {
            canister_id: self.proxy_canister_id.clone(),
            method: String::from_str(PROXY_METHOD),
            args: ProxyArgs::new(id, method, args, cycles),
            cycles: 0,
        }
    }
}

/// The error that a failure reported by the proxy canister is handed on as.
pub open spec fn proxy_failure(error: ProxyError, reported: IcError) -> bool {
    match error {
        ProxyError::UnauthorizedUser => {
            &&& reported matches IcError::CallRejected { code, message }
            &&& code == RejectCode::SysFatal
            &&& message@ == "Unauthorized caller!"@
        },
        ProxyError::InsufficientCycles {
            available,
            required,
        } => reported == (IcError::InsufficientLiquidCycleBalance { available, required }),
        ProxyError::CallFailed { reason } => reported == (IcError::CallRejected {
            code: RejectCode::SysFatal,
            message: reason,
        }),
    }
}

/// The message that says that a response could not be decoded as the type of the given
/// name, and why.
pub open spec fn decode_failure_message(expected_type: Seq<char>, reason: Seq<char>) -> Seq<char> {
    "failed to decode canister response as "@ + expected_type + ": "@ + reason
}

/// Whether `outcome` is what the answer of the proxy canister gives, where `decoded` is
/// what the decoder made of the response of the forwarded call.
pub open spec fn proxy_outcome<Out>(
    result: Result<ProxySucceed, ProxyError>,
    expected_type: Seq<char>,
    decoded: Result<Out, String>,
    outcome: Result<Out, IcError>,
) -> bool {
    match result {
        Ok(_) => match decoded {
            Ok(value) => outcome == Ok::<Out, IcError>(value),
            Err(reason) => {
                &&& outcome matches Err(IcError::CandidDecodeFailed { message })
                &&& message@ == decode_failure_message(expected_type, reason@)
            },
        },
        Err(error) => outcome matches Err(reported) && proxy_failure(error, reported),
    }
}

/// Turns the answer of the proxy canister into the outcome of the forwarded call.
///
/// Where the forwarded call succeeded, `decode` reads its response; a response that cannot
/// be read is reported with the name of the expected type and the reason that `decode`
/// gave. Where the proxy canister reports a failure, `decode` is not called.
pub fn decode_proxy_canister_response<Out, F>(
    result: Result<ProxySucceed, ProxyError>,
    expected_type: &str,
    decode: F,
) -> (outcome: Result<Out, IcError>) where F: FnOnce(&Vec<u8>) -> Result<Out, String>
    requires
        result matches Ok(succeed) ==> call_requires(decode, (&succeed.result,)),
    ensures
        match result {
            Ok(succeed) => exists|decoded: Result<Out, String>| #[trigger]
                call_ensures(decode, (&succeed.result,), decoded) && proxy_outcome(
                    result,
                    expected_type@,
                    decoded,
                    outcome,
                ),
            Err(_) => forall|decoded: Result<Out, String>|
                proxy_outcome(result, expected_type@, decoded, outcome),
        },
{
    match result {
        Ok(ProxySucceed { result }) => {
            match decode(&result) {
                Ok(value) => Ok(value),
                Err(reason) => {
                    let message = String::from_str("failed to decode canister response as ")
                        .concat(expected_type).concat(": ").concat(reason.as_str());
                    Err(IcError::CandidDecodeFailed { message })
                },
            }
        },
        Err(error) => match error {
            ProxyError::UnauthorizedUser => Err(
                IcError::CallRejected {
                    code: RejectCode::SysFatal,
                    message: String::from_str("Unauthorized caller!"),
                },
            ),
            ProxyError::InsufficientCycles { available, required } => Err(
                IcError::InsufficientLiquidCycleBalance { available, required },
            ),
            ProxyError::CallFailed { reason } => Err(
                IcError::CallRejected { code: RejectCode::SysFatal, message: reason },
            ),
        },
    }
}

} // verus!
