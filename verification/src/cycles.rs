//! Cycles cost estimation and accounting for HTTPS outcalls.

use crate::client::{HttpHeader, IcHttpRequest, IcHttpRequestWithCycles};
use std::convert::Infallible;
use vstd::prelude::*;

verus! {

/// The value of `amount` clamped at the largest number of cycles that can be written down.
pub open spec fn saturated(amount: nat) -> u128 {
    if amount > u128::MAX {
        u128::MAX
    } else {
        amount as u128
    }
}

/// Fee charged for every outcall on a subnet of `num_nodes` nodes.
pub open spec fn base_fee_of(num_nodes: nat) -> nat {
    (3_000_000 + 60_000 * num_nodes) * num_nodes
}

/// Fee charged for the bytes of a request on a subnet of `num_nodes` nodes.
pub open spec fn request_fee_of(num_nodes: nat, bytes: nat) -> nat {
    400 * num_nodes * bytes
}

/// Fee charged for the bytes allowed to a response on a subnet of `num_nodes` nodes.
pub open spec fn response_fee_of(num_nodes: nat, bytes: nat) -> nat {
    800 * num_nodes * bytes
}

/// Cycles required to send a request of `request_bytes` bytes whose response may have
/// `max_response_bytes` bytes, on a subnet of `num_nodes` nodes.
pub open spec fn http_request_cost(num_nodes: nat, request_bytes: nat, max_response_bytes: nat) -> nat {
    base_fee_of(num_nodes) + request_fee_of(num_nodes, request_bytes) + response_fee_of(
        num_nodes,
        max_response_bytes,
    )
}

/// Number of bytes a text takes.
pub open spec fn text_size(text: String) -> nat {
    vstd::utf8::encode_utf8(text@).len()
}

/// A text of ASCII characters takes one byte for each character.
pub proof fn lemma_ascii_text_size(text: String)
    requires
        vstd::utf8::is_ascii_chars(text@),
    ensures
        text_size(text) == text@.len(),
{
    vstd::utf8::is_ascii_chars_encode_utf8(text@);
}

/// Number of bytes of the names and values of the given headers.
pub open spec fn headers_size(headers: Seq<HttpHeader>) -> nat
    decreases headers.len(),
{
    if headers.len() == 0 {
        0
    } else {
        headers_size(headers.drop_last()) + text_size(headers.last().name) + text_size(
            headers.last().value,
        )
    }
}

/// Number of bytes of a request that are charged for: its body, its URL, the names and
/// values of its headers, and the name and context of its transform function.
pub open spec fn request_size(request: IcHttpRequest) -> nat {
    (match request.body {
        Some(body) => body@.len(),
        None => 0,
    }) + text_size(request.url) + headers_size(request.headers@) + (match request.transform {
        Some(transform) => text_size(transform.method) + transform.context@.len(),
        None => 0,
    })
}

/// Number of bytes allowed to the response to a request: what the request asks for, or the
/// platform maximum.
pub open spec fn response_size_limit(request: IcHttpRequest) -> nat {
    match request.max_response_bytes {
        Some(max_response_bytes) => max_response_bytes as nat,
        None => CyclesCostEstimator::DEFAULT_MAX_RESPONSE_BYTES as nat,
    }
}

/// The cost of an outcall does not decrease when the subnet has more nodes, the request has
/// more bytes, or the response may have more bytes; nor does its clamped value.
pub proof fn lemma_cost_is_monotonic(
    num_nodes: nat,
    request_bytes: nat,
    max_response_bytes: nat,
    more_nodes: nat,
    more_request_bytes: nat,
    more_response_bytes: nat,
)
    requires
        num_nodes <= more_nodes,
        request_bytes <= more_request_bytes,
        max_response_bytes <= more_response_bytes,
    ensures
        http_request_cost(num_nodes, request_bytes, max_response_bytes) <= http_request_cost(
            more_nodes,
            more_request_bytes,
            more_response_bytes,
        ),
        saturated(http_request_cost(num_nodes, request_bytes, max_response_bytes)) <= saturated(
            http_request_cost(more_nodes, more_request_bytes, more_response_bytes),
        ),
{
    assert((3_000_000 + 60_000 * num_nodes) * num_nodes <= (3_000_000 + 60_000 * more_nodes)
        * more_nodes) by (nonlinear_arith)
        requires
            num_nodes <= more_nodes,
    ;
    assert(400 * num_nodes * request_bytes <= 400 * more_nodes * more_request_bytes)
        by (nonlinear_arith)
        requires
            num_nodes <= more_nodes,
            request_bytes <= more_request_bytes,
    ;
    assert(800 * num_nodes * max_response_bytes <= 800 * more_nodes * more_response_bytes)
        by (nonlinear_arith)
        requires
            num_nodes <= more_nodes,
            max_response_bytes <= more_response_bytes,
    ;
}

/// Where the subnet has fewer than 2^32 nodes and neither the request nor the response has
/// more than 2^64 bytes, the cost of the outcall is not clamped.
pub proof fn lemma_cost_fits(num_nodes: nat, request_bytes: nat, max_response_bytes: nat)
    requires
        num_nodes <= u32::MAX,
        request_bytes <= u64::MAX,
        max_response_bytes <= u64::MAX,
    ensures
        http_request_cost(num_nodes, request_bytes, max_response_bytes) < u128::MAX,
        saturated(http_request_cost(num_nodes, request_bytes, max_response_bytes))
            == http_request_cost(num_nodes, request_bytes, max_response_bytes),
{
    lemma_cost_is_monotonic(
        num_nodes,
        request_bytes,
        max_response_bytes,
        u32::MAX as nat,
        u64::MAX as nat,
        u64::MAX as nat,
    );
    assert(http_request_cost(0xffff_ffff, 0xffff_ffff_ffff_ffff, 0xffff_ffff_ffff_ffff)
        < 0xffff_ffff_ffff_ffff_ffff_ffff_ffff_ffff);
}

/// Multiplies two numbers of cycles and clamps the product.
fn saturating_mul(a: u128, b: u128) -> (product: u128)
    ensures
        product == saturated((a * b) as nat),
{
    match a.checked_mul(b) {
        Some(product) => product,
        None => u128::MAX,
    }
}

/// Estimates the cycles required to send one HTTPS outcall on a subnet of a given size.
#[derive(Debug, Clone, Copy, PartialEq, Eq, Structural)]
pub struct CyclesCostEstimator {
    num_nodes_in_subnet: u32,
}

impl CyclesCostEstimator {
    /// Number of bytes allowed to a response when the request does not say: the platform
    /// maximum of 2MB.
    pub const DEFAULT_MAX_RESPONSE_BYTES: u64 = 2_000_000;

    /// Number of nodes of the subnet this estimator was made for.
    pub closed spec fn num_nodes(&self) -> nat {
        self.num_nodes_in_subnet as nat
    }

    /// Creates an estimator for a subnet with the given number of nodes.
    pub fn new(num_nodes_in_subnet: u32) -> (estimator: Self)
        ensures
            estimator.num_nodes() == num_nodes_in_subnet,
    {
        CyclesCostEstimator { num_nodes_in_subnet }
    }

    /// Computes the number of cycles required to send the given request.
    ///
    /// The cost is the base fee, plus the fee for the bytes of the request, plus the fee for
    /// the bytes allowed to the response, clamped at `u128::MAX`. No request that fits in
    /// 2^64 bytes reaches that bound.
    pub fn cost_of_http_request(&self, request: &IcHttpRequest) -> (cost: u128)
        ensures
            cost == saturated(
                http_request_cost(
                    self.num_nodes(),
                    request_size(*request),
                    response_size_limit(*request),
                ),
            ),
            request_size(*request) <= u64::MAX ==> cost == http_request_cost(
                self.num_nodes(),
                request_size(*request),
                response_size_limit(*request),
            ),
    {
        let request_bytes = request_bytes(request);
        let max_response_bytes: u64 = match request.max_response_bytes {
            Some(max_response_bytes) => max_response_bytes,
            None => Self::DEFAULT_MAX_RESPONSE_BYTES,
        };
        let request_fee = self.request_fee(request_bytes);
        proof {
            let n = self.num_nodes();
            let size = request_size(*request);
            if size > u128::MAX {
                if n > 0 {
                    assert(400 * n * size > u128::MAX) by (nonlinear_arith)
                        requires
                            n > 0,
                            size > u128::MAX,
                    ;
                    assert(400 * n * (u128::MAX as nat) > u128::MAX) by (nonlinear_arith)
                        requires
                            n > 0,
                    ;
                } else {
                    assert(400 * n * size == 0) by (nonlinear_arith)
                        requires
                            n == 0,
                    ;
                    assert(400 * n * (u128::MAX as nat) == 0) by (nonlinear_arith)
                        requires
                            n == 0,
                    ;
                }
            }
            if size <= u64::MAX {
                lemma_cost_fits(n, size, max_response_bytes as nat);
            }
        }
        self.base_fee().saturating_add(request_fee).saturating_add(
            self.response_fee(max_response_bytes as u128),
        )
    }

    /// Fee charged for every outcall.
    pub fn base_fee(&self) -> (fee: u128)
        ensures
            fee == base_fee_of(self.num_nodes()),
    {
        let nodes = self.num_nodes_as_u128();
        proof {
            let n = nodes as nat;
            assert((3_000_000 + 60_000 * n) * n <= (3_000_000 + 60_000 * 0xffff_ffff)
                * 0xffff_ffff) by (nonlinear_arith)
                requires
                    n <= 0xffff_ffff,
            ;
        }
        saturating_mul(3_000_000_u128.saturating_add(saturating_mul(60_000_u128, nodes)), nodes)
    }

    /// Fee charged for the given number of bytes of a request, clamped at `u128::MAX`.
    pub fn request_fee(&self, bytes: u128) -> (fee: u128)
        ensures
            fee == saturated(request_fee_of(self.num_nodes(), bytes as nat)),
    {
        saturating_mul(saturating_mul(400_u128, self.num_nodes_as_u128()), bytes)
    }

    /// Fee charged for the given number of bytes allowed to a response, clamped at
    /// `u128::MAX`.
    pub fn response_fee(&self, bytes: u128) -> (fee: u128)
        ensures
            fee == saturated(response_fee_of(self.num_nodes(), bytes as nat)),
    {
        saturating_mul(saturating_mul(800_u128, self.num_nodes_as_u128()), bytes)
    }

    /// Number of nodes of the subnet.
    pub fn num_nodes_as_u128(&self) -> (nodes: u128)
        ensures
            nodes == self.num_nodes(),
    {
        self.num_nodes_in_subnet as u128
    }
}

/// Number of bytes a text takes.
fn text_bytes(text: &String) -> (bytes: u128)
    ensures
        bytes == text_size(*text),
        bytes <= usize::MAX,
{
    text.as_str().as_bytes().len() as u128
}

/// Number of bytes of a request that are charged for, clamped at `u128::MAX`.
fn request_bytes(request: &IcHttpRequest) -> (bytes: u128)
    ensures
        bytes == saturated(request_size(*request)),
{
    let payload_body_bytes: u128 = match &request.body {
        Some(body) => body.len() as u128,
        None => 0,
    };
    let mut header_bytes: u128 = 0;
    let mut i: usize = 0;
    while i < request.headers.len()
        invariant
            i <= request.headers.len(),
            header_bytes == saturated(headers_size(request.headers@.take(i as int))),
        decreases request.headers.len() - i,
    {
        proof {
            assert(request.headers@.take(i + 1).drop_last() =~= request.headers@.take(i as int));
        }
        let header = &request.headers[i];
        header_bytes = header_bytes.saturating_add(text_bytes(&header.name)).saturating_add(
            text_bytes(&header.value),
        );
        i += 1;
    }
    proof {
        assert(request.headers@.take(i as int) =~= request.headers@);
    }
    let transform_bytes: u128 = match &request.transform {
        Some(transform) => text_bytes(&transform.method) + transform.context.len() as u128,
        None => 0,
    };
    payload_body_bytes.saturating_add(text_bytes(&request.url)).saturating_add(
        header_bytes,
    ).saturating_add(transform_bytes)
}

/// The cycles that came with the message being handled and have not been accepted yet.
#[derive(Debug, Clone, Copy, PartialEq, Eq, Structural)]
pub struct MessageCycles {
    available: u128,
}

impl MessageCycles {
    /// Number of cycles that can still be accepted.
    pub closed spec fn spec_available(&self) -> u128 {
        self.available
    }

    /// Describes a message that came with the given number of cycles.
    pub fn new(available: u128) -> (cycles: Self)
        ensures
            cycles.spec_available() == available,
    {
        MessageCycles { available }
    }

    /// Number of cycles that can still be accepted.
    pub fn available(&self) -> (available: u128)
        ensures
            available == self.spec_available(),
    {
        self.available
    }

    /// Accepts up to `max_amount` cycles from the message and returns how many were accepted:
    /// all of `max_amount` if that many are available, and what is available otherwise.
    pub fn accept(&mut self, max_amount: u128) -> (accepted: u128)
        ensures
            accepted == if max_amount <= old(self).spec_available() {
                max_amount
            } else {
                old(self).spec_available()
            },
            final(self).spec_available() == old(self).spec_available() - accepted,
    {
        let accepted = if max_amount <= self.available {
            max_amount
        } else {
            self.available
        };
        self.available = self.available - accepted;
        accepted
    }
}

/// Error returned by the [`CyclesAccounting`] middleware.
#[derive(Clone, Debug, PartialEq, Eq)]
pub enum CyclesAccountingError {
    /// The caller should be charged but did not attach sufficiently many cycles.
    InsufficientCyclesError {
        /// Expected amount of cycles. Minimum value that should have been sent.
        expected: u128,
        /// Received amount of cycles
        received: u128,
    },
}

/// What charging `amount` cycles to a message that has `available` cycles left gives: the
/// amount, or the error that says how many cycles were expected and how many were there.
pub open spec fn charge_outcome(amount: u128, available: u128) -> Result<
    u128,
    CyclesAccountingError,
> {
    if amount > available {
        Err(CyclesAccountingError::InsufficientCyclesError { expected: amount, received: available })
    } else {
        Ok(amount)
    }
}

/// Charge cycles to pay for a single HTTPs outcall.
pub trait CyclesChargingPolicy {
    /// Type returned in case of a charging error.
    type Error;

    /// Whether the policy can be asked to charge for the given request and cost. A policy
    /// that does not say can be asked for every request and cost.
    open spec fn can_charge(&self, request: &IcHttpRequest, request_cycles_cost: u128) -> bool {
        true
    }

    /// Whether charging for the given request and cost, from a message that has `available`
    /// cycles left, may have `outcome` and leave `remaining` cycles in the message. A policy
    /// that does not say promises nothing.
    open spec fn charges(
        &self,
        request: &IcHttpRequest,
        request_cycles_cost: u128,
        available: u128,
        outcome: Result<u128, Self::Error>,
        remaining: u128,
    ) -> bool {
        true
    }

    /// Charges cycles from the message being handled and returns the charged amount.
    fn charge_cycles(
        &self,
        request: &IcHttpRequest,
        request_cycles_cost: u128,
        cycles: &mut MessageCycles,
    ) -> (outcome: Result<u128, Self::Error>)
        requires
            self.can_charge(request, request_cycles_cost),
        ensures
            self.charges(
                request,
                request_cycles_cost,
                old(cycles).spec_available(),
                outcome,
                final(cycles).spec_available(),
            ),
    ;
}

/// The canister pays for HTTPs outcalls with its own cycles: nothing is charged to the
/// caller.
#[derive(Debug, Clone, Copy, PartialEq, Eq, Structural)]
pub struct ChargeMyself {}

impl Default for ChargeMyself {
    fn default() -> (policy: Self)
        ensures
            policy == (ChargeMyself {  }),
    {
        ChargeMyself {  }
    }
}

impl CyclesChargingPolicy for ChargeMyself {
    type Error = Infallible;

    open spec fn can_charge(&self, request: &IcHttpRequest, request_cycles_cost: u128) -> bool {
        true
    }

    open spec fn charges(
        &self,
        request: &IcHttpRequest,
        request_cycles_cost: u128,
        available: u128,
        outcome: Result<u128, Infallible>,
        remaining: u128,
    ) -> bool {
        outcome == Ok::<u128, Infallible>(0) && remaining == available
    }

    fn charge_cycles(
        &self,
        _request: &IcHttpRequest,
        _request_cycles_cost: u128,
        _cycles: &mut MessageCycles,
    ) -> (outcome: Result<u128, Infallible>) {
        Ok(0)
    }
}

/// Cycles are taken from the caller of the canister to pay for HTTPs outcalls. The amount
/// is what the given function makes of the request and its cost.
pub struct ChargeCaller<F> {
    cycles_to_charge: F,
}

impl<F> ChargeCaller<F> {
    /// The function that decides how many cycles to charge.
    pub closed spec fn cycles_to_charge(&self) -> F {
        self.cycles_to_charge
    }

    /// Creates a policy that charges what `cycles_to_charge` says.
    pub fn new(cycles_to_charge: F) -> (policy: Self)
        ensures
            policy.cycles_to_charge() == cycles_to_charge,
    {
        ChargeCaller { cycles_to_charge }
    }
}

/// Whether `outcome` and `remaining` are what charging `amount` cycles to a message that has
/// `available` cycles left gives: the amount is taken from the message if it is there, and
/// nothing is taken if it is not.
pub open spec fn charged_to_caller(
    amount: u128,
    available: u128,
    outcome: Result<u128, CyclesAccountingError>,
    remaining: u128,
) -> bool {
    &&& outcome == charge_outcome(amount, available)
    &&& remaining == if amount > available {
        available
    } else {
        (available - amount) as u128
    }
}

impl<F> ChargeCaller<F> where F: Fn(&IcHttpRequest, u128) -> u128 {
    /// Charges the caller what the function of the policy makes of the request and its
    /// cost: if the message being handled has that many cycles left they are accepted, and
    /// else nothing is accepted and the error says how many cycles were expected and how
    /// many were there.
    pub fn charge_cycles(
        &self,
        request: &IcHttpRequest,
        request_cycles_cost: u128,
        cycles: &mut MessageCycles,
    ) -> (outcome: Result<u128, CyclesAccountingError>)
        requires
            call_requires(self.cycles_to_charge(), (request, request_cycles_cost)),
        ensures
            exists|amount: u128| #[trigger]
                call_ensures(self.cycles_to_charge(), (request, request_cycles_cost), amount)
                    && charged_to_caller(
                    amount,
                    old(cycles).spec_available(),
                    outcome,
                    final(cycles).spec_available(),
                ),
    {
        let cycles_to_charge = (self.cycles_to_charge)(request, request_cycles_cost);
        if cycles_to_charge > 0 {
            let cycles_available = cycles.available();
            if cycles_available < cycles_to_charge {
                return Err(
                    CyclesAccountingError::InsufficientCyclesError {
                        expected: cycles_to_charge,
                        received: cycles_available,
                    },
                );
            }
            let cycles_received = cycles.accept(cycles_to_charge);
            assert(cycles_received == cycles_to_charge);
        }
        Ok(cycles_to_charge)
    }

    /// What the policy asks for and promises as a [`CyclesChargingPolicy`], spelled out.
    pub proof fn lemma_policy(
        &self,
        request: &IcHttpRequest,
        request_cycles_cost: u128,
        available: u128,
        outcome: Result<u128, CyclesAccountingError>,
        remaining: u128,
    )
        ensures
            self.can_charge(request, request_cycles_cost) == call_requires(
                self.cycles_to_charge(),
                (request, request_cycles_cost),
            ),
            self.charges(request, request_cycles_cost, available, outcome, remaining) == (
            exists|amount: u128| #[trigger]
                call_ensures(self.cycles_to_charge(), (request, request_cycles_cost), amount)
                    && charged_to_caller(amount, available, outcome, remaining)),
    {
    }
}

impl<F> CyclesChargingPolicy for ChargeCaller<F> where F: Fn(&IcHttpRequest, u128) -> u128 {
    type Error = CyclesAccountingError;

    open spec fn can_charge(&self, request: &IcHttpRequest, request_cycles_cost: u128) -> bool {
        call_requires(self.cycles_to_charge(), (request, request_cycles_cost))
    }

    open spec fn charges(
        &self,
        request: &IcHttpRequest,
        request_cycles_cost: u128,
        available: u128,
        outcome: Result<u128, CyclesAccountingError>,
        remaining: u128,
    ) -> bool {
        exists|amount: u128| #[trigger]
            call_ensures(self.cycles_to_charge(), (request, request_cycles_cost), amount)
                && charged_to_caller(amount, available, outcome, remaining)
    }

    fn charge_cycles(
        &self,
        request: &IcHttpRequest,
        request_cycles_cost: u128,
        cycles: &mut MessageCycles,
    ) -> (outcome: Result<u128, CyclesAccountingError>) {
        ChargeCaller::charge_cycles(self, request, request_cycles_cost, cycles)
    }
}

/// A middleware to handle cycles accounting: it computes what an outcall costs, has the
/// charging policy charge for it, and attaches what was charged to the outcall.
#[derive(Clone, Debug)]
pub struct CyclesAccounting<Charging> {
    cycles_cost_estimator: CyclesCostEstimator,
    charging_policy: Charging,
}

impl<Charging> CyclesAccounting<Charging> {
    /// The estimator of the cost of outcalls.
    pub closed spec fn estimator(&self) -> CyclesCostEstimator {
        self.cycles_cost_estimator
    }

    /// The policy that charges for outcalls.
    pub closed spec fn policy(&self) -> Charging {
        self.charging_policy
    }

    /// The cost this middleware computes for the given request.
    pub open spec fn cost_of(&self, request: IcHttpRequest) -> u128 {
        saturated(
            http_request_cost(
                self.estimator().num_nodes(),
                request_size(request),
                response_size_limit(request),
            ),
        )
    }

    /// Creates a new middleware for a subnet with the given number of nodes.
    pub fn new(num_nodes_in_subnet: u32, charging_policy: Charging) -> (accounting: Self)
        ensures
            accounting.estimator().num_nodes() == num_nodes_in_subnet,
            accounting.policy() == charging_policy,
    {
        Self {
            cycles_cost_estimator: CyclesCostEstimator::new(num_nodes_in_subnet),
            charging_policy,
        }
    }
}

impl<Charging: CyclesChargingPolicy> CyclesAccounting<Charging> {
    /// Computes the cost of the request, has the policy charge for it from the message being
    /// handled, and attaches the amount that the policy charged to the request. Where the
    /// policy fails, its error is returned and no outcall is made.
    pub fn try_convert(&mut self, request: IcHttpRequest, cycles: &mut MessageCycles) -> (output:
        Result<IcHttpRequestWithCycles, Charging::Error>)
        requires
            old(self).policy().can_charge(&request, old(self).cost_of(request)),
        ensures
            *final(self) == *old(self),
            match output {
                Ok(outcall) => {
                    &&& outcall.request == request
                    &&& old(self).policy().charges(
                        &request,
                        old(self).cost_of(request),
                        old(cycles).spec_available(),
                        Ok::<u128, Charging::Error>(outcall.cycles),
                        final(cycles).spec_available(),
                    )
                },
                Err(error) => old(self).policy().charges(
                    &request,
                    old(self).cost_of(request),
                    old(cycles).spec_available(),
                    Err::<u128, Charging::Error>(error),
                    final(cycles).spec_available(),
                ),
            },
    {
        let request_cycles_cost = self.cycles_cost_estimator.cost_of_http_request(&request);
        match self.charging_policy.charge_cycles(&request, request_cycles_cost, cycles) {
            Ok(charged) => Ok(IcHttpRequestWithCycles { request, cycles: charged }),
            Err(error) => Err(error),
        }
    }
}

} // verus!
