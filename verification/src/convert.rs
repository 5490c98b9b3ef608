//! Fallible converters and filters, the stages a pipeline is assembled from.

use std::marker::PhantomData;
use vstd::prelude::*;

verus! {

/// A fallible conversion of requests or of responses.
pub trait Convert<Input> {
    /// Type of the converted value.
    type Output;

    /// Type returned when the conversion fails.
    type Error;

    /// Whether `output` is what this converter makes of `input`. A converter that does not
    /// say promises nothing.
    open spec fn converts(&self, input: Input, output: Result<Self::Output, Self::Error>) -> bool {
        true
    }

    /// Tries to convert the input.
    fn try_convert(&mut self, input: Input) -> (output: Result<Self::Output, Self::Error>)
        ensures
            old(self).converts(input, output),
    ;
}

/// A check on responses that lets a response through unchanged or rejects it.
pub trait Filter<Input> {
    /// Type returned when the input is rejected.
    type Error;

    /// Whether `output` is the verdict of this filter on `input`. A filter that does not say
    /// promises nothing.
    open spec fn filters(&self, input: Input, output: Result<Input, Self::Error>) -> bool {
        true
    }

    /// Lets the input through unchanged or rejects it.
    fn filter(&mut self, input: Input) -> (output: Result<Input, Self::Error>)
        ensures
            old(self).filters(input, output),
    ;
}

/// Makes, for each request, the filter that will check the response to it.
pub trait CreateResponseFilter<Request, Response> {
    /// Type of the filters made.
    type Filter: Filter<Response, Error = Self::Error>;

    /// Type returned when a filter rejects a response.
    type Error;

    /// Whether a response to `request` is expected at all, so that a filter can be made.
    /// A maker of filters that does not say makes one for every request.
    open spec fn can_create(&self, request: &Request) -> bool {
        true
    }

    /// Whether `filter` is the filter this makes for `request`. A maker of filters that
    /// does not say promises nothing.
    open spec fn creates(&self, request: &Request, filter: Self::Filter) -> bool {
        true
    }

    /// Makes the filter for the response to the given request.
    fn create_filter(&self, request: &Request) -> (filter: Self::Filter)
        requires
            self.can_create(request),
        ensures
            self.creates(request, filter),
    ;
}

/// What two converters make of an input when the second runs on what the first produced:
/// the failure of the first, or else the outcome of the second.
pub open spec fn converts_in_sequence<Input, A, B>(
    first: A,
    second: B,
    input: Input,
    output: Result<B::Output, A::Error>,
) -> bool where A: Convert<Input>, B: Convert<A::Output, Error = A::Error> {
    exists|middle: Result<A::Output, A::Error>| #[trigger]
        first.converts(input, middle) && match middle {
            Ok(value) => second.converts(value, output),
            Err(error) => output == Err::<B::Output, A::Error>(error),
        }
}

/// Two converters run one after the other: the second one converts what the first one
/// produced, and a failure of the first one ends the conversion.
#[derive(Debug, Clone)]
pub struct Then<A, B> {
    /// Converter that runs first.
    pub first: A,
    /// Converter that runs on what the first one produced.
    pub second: B,
}

impl<A, B> Then<A, B> {
    /// Combines two converters into one.
    pub fn new(first: A, second: B) -> (both: Self)
        ensures
            both.first == first,
            both.second == second,
    {
        Then { first, second }
    }
}

impl<Input, A, B> Convert<Input> for Then<A, B> where
    A: Convert<Input>,
    B: Convert<A::Output, Error = A::Error>,
 {
    type Output = B::Output;

    type Error = A::Error;

    open spec fn converts(&self, input: Input, output: Result<B::Output, A::Error>) -> bool {
        converts_in_sequence(self.first, self.second, input, output)
    }

    fn try_convert(&mut self, input: Input) -> (output: Result<B::Output, A::Error>) {
        match self.first.try_convert(input) {
            Ok(value) => self.second.try_convert(value),
            Err(error) => Err(error),
        }
    }
}

/// Composition of converters is associative: three converters run in sequence make the same
/// of every input, whichever two of them are combined first.
pub proof fn lemma_composition_is_associative<Input, A, B, C>(
    a: A,
    b: B,
    c: C,
    input: Input,
    output: Result<C::Output, A::Error>,
) where
    A: Convert<Input>,
    B: Convert<A::Output, Error = A::Error>,
    C: Convert<B::Output, Error = A::Error>,

    ensures
        (Then { first: Then { first: a, second: b }, second: c }).converts(input, output) == (Then {
            first: a,
            second: Then { first: b, second: c },
        }).converts(input, output),
{
    let left = Then { first: Then { first: a, second: b }, second: c };
    let right = Then { first: a, second: Then { first: b, second: c } };
    if left.converts(input, output) {
        // What `a` makes of the input, and then `b` and `c` of that, is a run of `right`.
        let middle = sequence_witness(left.first, c, input, output);
        let early = sequence_witness(a, b, input, middle);
    }
    if right.converts(input, output) {
        // What `a` and then `b` make of the input is a run of the first half of `left`.
        let early = sequence_witness(a, right.second, input, output);
        match early {
            Ok(value) => {
                let middle = sequence_witness(b, c, value, output);
                assert(left.first.converts(input, middle));
            },
            Err(error) => {
                assert(left.first.converts(input, Err::<B::Output, A::Error>(error)));
            },
        }
    }
}

/// Something that answers requests: the call primitive a pipeline ends in, or a pipeline
/// assembled around one.
pub trait Service<Request> {
    /// Type of the answers.
    type Response;

    /// Type returned when the call fails.
    type Error;

    /// Whether the service can be called with `request`. A service that does not say can
    /// be called with every request.
    open spec fn accepts(&self, request: Request) -> bool {
        true
    }

    /// Whether `outcome` is a possible outcome of calling this service with `request`.
    /// A service that does not say promises nothing.
    open spec fn responds(&self, request: Request, outcome: Result<Self::Response, Self::Error>) -> bool {
        true
    }

    /// Calls the service.
    fn call(&mut self, request: Request) -> (outcome: Result<Self::Response, Self::Error>)
        requires
            old(self).accepts(request),
        ensures
            old(self).responds(request, outcome),
    ;
}

/// A service made of a function: calling the service calls the function.
#[derive(Debug, Clone)]
pub struct ServiceFn<F> {
    f: F,
}

impl<F> ServiceFn<F> {
    /// The function that answers the requests.
    pub closed spec fn function(&self) -> F {
        self.f
    }
}

/// Makes a service of a function.
pub fn service_fn<F>(f: F) -> (service: ServiceFn<F>)
    ensures
        service.function() == f,
{
    ServiceFn { f }
}

impl<Request, Response, Error, F> Service<Request> for ServiceFn<F> where
    F: Fn(Request) -> Result<Response, Error>,
 {
    type Response = Response;

    type Error = Error;

    open spec fn accepts(&self, request: Request) -> bool {
        call_requires(self.function(), (request,))
    }

    open spec fn responds(&self, request: Request, outcome: Result<Response, Error>) -> bool {
        call_ensures(self.function(), (request,), outcome)
    }

    fn call(&mut self, request: Request) -> (outcome: Result<Response, Error>)
        ensures
            *final(self) == *old(self),
    {
        (self.f)(request)
    }
}

/// A service whose requests are converted before they reach the inner service. A request
/// that cannot be converted never reaches the inner service.
#[derive(Debug, Clone)]
pub struct ConvertRequest<S, C> {
    /// The service that receives the converted requests.
    pub inner: S,
    /// The converter of requests.
    pub converter: C,
}

/// A service whose responses are converted on the way back. A failure of the inner service
/// is handed on as it is, and the converter does not run.
#[derive(Debug, Clone)]
pub struct ConvertResponse<S, C> {
    /// The service that answers the requests.
    pub inner: S,
    /// The converter of responses.
    pub converter: C,
}

/// A service whose responses pass a filter that is made for each request before the inner
/// service is called. A failure of the inner service is handed on as it is.
#[derive(Debug, Clone)]
pub struct FilterResponse<S, F> {
    /// The service that answers the requests.
    pub inner: S,
    /// Makes the filter for each request.
    pub create_filter: F,
}

impl<S, C> ConvertRequest<S, C> {
    /// Puts a converter of requests in front of a service.
    pub fn new(inner: S, converter: C) -> (service: Self)
        ensures
            service.inner == inner,
            service.converter == converter,
    {
        ConvertRequest { inner, converter }
    }
}

impl<S, C> ConvertResponse<S, C> {
    /// Puts a converter of responses behind a service.
    pub fn new(inner: S, converter: C) -> (service: Self)
        ensures
            service.inner == inner,
            service.converter == converter,
    {
        ConvertResponse { inner, converter }
    }
}

impl<S, F> FilterResponse<S, F> {
    /// Puts a filter of responses behind a service.
    pub fn new(inner: S, create_filter: F) -> (service: Self)
        ensures
            service.inner == inner,
            service.create_filter == create_filter,
    {
        FilterResponse { inner, create_filter }
    }
}

impl<Request, S, C> Service<Request> for ConvertRequest<S, C> where
    C: Convert<Request>,
    S: Service<C::Output, Error = C::Error>,
 {
    type Response = S::Response;

    type Error = C::Error;

    open spec fn accepts(&self, request: Request) -> bool {
        forall|converted: C::Output| #[trigger]
            self.converter.converts(request, Ok::<C::Output, C::Error>(converted))
                ==> self.inner.accepts(converted)
    }

    open spec fn responds(&self, request: Request, outcome: Result<S::Response, C::Error>) -> bool {
        exists|converted: Result<C::Output, C::Error>| #[trigger]
            self.converter.converts(request, converted) && match converted {
                Ok(inner_request) => self.inner.responds(inner_request, outcome),
                Err(error) => outcome == Err::<S::Response, C::Error>(error),
            }
    }

    fn call(&mut self, request: Request) -> (outcome: Result<S::Response, C::Error>)
        ensures
            (forall|converted: C::Output|
                !old(self).converter.converts(request, Ok::<C::Output, C::Error>(converted)))
                ==> final(self).inner == old(self).inner,
    {
        match self.converter.try_convert(request) {
            Ok(inner_request) => self.inner.call(inner_request),
            Err(error) => Err(error),
        }
    }
}

impl<Request, S, C> Service<Request> for ConvertResponse<S, C> where
    S: Service<Request>,
    C: Convert<S::Response, Error = S::Error>,
 {
    type Response = C::Output;

    type Error = S::Error;

    open spec fn accepts(&self, request: Request) -> bool {
        self.inner.accepts(request)
    }

    open spec fn responds(&self, request: Request, outcome: Result<C::Output, S::Error>) -> bool {
        exists|answer: Result<S::Response, S::Error>| #[trigger]
            self.inner.responds(request, answer) && match answer {
                Ok(response) => self.converter.converts(response, outcome),
                Err(error) => outcome == Err::<C::Output, S::Error>(error),
            }
    }

    fn call(&mut self, request: Request) -> (outcome: Result<C::Output, S::Error>)
        ensures
            (forall|response: S::Response|
                !old(self).inner.responds(request, Ok::<S::Response, S::Error>(response)))
                ==> final(self).converter == old(self).converter,
    {
        match self.inner.call(request) {
            Ok(response) => self.converter.try_convert(response),
            Err(error) => Err(error),
        }
    }
}

impl<Request, S, F> Service<Request> for FilterResponse<S, F> where
    S: Service<Request>,
    F: CreateResponseFilter<Request, S::Response, Error = S::Error>,
 {
    type Response = S::Response;

    type Error = S::Error;

    open spec fn accepts(&self, request: Request) -> bool {
        self.create_filter.can_create(&request) && self.inner.accepts(request)
    }

    open spec fn responds(&self, request: Request, outcome: Result<S::Response, S::Error>) -> bool {
        exists|filter: F::Filter, answer: Result<S::Response, S::Error>|
            #![trigger self.create_filter.creates(&request, filter), self.inner.responds(request, answer)]
            self.create_filter.creates(&request, filter) && self.inner.responds(request, answer)
                && match answer {
                Ok(response) => filter.filters(response, outcome),
                Err(error) => outcome == Err::<S::Response, S::Error>(error),
            }
    }

    fn call(&mut self, request: Request) -> (outcome: Result<S::Response, S::Error>) {
        let mut filter = self.create_filter.create_filter(&request);
        match self.inner.call(request) {
            Ok(response) => filter.filter(response),
            Err(error) => Err(error),
        }
    }
}

/// A stage whose errors are converted into the error type `E` of the pipeline it is part
/// of. The stage can be a converter, a filter, a maker of filters or a service.
pub struct ConvertError<T, E> {
    inner: T,
    _marker: PhantomData<E>,
}

/// Whether `outcome` is `result` with its error, if it is one, converted into `E`.
pub open spec fn is_converted_error<T, Error, E: From<Error>>(
    result: Result<T, Error>,
    outcome: Result<T, E>,
) -> bool {
    match result {
        Ok(value) => outcome == Ok::<T, E>(value),
        Err(error) => outcome matches Err(converted) && call_ensures(E::from, (error,), converted),
    }
}

impl<T, E> ConvertError<T, E> {
    /// The stage whose errors are converted.
    pub closed spec fn inner(&self) -> T {
        self.inner
    }

    /// Wraps a stage so that its errors are converted into `E`.
    pub fn new(inner: T) -> (stage: Self)
        ensures
            stage.inner() == inner,
    {
        ConvertError { inner, _marker: PhantomData }
    }

    /// Gives the stage back.
    pub fn into_inner(self) -> (inner: T)
        ensures
            inner == self.inner(),
    {
        self.inner
    }
}

/// Converts the error of a result into `E`.
fn convert_error<T, Error, E: From<Error>>(result: Result<T, Error>) -> (outcome: Result<T, E>)
    ensures
        is_converted_error(result, outcome),
{
    match result {
        Ok(value) => Ok(value),
        Err(error) => Err(E::from(error)),
    }
}

impl<Input, C, E> Convert<Input> for ConvertError<C, E> where C: Convert<Input>, E: From<C::Error> {
    type Output = C::Output;

    type Error = E;

    open spec fn converts(&self, input: Input, output: Result<C::Output, E>) -> bool {
        exists|result: Result<C::Output, C::Error>| #[trigger]
            self.inner().converts(input, result) && is_converted_error(result, output)
    }

    fn try_convert(&mut self, input: Input) -> (output: Result<C::Output, E>) {
        let ghost before = *self;
        let result = self.inner.try_convert(input);
        let output = convert_error(result);
        assert(before.inner().converts(input, result));
        output
    }
}

impl<Input, F, E> Filter<Input> for ConvertError<F, E> where F: Filter<Input>, E: From<F::Error> {
    type Error = E;

    open spec fn filters(&self, input: Input, output: Result<Input, E>) -> bool {
        exists|result: Result<Input, F::Error>| #[trigger]
            self.inner().filters(input, result) && is_converted_error(result, output)
    }

    fn filter(&mut self, input: Input) -> (output: Result<Input, E>) {
        let ghost before = *self;
        let result = self.inner.filter(input);
        let output = convert_error(result);
        assert(before.inner().filters(input, result));
        output
    }
}

impl<Request, Response, F, E> CreateResponseFilter<Request, Response> for ConvertError<F, E> where
    F: CreateResponseFilter<Request, Response>,
    E: From<F::Error>,
 {
    type Filter = ConvertError<F::Filter, E>;

    type Error = E;

    open spec fn can_create(&self, request: &Request) -> bool {
        self.inner().can_create(request)
    }

    open spec fn creates(&self, request: &Request, filter: ConvertError<F::Filter, E>) -> bool {
        self.inner().creates(request, filter.inner())
    }

    fn create_filter(&self, request: &Request) -> (filter: ConvertError<F::Filter, E>) {
        ConvertError::new(self.inner.create_filter(request))
    }
}

impl<Request, S, E> Service<Request> for ConvertError<S, E> where
    S: Service<Request>,
    E: From<S::Error>,
 {
    type Response = S::Response;

    type Error = E;

    open spec fn accepts(&self, request: Request) -> bool {
        self.inner().accepts(request)
    }

    open spec fn responds(&self, request: Request, outcome: Result<S::Response, E>) -> bool {
        exists|result: Result<S::Response, S::Error>| #[trigger]
            self.inner().responds(request, result) && is_converted_error(result, outcome)
    }

    fn call(&mut self, request: Request) -> (outcome: Result<S::Response, E>) {
        convert_error(self.inner.call(request))
    }
}

/// Gives an outcome of the first of two converters from which the second one reaches
/// `output`.
proof fn sequence_witness<Input, A, B>(
    first: A,
    second: B,
    input: Input,
    output: Result<B::Output, A::Error>,
) -> (middle: Result<A::Output, A::Error>) where
    A: Convert<Input>,
    B: Convert<A::Output, Error = A::Error>,

    requires
        converts_in_sequence(first, second, input, output),
    ensures
        first.converts(input, middle),
        match middle {
            Ok(value) => second.converts(value, output),
            Err(error) => output == Err::<B::Output, A::Error>(error),
        },
{
    choose|middle: Result<A::Output, A::Error>| #[trigger]
        first.converts(input, middle) && match middle {
            Ok(value) => second.converts(value, output),
            Err(error) => output == Err::<B::Output, A::Error>(error),
        }
}

/// Gives a conversion of the request from which the inner service reaches `outcome`.
proof fn converted_request_witness<Request, S, C>(
    service: ConvertRequest<S, C>,
    request: Request,
    outcome: Result<S::Response, C::Error>,
) -> (converted: Result<C::Output, C::Error>) where
    C: Convert<Request>,
    S: Service<C::Output, Error = C::Error>,

    requires
        service.responds(request, outcome),
    ensures
        service.converter.converts(request, converted),
        match converted {
            Ok(inner_request) => service.inner.responds(inner_request, outcome),
            Err(error) => outcome == Err::<S::Response, C::Error>(error),
        },
{
    choose|converted: Result<C::Output, C::Error>| #[trigger]
        service.converter.converts(request, converted) && match converted {
            Ok(inner_request) => service.inner.responds(inner_request, outcome),
            Err(error) => outcome == Err::<S::Response, C::Error>(error),
        }
}

/// Gives an answer of the inner service from which the converter reaches `outcome`.
proof fn converted_response_witness<Request, S, C>(
    service: ConvertResponse<S, C>,
    request: Request,
    outcome: Result<C::Output, S::Error>,
) -> (answer: Result<S::Response, S::Error>) where
    S: Service<Request>,
    C: Convert<S::Response, Error = S::Error>,

    requires
        service.responds(request, outcome),
    ensures
        service.inner.responds(request, answer),
        match answer {
            Ok(response) => service.converter.converts(response, outcome),
            Err(error) => outcome == Err::<C::Output, S::Error>(error),
        },
{
    choose|answer: Result<S::Response, S::Error>| #[trigger]
        service.inner.responds(request, answer) && match answer {
            Ok(response) => service.converter.converts(response, outcome),
            Err(error) => outcome == Err::<C::Output, S::Error>(error),
        }
}

/// Putting two converters of requests in front of a service one after the other gives the
/// same outcomes as putting their composition in front of it.
pub proof fn lemma_request_layers_compose<Request, S, A, B>(
    service: S,
    a: A,
    b: B,
    request: Request,
    outcome: Result<S::Response, A::Error>,
) where
    A: Convert<Request>,
    B: Convert<A::Output, Error = A::Error>,
    S: Service<B::Output, Error = A::Error>,

    ensures
        (ConvertRequest {
            inner: ConvertRequest { inner: service, converter: b },
            converter: a,
        }).responds(request, outcome) == (ConvertRequest {
            inner: service,
            converter: Then { first: a, second: b },
        }).responds(request, outcome),
{
    let inner = ConvertRequest { inner: service, converter: b };
    let nested = ConvertRequest { inner, converter: a };
    let both = Then { first: a, second: b };
    let combined = ConvertRequest { inner: service, converter: both };
    if nested.responds(request, outcome) {
        let early = converted_request_witness(nested, request, outcome);
        match early {
            Ok(value) => {
                let late = converted_request_witness(inner, value, outcome);
                assert(combined.converter.converts(request, late));
            },
            Err(error) => {
                let late = Err::<B::Output, A::Error>(error);
                assert(combined.converter.converts(request, late));
            },
        }
    }
    if combined.responds(request, outcome) {
        let late = converted_request_witness(combined, request, outcome);
        let early = sequence_witness(a, b, request, late);
        if let Ok(value) = early {
            assert(inner.converter.converts(value, late));
        }
        assert(nested.converter.converts(request, early));
    }
}

/// Putting two converters of responses behind a service one after the other gives the same
/// outcomes as putting their composition behind it.
pub proof fn lemma_response_layers_compose<Request, S, A, B>(
    service: S,
    a: A,
    b: B,
    request: Request,
    outcome: Result<B::Output, S::Error>,
) where
    S: Service<Request>,
    A: Convert<S::Response, Error = S::Error>,
    B: Convert<A::Output, Error = S::Error>,

    ensures
        (ConvertResponse {
            inner: ConvertResponse { inner: service, converter: a },
            converter: b,
        }).responds(request, outcome) == (ConvertResponse {
            inner: service,
            converter: Then { first: a, second: b },
        }).responds(request, outcome),
{
    let inner = ConvertResponse { inner: service, converter: a };
    let nested = ConvertResponse { inner, converter: b };
    let both = Then { first: a, second: b };
    let combined = ConvertResponse { inner: service, converter: both };
    if nested.responds(request, outcome) {
        let middle = converted_response_witness(nested, request, outcome);
        let answer = converted_response_witness(inner, request, middle);
        assert(combined.inner.responds(request, answer));
    }
    if combined.responds(request, outcome) {
        let answer = converted_response_witness(combined, request, outcome);
        match answer {
            Ok(response) => {
                let middle = sequence_witness(a, b, response, outcome);
                assert(inner.inner.responds(request, answer));
                assert(nested.inner.responds(request, middle));
            },
            Err(error) => {
                let middle = Err::<A::Output, S::Error>(error);
                assert(inner.inner.responds(request, answer));
                assert(nested.inner.responds(request, middle));
            },
        }
    }
}

} // verus!
