//! Verified core of a request/response pipeline for HTTPS outcalls that are paid for in
//! cycles.
//!
//! A pipeline is assembled from stages around a transport: converters of requests and of
//! responses, filters of responses, and hooks ([`convert`], [`observability`]). The stages
//! this library provides turn structured HTTP requests into arguments of the transport and
//! back ([`http`]), write and read JSON and JSON-RPC, single and in batches, and check that
//! each response carries the identifier of the request it answers ([`http::json`]), compute
//! what an outcall costs and charge for it ([`cycles`]), and retry an outcall whose response
//! was too large ([`retry`]). [`client`] holds the shapes and errors of the transport,
//! [`error`] one error type for a whole pipeline, and [`runtime`] the decisions of the
//! runtimes through which canisters are called in tests.
//!
//! The transport call itself, which has to wait for the network, and the cycles of the
//! message being handled belong to the platform; they reach the library as plain values.

pub mod client;
pub mod convert;
pub mod cycles;
pub mod error;
pub mod http;
pub mod observability;
pub mod retry;
pub mod runtime;
