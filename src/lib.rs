//! Typed HTTP API clients driven by endpoint descriptors.
//!
//! A client implements [`Api`]: it owns a transport handle and may override
//! two hooks, one on the outgoing request draft and one on the incoming
//! response. The pipeline builds a draft, runs the hooks, attaches the body,
//! and decodes the effective response; the network exchange itself is left
//! to the transport.

pub mod decode;
pub mod endpoint;
pub mod http;
pub mod pipeline;

pub use decode::{Output, ResultKind};
pub use endpoint::{BodyKind, Declaration, DeclError, Endpoint, Param, Segment};
pub use http::{Draft, Header, Method, Payload, Response};
pub use pipeline::{Api, ApiError, BasicClient, Body};
