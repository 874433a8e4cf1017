//! Serves two request handlers behind one service: each request goes to the
//! RPC handler when its `content-type` is exactly `application/grpc` and to the
//! web handler otherwise. The library holds the decisions of that adapter:
//! routing, readiness aggregation, resolution of a response in flight, and the
//! forwarding of body reads with branch-tagged errors.
use vstd::prelude::*;

pub mod body;
pub mod pending;
pub mod poll;
pub mod readiness;
pub mod routing;
pub mod service;

pub use body::{
    forward_rpc_chunk, forward_rpc_trailers, forward_web_chunk, forward_web_trailers, HybridBody,
};
pub use pending::PendingResponse;
pub use poll::{HybridError, Progress};
pub use readiness::{after_rpc_ready, after_web_ready, ReadyStep, Readiness};
pub use routing::{route, Route};
pub use service::{hybrid, on_web_handler, HybridMakeService, HybridService, PendingDispatcher};
