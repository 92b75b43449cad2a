//! Verified core of a portal-mediated screen-capture client.
//!
//! The library models the request/response correlation protocol, the
//! portal session handshake, the capture-pipeline configuration and
//! worker decisions, and the bounded frame channel that bridges the
//! media thread to a cooperative consumer.

use vstd::prelude::*;

pub mod channel;
pub mod correlator;
pub mod pipeline;
pub mod protocol;
pub mod session;
pub mod token;

verus! {

/// A zero-sized token standing for the single-threaded drawing context
/// of the presentation shell; all of its drawing operations live
/// outside this library.
pub struct RContext {
    _private: (),
}

impl RContext {
    pub fn new() -> (r: RContext) {
        RContext { _private: () }
    }
}

} // verus!
