//! A metrics-export client: it serializes an in-memory batch of collected
//! metrics into a wire payload, hands the payload to an injectable HTTP
//! transport, classifies the response, and manages the active/shut-down
//! lifecycle of the transport so that exports after shutdown fail fast.

use vstd::prelude::*;

pub mod decimal;
pub mod encode;
pub mod errors;
pub mod exporter;
pub mod request;
pub mod response;

verus! {

/// The wire formats the payload encoder can be configured with.
#[derive(Clone, Copy, PartialEq, Eq, Structural, Debug)]
pub enum WireFormat {
    /// Binary protocol-buffer encoding carried over HTTP.
    HttpProtobuf,
}

} // verus!
