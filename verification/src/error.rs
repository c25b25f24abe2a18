use vstd::prelude::*;

verus! {

/// Failure surfaced to the caller of an operation on an endpoint.
#[derive(Clone, Copy, Debug, PartialEq, Eq, Structural)]
pub enum GatewayError {
    /// A write was attempted after the endpoint had been closed.
    ClosedEndpoint,
}

} // verus!
