use vstd::prelude::*;

verus! {

/// Errors returned by client operations.
#[derive(Debug, Clone, Copy, PartialEq, Eq, Structural)]
pub enum Error {
    /// The client has been shut down; no further work is accepted.
    ClientClosed,
    /// The connection string is not of the accepted shape.
    InvalidUri,
    /// The client options name no host to connect to.
    InvalidArgument,
    /// The resource handle does not belong to a live resource of this client.
    UnknownHandle,
    /// No identifier is left for a new resource handle.
    IdsExhausted,
}

} // verus!
