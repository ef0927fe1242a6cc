use vstd::prelude::*;

verus! {

/// Where a client stands in its life: it moves only forward,
/// from `Active` through `ShuttingDown` to `Closed`.
#[derive(Debug, Clone, Copy, PartialEq, Eq, Structural)]
pub enum ShutdownState {
    Active,
    ShuttingDown,
    Closed,
}

/// Position of a state along the lifecycle.
pub open spec fn stage(s: ShutdownState) -> nat {
    match s {
        ShutdownState::Active => 0,
        ShutdownState::ShuttingDown => 1,
        ShutdownState::Closed => 2,
    }
}

/// A move from `a` to `b` never goes back.
pub open spec fn moves_forward(a: ShutdownState, b: ShutdownState) -> bool {
    stage(a) <= stage(b)
}

/// Closed is final: whatever moves forward from a closed state is still
/// closed, so a client that has been shut down rejects every later operation.
pub proof fn lemma_closed_is_final(before: ShutdownState, after: ShutdownState)
    requires
        before == ShutdownState::Closed,
        moves_forward(before, after),
    ensures
        after == ShutdownState::Closed,
{
}

/// Requesting a shutdown twice is the same as requesting it once.
pub proof fn lemma_begin_shutdown_idempotent(s: ShutdownState)
    ensures
        begin_shutdown_spec(begin_shutdown_spec(s)) == begin_shutdown_spec(s),
{
}

/// The state after a shutdown has been requested from `s`.
pub open spec fn begin_shutdown_spec(s: ShutdownState) -> ShutdownState {
    match s {
        ShutdownState::Active => ShutdownState::ShuttingDown,
        other => other,
    }
}

impl ShutdownState {
    /// Whether new operations are accepted.
    pub fn is_active(&self) -> (r: bool)
        ensures
            r == (*self == ShutdownState::Active),
    {
        match self {
            ShutdownState::Active => true,
            _ => false,
        }
    }

    /// Whether the client has finished shutting down.
    pub fn is_closed(&self) -> (r: bool)
        ensures
            r == (*self == ShutdownState::Closed),
    {
        match self {
            ShutdownState::Closed => true,
            _ => false,
        }
    }

    /// The state after a shutdown has been requested: an active client
    /// starts shutting down; a later state stays as it is.
    pub fn begin_shutdown(self) -> (r: ShutdownState)
        ensures
            r == begin_shutdown_spec(self),
            moves_forward(self, r),
    {
        match self {
            ShutdownState::Active => ShutdownState::ShuttingDown,
            other => other,
        }
    }
}

} // verus!
