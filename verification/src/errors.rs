use vstd::prelude::*;

verus! {

/// An error the network stack reports from a poll step or a socket operation.
#[derive(Clone, Copy, Debug, PartialEq, Eq, Structural)]
pub enum StackError {
    /// The operation is not permitted in the socket's current state, for
    /// example a receive after the connection has closed.
    Illegal,
    /// The endpoint handed to a connect call cannot be addressed.
    Unaddressable,
    /// The supplied client configuration was rejected.
    Config,
}

/// The transport error the blocking adapter hands its caller. Stack-level
/// detail is kept only as a single wrapped kind.
#[derive(Clone, Copy, Debug, PartialEq, Eq, Structural)]
pub enum IoError {
    /// An unspecified stack error surfaced by a poll step or socket operation.
    Other(StackError),
    /// A wait loop exhausted its poll budget before the socket made progress.
    TimedOut,
}

/// The coarse classification of an adapter error.
#[derive(Clone, Copy, Debug, PartialEq, Eq, Structural)]
pub enum IoErrorKind {
    Other,
    TimedOut,
}

impl IoError {
    /// The kind of this error.
    pub fn kind(&self) -> (k: IoErrorKind)
        ensures
            k == (match *self {
                IoError::Other(_) => IoErrorKind::Other,
                IoError::TimedOut => IoErrorKind::TimedOut,
            }),
    {
        match *self {
            IoError::Other(_) => IoErrorKind::Other,
            IoError::TimedOut => IoErrorKind::TimedOut,
        }
    }
}

/// A failure during link bring-up or socket acquisition. Each of these points
/// at a static misconfiguration or a dead link, so callers treat them as
/// fatal.
#[derive(Clone, Copy, Debug, PartialEq, Eq, Structural)]
pub enum SetupError {
    /// The radio rejected the client configuration.
    BadConfig,
    /// The stack's socket pool had no socket left.
    PoolEmpty,
    /// The connect call rejected the endpoint synchronously.
    BadEndpoint,
    /// A status wait exhausted its poll budget.
    TimedOut,
    /// A poll step reported a lower-level link error.
    Link(StackError),
}

} // verus!
