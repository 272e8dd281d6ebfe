use vstd::prelude::*;

verus! {

/// What kind of filesystem failure occurred, as far as the lifecycle logic cares.
#[derive(Debug, Clone, Copy, PartialEq, Eq, Structural)]
pub enum IoKind {
    /// The path did not exist (anymore).
    NotFound,
    /// Any other failure: permission denied, handle in use, ...
    Other,
}

/// A filesystem failure with its cause kept for diagnostics.
#[derive(Debug)]
pub struct IoFault {
    pub kind: IoKind,
    pub detail: String,
}

impl IoFault {
    /// A copy of this failure.
    pub fn duplicate(&self) -> (r: IoFault)
        ensures
            r == *self,
    {
        IoFault { kind: self.kind, detail: self.detail.clone() }
    }
}

/// The error of every lifecycle operation.
#[derive(Debug)]
pub enum ServerError {
    /// The container runtime call failed; holds the runtime's own message.
    Docker(String),
    /// The container runtime answered with a payload of an unexpected shape.
    MalformedResponse,
    /// The control-plane call failed; holds its message.
    RemoteApi(String),
    /// A filesystem operation failed.
    Io(IoFault),
    /// The operation cannot be performed at this moment (the server is busy,
    /// or its state does not admit the operation).
    Conflict,
}

impl ServerError {
    pub fn is_conflict(&self) -> (r: bool)
        ensures
            r == (*self is Conflict),
    {
        match self {
            ServerError::Conflict => true,
            _ => false,
        }
    }
}

impl From<IoFault> for ServerError {
    fn from(e: IoFault) -> (r: ServerError)
        ensures
            r == ServerError::Io(e),
    {
        ServerError::Io(e)
    }
}

impl vstd::std_specs::convert::FromSpecImpl<IoFault> for ServerError {
    open spec fn obeys_from_spec() -> bool {
        true
    }

    open spec fn from_spec(e: IoFault) -> ServerError {
        ServerError::Io(e)
    }
}

} // verus!
