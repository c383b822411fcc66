//! Messages exchanged between a controller and one agent.

use vstd::prelude::*;

verus! {

/// Identifier of a resource (poller or background process) inside one agent.
/// `0` is never handed out: the first identifier of a session is `1`.
#[derive(Clone, Copy, Debug, PartialEq, Eq, Hash, Structural)]
pub struct Id(pub u32);

impl Id {
    pub open spec fn spec_value(self) -> nat {
        self.0 as nat
    }

    pub fn new(value: u32) -> (r: Id)
        ensures
            r.0 == value,
    {
        Id(value)
    }

    pub fn value(&self) -> (r: u32)
        ensures
            r == self.0,
    {
        self.0
    }
}

impl From<u32> for Id {
    fn from(value: u32) -> (r: Id) {
        Id(value)
    }
}

impl vstd::std_specs::convert::FromSpecImpl<u32> for Id {
    open spec fn obeys_from_spec() -> bool {
        true
    }

    open spec fn from_spec(v: u32) -> Id {
        Id(v)
    }
}

/// How a spawned process is torn down.
#[derive(Clone, Copy, Debug, PartialEq, Eq, Structural)]
pub enum SpawnMode {
    /// Runs to completion while the spawn request is handled.
    Foreground,
    /// Waited for on stop; signalled only when the session aborts.
    BackgroundWait,
    /// Signalled, then waited for, on stop.
    BackgroundKill,
}

/// Request from a controller to an agent.
#[derive(Clone, Debug, PartialEq, Eq)]
pub enum Request {
    Poll { pattern: String },
    Spawn { cmd: String, args: Vec<String>, mode: SpawnMode },
    LookupPaths { pattern: String },
    Stop { id: Id },
    StopAll,
    Collect,
    End,
    Abort,
}

impl Request {
    /// `End` and `Abort` close the session and get no response.
    pub open spec fn spec_is_terminal(&self) -> bool {
        self is End || self is Abort
    }

    pub fn is_terminal(&self) -> (r: bool)
        ensures
            r == self.spec_is_terminal(),
    {
        match self {
            Request::End | Request::Abort => true,
            _ => false,
        }
    }
}

/// What a foreground process left: its identifier and captured output.
#[derive(Clone, Debug, PartialEq, Eq)]
pub struct ForegroundOutput {
    pub id: Id,
    pub stdout: Vec<u8>,
    pub stderr: Vec<u8>,
}

/// Agent's answer to one non-terminal request.
#[derive(Debug, PartialEq, Eq)]
pub enum Response {
    Poll(Result<Id, String>),
    SpawnFg(Result<ForegroundOutput, String>),
    SpawnBg(Result<Id, String>),
    LookupPaths(Result<Vec<String>, String>),
    Stop(Result<Id, String>),
    StopAll(Result<(), String>),
    Collect(Result<Vec<u8>, String>),
}

} // verus!
