//! The controller's side of one agent connection: strict request-reply.
//! At most one request is outstanding, terminal requests get no reply and
//! close the exchange, and a reply must be of the kind its request calls
//! for.

use vstd::prelude::*;

use crate::protocol::{Request, Response, SpawnMode};

verus! {

/// The kind of reply a request calls for.
#[derive(Clone, Copy, Debug, PartialEq, Eq, Structural)]
pub enum ReplyKind {
    Poll,
    SpawnFg,
    SpawnBg,
    LookupPaths,
    Stop,
    StopAll,
    Collect,
}

/// The reply kind `req` calls for; `None` for `End` and `Abort`.
pub open spec fn reply_kind_of(req: Request) -> Option<ReplyKind> {
    match req {
        Request::Poll { .. } => Some(ReplyKind::Poll),
        Request::Spawn { mode, .. } => if mode == SpawnMode::Foreground {
            Some(ReplyKind::SpawnFg)
        } else {
            Some(ReplyKind::SpawnBg)
        },
        Request::LookupPaths { .. } => Some(ReplyKind::LookupPaths),
        Request::Stop { .. } => Some(ReplyKind::Stop),
        Request::StopAll => Some(ReplyKind::StopAll),
        Request::Collect => Some(ReplyKind::Collect),
        Request::End | Request::Abort => None,
    }
}

pub open spec fn kind_of_response(resp: Response) -> ReplyKind {
    match resp {
        Response::Poll(_) => ReplyKind::Poll,
        Response::SpawnFg(_) => ReplyKind::SpawnFg,
        Response::SpawnBg(_) => ReplyKind::SpawnBg,
        Response::LookupPaths(_) => ReplyKind::LookupPaths,
        Response::Stop(_) => ReplyKind::Stop,
        Response::StopAll(_) => ReplyKind::StopAll,
        Response::Collect(_) => ReplyKind::Collect,
    }
}

pub fn reply_kind(req: &Request) -> (r: Option<ReplyKind>)
    ensures
        r == reply_kind_of(*req),
{
    match req {
        Request::Poll { .. } => Some(ReplyKind::Poll),
        Request::Spawn { mode, .. } => match mode {
            SpawnMode::Foreground => Some(ReplyKind::SpawnFg),
            _ => Some(ReplyKind::SpawnBg),
        },
        Request::LookupPaths { .. } => Some(ReplyKind::LookupPaths),
        Request::Stop { .. } => Some(ReplyKind::Stop),
        Request::StopAll => Some(ReplyKind::StopAll),
        Request::Collect => Some(ReplyKind::Collect),
        Request::End | Request::Abort => None,
    }
}

pub fn response_kind(resp: &Response) -> (r: ReplyKind)
    ensures
        r == kind_of_response(*resp),
{
    match resp {
        Response::Poll(_) => ReplyKind::Poll,
        Response::SpawnFg(_) => ReplyKind::SpawnFg,
        Response::SpawnBg(_) => ReplyKind::SpawnBg,
        Response::LookupPaths(_) => ReplyKind::LookupPaths,
        Response::Stop(_) => ReplyKind::Stop,
        Response::StopAll(_) => ReplyKind::StopAll,
        Response::Collect(_) => ReplyKind::Collect,
    }
}

/// Reads the reply to `StopAll`: success only for `StopAll(Ok(()))`; the
/// agent's failure message is passed on, and a reply of another kind is a
/// protocol violation.
pub fn stop_all_done(resp: Response) -> (r: Result<(), String>)
    ensures
        r is Ok <==> match resp {
            Response::StopAll(Ok(_)) => true,
            _ => false,
        },
        match resp {
            Response::StopAll(Err(e)) => r == Err::<(), String>(e),
            _ => true,
        },
{
    match resp {
        Response::StopAll(Ok(())) => Ok(()),
        Response::StopAll(Err(e)) => Err(e),
        _ => Err(String::from_str("protocol violation: unexpected reply to StopAll")),
    }
}

/// Reads the reply to `Collect`: the archive bytes, the agent's failure
/// message, or a protocol violation for a reply of another kind.
pub fn collect_done(resp: Response) -> (r: Result<Vec<u8>, String>)
    ensures
        match resp {
            Response::Collect(res) => r == res,
            _ => r is Err,
        },
{
    match resp {
        Response::Collect(res) => res,
        _ => Err(String::from_str("protocol violation: unexpected reply to Collect")),
    }
}

/// The request-reply state of one connection.
pub struct Exchange {
    pending: Option<ReplyKind>,
    closed: bool,
}

impl Exchange {
    /// The reply awaited, if a request is outstanding.
    pub closed spec fn pending(&self) -> Option<ReplyKind> {
        self.pending
    }

    /// Whether a terminal request was sent.
    pub closed spec fn is_closed(&self) -> bool {
        self.closed
    }

    pub fn new() -> (r: Exchange)
        ensures
            r.pending() is None,
            !r.is_closed(),
    {
        Exchange { pending: None, closed: false }
    }

    /// Admits sending `req`: refused while a reply is outstanding or after a
    /// terminal request; the state is then unchanged.
    pub fn begin(&mut self, req: &Request) -> (r: Result<(), String>)
        ensures
            (old(self).pending() is Some || old(self).is_closed()) ==> r is Err && final(self).pending()
                == old(self).pending() && final(self).is_closed() == old(self).is_closed(),
            !(old(self).pending() is Some || old(self).is_closed()) ==> r is Ok && final(self).pending()
                == reply_kind_of(*req) && final(self).is_closed() == req.spec_is_terminal(),
    {
        if self.closed {
            return Err(String::from_str("the session is closed"));
        }
        if self.pending.is_some() {
            return Err(String::from_str("a request is already outstanding"));
        }
        self.pending = reply_kind(req);
        self.closed = req.is_terminal();
        Ok(())
    }

    /// Admits the reply `resp`: it must be of the kind the outstanding
    /// request calls for. Otherwise it is a protocol violation and the state
    /// is unchanged.
    pub fn complete(&mut self, resp: &Response) -> (r: Result<(), String>)
        ensures
            old(self).pending() == Some(kind_of_response(*resp)) ==> r is Ok && final(self).pending() is None
                && final(self).is_closed() == old(self).is_closed(),
            old(self).pending() != Some(kind_of_response(*resp)) ==> r is Err && final(self).pending()
                == old(self).pending() && final(self).is_closed() == old(self).is_closed(),
    {
        let got = response_kind(resp);
        match self.pending {
            Some(k) => if k == got {
                self.pending = None;
                Ok(())
            } else {
                Err(String::from_str("protocol violation: reply of the wrong kind"))
            },
            None => Err(String::from_str("protocol violation: reply without a request")),
        }
    }
}

} // verus!
