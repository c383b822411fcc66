//! A controller stand-in that drives the agent from a local list of
//! commands: requests are delivered in order, local commands pause or
//! sleep, a failed response aborts the session, and once the list is done
//! everything is stopped and the session ends.

use vstd::prelude::*;

use crate::protocol::{Id, Request, Response, SpawnMode};

verus! {

/// One entry of a local command list.
#[derive(Debug, PartialEq, Eq)]
pub enum LocalCommand {
    Poll { pattern: String },
    Spawn { cmd: String, args: Vec<String>, mode: SpawnMode },
    Stop { id: Id },
    Abort,
    /// Wait for the operator, showing the optional description.
    Pause { prompt: Option<String> },
    /// Sleep for this many milliseconds.
    Sleep { millis: u64 },
}

/// What the caller does next.
#[derive(Debug, PartialEq, Eq)]
pub enum LocalStep {
    /// Hand this request to the agent.
    Deliver(Request),
    Pause(Option<String>),
    Sleep(u64),
}

/// Whether `resp` reports a failure of the request it answers.
pub open spec fn is_failure(resp: Response) -> bool {
    match resp {
        Response::Poll(Err(_)) => true,
        Response::SpawnFg(Err(_)) => true,
        Response::SpawnBg(Err(_)) => true,
        Response::Stop(Err(_)) => true,
        _ => false,
    }
}

/// The step a queued command turns into.
pub open spec fn step_of(c: LocalCommand) -> LocalStep {
    match c {
        LocalCommand::Poll { pattern } => LocalStep::Deliver(Request::Poll { pattern }),
        LocalCommand::Spawn { cmd, args, mode } => LocalStep::Deliver(Request::Spawn { cmd, args, mode }),
        LocalCommand::Stop { id } => LocalStep::Deliver(Request::Stop { id }),
        LocalCommand::Abort => LocalStep::Deliver(Request::Abort),
        LocalCommand::Pause { prompt } => LocalStep::Pause(prompt),
        LocalCommand::Sleep { millis } => LocalStep::Sleep(millis),
    }
}

/// The local command queue and its state.
pub struct SelfHosted {
    queue: Vec<LocalCommand>,
    abort: bool,
    stopped: bool,
}

impl SelfHosted {
    /// Commands not yet delivered, next first.
    pub closed spec fn remaining(&self) -> Seq<LocalCommand> {
        self.queue@
    }

    /// Whether a failure asked for the session to be aborted.
    pub closed spec fn abort_requested(&self) -> bool {
        self.abort
    }

    /// Whether the list is done (everything was stopped).
    pub closed spec fn finished(&self) -> bool {
        self.stopped
    }

    pub fn new(commands: Vec<LocalCommand>) -> (r: SelfHosted)
        ensures
            r.remaining() == commands@,
            !r.abort_requested(),
            !r.finished(),
    {
        SelfHosted { queue: commands, abort: false, stopped: false }
    }

    /// The next step: `End` once finished; `Abort` after a failure; the
    /// next command; `StopAll` when the list runs out.
    pub fn next_step(&mut self) -> (r: LocalStep)
        ensures
            old(self).finished() ==> r == LocalStep::Deliver(Request::End) && final(self).remaining()
                == old(self).remaining() && final(self).finished() && final(self).abort_requested()
                == old(self).abort_requested(),
            !old(self).finished() && old(self).abort_requested() ==> r == LocalStep::Deliver(
                Request::Abort,
            ) && final(self).remaining() == old(self).remaining() && !final(self).abort_requested()
                && !final(self).finished(),
            !old(self).finished() && !old(self).abort_requested() && old(self).remaining().len()
                == 0 ==> r == LocalStep::Deliver(Request::StopAll) && final(self).finished()
                && final(self).remaining() == old(self).remaining() && !final(self).abort_requested(),
            !old(self).finished() && !old(self).abort_requested() && old(self).remaining().len() > 0
                ==> r == step_of(old(self).remaining()[0]) && final(self).remaining() == old(
                self,
            ).remaining().drop_first() && !final(self).finished() && !final(self).abort_requested(),
    {
        if self.stopped {
            return LocalStep::Deliver(Request::End);
        }
        if self.abort {
            self.abort = false;
            return LocalStep::Deliver(Request::Abort);
        }
        if self.queue.len() == 0 {
            self.stopped = true;
            return LocalStep::Deliver(Request::StopAll);
        }
        let c = self.queue.remove(0);
        assert(self.queue@ =~= old(self).remaining().drop_first());
        match c {
            LocalCommand::Poll { pattern } => LocalStep::Deliver(Request::Poll { pattern }),
            LocalCommand::Spawn { cmd, args, mode } => LocalStep::Deliver(Request::Spawn { cmd, args, mode }),
            LocalCommand::Stop { id } => LocalStep::Deliver(Request::Stop { id }),
            LocalCommand::Abort => LocalStep::Deliver(Request::Abort),
            LocalCommand::Pause { prompt } => LocalStep::Pause(prompt),
            LocalCommand::Sleep { millis } => LocalStep::Sleep(millis),
        }
    }

    /// Takes the agent's response: a failure asks for an abort.
    pub fn on_response(&mut self, resp: &Response)
        ensures
            final(self).abort_requested() == (old(self).abort_requested() || is_failure(*resp)),
            final(self).remaining() == old(self).remaining(),
            final(self).finished() == old(self).finished(),
    {
        let failed = match resp {
            Response::Poll(Err(_)) => true,
            Response::SpawnFg(Err(_)) => true,
            Response::SpawnBg(Err(_)) => true,
            Response::Stop(Err(_)) => true,
            _ => false,
        };
        if failed {
            self.abort = true;
        }
    }
}

} // verus!
