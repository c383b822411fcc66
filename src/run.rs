//! The controller's schedule, as state machines that the caller drives:
//! it carries out each action (with threads, sockets and files) and hands
//! the outcome back as the next event.
//!
//! A scenario starts its stages in order, stage `k + 1` only once every
//! chain of stage `k` has started. It then stops the stages in reverse,
//! collecting plot hints per agent, and finalises the agents one by one. A
//! failed start stops what was started, newest first, and ends every
//! session; any other failure ends every session.

use vstd::prelude::*;

use crate::activity::PlotHint;
use crate::connection::{collect_done, stop_all_done};
use crate::protocol::{Request, Response};
use crate::scheduler::{activity_map_line, hint_text, map_line};

verus! {

/// A plot hint recorded for activity `activity` of the agent numbered `agent`.
#[derive(Debug, PartialEq, Eq)]
pub struct AgentHint {
    pub agent: usize,
    pub activity: String,
    pub hint: PlotHint,
}

#[derive(Clone, Copy, Debug, PartialEq, Eq, Structural)]
pub enum RunPhase {
    Ready,
    Starting { stage: usize },
    Stopping { stage: usize },
    /// Stopping, after a failed start, what had been started.
    Unwinding,
    /// Ending every session after a failure.
    Ending,
    Finalising { agent: usize },
    Done,
}

/// What the caller does next.
#[derive(Debug, PartialEq, Eq)]
pub enum RunAction {
    /// Start stage `k`: one worker per agent runs its chain; wait for all.
    StartStage(usize),
    /// Stop stage `k`: one worker per agent stops its chain newest first.
    StopStage(usize),
    /// Stop, best effort, every started activity of stages `k` down to 0,
    /// newest first.
    StopStartedFrom(usize),
    /// Send `End` to every agent and close the connections.
    EndAll,
    /// Finalise agent `i` (see [`AgentFinaliser`]).
    Finalise(usize),
    /// The run is over, with this outcome.
    Finish(Result<(), String>),
}

/// The outcome of the last action.
#[derive(Debug, PartialEq, Eq)]
pub enum RunEvent {
    Begin,
    StageStarted(Result<(), String>),
    StageStopped(Result<Vec<AgentHint>, String>),
    Unwound,
    Ended,
    Finalised(Result<(), String>),
}

/// The hints of agent `agent` among `all`, in the order they were recorded.
pub open spec fn hints_of(all: Seq<AgentHint>, agent: nat) -> Seq<(String, PlotHint)>
    decreases all.len(),
{
    if all.len() == 0 {
        Seq::empty()
    } else if all.last().agent == agent {
        hints_of(all.drop_last(), agent).push((all.last().activity, all.last().hint))
    } else {
        hints_of(all.drop_last(), agent)
    }
}

/// The text of an activity map: one line per hint.
pub open spec fn map_text_of(hints: Seq<(String, PlotHint)>) -> Seq<char>
    decreases hints.len(),
{
    if hints.len() == 0 {
        Seq::empty()
    } else {
        map_text_of(hints.drop_last()) + map_line(
            hints.last().1.id.0 as nat,
            hints.last().0@,
            hint_text(hints.last().1.hint),
        )
    }
}

/// The text of the activity map of `hints`.
pub fn map_text(hints: &Vec<(String, PlotHint)>) -> (r: String)
    ensures
        r@ == map_text_of(hints@),
{
    let mut s = String::new();
    let mut i: usize = 0;
    while i < hints.len()
        invariant
            i <= hints@.len(),
            s@ == map_text_of(hints@.subrange(0, i as int)),
        decreases hints@.len() - i,
    {
        let line = activity_map_line(hints[i].0.as_str(), &hints[i].1);
        s.append(line.as_str());
        proof {
            let p = hints@.subrange(0, i + 1);
            assert(p.drop_last() =~= hints@.subrange(0, i as int));
        }
        i += 1;
    }
    assert(hints@.subrange(0, hints@.len() as int) =~= hints@);
    s
}

/// The state of one scenario run.
pub struct RunState {
    n_stages: usize,
    n_agents: usize,
    phase: RunPhase,
    hints: Vec<AgentHint>,
    error: Option<String>,
}

/// How the run goes on once every stage is stopped: finalising the first
/// agent, or finishing when there is none.
pub open spec fn finalising_begins(n_agents: nat, a: RunAction, phase: RunPhase) -> bool {
    if n_agents > 0 {
        a == RunAction::Finalise(0) && phase == (RunPhase::Finalising { agent: 0 })
    } else {
        (a is Finish && a->Finish_0 is Ok) && phase == RunPhase::Done
    }
}

impl RunState {
    pub closed spec fn phase(&self) -> RunPhase {
        self.phase
    }

    pub closed spec fn n_stages(&self) -> nat {
        self.n_stages as nat
    }

    pub closed spec fn n_agents(&self) -> nat {
        self.n_agents as nat
    }

    /// Plot hints collected so far, in the order the stop phase gave them.
    pub closed spec fn hints(&self) -> Seq<AgentHint> {
        self.hints@
    }

    /// The failure that ended the run, once there is one.
    pub closed spec fn error(&self) -> Option<String> {
        self.error
    }

    pub open spec fn wf(&self) -> bool {
        &&& match self.phase() {
            RunPhase::Starting { stage } => stage < self.n_stages(),
            RunPhase::Stopping { stage } => stage < self.n_stages(),
            RunPhase::Finalising { agent } => agent < self.n_agents(),
            _ => true,
        }
        &&& (self.phase() is Unwinding || self.phase() is Ending) ==> self.error() is Some
    }

    pub fn new(n_stages: usize, n_agents: usize) -> (r: RunState)
        ensures
            r.wf(),
            r.phase() == RunPhase::Ready,
            r.n_stages() == n_stages,
            r.n_agents() == n_agents,
            r.hints().len() == 0,
            r.error() is None,
    {
        RunState { n_stages, n_agents, phase: RunPhase::Ready, hints: Vec::new(), error: None }
    }

    fn after_stopping(&mut self) -> (a: RunAction)
        ensures
            final(self).n_stages == old(self).n_stages,
            final(self).n_agents == old(self).n_agents,
            final(self).hints == old(self).hints,
            final(self).error == old(self).error,
            finalising_begins(old(self).n_agents as nat, a, final(self).phase),
    {
        if self.n_agents > 0 {
            self.phase = RunPhase::Finalising { agent: 0 };
            RunAction::Finalise(0)
        } else {
            self.phase = RunPhase::Done;
            RunAction::Finish(Ok(()))
        }
    }

    /// Takes the outcome of the last action and says what to do next.
    pub fn step(&mut self, ev: RunEvent) -> (a: RunAction)
        requires
            old(self).wf(),
        ensures
            final(self).wf(),
            final(self).n_stages() == old(self).n_stages(),
            final(self).n_agents() == old(self).n_agents(),
            match (old(self).phase(), ev) {
                (RunPhase::Ready, RunEvent::Begin) => final(self).hints() == old(self).hints() && if old(self).n_stages() > 0 {
                    a == RunAction::StartStage(0) && final(self).phase() == (RunPhase::Starting {
                        stage: 0,
                    })
                } else {
                    finalising_begins(old(self).n_agents(), a, final(self).phase())
                },
                (RunPhase::Starting { stage }, RunEvent::StageStarted(Ok(_))) => final(self).hints()
                    == old(self).hints() && if stage + 1 < old(self).n_stages() {
                    a == RunAction::StartStage((stage + 1) as usize) && final(self).phase() == (
                    RunPhase::Starting { stage: (stage + 1) as usize })
                } else {
                    a == RunAction::StopStage((old(self).n_stages() - 1) as usize) && final(self).phase() == (RunPhase::Stopping {
                        stage: (old(self).n_stages() - 1) as usize,
                    })
                },
                (RunPhase::Starting { stage }, RunEvent::StageStarted(Err(e))) => a
                    == RunAction::StopStartedFrom(stage) && final(self).phase() == RunPhase::Unwinding
                    && final(self).error() == Some(e) && final(self).hints() == old(self).hints(),
                (RunPhase::Stopping { stage }, RunEvent::StageStopped(Ok(h))) => final(self).hints()
                    == old(self).hints() + h@ && if stage > 0 {
                    a == RunAction::StopStage((stage - 1) as usize) && final(self).phase() == (
                    RunPhase::Stopping { stage: (stage - 1) as usize })
                } else {
                    finalising_begins(old(self).n_agents(), a, final(self).phase())
                },
                (RunPhase::Stopping { .. }, RunEvent::StageStopped(Err(e))) => a == RunAction::EndAll
                    && final(self).phase() == RunPhase::Ending && final(self).error() == Some(e),
                (RunPhase::Unwinding, RunEvent::Unwound) => a == RunAction::EndAll && final(self).phase() == RunPhase::Ending && final(self).error() == old(self).error(),
                (RunPhase::Ending, RunEvent::Ended) => a == RunAction::Finish(
                    Err(old(self).error()->0),
                ) && final(self).phase() == RunPhase::Done,
                (RunPhase::Finalising { agent }, RunEvent::Finalised(Ok(_))) => final(self).hints()
                    == old(self).hints() && if agent + 1 < old(self).n_agents() {
                    a == RunAction::Finalise((agent + 1) as usize) && final(self).phase() == (
                    RunPhase::Finalising { agent: (agent + 1) as usize })
                } else {
                    (a is Finish && a->Finish_0 is Ok) && final(self).phase() == RunPhase::Done
                },
                (RunPhase::Finalising { .. }, RunEvent::Finalised(Err(e))) => a == RunAction::EndAll
                    && final(self).phase() == RunPhase::Ending && final(self).error() == Some(e),
                _ => (a is Finish && a->Finish_0 is Err) && final(self).phase() == RunPhase::Done,
            },
    {
        match (self.phase, ev) {
            (RunPhase::Ready, RunEvent::Begin) => {
                if self.n_stages > 0 {
                    self.phase = RunPhase::Starting { stage: 0 };
                    RunAction::StartStage(0)
                } else {
                    self.after_stopping()
                }
            },
            (RunPhase::Starting { stage }, RunEvent::StageStarted(res)) => match res {
                Ok(()) => {
                    if stage + 1 < self.n_stages {
                        self.phase = RunPhase::Starting { stage: stage + 1 };
                        RunAction::StartStage(stage + 1)
                    } else {
                        let last = self.n_stages - 1;
                        self.phase = RunPhase::Stopping { stage: last };
                        RunAction::StopStage(last)
                    }
                },
                Err(e) => {
                    self.error = Some(e);
                    self.phase = RunPhase::Unwinding;
                    RunAction::StopStartedFrom(stage)
                },
            },
            (RunPhase::Stopping { stage }, RunEvent::StageStopped(res)) => match res {
                Ok(h) => {
                    let mut h = h;
                    self.hints.append(&mut h);
                    if stage > 0 {
                        self.phase = RunPhase::Stopping { stage: stage - 1 };
                        RunAction::StopStage(stage - 1)
                    } else {
                        self.after_stopping()
                    }
                },
                Err(e) => {
                    self.error = Some(e);
                    self.phase = RunPhase::Ending;
                    RunAction::EndAll
                },
            },
            (RunPhase::Unwinding, RunEvent::Unwound) => {
                self.phase = RunPhase::Ending;
                RunAction::EndAll
            },
            (RunPhase::Ending, RunEvent::Ended) => {
                self.phase = RunPhase::Done;
                match self.error.take() {
                    Some(e) => RunAction::Finish(Err(e)),
                    None => RunAction::Finish(Err(String::new())),
                }
            },
            (RunPhase::Finalising { agent }, RunEvent::Finalised(res)) => match res {
                Ok(()) => {
                    if agent + 1 < self.n_agents {
                        self.phase = RunPhase::Finalising { agent: agent + 1 };
                        RunAction::Finalise(agent + 1)
                    } else {
                        self.phase = RunPhase::Done;
                        RunAction::Finish(Ok(()))
                    }
                },
                Err(e) => {
                    self.error = Some(e);
                    self.phase = RunPhase::Ending;
                    RunAction::EndAll
                },
            },
            _ => {
                self.phase = RunPhase::Done;
                RunAction::Finish(Err(String::from_str("protocol violation: unexpected event")))
            },
        }
    }

    /// The plot hints of agent `agent`, in the order they were recorded.
    pub fn hints_for(&self, agent: usize) -> (r: Vec<(String, PlotHint)>)
        ensures
            r@ == hints_of(self.hints(), agent as nat),
    {
        let mut r: Vec<(String, PlotHint)> = Vec::new();
        let mut i: usize = 0;
        while i < self.hints.len()
            invariant
                i <= self.hints@.len(),
                r@ == hints_of(self.hints@.subrange(0, i as int), agent as nat),
            decreases self.hints@.len() - i,
        {
            let e = &self.hints[i];
            if e.agent == agent {
                r.push((e.activity.clone(), e.hint.duplicate()));
            }
            proof {
                let p = self.hints@.subrange(0, i + 1);
                assert(p.drop_last() =~= self.hints@.subrange(0, i as int));
            }
            i += 1;
        }
        assert(self.hints@.subrange(0, self.hints@.len() as int) =~= self.hints@);
        r
    }
}

#[derive(Clone, Copy, Debug, PartialEq, Eq, Structural)]
pub enum FinalPhase {
    Ready,
    AwaitStopAll,
    AwaitCollect,
    AwaitWrite,
    AwaitEnd,
    Done,
}

/// What the caller does next to finalise one agent.
#[derive(Debug, PartialEq, Eq)]
pub enum FinalAction {
    /// Send this request (and, unless it is `End`, receive the reply).
    Send(Request),
    /// Write `archive` to `<agent>/out.tgz` and `map` to `<agent>/out.map`.
    WriteFiles { archive: Vec<u8>, map: String },
    /// Finalisation is over, with this outcome.
    Finished(Result<(), String>),
}

#[derive(Debug, PartialEq, Eq)]
pub enum FinalEvent {
    Begin,
    Reply(Response),
    Written(Result<(), String>),
    Sent(Result<(), String>),
}

/// Finalisation of one agent: `StopAll` and its acknowledgement, `Collect`
/// and its archive, the archive and activity map written, then `End`.
pub struct AgentFinaliser {
    phase: FinalPhase,
    map: String,
}

impl AgentFinaliser {
    pub closed spec fn phase(&self) -> FinalPhase {
        self.phase
    }

    /// The activity map to write.
    pub closed spec fn map(&self) -> Seq<char> {
        self.map@
    }

    /// A finaliser for an agent whose plot hints are `hints`.
    pub fn new(hints: &Vec<(String, PlotHint)>) -> (r: AgentFinaliser)
        ensures
            r.phase() == FinalPhase::Ready,
            r.map() == map_text_of(hints@),
    {
        AgentFinaliser { phase: FinalPhase::Ready, map: map_text(hints) }
    }

    pub fn step(&mut self, ev: FinalEvent) -> (a: FinalAction)
        ensures
            final(self).map() == old(self).map(),
            match (old(self).phase(), ev) {
                (FinalPhase::Ready, FinalEvent::Begin) => a == FinalAction::Send(Request::StopAll)
                    && final(self).phase() == FinalPhase::AwaitStopAll,
                (FinalPhase::AwaitStopAll, FinalEvent::Reply(Response::StopAll(Ok(_)))) => a
                    == FinalAction::Send(Request::Collect) && final(self).phase()
                    == FinalPhase::AwaitCollect,
                (FinalPhase::AwaitCollect, FinalEvent::Reply(Response::Collect(Ok(data)))) => (
                a is WriteFiles) && a->archive == data && a->map@ == old(self).map() && final(self).phase() == FinalPhase::AwaitWrite,
                (FinalPhase::AwaitWrite, FinalEvent::Written(Ok(_))) => a == FinalAction::Send(
                    Request::End,
                ) && final(self).phase() == FinalPhase::AwaitEnd,
                (FinalPhase::AwaitEnd, FinalEvent::Sent(Ok(_))) => (a is Finished && a->Finished_0 is Ok)
                    && final(self).phase() == FinalPhase::Done,
                _ => (a is Finished && a->Finished_0 is Err) && final(self).phase() == FinalPhase::Done,
            },
    {
        match (self.phase, ev) {
            (FinalPhase::Ready, FinalEvent::Begin) => {
                self.phase = FinalPhase::AwaitStopAll;
                FinalAction::Send(Request::StopAll)
            },
            (FinalPhase::AwaitStopAll, FinalEvent::Reply(resp)) => match stop_all_done(resp) {
                Ok(()) => {
                    self.phase = FinalPhase::AwaitCollect;
                    FinalAction::Send(Request::Collect)
                },
                Err(e) => {
                    self.phase = FinalPhase::Done;
                    FinalAction::Finished(Err(e))
                },
            },
            (FinalPhase::AwaitCollect, FinalEvent::Reply(resp)) => match collect_done(resp) {
                Ok(data) => {
                    self.phase = FinalPhase::AwaitWrite;
                    FinalAction::WriteFiles { archive: data, map: self.map.clone() }
                },
                Err(e) => {
                    self.phase = FinalPhase::Done;
                    FinalAction::Finished(Err(e))
                },
            },
            (FinalPhase::AwaitWrite, FinalEvent::Written(Ok(()))) => {
                self.phase = FinalPhase::AwaitEnd;
                FinalAction::Send(Request::End)
            },
            (FinalPhase::AwaitEnd, FinalEvent::Sent(Ok(()))) => {
                self.phase = FinalPhase::Done;
                FinalAction::Finished(Ok(()))
            },
            (_, FinalEvent::Written(Err(e))) | (_, FinalEvent::Sent(Err(e))) => {
                self.phase = FinalPhase::Done;
                FinalAction::Finished(Err(e))
            },
            _ => {
                self.phase = FinalPhase::Done;
                FinalAction::Finished(Err(String::from_str("protocol violation: unexpected event")))
            },
        }
    }
}

} // verus!
