//! The agent's bookkeeping: session state, identifier allocation, the
//! registry of live pollers and background processes, and the order and
//! manner in which they are torn down. The outside work (threads, child
//! processes, files) is carried out by the caller as these decisions say.

use vstd::prelude::*;

use crate::common::{padded3, padded3_string};
use crate::paths::{
    braces_balanced, brace_expansions, concat_all, expansions_of, lookup_paths, match_lists,
    unbalanced_message,
};
use crate::poller::{create_header, header_text, json_string_list, DEFAULT_PERIOD_MS};
use crate::protocol::{ForegroundOutput, Id, Request, Response, SpawnMode};
use crate::types::strings_view;

verus! {

/// What a live resource is.
#[derive(Clone, Copy, Debug, PartialEq, Eq, Structural)]
pub enum ResourceKind {
    Poller,
    /// A background process; `wait4` is true for `BackgroundWait`.
    Process { wait4: bool },
}

/// A live resource of the agent.
#[derive(Clone, Copy, Debug, PartialEq, Eq, Structural)]
pub struct Resource {
    pub id: Id,
    pub kind: ResourceKind,
}

/// Session states: `Idle -> Active -> {Gracing | Aborting} -> Closed`.
#[derive(Clone, Copy, Debug, PartialEq, Eq, Structural)]
pub enum Session {
    Idle,
    Active,
    Gracing,
    Aborting,
    Closed,
}

/// How one resource is stopped.
#[derive(Clone, Copy, Debug, PartialEq, Eq, Structural)]
pub enum StopAction {
    /// Set the poller's stop flag, then join its thread.
    JoinPoller,
    /// Wait for the process without signalling it.
    Wait,
    /// Signal the process to terminate, then wait for it.
    SignalThenWait,
}

/// One step of a teardown.
#[derive(Clone, Copy, Debug, PartialEq, Eq, Structural)]
pub struct StopStep {
    pub id: Id,
    pub action: StopAction,
}

/// What the dispatch loop does with a received request.
#[derive(Clone, Copy, Debug, PartialEq, Eq, Structural)]
pub enum Dispatch {
    /// Handle it and send its response.
    Handle,
    /// Leave the loop and tear everything down; no response is sent.
    Finish { abnormal: bool },
    /// The session is already closing: the request is a protocol violation.
    Refuse,
}

/// A process is signalled unless it is waited-for and the stop is not forced.
pub open spec fn stop_action_of(kind: ResourceKind, force: bool) -> StopAction {
    match kind {
        ResourceKind::Poller => StopAction::JoinPoller,
        ResourceKind::Process { wait4 } => if wait4 && !force {
            StopAction::Wait
        } else {
            StopAction::SignalThenWait
        },
    }
}

pub fn stop_action(kind: ResourceKind, force: bool) -> (r: StopAction)
    ensures
        r == stop_action_of(kind, force),
{
    match kind {
        ResourceKind::Poller => StopAction::JoinPoller,
        ResourceKind::Process { wait4 } => if wait4 && !force {
            StopAction::Wait
        } else {
            StopAction::SignalThenWait
        },
    }
}

/// The teardown of `live`: from the last created to the first.
pub open spec fn stop_plan(live: Seq<Resource>, force: bool) -> Seq<StopStep> {
    Seq::new(
        live.len(),
        |i: int|
            StopStep {
                id: live[live.len() - 1 - i].id,
                action: stop_action_of(live[live.len() - 1 - i].kind, force),
            },
    )
}

/// The resource kind a spawn in `mode` leaves behind, if any.
pub open spec fn spawned_kind(mode: SpawnMode) -> Option<ResourceKind> {
    match mode {
        SpawnMode::Foreground => None,
        SpawnMode::BackgroundWait => Some(ResourceKind::Process { wait4: true }),
        SpawnMode::BackgroundKill => Some(ResourceKind::Process { wait4: false }),
    }
}

pub fn process_kind(mode: SpawnMode) -> (r: Option<ResourceKind>)
    ensures
        r == spawned_kind(mode),
{
    match mode {
        SpawnMode::Foreground => None,
        SpawnMode::BackgroundWait => Some(ResourceKind::Process { wait4: true }),
        SpawnMode::BackgroundKill => Some(ResourceKind::Process { wait4: false }),
    }
}

pub open spec fn poll_log_name(id: Id) -> Seq<char> {
    padded3(id.0 as nat) + seq!['-', 'p', 'o', 'l', 'l', '.', 'l', 'o', 'g']
}

pub open spec fn out_log_name(id: Id) -> Seq<char> {
    padded3(id.0 as nat) + seq!['-', 'o', 'u', 't', '.', 'l', 'o', 'g']
}

pub open spec fn err_log_name(id: Id) -> Seq<char> {
    padded3(id.0 as nat) + seq!['-', 'e', 'r', 'r', '.', 'l', 'o', 'g']
}

pub open spec fn data_dir_name(id: Id) -> Seq<char> {
    padded3(id.0 as nat) + seq!['-', 'd', 'a', 't', 'a']
}

/// Name of the poller log of `id`: `NNN-poll.log`.
pub fn poll_log_file(id: Id) -> (r: String)
    ensures
        r@ == poll_log_name(id),
{
    let mut s = padded3_string(id.0 as u64);
    proof {
        reveal_strlit("-poll.log");
    }
    s.append("-poll.log");
    assert(s@ =~= poll_log_name(id));
    s
}

/// Name of the standard output log of process `id`: `NNN-out.log`.
pub fn out_log_file(id: Id) -> (r: String)
    ensures
        r@ == out_log_name(id),
{
    let mut s = padded3_string(id.0 as u64);
    proof {
        reveal_strlit("-out.log");
    }
    s.append("-out.log");
    assert(s@ =~= out_log_name(id));
    s
}

/// Name of the standard error log of process `id`: `NNN-err.log`.
pub fn err_log_file(id: Id) -> (r: String)
    ensures
        r@ == err_log_name(id),
{
    let mut s = padded3_string(id.0 as u64);
    proof {
        reveal_strlit("-err.log");
    }
    s.append("-err.log");
    assert(s@ =~= err_log_name(id));
    s
}

/// Name of the working directory of process `id`: `NNN-data`.
pub fn data_dir_file(id: Id) -> (r: String)
    ensures
        r@ == data_dir_name(id),
{
    let mut s = padded3_string(id.0 as u64);
    proof {
        reveal_strlit("-data");
    }
    s.append("-data");
    assert(s@ =~= data_dir_name(id));
    s
}

/// A poller that has been registered: the thread to start polls `files`
/// into `log_file`, which starts with `header`.
pub struct PollerPlan {
    pub id: Id,
    pub files: Vec<String>,
    pub header: String,
    pub log_file: String,
}

/// Identifier and file names for a process about to be spawned, and the
/// resource it leaves behind if any (none when in the foreground).
pub struct SpawnPlan {
    pub id: Id,
    pub out_log: String,
    pub err_log: String,
    pub data_dir: String,
    pub kind: Option<ResourceKind>,
}

/// What became of a spawn: a foreground process ran, or a background one
/// started under an identifier.
#[derive(Debug, PartialEq, Eq)]
pub enum SpawnOutcome {
    Ran(ForegroundOutput),
    Started(Id),
}

/// The response to a `Spawn` in `mode`: `SpawnFg` for the foreground,
/// `SpawnBg` otherwise, carrying the outcome. An outcome of the other kind
/// is reported as an error of the right tag.
pub fn spawn_reply(mode: SpawnMode, outcome: Result<SpawnOutcome, String>) -> (r: Response)
    ensures
        mode == SpawnMode::Foreground ==> match outcome {
            Ok(SpawnOutcome::Ran(o)) => r == Response::SpawnFg(Ok(o)),
            Ok(SpawnOutcome::Started(_)) => (r is SpawnFg) && r->SpawnFg_0 is Err,
            Err(e) => r == Response::SpawnFg(Err(e)),
        },
        mode != SpawnMode::Foreground ==> match outcome {
            Ok(SpawnOutcome::Started(id)) => r == Response::SpawnBg(Ok(id)),
            Ok(SpawnOutcome::Ran(_)) => (r is SpawnBg) && r->SpawnBg_0 is Err,
            Err(e) => r == Response::SpawnBg(Err(e)),
        },
{
    match mode {
        SpawnMode::Foreground => match outcome {
            Ok(SpawnOutcome::Ran(o)) => Response::SpawnFg(Ok(o)),
            Ok(SpawnOutcome::Started(_)) => Response::SpawnFg(
                Err(String::from_str("foreground process left no output")),
            ),
            Err(e) => Response::SpawnFg(Err(e)),
        },
        _ => match outcome {
            Ok(SpawnOutcome::Started(id)) => Response::SpawnBg(Ok(id)),
            Ok(SpawnOutcome::Ran(_)) => Response::SpawnBg(
                Err(String::from_str("background process ran in the foreground")),
            ),
            Err(e) => Response::SpawnBg(Err(e)),
        },
    }
}

/// The response to `Stop{id}`: success when the resource was live and has
/// been stopped, else an error naming the identifier.
pub fn stop_reply(id: Id, stopped: bool) -> (r: Response)
    ensures
        stopped ==> r == Response::Stop(Ok(id)),
        !stopped ==> (r is Stop) && r->Stop_0 is Err && r->Stop_0->Err_0@ == "activity "@
            + crate::common::decimal(id.0 as nat) + " not found"@,
{
    if stopped {
        Response::Stop(Ok(id))
    } else {
        let mut msg = String::from_str("activity ");
        msg.append(crate::common::decimal_string(id.0 as u64).as_str());
        msg.append(" not found");
        Response::Stop(Err(msg))
    }
}

/// The agent's session and resources.
pub struct AgentState {
    session: Session,
    count: u32,
    live: Vec<Resource>,
}

impl AgentState {
    pub closed spec fn session(&self) -> Session {
        self.session
    }

    /// The last identifier handed out (`0` before the first).
    pub closed spec fn count(&self) -> nat {
        self.count as nat
    }

    /// Live resources, in order of creation.
    pub closed spec fn live(&self) -> Seq<Resource> {
        self.live@
    }

    /// Identifiers of live resources are distinct, increase with creation,
    /// and were all handed out already.
    pub open spec fn wf(&self) -> bool {
        &&& self.count() <= u32::MAX
        &&& forall|i: int, j: int|
            0 <= i < j < self.live().len() ==> (#[trigger] self.live()[i]).id.0 < (#[trigger] self.live()[j]).id.0
        &&& forall|i: int|
            0 <= i < self.live().len() ==> 1 <= (#[trigger] self.live()[i]).id.0 <= self.count()
    }

    pub fn new() -> (r: AgentState)
        ensures
            r.wf(),
            r.session() == Session::Idle,
            r.count() == 0,
            r.live().len() == 0,
    {
        AgentState { session: Session::Idle, count: 0, live: Vec::new() }
    }

    pub fn session_state(&self) -> (r: Session)
        ensures
            r == self.session(),
    {
        self.session
    }

    pub fn live_count(&self) -> (r: usize)
        ensures
            r == self.live().len(),
    {
        self.live.len()
    }

    /// Hands out the next identifier: one more than the previous, starting
    /// at 1. `None` once the 32-bit space is used up.
    pub fn next_id(&mut self) -> (r: Option<Id>)
        requires
            old(self).wf(),
        ensures
            final(self).wf(),
            final(self).session() == old(self).session(),
            final(self).live() == old(self).live(),
            old(self).count() < u32::MAX ==> r == Some(Id((old(self).count() + 1) as u32))
                && final(self).count() == old(self).count() + 1,
            old(self).count() == u32::MAX ==> r is None && final(self).count() == old(self).count(),
    {
        if self.count == u32::MAX {
            return None;
        }
        self.count = self.count + 1;
        Some(Id(self.count))
    }

    /// Records a resource created under the identifier handed out last.
    /// Refused (and nothing changes) when `id` is not that identifier or is
    /// already live.
    pub fn register(&mut self, id: Id, kind: ResourceKind) -> (ok: bool)
        requires
            old(self).wf(),
        ensures
            final(self).wf(),
            final(self).session() == old(self).session(),
            final(self).count() == old(self).count(),
            ok == (id.0 as nat == old(self).count() && id.0 >= 1 && (old(self).live().len() == 0
                || old(self).live().last().id.0 < id.0)),
            ok ==> final(self).live() == old(self).live().push(Resource { id, kind }),
            !ok ==> final(self).live() == old(self).live(),
    {
        if id.0 != self.count || id.0 == 0 {
            return false;
        }
        let n = self.live.len();
        if n > 0 && self.live[n - 1].id.0 >= id.0 {
            return false;
        }
        self.live.push(Resource { id, kind });
        true
    }

    /// Removes the live resource `id`, returning its kind.
    pub fn take(&mut self, id: Id) -> (r: Option<ResourceKind>)
        requires
            old(self).wf(),
        ensures
            final(self).wf(),
            final(self).session() == old(self).session(),
            final(self).count() == old(self).count(),
            match r {
                Some(k) => exists|i: int|
                    0 <= i < old(self).live().len() && old(self).live()[i] == Resource { id, kind: k }
                        && final(self).live() == old(self).live().remove(i),
                None => final(self).live() == old(self).live() && forall|i: int|
                    0 <= i < old(self).live().len() ==> (#[trigger] old(self).live()[i]).id != id,
            },
    {
        let n = self.live.len();
        let mut i: usize = 0;
        while i < n
            invariant
                n == self.live@.len(),
                i <= n,
                old(self).wf(),
                self.live@ == old(self).live(),
                self.session == old(self).session(),
                self.count == old(self).count(),
                forall|j: int| 0 <= j < i ==> (#[trigger] self.live@[j]).id != id,
            decreases n - i,
        {
            if self.live[i].id == id {
                let res = self.live.remove(i);
                assert(res == old(self).live()[i as int]);
                assert forall|a: int, b: int|
                    0 <= a < b < self.live@.len() implies (#[trigger] self.live@[a]).id.0
                    < (#[trigger] self.live@[b]).id.0 by {
                    let a0 = if a < i { a } else { a + 1 };
                    let b0 = if b < i { b } else { b + 1 };
                    assert(self.live@[a] == old(self).live()[a0]);
                    assert(self.live@[b] == old(self).live()[b0]);
                }
                assert forall|a: int| 0 <= a < self.live@.len() implies 1 <= (
                #[trigger] self.live@[a]).id.0 <= self.count() by {
                    let a0 = if a < i { a } else { a + 1 };
                    assert(self.live@[a] == old(self).live()[a0]);
                }
                return Some(res.kind);
            }
            i += 1;
        }
        None
    }

    /// Stops everything: empties the registry and returns the teardown,
    /// newest resource first.
    pub fn stop_all(&mut self, force: bool) -> (r: Vec<StopStep>)
        requires
            old(self).wf(),
        ensures
            final(self).wf(),
            final(self).session() == old(self).session(),
            final(self).count() == old(self).count(),
            final(self).live().len() == 0,
            r@ == stop_plan(old(self).live(), force),
    {
        let n = self.live.len();
        let mut steps: Vec<StopStep> = Vec::new();
        let mut k: usize = n;
        while k > 0
            invariant
                k <= n,
                n == self.live@.len(),
                self.live@ == old(self).live(),
                steps@ =~= stop_plan(self.live@, force).subrange(0, (n - k) as int),
            decreases k,
        {
            k -= 1;
            let res = self.live[k];
            let action = stop_action(res.kind, force);
            steps.push(StopStep { id: res.id, action });
            assert(steps@ =~= stop_plan(self.live@, force).subrange(0, (n - k) as int));
        }
        assert(steps@ =~= stop_plan(old(self).live(), force));
        self.live = Vec::new();
        steps
    }

    /// `Collect` is legal only when no poller and no background process is live.
    pub fn can_collect(&self) -> (r: bool)
        ensures
            r == (self.live().len() == 0),
    {
        self.live.len() == 0
    }

    /// Advances the session on a received request.
    pub fn on_request(&mut self, req: &Request) -> (d: Dispatch)
        requires
            old(self).wf(),
        ensures
            final(self).wf(),
            final(self).count() == old(self).count(),
            final(self).live() == old(self).live(),
            (old(self).session() is Idle || old(self).session() is Active) ==> (match req {
                Request::End => d == Dispatch::Finish { abnormal: false } && final(self).session()
                    == Session::Gracing,
                Request::Abort => d == Dispatch::Finish { abnormal: true } && final(self).session()
                    == Session::Aborting,
                _ => d == Dispatch::Handle && final(self).session() == Session::Active,
            }),
            !(old(self).session() is Idle || old(self).session() is Active) ==> d
                == Dispatch::Refuse && final(self).session() == old(self).session(),
    {
        match self.session {
            Session::Idle | Session::Active => {},
            _ => return Dispatch::Refuse,
        }
        match req {
            Request::End => {
                self.session = Session::Gracing;
                Dispatch::Finish { abnormal: false }
            },
            Request::Abort => {
                self.session = Session::Aborting;
                Dispatch::Finish { abnormal: true }
            },
            _ => {
                self.session = Session::Active;
                Dispatch::Handle
            },
        }
    }

    /// A broken transport aborts an open session.
    pub fn on_transport_lost(&mut self)
        requires
            old(self).wf(),
        ensures
            final(self).wf(),
            final(self).count() == old(self).count(),
            final(self).live() == old(self).live(),
            (old(self).session() is Idle || old(self).session() is Active) ==> final(self).session() == Session::Aborting,
            !(old(self).session() is Idle || old(self).session() is Active) ==> final(self).session() == old(self).session(),
    {
        match self.session {
            Session::Idle | Session::Active => {
                self.session = Session::Aborting;
            },
            _ => {},
        }
    }

    /// Closes a session that is ending: every live resource is stopped,
    /// newest first, and process signalling is forced when aborting.
    /// `None` (and nothing changes) when the session is not ending.
    pub fn finish(&mut self) -> (r: Option<Vec<StopStep>>)
        requires
            old(self).wf(),
        ensures
            final(self).wf(),
            final(self).count() == old(self).count(),
            old(self).session() is Gracing ==> r is Some && r->Some_0@ == stop_plan(
                old(self).live(),
                false,
            ) && final(self).session() == Session::Closed && final(self).live().len() == 0,
            old(self).session() is Aborting ==> r is Some && r->Some_0@ == stop_plan(
                old(self).live(),
                true,
            ) && final(self).session() == Session::Closed && final(self).live().len() == 0,
            !(old(self).session() is Gracing || old(self).session() is Aborting) ==> r is None
                && final(self).session() == old(self).session() && final(self).live() == old(self).live(),
    {
        let force = match self.session {
            Session::Gracing => false,
            Session::Aborting => true,
            _ => return None,
        };
        let steps = self.stop_all(force);
        self.session = Session::Closed;
        Some(steps)
    }

    /// Handles `Stop{id}`: removes the resource and says how to stop it
    /// (never forced); `None` when no live resource has that identifier.
    pub fn stop_one(&mut self, id: Id) -> (r: Option<StopStep>)
        requires
            old(self).wf(),
        ensures
            final(self).wf(),
            final(self).session() == old(self).session(),
            final(self).count() == old(self).count(),
            match r {
                Some(step) => exists|i: int|
                    0 <= i < old(self).live().len() && old(self).live()[i].id == id && step
                        == StopStep { id, action: stop_action_of(old(self).live()[i].kind, false) }
                        && final(self).live() == old(self).live().remove(i),
                None => final(self).live() == old(self).live() && forall|i: int|
                    0 <= i < old(self).live().len() ==> (#[trigger] old(self).live()[i]).id != id,
            },
    {
        match self.take(id) {
            Some(kind) => Some(StopStep { id, action: stop_action(kind, false) }),
            None => None,
        }
    }

    /// Registers a poller over `files`, which a lookup found: allocates the
    /// next identifier and names the log and its header. Refused (nothing
    /// changes) when `files` is empty or identifiers are exhausted.
    pub fn register_poller(&mut self, files: Vec<String>) -> (r: Result<PollerPlan, String>)
        requires
            old(self).wf(),
        ensures
            final(self).wf(),
            final(self).session() == old(self).session(),
            files@.len() > 0 && old(self).count() < u32::MAX ==> r is Ok,
            r is Ok ==> r->Ok_0.id == Id((old(self).count() + 1) as u32) && final(self).count() == old(
                self,
            ).count() + 1 && final(self).live() == old(self).live().push(
                Resource { id: r->Ok_0.id, kind: ResourceKind::Poller },
            ) && r->Ok_0.files == files && r->Ok_0.files@.len() > 0 && r->Ok_0.log_file@
                == poll_log_name(r->Ok_0.id) && r->Ok_0.header@ == header_text(
                json_string_list(strings_view(files@)),
                DEFAULT_PERIOD_MS as nat,
            ),
            r is Err ==> final(self).count() == old(self).count() && final(self).live() == old(
                self,
            ).live(),
            r is Err ==> r->Err_0@ == "no file to poll"@ || r->Err_0@ == "resource identifiers exhausted"@,
    {
        if files.len() == 0 {
            return Err(String::from_str("no file to poll"));
        }
        let header = create_header(&files, DEFAULT_PERIOD_MS);
        let id = match self.next_id() {
            Some(id) => id,
            None => return Err(String::from_str("resource identifiers exhausted")),
        };
        let ok = self.register(id, ResourceKind::Poller);
        assert(ok);
        Ok(PollerPlan { id, files, header, log_file: poll_log_file(id) })
    }

    /// Handles `Poll{pattern}`: resolves the pattern first (an empty match
    /// anywhere fails), then registers the poller over the files found
    /// (`register_poller`). On failure nothing changes and no identifier is
    /// used.
    pub fn open_poller(&mut self, pattern: &str) -> (r: Result<PollerPlan, String>)
        requires
            old(self).wf(),
        ensures
            final(self).wf(),
            final(self).session() == old(self).session(),
            (r is Err && r->Err_0@ == unbalanced_message(pattern@)) <==> !braces_balanced(pattern@),
            old(self).count() == u32::MAX ==> r is Err,
            r is Ok ==> exists|found: Seq<(String, Vec<String>)>|
                expansions_of(found) == brace_expansions(pattern@) && (forall|i: int|
                    0 <= i < found.len() ==> (#[trigger] found[i]).1@.len() > 0) && strings_view(
                    r->Ok_0.files@,
                ) == concat_all(match_lists(found)),
            r is Ok ==> r->Ok_0.id == Id((old(self).count() + 1) as u32) && final(self).count() == old(
                self,
            ).count() + 1 && final(self).live() == old(self).live().push(
                Resource { id: r->Ok_0.id, kind: ResourceKind::Poller },
            ) && r->Ok_0.files@.len() > 0 && r->Ok_0.log_file@ == poll_log_name(r->Ok_0.id)
                && r->Ok_0.header@ == header_text(
                json_string_list(strings_view(r->Ok_0.files@)),
                DEFAULT_PERIOD_MS as nat,
            ),
            r is Err ==> final(self).count() == old(self).count() && final(self).live() == old(
                self,
            ).live(),
    {
        let files = match lookup_paths(pattern) {
            Ok(f) => f,
            Err(e) => return Err(e),
        };
        let r = self.register_poller(files);
        proof {
            if r is Err {
                reveal_strlit("no file to poll");
                reveal_strlit("resource identifiers exhausted");
                reveal_strlit("unbalanced braces in '");
                assert(unbalanced_message(pattern@)[0] == 'u');
                assert(r->Err_0@[0] != 'u');
            }
        }
        r
    }

    /// Handles the first part of `Spawn`: allocates the identifier and
    /// names the process's files. The caller registers a background process
    /// once it runs.
    pub fn plan_spawn(&mut self, mode: SpawnMode) -> (r: Option<SpawnPlan>)
        requires
            old(self).wf(),
        ensures
            final(self).wf(),
            final(self).session() == old(self).session(),
            final(self).live() == old(self).live(),
            old(self).count() < u32::MAX ==> r is Some && r->Some_0.id == Id(
                (old(self).count() + 1) as u32,
            ) && final(self).count() == old(self).count() + 1 && r->Some_0.out_log@
                == out_log_name(r->Some_0.id) && r->Some_0.err_log@ == err_log_name(r->Some_0.id)
                && r->Some_0.data_dir@ == data_dir_name(r->Some_0.id) && r->Some_0.kind
                == spawned_kind(mode),
            old(self).count() == u32::MAX ==> r is None && final(self).count() == old(self).count(),
    {
        match self.next_id() {
            Some(id) => Some(
                SpawnPlan {
                    id,
                    out_log: out_log_file(id),
                    err_log: err_log_file(id),
                    data_dir: data_dir_file(id),
                    kind: process_kind(mode),
                },
            ),
            None => None,
        }
    }
}

proof fn lemma_counter_after(states: Seq<AgentState>, ids: Seq<Id>, k: int)
    requires
        states.len() == ids.len() + 1,
        states[0].count() == 0,
        forall|q: int| 0 <= q < ids.len() ==> #[trigger] states[q + 1].count() == states[q].count() + 1,
        0 <= k <= ids.len(),
    ensures
        states[k].count() == k,
    decreases k,
{
    if k > 0 {
        lemma_counter_after(states, ids, k - 1);
        assert(states[(k - 1) + 1].count() == states[k - 1].count() + 1);
    }
}

/// Identifiers go 1, 2, 3, ...: take the states of one agent from `new`
/// (counter 0) through a run of allocations, each as `next_id`,
/// `register_poller`, `open_poller` and `plan_spawn` state it (the
/// identifier handed out is one more than the counter, which then advances
/// by one). Then after `k` allocations the counter is `k`, the `k`-th
/// identifier is `k + 1`, and the identifiers strictly increase.
pub proof fn lemma_ids_sequential(states: Seq<AgentState>, ids: Seq<Id>)
    requires
        states.len() == ids.len() + 1,
        states[0].count() == 0,
        forall|k: int|
            0 <= k < ids.len() ==> (#[trigger] ids[k]).0 == states[k].count() + 1 && states[k
                + 1].count() == states[k].count() + 1,
    ensures
        forall|k: int| 0 <= k <= ids.len() ==> (#[trigger] states[k]).count() == k,
        forall|k: int| 0 <= k < ids.len() ==> (#[trigger] ids[k]).0 == k + 1,
        forall|k: int, j: int| 0 <= k < j < ids.len() ==> (#[trigger] ids[k]).0 < (#[trigger] ids[j]).0,
{
    assert forall|q: int| 0 <= q < ids.len() implies #[trigger] states[q + 1].count() == states[q].count()
        + 1 by {
        assert(ids[q].0 == states[q].count() + 1);
    }
    assert forall|k: int| 0 <= k <= ids.len() implies (#[trigger] states[k]).count() == k by {
        lemma_counter_after(states, ids, k);
    }
    assert forall|k: int| 0 <= k < ids.len() implies (#[trigger] ids[k]).0 == k + 1 by {
        lemma_counter_after(states, ids, k);
    }
}

/// Teardown goes newest first: of two resources stopped by one plan, the
/// one with the larger identifier is stopped earlier.
pub proof fn lemma_reverse_stop(s: AgentState, force: bool)
    requires
        s.wf(),
    ensures
        forall|i: int, j: int|
            0 <= i < j < stop_plan(s.live(), force).len() ==> (#[trigger] stop_plan(
                s.live(),
                force,
            )[i]).id.0 > (#[trigger] stop_plan(s.live(), force)[j]).id.0,
        forall|i: int|
            0 <= i < s.live().len() ==> exists|j: int|
                0 <= j < stop_plan(s.live(), force).len() && (#[trigger] stop_plan(
                    s.live(),
                    force,
                )[j]).id == (#[trigger] s.live()[i]).id,
{
    let p = stop_plan(s.live(), force);
    let n = s.live().len();
    assert forall|i: int, j: int| 0 <= i < j < p.len() implies (#[trigger] p[i]).id.0 > (
    #[trigger] p[j]).id.0 by {
        assert(s.live()[n - 1 - j].id.0 < s.live()[n - 1 - i].id.0);
    }
    assert forall|i: int| 0 <= i < n implies exists|j: int|
        0 <= j < p.len() && (#[trigger] p[j]).id == (#[trigger] s.live()[i]).id by {
        assert(p[n - 1 - i].id == s.live()[i].id);
    }
}

} // verus!
