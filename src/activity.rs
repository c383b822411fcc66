//! Activities: the commands of a chain. Each has a start phase and a stop
//! phase. A phase is split into a step (what to send to the agent, or how
//! long to sleep) and the decision taken on the agent's response; the
//! caller owns the connection and carries the steps out.

use vstd::prelude::*;

use crate::protocol::{Id, Request, Response, SpawnMode};
use crate::storage::Storage;
use crate::types::{copy_strings, strings_view, ArtifactValue, IniLike};

verus! {

/// Auxiliary metadata for the activity map: an identifier and an optional
/// string.
#[derive(Clone, Debug, PartialEq, Eq)]
pub struct PlotHint {
    pub id: Id,
    pub hint: Option<String>,
}

impl PlotHint {
    /// A copy of this hint.
    pub fn duplicate(&self) -> (r: PlotHint)
        ensures
            r == *self,
    {
        PlotHint { id: self.id, hint: copy_hint(&self.hint) }
    }
}

/// What the caller does for one phase of an activity.
#[derive(Debug, PartialEq, Eq)]
pub enum Step {
    /// Send this request and hand the response back.
    Send(Request),
    /// Suspend the calling worker for this many milliseconds.
    Sleep(u64),
    /// Nothing to do.
    Nothing,
}

/// One activity of a chain.
#[derive(Debug, PartialEq, Eq)]
pub enum Activity {
    /// Suspends the worker for `millis` milliseconds.
    Sleeper { millis: u64 },
    /// Polls the files matched by `pattern`.
    Poller { pattern: String, hint: Option<String>, id: Option<Id> },
    /// Spawns `comm` with `args`.
    Launcher {
        comm: String,
        args: Vec<String>,
        mode: SpawnMode,
        hint: Option<String>,
        id: Option<Id>,
    },
    /// Resolves `pattern` on the agent and stores the paths under the
    /// artifact name `output`.
    Lookup { pattern: String, output: String },
    /// Runs `iostat` in the background, on the devices held by the artifact
    /// named `devices` when there is one.
    Iostat { devices: Option<String>, id: Option<Id> },
}

pub open spec fn iostat_base_args() -> Seq<Seq<char>> {
    seq!["-d"@, "-t"@, "-x"@, "-m"@, "1"@]
}

fn copy_hint(h: &Option<String>) -> (r: Option<String>)
    ensures
        r == *h,
{
    match h {
        Some(s) => Some(s.clone()),
        None => None,
    }
}

fn iostat_base() -> (r: Vec<String>)
    ensures
        strings_view(r@) == iostat_base_args(),
{
    let mut v: Vec<String> = Vec::new();
    v.push(String::from_str("-d"));
    v.push(String::from_str("-t"));
    v.push(String::from_str("-x"));
    v.push(String::from_str("-m"));
    v.push(String::from_str("1"));
    assert(strings_view(v@) =~= iostat_base_args());
    v
}

/// `a` followed by copies of `b`.
fn append_strings(a: Vec<String>, b: &Vec<String>) -> (r: Vec<String>)
    ensures
        strings_view(r@) == strings_view(a@) + strings_view(b@),
{
    let mut r = a;
    let ghost start = r@;
    let mut i: usize = 0;
    while i < b.len()
        invariant
            i <= b@.len(),
            r@.len() == start.len() + i,
            forall|j: int| 0 <= j < start.len() ==> (#[trigger] r@[j]) == start[j],
            forall|j: int| 0 <= j < i ==> (#[trigger] r@[start.len() + j])@ == b@[j]@,
        decreases b@.len() - i,
    {
        r.push(b[i].clone());
        i += 1;
    }
    assert forall|j: int| 0 <= j < r@.len() implies strings_view(r@)[j] == (strings_view(start)
        + strings_view(b@))[j] by {
        if j >= start.len() {
            let t = j - start.len();
            assert(r@[start.len() + t]@ == b@[t]@);
        }
    }
    assert(strings_view(r@) =~= strings_view(start) + strings_view(b@));
    r
}

fn launcher(comm: &str, args: Vec<String>, mode: SpawnMode) -> (r: Activity)
    ensures
        r == (Activity::Launcher { comm: r->Launcher_comm, args, mode, hint: None, id: None }),
        r->Launcher_comm@ == comm@,
{
    Activity::Launcher { comm: String::from_str(comm), args, mode, hint: None, id: None }
}

/// Sleeps for `millis` milliseconds.
pub fn get_sleeper(millis: u64) -> (r: Activity)
    ensures
        r == (Activity::Sleeper { millis }),
{
    Activity::Sleeper { millis }
}

/// Polls the files matched by `pattern`.
pub fn poller(pattern: &str, hint: Option<String>) -> (r: Activity)
    ensures
        r is Poller,
        r->Poller_pattern@ == pattern@,
        r->Poller_hint == hint,
        r->Poller_id is None,
{
    Activity::Poller { pattern: String::from_str(pattern), hint, id: None }
}

pub fn proc_meminfo() -> (r: Activity)
    ensures
        r is Poller,
        r->Poller_pattern@ == "/proc/meminfo"@,
        r->Poller_hint is None,
        r->Poller_id is None,
{
    poller("/proc/meminfo", None)
}

pub fn proc_net_dev() -> (r: Activity)
    ensures
        r is Poller,
        r->Poller_pattern@ == "/proc/net/dev"@,
        r->Poller_hint is None,
        r->Poller_id is None,
{
    poller("/proc/net/dev", None)
}

/// Launches `comm` with `args` in `mode`.
pub fn launch(comm: &str, mode: SpawnMode, args: Vec<String>, hint: Option<String>) -> (r: Activity)
    ensures
        r is Launcher,
        r->Launcher_comm@ == comm@,
        r->Launcher_args == args,
        r->Launcher_mode == mode,
        r->Launcher_hint == hint,
        r->Launcher_id is None,
{
    Activity::Launcher { comm: String::from_str(comm), args, mode, hint, id: None }
}

/// `mpstat -P ALL 1`, killed on stop.
pub fn launch_mpstat() -> (r: Activity)
    ensures
        r is Launcher,
        r->Launcher_comm@ == "mpstat"@,
        strings_view(r->Launcher_args@) == seq!["-P"@, "ALL"@, "1"@],
        r->Launcher_mode == SpawnMode::BackgroundKill,
        r->Launcher_hint is None,
        r->Launcher_id is None,
{
    let mut args: Vec<String> = Vec::new();
    args.push(String::from_str("-P"));
    args.push(String::from_str("ALL"));
    args.push(String::from_str("1"));
    assert(strings_view(args@) =~= seq!["-P"@, "ALL"@, "1"@]);
    launcher("mpstat", args, SpawnMode::BackgroundKill)
}

/// `iostat -d -t -x -m 1` on `devs`, killed on stop.
pub fn launch_iostat_on(devs: &Vec<String>) -> (r: Activity)
    ensures
        r is Launcher,
        r->Launcher_comm@ == "iostat"@,
        strings_view(r->Launcher_args@) == iostat_base_args() + strings_view(devs@),
        r->Launcher_mode == SpawnMode::BackgroundKill,
        r->Launcher_hint is None,
        r->Launcher_id is None,
{
    let args = append_strings(iostat_base(), devs);
    launcher("iostat", args, SpawnMode::BackgroundKill)
}

/// `iostat -d -t -x -m 1` on every device.
pub fn launch_iostat() -> (r: Activity)
    ensures
        r is Launcher,
        r->Launcher_comm@ == "iostat"@,
        strings_view(r->Launcher_args@) == iostat_base_args(),
        r->Launcher_mode == SpawnMode::BackgroundKill,
        r->Launcher_hint is None,
        r->Launcher_id is None,
{
    let none: Vec<String> = Vec::new();
    let r = launch_iostat_on(&none);
    assert(iostat_base_args() + strings_view(none@) =~= iostat_base_args());
    r
}

/// `fio` with command-line arguments `cfg`, waited for on stop.
pub fn launch_fio(cfg: Vec<String>) -> (r: Activity)
    ensures
        r is Launcher,
        r->Launcher_comm@ == "fio"@,
        r->Launcher_args == cfg,
        r->Launcher_mode == SpawnMode::BackgroundWait,
        r->Launcher_hint is None,
        r->Launcher_id is None,
{
    launcher("fio", cfg, SpawnMode::BackgroundWait)
}

/// `flamegraph -F 99 -- --all-cpus`, waited for on stop.
pub fn launch_flamegraph() -> (r: Activity)
    ensures
        r is Launcher,
        r->Launcher_comm@ == "flamegraph"@,
        strings_view(r->Launcher_args@) == seq!["-F"@, "99"@, "--"@, "--all-cpus"@],
        r->Launcher_mode == SpawnMode::BackgroundWait,
        r->Launcher_hint is None,
        r->Launcher_id is None,
{
    let mut args: Vec<String> = Vec::new();
    args.push(String::from_str("-F"));
    args.push(String::from_str("99"));
    args.push(String::from_str("--"));
    args.push(String::from_str("--all-cpus"));
    assert(strings_view(args@) =~= seq!["-F"@, "99"@, "--"@, "--all-cpus"@]);
    launcher("flamegraph", args, SpawnMode::BackgroundWait)
}

/// Resolves `pattern` and stores the paths as `output`.
pub fn lookup_paths(pattern: &str, output: &str) -> (r: Activity)
    ensures
        r is Lookup,
        r->Lookup_pattern@ == pattern@,
        r->Lookup_output@ == output@,
{
    Activity::Lookup { pattern: String::from_str(pattern), output: String::from_str(output) }
}

/// `iostat` on the devices of the artifact `devices`, if given.
pub fn iostat(devices: Option<String>) -> (r: Activity)
    ensures
        r == (Activity::Iostat { devices, id: None }),
{
    Activity::Iostat { devices, id: None }
}

/// The request that starts `iostat` on `devs`.
pub open spec fn is_iostat_spawn(req: Request, devs: Seq<Seq<char>>) -> bool {
    match req {
        Request::Spawn { cmd, args, mode } => cmd@ == "iostat"@ && strings_view(args@)
            == iostat_base_args() + devs && mode == SpawnMode::BackgroundKill,
        _ => false,
    }
}

/// The outcome of a response that should carry a new identifier.
pub open spec fn id_outcome(r: Result<Option<Id>, String>, id: Option<Id>) -> bool {
    match id {
        Some(i) => r == Ok::<Option<Id>, String>(Some(i)),
        None => r is Err,
    }
}

pub open spec fn poll_result_id(resp: Response) -> Option<Id> {
    match resp {
        Response::Poll(Ok(id)) => Some(id),
        _ => None,
    }
}

/// The identifier a spawn in `mode` answers with, when it succeeded.
pub open spec fn spawn_result_id(resp: Response, mode: SpawnMode) -> Option<Id> {
    match resp {
        Response::SpawnFg(Ok(out)) => if mode == SpawnMode::Foreground {
            Some(out.id)
        } else {
            None
        },
        Response::SpawnBg(Ok(id)) => if mode != SpawnMode::Foreground {
            Some(id)
        } else {
            None
        },
        _ => None,
    }
}

/// Whether `resp` acknowledges stopping resource `id`.
pub open spec fn acknowledges_stop(resp: Option<Response>, id: Id) -> bool {
    resp == Some(Response::Stop(Ok(id)))
}

impl Activity {
    /// The identifier the agent gave this activity's resource, if started.
    pub open spec fn spec_id(&self) -> Option<Id> {
        match *self {
            Activity::Poller { id, .. } => id,
            Activity::Launcher { id, .. } => id,
            Activity::Iostat { id, .. } => id,
            _ => None,
        }
    }

    /// What to do to start this activity. The devices of `iostat` are read
    /// from `store`; a missing artifact is an error.
    pub fn start_step(&self, store: &Storage) -> (r: Result<Step, String>)
        requires
            store.wf(),
        ensures
            match *self {
                Activity::Sleeper { millis } => r == Ok::<Step, String>(Step::Sleep(millis)),
                Activity::Poller { pattern, .. } => r == Ok::<Step, String>(
                    Step::Send(Request::Poll { pattern }),
                ),
                Activity::Launcher { comm, args, mode, .. } => r is Ok && match r->Ok_0 {
                    Step::Send(Request::Spawn { cmd, args: a, mode: m }) => cmd == comm
                        && strings_view(a@) == strings_view(args@) && m == mode,
                    _ => false,
                },
                Activity::Lookup { pattern, .. } => r == Ok::<Step, String>(
                    Step::Send(Request::LookupPaths { pattern }),
                ),
                Activity::Iostat { devices: None, .. } => r is Ok && match r->Ok_0 {
                    Step::Send(req) => is_iostat_spawn(req, Seq::empty()),
                    _ => false,
                },
                Activity::Iostat { devices: Some(name), .. } => if store@.contains_key(name@) {
                    r is Ok && match r->Ok_0 {
                        Step::Send(req) => is_iostat_spawn(req, store@[name@]),
                        _ => false,
                    }
                } else {
                    r is Err
                },
            },
    {
        match self {
            Activity::Sleeper { millis } => Ok(Step::Sleep(*millis)),
            Activity::Poller { pattern, .. } => Ok(Step::Send(Request::Poll { pattern: pattern.clone() })),
            Activity::Launcher { comm, args, mode, .. } => Ok(
                Step::Send(Request::Spawn { cmd: comm.clone(), args: copy_strings(args), mode: *mode }),
            ),
            Activity::Lookup { pattern, .. } => Ok(
                Step::Send(Request::LookupPaths { pattern: pattern.clone() }),
            ),
            Activity::Iostat { devices, .. } => {
                let args = match devices {
                    None => {
                        let b = iostat_base();
                        assert(strings_view(b@) + Seq::<Seq<char>>::empty() =~= strings_view(b@));
                        b
                    },
                    Some(name) => match store.get(name.as_str()) {
                        Ok(ArtifactValue::StringList(devs)) => append_strings(iostat_base(), &devs),
                        Err(e) => return Err(e),
                    },
                };
                Ok(
                    Step::Send(
                        Request::Spawn {
                            cmd: String::from_str("iostat"),
                            args,
                            mode: SpawnMode::BackgroundKill,
                        },
                    ),
                )
            },
        }
    }

    /// Takes the agent's response to the start request. Pollers and
    /// launchers remember and return the identifier they were given; a
    /// lookup stores its paths under its output name. Failures reported by
    /// the agent, responses of the wrong kind, and an output name that is
    /// already set are errors.
    pub fn start_done(&mut self, resp: Response, store: &mut Storage) -> (r: Result<
        Option<Id>,
        String,
    >)
        requires
            old(store).wf(),
        ensures
            final(store).wf(),
            match *old(self) {
                Activity::Poller { pattern, hint, .. } => id_outcome(r, poll_result_id(resp))
                    && *final(self) == (Activity::Poller {
                    pattern,
                    hint,
                    id: if r is Ok {
                        poll_result_id(resp)
                    } else {
                        None
                    },
                }) && final(store)@ == old(store)@,
                Activity::Launcher { comm, args, mode, hint, .. } => id_outcome(
                    r,
                    spawn_result_id(resp, mode),
                ) && *final(self) == (Activity::Launcher {
                    comm,
                    args,
                    mode,
                    hint,
                    id: if r is Ok {
                        spawn_result_id(resp, mode)
                    } else {
                        None
                    },
                }) && final(store)@ == old(store)@,
                Activity::Iostat { devices, .. } => id_outcome(
                    r,
                    spawn_result_id(resp, SpawnMode::BackgroundKill),
                ) && *final(self) == (Activity::Iostat {
                    devices,
                    id: if r is Ok {
                        spawn_result_id(resp, SpawnMode::BackgroundKill)
                    } else {
                        None
                    },
                }) && final(store)@ == old(store)@,
                Activity::Lookup { output, .. } => *final(self) == *old(self) && match resp {
                    Response::LookupPaths(Ok(paths)) => if old(store)@.contains_key(output@) {
                        r is Err && final(store)@ == old(store)@
                    } else {
                        r == Ok::<Option<Id>, String>(None) && final(store)@ == old(store)@.insert(
                            output@,
                            strings_view(paths@),
                        )
                    },
                    _ => r is Err && final(store)@ == old(store)@,
                },
                Activity::Sleeper { .. } => r is Err && *final(self) == *old(self) && final(store)@ == old(store)@,
            },
    {
        match self {
            Activity::Poller { id, .. } => match resp {
                Response::Poll(Ok(new_id)) => {
                    *id = Some(new_id);
                    Ok(Some(new_id))
                },
                Response::Poll(Err(e)) => {
                    *id = None;
                    Err(e)
                },
                _ => {
                    *id = None;
                    Err(String::from_str("protocol violation: unexpected response to Poll"))
                },
            },
            Activity::Launcher { mode, id, .. } => {
                let got: Option<Id> = match resp {
                    Response::SpawnFg(Ok(out)) => match mode {
                        SpawnMode::Foreground => Some(out.id),
                        _ => None,
                    },
                    Response::SpawnBg(Ok(new_id)) => match mode {
                        SpawnMode::Foreground => None,
                        _ => Some(new_id),
                    },
                    _ => None,
                };
                *id = got;
                match got {
                    Some(i) => Ok(Some(i)),
                    None => Err(String::from_str("launch failed or got an unexpected response")),
                }
            },
            Activity::Iostat { id, .. } => {
                let got: Option<Id> = match resp {
                    Response::SpawnBg(Ok(new_id)) => Some(new_id),
                    _ => None,
                };
                *id = got;
                match got {
                    Some(i) => Ok(Some(i)),
                    None => Err(String::from_str("iostat failed or got an unexpected response")),
                }
            },
            Activity::Lookup { output, .. } => match resp {
                Response::LookupPaths(Ok(paths)) => {
                    let ghost v = strings_view(paths@);
                    let val = ArtifactValue::StringList(paths);
                    assert(val@ == v);
                    match store.set(output.as_str(), val) {
                        Ok(()) => Ok(None),
                        Err(e) => Err(e),
                    }
                },
                Response::LookupPaths(Err(e)) => Err(e),
                _ => Err(String::from_str("protocol violation: unexpected response to LookupPaths")),
            },
            Activity::Sleeper { .. } => Err(String::from_str("a sleeper expects no response")),
        }
    }

    /// What to do to stop this activity: `Stop{id}` for a started poller or
    /// background process, nothing for the others. Stopping a poller or
    /// background process that never started is an error.
    pub fn stop_step(&self) -> (r: Result<Step, String>)
        ensures
            match *self {
                Activity::Poller { id, .. } => match id {
                    Some(i) => r == Ok::<Step, String>(Step::Send(Request::Stop { id: i })),
                    None => r is Err,
                },
                Activity::Iostat { id, .. } => match id {
                    Some(i) => r == Ok::<Step, String>(Step::Send(Request::Stop { id: i })),
                    None => r is Err,
                },
                Activity::Launcher { mode, id, .. } => if mode == SpawnMode::Foreground {
                    r == Ok::<Step, String>(Step::Nothing)
                } else {
                    match id {
                        Some(i) => r == Ok::<Step, String>(Step::Send(Request::Stop { id: i })),
                        None => r is Err,
                    }
                },
                _ => r == Ok::<Step, String>(Step::Nothing),
            },
    {
        match self {
            Activity::Poller { id, .. } | Activity::Iostat { id, .. } => match id {
                Some(i) => Ok(Step::Send(Request::Stop { id: *i })),
                None => Err(String::from_str("trying to stop an activity that never started")),
            },
            Activity::Launcher { mode, id, .. } => match mode {
                SpawnMode::Foreground => Ok(Step::Nothing),
                _ => match id {
                    Some(i) => Ok(Step::Send(Request::Stop { id: *i })),
                    None => Err(String::from_str("trying to stop a process that never started")),
                },
            },
            _ => Ok(Step::Nothing),
        }
    }

    /// Takes the response to the stop step (`None` when nothing was sent)
    /// and gives the activity's plot hint. A stop must be acknowledged with
    /// the activity's own identifier.
    pub fn stop_done(&self, resp: Option<Response>) -> (r: Result<Option<PlotHint>, String>)
        ensures
            match *self {
                Activity::Poller { hint, id, .. } => match id {
                    Some(i) => if acknowledges_stop(resp, i) {
                        r == Ok::<Option<PlotHint>, String>(Some(PlotHint { id: i, hint }))
                    } else {
                        r is Err
                    },
                    None => r is Err,
                },
                Activity::Iostat { id, .. } => match id {
                    Some(i) => if acknowledges_stop(resp, i) {
                        r == Ok::<Option<PlotHint>, String>(Some(PlotHint { id: i, hint: None }))
                    } else {
                        r is Err
                    },
                    None => r is Err,
                },
                Activity::Launcher { mode, hint, id, .. } => match id {
                    Some(i) => if mode == SpawnMode::Foreground || acknowledges_stop(resp, i) {
                        r == Ok::<Option<PlotHint>, String>(Some(PlotHint { id: i, hint }))
                    } else {
                        r is Err
                    },
                    None => r is Err,
                },
                _ => r == Ok::<Option<PlotHint>, String>(None),
            },
    {
        let (id, hint, fg) = match self {
            Activity::Poller { hint, id, .. } => (id, copy_hint(hint), false),
            Activity::Iostat { id, .. } => (id, None, false),
            Activity::Launcher { mode, hint, id, .. } => (
                id,
                copy_hint(hint),
                match mode {
                    SpawnMode::Foreground => true,
                    _ => false,
                },
            ),
            _ => return Ok(None),
        };
        let i = match id {
            Some(i) => *i,
            None => return Err(String::from_str("activity never started")),
        };
        if fg {
            return Ok(Some(PlotHint { id: i, hint }));
        }
        match resp {
            Some(Response::Stop(Ok(got))) => if got == i {
                Ok(Some(PlotHint { id: i, hint }))
            } else {
                Err(String::from_str("protocol violation: stop acknowledged another identifier"))
            },
            Some(Response::Stop(Err(e))) => Err(e),
            _ => Err(String::from_str("protocol violation: unexpected response to Stop")),
        }
    }
}

} // verus!
