//! The controller's side of a scenario: its model, the check that every
//! agent a stage names is declared, the construction of activities from
//! their configuration, the order of the start and stop phases, and the
//! lines of the activity map.

use vstd::prelude::*;

use crate::activity::{
    get_sleeper, iostat, launch, launch_flamegraph, launch_mpstat, lookup_paths, poller,
    proc_meminfo, proc_net_dev, Activity, PlotHint,
};
use crate::common::{padded3, padded3_string};
use crate::fio::launch_fio_ini;
use crate::types::{strings_view, ConfigValue};

verus! {

/// Network endpoint of an agent.
#[derive(Clone, Debug, PartialEq, Eq)]
pub struct Endpoint {
    pub host: String,
    pub port: u16,
}

/// Configuration of one activity of a chain: an optional typed value and
/// the input and output artifact bindings `(localName, globalName)`.
#[derive(Debug, PartialEq, Eq)]
pub struct ActivityConfig {
    pub value: Option<ConfigValue>,
    pub input: Vec<(String, String)>,
    pub output: Vec<(String, String)>,
}

/// One stage: a name, and for each agent its chain of `(kind, config)`.
#[derive(Debug, PartialEq, Eq)]
pub struct RunStage {
    pub name: String,
    pub chains: Vec<(String, Vec<(String, ActivityConfig)>)>,
}

/// A scenario: declared agents and ordered stages.
#[derive(Debug, PartialEq, Eq)]
pub struct Scenario {
    pub agents: Vec<(String, Endpoint)>,
    pub stages: Vec<RunStage>,
}

/// One agent's chain as the configuration file gives it: each activity is
/// a map that should hold exactly one entry, kind to configuration.
#[derive(Debug, PartialEq, Eq)]
pub struct RawChain {
    pub agent: String,
    pub activities: Vec<Vec<(String, ActivityConfig)>>,
}

/// A stage as the configuration file gives it: a map that should hold
/// exactly one entry, the stage name to its chains.
#[derive(Debug, PartialEq, Eq)]
pub struct RawStage {
    pub entries: Vec<(String, Vec<RawChain>)>,
}

/// A scenario as the configuration file gives it.
#[derive(Debug, PartialEq, Eq)]
pub struct RawConfig {
    pub agents: Vec<(String, Endpoint)>,
    pub runtime: Vec<RawStage>,
}

pub open spec fn chain_shape_ok(c: RawChain) -> bool {
    forall|a: int| 0 <= a < c.activities@.len() ==> (#[trigger] c.activities@[a])@.len() == 1
}

pub open spec fn stage_shape_ok(st: RawStage) -> bool {
    st.entries@.len() == 1 && forall|c: int|
        0 <= c < st.entries@[0].1@.len() ==> chain_shape_ok(#[trigger] st.entries@[0].1@[c])
}

pub open spec fn chain_from(c: RawChain, chain: (String, Vec<(String, ActivityConfig)>)) -> bool {
    chain.0 == c.agent && chain.1@.len() == c.activities@.len() && forall|a: int|
        0 <= a < c.activities@.len() ==> (#[trigger] chain.1@[a]) == c.activities@[a]@[0]
}

pub open spec fn stage_from(st: RawStage, stage: RunStage) -> bool {
    stage.name == st.entries@[0].0 && stage.chains@.len() == st.entries@[0].1@.len() && forall|c: int|
        0 <= c < stage.chains@.len() ==> chain_from(st.entries@[0].1@[c], #[trigger] stage.chains@[c])
}

fn chain_ok(c: &RawChain) -> (r: bool)
    ensures
        r == chain_shape_ok(*c),
{
    let mut a: usize = 0;
    while a < c.activities.len()
        invariant
            a <= c.activities@.len(),
            forall|j: int| 0 <= j < a ==> (#[trigger] c.activities@[j])@.len() == 1,
        decreases c.activities@.len() - a,
    {
        if c.activities[a].len() != 1 {
            return false;
        }
        a += 1;
    }
    true
}

fn stage_check(st: &RawStage, index: usize) -> (r: Result<(), String>)
    ensures
        r is Ok <==> stage_shape_ok(*st),
{
    if st.entries.len() != 1 {
        let mut msg = String::from_str("stage #");
        msg.append(crate::common::decimal_string(index as u64).as_str());
        msg.append(" must be a map with a single stage name");
        return Err(msg);
    }
    let chains = &st.entries[0].1;
    let mut c: usize = 0;
    while c < chains.len()
        invariant
            st.entries@.len() == 1,
            *chains == st.entries@[0].1,
            c <= chains@.len(),
            forall|j: int| 0 <= j < c ==> chain_shape_ok(#[trigger] chains@[j]),
        decreases chains@.len() - c,
    {
        if !chain_ok(&chains[c]) {
            let mut msg = String::from_str("bad stage '");
            msg.append(st.entries[0].0.as_str());
            msg.append("': each activity must be a map with a single activity name");
            return Err(msg);
        }
        c += 1;
    }
    Ok(())
}

fn take_chain(c: RawChain) -> (r: (String, Vec<(String, ActivityConfig)>))
    requires
        chain_shape_ok(c),
    ensures
        chain_from(c, r),
{
    let ghost whole = c;
    let RawChain { agent, activities } = c;
    let ghost orig = activities@;
    let mut rest = activities;
    let total = rest.len();
    let mut out: Vec<(String, ActivityConfig)> = Vec::new();
    let mut a: usize = 0;
    while rest.len() > 0
        invariant
            a <= orig.len(),
            orig.len() == total,
            orig == whole.activities@,
            agent == whole.agent,
            chain_shape_ok(whole),
            rest@ == orig.subrange(a as int, orig.len() as int),
            out@.len() == a,
            forall|j: int| 0 <= j < a ==> (#[trigger] out@[j]) == orig[j]@[0],
        decreases rest@.len(),
    {
        assert(rest@.len() == orig.len() - a);
        let mut m = rest.remove(0);
        assert(m == orig[a as int]);
        assert(whole.activities@[a as int]@.len() == 1);
        let entry = m.remove(0);
        out.push(entry);
        a += 1;
        assert(out@[a - 1] == orig[a - 1]@[0]);
        assert(rest@ =~= orig.subrange(a as int, orig.len() as int));
    }
    (agent, out)
}

fn take_stage(st: RawStage) -> (r: RunStage)
    requires
        stage_shape_ok(st),
    ensures
        stage_from(st, r),
{
    let ghost whole = st;
    let mut entries = st.entries;
    let (name, chains) = entries.remove(0);
    let ghost orig = chains@;
    assert(orig == whole.entries@[0].1@ && name == whole.entries@[0].0);
    let mut rest = chains;
    let total = rest.len();
    let mut out: Vec<(String, Vec<(String, ActivityConfig)>)> = Vec::new();
    let mut c: usize = 0;
    while rest.len() > 0
        invariant
            c <= orig.len(),
            orig.len() == total,
            stage_shape_ok(whole),
            orig == whole.entries@[0].1@,
            rest@ == orig.subrange(c as int, orig.len() as int),
            out@.len() == c,
            forall|j: int| 0 <= j < c ==> chain_from(orig[j], #[trigger] out@[j]),
        decreases rest@.len(),
    {
        assert(rest@.len() == orig.len() - c);
        let rc = rest.remove(0);
        assert(rc == orig[c as int]);
        assert(chain_shape_ok(whole.entries@[0].1@[c as int]));
        out.push(take_chain(rc));
        c += 1;
        assert(rest@ =~= orig.subrange(c as int, orig.len() as int));
    }
    RunStage { name, chains: out }
}

/// Checks the shape of a configuration (each stage a single-entry map, each
/// activity a single-entry map) and turns it into a scenario, keeping every
/// stage, chain and activity in order.
pub fn shape_config(raw: RawConfig) -> (r: Result<Scenario, String>)
    ensures
        r is Ok <==> forall|k: int| 0 <= k < raw.runtime@.len() ==> stage_shape_ok(#[trigger] raw.runtime@[k]),
        r is Ok ==> r->Ok_0.agents == raw.agents && r->Ok_0.stages@.len() == raw.runtime@.len()
            && forall|k: int| 0 <= k < raw.runtime@.len() ==> stage_from(#[trigger] raw.runtime@[k], r->Ok_0.stages@[k]),
{
    let mut k: usize = 0;
    while k < raw.runtime.len()
        invariant
            k <= raw.runtime@.len(),
            forall|j: int| 0 <= j < k ==> stage_shape_ok(#[trigger] raw.runtime@[j]),
        decreases raw.runtime@.len() - k,
    {
        match stage_check(&raw.runtime[k], k) {
            Ok(()) => {},
            Err(e) => return Err(e),
        }
        k += 1;
    }
    let ghost whole = raw;
    let RawConfig { agents, runtime } = raw;
    let ghost orig = runtime@;
    let mut rest = runtime;
    let total = rest.len();
    let mut stages: Vec<RunStage> = Vec::new();
    let mut k: usize = 0;
    while rest.len() > 0
        invariant
            k <= orig.len(),
            orig.len() == total,
            orig == whole.runtime@,
            agents == whole.agents,
            forall|j: int| 0 <= j < orig.len() ==> stage_shape_ok(#[trigger] orig[j]),
            rest@ == orig.subrange(k as int, orig.len() as int),
            stages@.len() == k,
            forall|j: int| 0 <= j < k ==> stage_from(orig[j], #[trigger] stages@[j]),
        decreases rest@.len(),
    {
        assert(rest@.len() == orig.len() - k);
        let st = rest.remove(0);
        assert(st == orig[k as int]);
        stages.push(take_stage(st));
        k += 1;
        assert(rest@ =~= orig.subrange(k as int, orig.len() as int));
    }
    Ok(Scenario { agents, stages })
}

pub open spec fn declares(agents: Seq<(String, Endpoint)>, name: Seq<char>) -> bool {
    exists|i: int| 0 <= i < agents.len() && (#[trigger] agents[i]).0@ == name
}

/// Every agent named by a stage is declared.
pub open spec fn stages_reference_declared(s: Scenario) -> bool {
    forall|k: int, c: int|
        0 <= k < s.stages@.len() && 0 <= c < s.stages@[k].chains@.len() ==> declares(
            s.agents@,
            (#[trigger] s.stages@[k].chains@[c]).0@,
        )
}

pub open spec fn scenario_valid(s: Scenario) -> bool {
    s.agents@.len() > 0 && s.stages@.len() > 0 && stages_reference_declared(s)
}

fn is_declared(agents: &Vec<(String, Endpoint)>, name: &String) -> (r: bool)
    ensures
        r == declares(agents@, name@),
{
    let mut i: usize = 0;
    while i < agents.len()
        invariant
            i <= agents@.len(),
            forall|j: int| 0 <= j < i ==> (#[trigger] agents@[j]).0@ != name@,
        decreases agents@.len() - i,
    {
        if agents[i].0 == *name {
            return true;
        }
        i += 1;
    }
    false
}

/// Checks a scenario: at least one agent, at least one stage, and no stage
/// naming an undeclared agent.
pub fn verify_config(s: &Scenario) -> (r: Result<(), String>)
    ensures
        r is Ok <==> scenario_valid(*s),
{
    if s.agents.len() == 0 {
        return Err(String::from_str("expected at least one agent in 'setup', but got none"));
    }
    if s.stages.len() == 0 {
        return Err(String::from_str("expected at least one stage in 'runtime', but got none"));
    }
    let mut k: usize = 0;
    while k < s.stages.len()
        invariant
            k <= s.stages@.len(),
            forall|a: int, c: int|
                0 <= a < k && 0 <= c < s.stages@[a].chains@.len() ==> declares(
                    s.agents@,
                    (#[trigger] s.stages@[a].chains@[c]).0@,
                ),
        decreases s.stages@.len() - k,
    {
        let stage = &s.stages[k];
        let mut c: usize = 0;
        while c < stage.chains.len()
            invariant
                k < s.stages@.len(),
                *stage == s.stages@[k as int],
                c <= stage.chains@.len(),
                forall|a: int, d: int|
                    0 <= a < k && 0 <= d < s.stages@[a].chains@.len() ==> declares(
                        s.agents@,
                        (#[trigger] s.stages@[a].chains@[d]).0@,
                    ),
                forall|d: int| 0 <= d < c ==> declares(s.agents@, (#[trigger] stage.chains@[d]).0@),
            decreases stage.chains@.len() - c,
        {
            if !is_declared(&s.agents, &stage.chains[c].0) {
                let mut msg = String::from_str("agent '");
                msg.append(stage.chains[c].0.as_str());
                msg.append("' not found");
                return Err(msg);
            }
            c += 1;
        }
        k += 1;
    }
    Ok(())
}

/// The global name bound to `local` in `bindings`, if any (first binding).
pub open spec fn binding_of(bindings: Seq<(String, String)>, local: Seq<char>) -> Option<String>
    decreases bindings.len(),
{
    if bindings.len() == 0 {
        None
    } else if bindings[0].0@ == local {
        Some(bindings[0].1)
    } else {
        binding_of(bindings.drop_first(), local)
    }
}

fn find_binding(bindings: &Vec<(String, String)>, local: &str) -> (r: Option<String>)
    ensures
        r == binding_of(bindings@, local@),
{
    let mut i: usize = 0;
    let key = String::from_str(local);
    assert(bindings@.subrange(0, bindings@.len() as int) =~= bindings@);
    while i < bindings.len()
        invariant
            i <= bindings@.len(),
            key@ == local@,
            binding_of(bindings@, local@) == binding_of(bindings@.subrange(i as int, bindings@.len() as int), local@),
        decreases bindings@.len() - i,
    {
        assert(bindings@.subrange(i as int, bindings@.len() as int).drop_first() =~= bindings@.subrange(
            i + 1,
            bindings@.len() as int,
        ));
        if bindings[i].0 == key {
            return Some(bindings[i].1.clone());
        }
        i += 1;
    }
    None
}

/// Whether `create_activity` builds an activity of kind `name` from `cfg`.
pub open spec fn accepts(name: Seq<char>, cfg: ActivityConfig) -> bool {
    if name == "sleep"@ {
        cfg.value is Some && cfg.value->0 is Time
    } else if name == "poller"@ {
        cfg.value is Some && cfg.value->0 is PollArgs
    } else if name == "launch"@ {
        cfg.value is Some && cfg.value->0 is LaunchArgs
    } else if name == "lookup_paths"@ {
        cfg.value is Some && cfg.value->0 is String && binding_of(cfg.output@, "paths"@) is Some
    } else if name == "fio"@ {
        cfg.value is Some && cfg.value->0 is Ini
    } else {
        name == "iostat"@ || name == "proc_meminfo"@ || name == "proc_net_dev"@ || name
            == "mpstat"@ || name == "flamegraph"@
    }
}

/// The activity `create_activity` builds for kind `name` from `cfg`.
pub open spec fn built_from(name: Seq<char>, cfg: ActivityConfig, a: Activity) -> bool {
    if name == "sleep"@ {
        match cfg.value {
            Some(ConfigValue::Time(ms)) => a == (Activity::Sleeper { millis: ms }),
            _ => false,
        }
    } else if name == "poller"@ {
        match cfg.value {
            Some(ConfigValue::PollArgs { pattern, hint }) => (a is Poller) && a->Poller_pattern@
                == pattern@ && a->Poller_hint == hint && a->Poller_id is None,
            _ => false,
        }
    } else if name == "launch"@ {
        match cfg.value {
            Some(ConfigValue::LaunchArgs { comm, mode, args, hint }) => (a is Launcher)
                && a->Launcher_comm@ == comm@ && strings_view(a->Launcher_args@) == strings_view(
                args@,
            ) && a->Launcher_mode == mode && a->Launcher_hint == hint && a->Launcher_id is None,
            _ => false,
        }
    } else if name == "lookup_paths"@ {
        match (cfg.value, binding_of(cfg.output@, "paths"@)) {
            (Some(ConfigValue::String(pattern)), Some(out)) => (a is Lookup) && a->Lookup_pattern@
                == pattern@ && a->Lookup_output@ == out@,
            _ => false,
        }
    } else if name == "fio"@ {
        match cfg.value {
            Some(ConfigValue::Ini(ini)) => (a is Launcher) && a->Launcher_comm@ == "fio"@
                && strings_view(a->Launcher_args@) == crate::fio::fio_args(ini) && a->Launcher_mode
                == crate::protocol::SpawnMode::BackgroundWait && a->Launcher_id is None,
            _ => false,
        }
    } else if name == "iostat"@ {
        a == (Activity::Iostat { devices: binding_of(cfg.input@, "devices"@), id: None })
    } else if name == "proc_meminfo"@ {
        (a is Poller) && a->Poller_pattern@ == "/proc/meminfo"@ && a->Poller_hint is None
            && a->Poller_id is None
    } else if name == "proc_net_dev"@ {
        (a is Poller) && a->Poller_pattern@ == "/proc/net/dev"@ && a->Poller_hint is None
            && a->Poller_id is None
    } else if name == "mpstat"@ {
        (a is Launcher) && a->Launcher_comm@ == "mpstat"@ && strings_view(a->Launcher_args@)
            == seq!["-P"@, "ALL"@, "1"@] && a->Launcher_mode
            == crate::protocol::SpawnMode::BackgroundKill && a->Launcher_hint is None
            && a->Launcher_id is None
    } else if name == "flamegraph"@ {
        (a is Launcher) && a->Launcher_comm@ == "flamegraph"@ && strings_view(a->Launcher_args@)
            == seq!["-F"@, "99"@, "--"@, "--all-cpus"@] && a->Launcher_mode
            == crate::protocol::SpawnMode::BackgroundWait && a->Launcher_hint is None
            && a->Launcher_id is None
    } else {
        false
    }
}

/// Builds the activity of kind `name` from its configuration:
/// `sleep` (a time), `poller` (pattern and hint), `launch` (command, mode,
/// arguments, hint), `lookup_paths` (a pattern and the output binding
/// `paths`), `iostat` (optional input binding `devices`), and the argument-
/// less `proc_meminfo`, `proc_net_dev`, `mpstat` and `flamegraph`; `fio`
/// takes an INI-like job description. An
/// unknown kind or a configuration of the wrong shape is an error.
pub fn create_activity(name: &str, cfg: &ActivityConfig) -> (r: Result<Activity, String>)
    ensures
        r is Ok <==> accepts(name@, *cfg),
        r is Ok ==> built_from(name@, *cfg, r->Ok_0),
        name@ == "fio"@ ==> match cfg.value {
            Some(ConfigValue::Ini(ini)) => (r is Ok) && (r->Ok_0 is Launcher)
                && r->Ok_0->Launcher_comm@ == "fio"@ && strings_view(r->Ok_0->Launcher_args@)
                == crate::fio::fio_args(ini) && r->Ok_0->Launcher_mode
                == crate::protocol::SpawnMode::BackgroundWait,
            _ => r is Err,
        },
        name@ == "sleep"@ ==> match cfg.value {
            Some(ConfigValue::Time(ms)) => r == Ok::<Activity, String>(
                Activity::Sleeper { millis: ms },
            ),
            _ => r is Err,
        },
        name@ == "poller"@ ==> match cfg.value {
            Some(ConfigValue::PollArgs { pattern, hint }) => (r is Ok) && (r->Ok_0 is Poller)
                && r->Ok_0->Poller_pattern@ == pattern@ && r->Ok_0->Poller_hint == hint
                && r->Ok_0->Poller_id is None,
            _ => r is Err,
        },
        name@ == "launch"@ ==> match cfg.value {
            Some(ConfigValue::LaunchArgs { comm, mode, args, hint }) => (r is Ok) && (r->Ok_0 is Launcher)
                && r->Ok_0->Launcher_comm@ == comm@ && strings_view(r->Ok_0->Launcher_args@)
                == strings_view(args@) && r->Ok_0->Launcher_mode == mode && r->Ok_0->Launcher_hint
                == hint && r->Ok_0->Launcher_id is None,
            _ => r is Err,
        },
        name@ == "lookup_paths"@ ==> match (cfg.value, binding_of(cfg.output@, "paths"@)) {
            (Some(ConfigValue::String(pattern)), Some(out)) => (r is Ok) && (r->Ok_0 is Lookup)
                && r->Ok_0->Lookup_pattern@ == pattern@ && r->Ok_0->Lookup_output@ == out@,
            _ => r is Err,
        },
        name@ == "iostat"@ ==> r == Ok::<Activity, String>(
            Activity::Iostat { devices: binding_of(cfg.input@, "devices"@), id: None },
        ),
        (name@ == "proc_meminfo"@ || name@ == "proc_net_dev"@ || name@ == "mpstat"@ || name@
            == "flamegraph"@) ==> r is Ok,
{
    proof {
        reveal_strlit("sleep");
        reveal_strlit("poller");
        reveal_strlit("launch");
        reveal_strlit("lookup_paths");
        reveal_strlit("iostat");
        reveal_strlit("proc_meminfo");
        reveal_strlit("proc_net_dev");
        reveal_strlit("mpstat");
        reveal_strlit("flamegraph");
        reveal_strlit("fio");
        assert("fio"@.len() == 3);
        assert("sleep"@.len() == 5);
        assert("poller"@.len() == 6 && "poller"@[0] == 'p');
        assert("launch"@.len() == 6 && "launch"@[0] == 'l');
        assert("iostat"@.len() == 6 && "iostat"@[0] == 'i');
        assert("mpstat"@.len() == 6 && "mpstat"@[0] == 'm');
        assert("flamegraph"@.len() == 10);
        assert("lookup_paths"@.len() == 12 && "lookup_paths"@[0] == 'l');
        assert("proc_meminfo"@.len() == 12 && "proc_meminfo"@[0] == 'p' && "proc_meminfo"@[5]
            == 'm');
        assert("proc_net_dev"@.len() == 12 && "proc_net_dev"@[5] == 'n');
    }
    let n = String::from_str(name);
    if n == String::from_str("sleep") {
        match &cfg.value {
            Some(ConfigValue::Time(ms)) => Ok(get_sleeper(*ms)),
            _ => Err(String::from_str("'sleep' expects a time")),
        }
    } else if n == String::from_str("poller") {
        match &cfg.value {
            Some(ConfigValue::PollArgs { pattern, hint }) => {
                let h = match hint {
                    Some(h) => Some(h.clone()),
                    None => None,
                };
                Ok(poller(pattern.as_str(), h))
            },
            _ => Err(String::from_str("'poller' expects a pattern")),
        }
    } else if n == String::from_str("launch") {
        match &cfg.value {
            Some(ConfigValue::LaunchArgs { comm, mode, args, hint }) => {
                let h = match hint {
                    Some(h) => Some(h.clone()),
                    None => None,
                };
                Ok(launch(comm.as_str(), *mode, crate::types::copy_strings(args), h))
            },
            _ => Err(String::from_str("'launch' expects a command and a mode")),
        }
    } else if n == String::from_str("lookup_paths") {
        let out = find_binding(&cfg.output, "paths");
        match (&cfg.value, out) {
            (Some(ConfigValue::String(pattern)), Some(out)) => Ok(
                lookup_paths(pattern.as_str(), out.as_str()),
            ),
            _ => Err(String::from_str("'lookup_paths' expects a pattern and an output 'paths'")),
        }
    } else if n == String::from_str("fio") {
        match &cfg.value {
            Some(ConfigValue::Ini(ini)) => Ok(launch_fio_ini(ini)),
            _ => Err(String::from_str("'fio' expects a job description")),
        }
    } else if n == String::from_str("iostat") {
        Ok(iostat(find_binding(&cfg.input, "devices")))
    } else if n == String::from_str("proc_meminfo") {
        Ok(proc_meminfo())
    } else if n == String::from_str("proc_net_dev") {
        Ok(proc_net_dev())
    } else if n == String::from_str("mpstat") {
        Ok(launch_mpstat())
    } else if n == String::from_str("flamegraph") {
        Ok(launch_flamegraph())
    } else {
        let mut msg = String::from_str("failed to find factory for '");
        msg.append(name);
        msg.append("'");
        Err(msg)
    }
}

/// The stages of a scenario in start order, as indices.
pub open spec fn start_order(n: nat) -> Seq<nat> {
    Seq::new(n, |i: int| i as nat)
}

/// The stages in stop order: the reverse of the start order.
pub open spec fn stop_order(n: nat) -> Seq<nat> {
    Seq::new(n, |i: int| (n - 1 - i) as nat)
}

/// Indices `0..n`, in the order stages are started (and, within a chain,
/// activities are started).
pub fn forward_indices(n: usize) -> (r: Vec<usize>)
    ensures
        r@.len() == n,
        forall|i: int| 0 <= i < n ==> (#[trigger] r@[i]) as nat == start_order(n as nat)[i],
{
    let mut r: Vec<usize> = Vec::new();
    let mut i: usize = 0;
    while i < n
        invariant
            i <= n,
            r@.len() == i,
            forall|j: int| 0 <= j < i ==> (#[trigger] r@[j]) == j,
        decreases n - i,
    {
        r.push(i);
        i += 1;
    }
    r
}

/// Indices `n-1` down to `0`: the order stages are stopped (and, within a
/// chain, activities are stopped).
pub fn reverse_indices(n: usize) -> (r: Vec<usize>)
    ensures
        r@.len() == n,
        forall|i: int| 0 <= i < n ==> (#[trigger] r@[i]) as nat == stop_order(n as nat)[i],
{
    let mut r: Vec<usize> = Vec::new();
    let mut i: usize = 0;
    while i < n
        invariant
            i <= n,
            r@.len() == i,
            forall|j: int| 0 <= j < i ==> (#[trigger] r@[j]) == n - 1 - j,
        decreases n - i,
    {
        r.push(n - 1 - i);
        i += 1;
    }
    r
}

/// One line of the activity map: `NNN activityName hint\n`, with an empty
/// hint when there is none.
pub open spec fn map_line(id: nat, activity: Seq<char>, hint: Seq<char>) -> Seq<char> {
    padded3(id) + seq![' '] + activity + seq![' '] + hint + seq!['\n']
}

pub open spec fn hint_text(h: Option<String>) -> Seq<char> {
    match h {
        Some(s) => s@,
        None => Seq::empty(),
    }
}

/// The activity-map line of `hint`, recorded for the activity `activity`.
pub fn activity_map_line(activity: &str, hint: &PlotHint) -> (r: String)
    ensures
        r@ == map_line(hint.id.0 as nat, activity@, hint_text(hint.hint)),
{
    let mut s = padded3_string(hint.id.0 as u64);
    proof {
        reveal_strlit(" ");
        reveal_strlit("\n");
    }
    s.append(" ");
    s.append(activity);
    s.append(" ");
    match &hint.hint {
        Some(h) => s.append(h.as_str()),
        None => {},
    }
    s.append("\n");
    assert(s@ =~= map_line(hint.id.0 as nat, activity@, hint_text(hint.hint)));
    s
}


/// A stage ready to run: its name and, per agent, the chain of named
/// activities.
#[derive(Debug, PartialEq, Eq)]
pub struct RuntimeStage {
    pub name: String,
    pub chains: Vec<(String, Vec<(String, Activity)>)>,
}

/// Whether every activity of `chain` can be built.
pub open spec fn chain_accepted(chain: Seq<(String, ActivityConfig)>) -> bool {
    forall|a: int| 0 <= a < chain.len() ==> accepts((#[trigger] chain[a]).0@, chain[a].1)
}

/// Whether every activity of `stage` can be built.
pub open spec fn stage_accepted(stage: RunStage) -> bool {
    forall|c: int| 0 <= c < stage.chains@.len() ==> chain_accepted((#[trigger] stage.chains@[c]).1@)
}

/// `built` holds, in order and under the same names, the activities built
/// from `chain`.
pub open spec fn chain_matches(chain: Seq<(String, ActivityConfig)>, built: Seq<(String, Activity)>) -> bool {
    built.len() == chain.len() && forall|a: int|
        0 <= a < chain.len() ==> (#[trigger] built[a]).0@ == chain[a].0@ && built_from(
            chain[a].0@,
            chain[a].1,
            built[a].1,
        )
}

pub open spec fn stage_matches(stage: RunStage, built: RuntimeStage) -> bool {
    &&& built.name@ == stage.name@
    &&& built.chains@.len() == stage.chains@.len()
    &&& forall|c: int|
        0 <= c < stage.chains@.len() ==> (#[trigger] built.chains@[c]).0@ == stage.chains@[c].0@
            && chain_matches(stage.chains@[c].1@, built.chains@[c].1@)
}

fn create_chain(chain: &Vec<(String, ActivityConfig)>) -> (r: Result<Vec<(String, Activity)>, String>)
    ensures
        r is Ok <==> chain_accepted(chain@),
        r is Ok ==> chain_matches(chain@, r->Ok_0@),
{
    let mut out: Vec<(String, Activity)> = Vec::new();
    let mut a: usize = 0;
    while a < chain.len()
        invariant
            a <= chain@.len(),
            forall|j: int| 0 <= j < a ==> accepts((#[trigger] chain@[j]).0@, chain@[j].1),
            out@.len() == a,
            forall|j: int|
                0 <= j < a ==> (#[trigger] out@[j]).0@ == chain@[j].0@ && built_from(
                    chain@[j].0@,
                    chain@[j].1,
                    out@[j].1,
                ),
        decreases chain@.len() - a,
    {
        let name = &chain[a].0;
        match create_activity(name.as_str(), &chain[a].1) {
            Ok(act) => out.push((name.clone(), act)),
            Err(e) => {
                let mut msg = String::from_str("failed to construct '");
                msg.append(name.as_str());
                msg.append("': ");
                msg.append(e.as_str());
                return Err(msg);
            },
        }
        a += 1;
    }
    Ok(out)
}

fn create_stage(stage: &RunStage) -> (r: Result<RuntimeStage, String>)
    ensures
        r is Ok <==> stage_accepted(*stage),
        r is Ok ==> stage_matches(*stage, r->Ok_0),
{
    let mut chains: Vec<(String, Vec<(String, Activity)>)> = Vec::new();
    let mut c: usize = 0;
    while c < stage.chains.len()
        invariant
            c <= stage.chains@.len(),
            forall|j: int| 0 <= j < c ==> chain_accepted((#[trigger] stage.chains@[j]).1@),
            chains@.len() == c,
            forall|j: int|
                0 <= j < c ==> (#[trigger] chains@[j]).0@ == stage.chains@[j].0@ && chain_matches(
                    stage.chains@[j].1@,
                    chains@[j].1@,
                ),
        decreases stage.chains@.len() - c,
    {
        match create_chain(&stage.chains[c].1) {
            Ok(built) => chains.push((stage.chains[c].0.clone(), built)),
            Err(e) => return Err(e),
        }
        c += 1;
    }
    Ok(RuntimeStage { name: stage.name.clone(), chains })
}

/// Builds every activity of the scenario, keeping its stages, agents and
/// chains in order. Fails when an activity cannot be built.
pub fn create_runtime(s: &Scenario) -> (r: Result<Vec<RuntimeStage>, String>)
    ensures
        r is Ok <==> forall|k: int| 0 <= k < s.stages@.len() ==> stage_accepted(#[trigger] s.stages@[k]),
        r is Ok ==> r->Ok_0@.len() == s.stages@.len() && forall|k: int|
            0 <= k < s.stages@.len() ==> stage_matches(#[trigger] s.stages@[k], r->Ok_0@[k]),
{
    let mut out: Vec<RuntimeStage> = Vec::new();
    let mut k: usize = 0;
    while k < s.stages.len()
        invariant
            k <= s.stages@.len(),
            forall|j: int| 0 <= j < k ==> stage_accepted(#[trigger] s.stages@[j]),
            out@.len() == k,
            forall|j: int| 0 <= j < k ==> stage_matches(#[trigger] s.stages@[j], out@[j]),
        decreases s.stages@.len() - k,
    {
        match create_stage(&s.stages[k]) {
            Ok(st) => out.push(st),
            Err(e) => {
                let mut msg = String::from_str("bad stage '");
                msg.append(s.stages[k].name.as_str());
                msg.append("': ");
                msg.append(e.as_str());
                return Err(msg);
            },
        }
        k += 1;
    }
    Ok(out)
}

} // verus!
