//! Typed reading of activity arguments. The configuration layer hands over
//! each activity's `args` map as `(key, value)` pairs; what an activity
//! kind accepts is decided here.

use vstd::prelude::*;

use crate::fio::section_view;
use crate::protocol::SpawnMode;
use crate::types::{copy_strings, strings_view, ConfigValue, IniLike};

verus! {

/// An argument value, as far as activity arguments use it.
#[derive(Debug, PartialEq, Eq)]
pub enum ArgValue {
    Text(String),
    /// A non-negative number of seconds, held in milliseconds.
    Seconds { millis: u64 },
    List(Vec<String>),
    /// Named lists of lines (the sections of a job description).
    Table(Vec<(String, Vec<String>)>),
    Other,
}

/// The value of the first pair with key `key`.
pub open spec fn arg_of(args: Seq<(String, ArgValue)>, key: Seq<char>) -> Option<ArgValue>
    decreases args.len(),
{
    if args.len() == 0 {
        None
    } else if args[0].0@ == key {
        Some(args[0].1)
    } else {
        arg_of(args.drop_first(), key)
    }
}

/// Every key of `args` is one of `allowed`.
pub open spec fn keys_within(args: Seq<(String, ArgValue)>, allowed: Seq<Seq<char>>) -> bool {
    forall|i: int| 0 <= i < args.len() ==> allowed.contains((#[trigger] args[i]).0@)
}

pub open spec fn text_arg(args: Seq<(String, ArgValue)>, key: Seq<char>) -> Option<String> {
    match arg_of(args, key) {
        Some(ArgValue::Text(s)) => Some(s),
        _ => None,
    }
}

/// The launch mode a name stands for: `fg`, `bgwait` or `bgkill`.
pub open spec fn mode_named(name: Seq<char>) -> Option<SpawnMode> {
    if name == "fg"@ {
        Some(SpawnMode::Foreground)
    } else if name == "bgwait"@ {
        Some(SpawnMode::BackgroundWait)
    } else if name == "bgkill"@ {
        Some(SpawnMode::BackgroundKill)
    } else {
        None
    }
}

pub fn spawn_mode_named(name: &str) -> (r: Option<SpawnMode>)
    ensures
        r == mode_named(name@),
{
    proof {
        reveal_strlit("fg");
        reveal_strlit("bgwait");
        reveal_strlit("bgkill");
        assert("fg"@.len() == 2);
        assert("bgwait"@.len() == 6 && "bgwait"@[2] == 'w');
        assert("bgkill"@.len() == 6 && "bgkill"@[2] == 'k');
    }
    let n = String::from_str(name);
    if n == String::from_str("fg") {
        Some(SpawnMode::Foreground)
    } else if n == String::from_str("bgwait") {
        Some(SpawnMode::BackgroundWait)
    } else if n == String::from_str("bgkill") {
        Some(SpawnMode::BackgroundKill)
    } else {
        None
    }
}

fn find_arg<'a>(args: &'a Vec<(String, ArgValue)>, key: &str) -> (r: Option<&'a ArgValue>)
    ensures
        match r {
            Some(v) => arg_of(args@, key@) == Some(*v),
            None => arg_of(args@, key@) is None,
        },
{
    let k = String::from_str(key);
    let mut i: usize = 0;
    assert(args@.subrange(0, args@.len() as int) =~= args@);
    while i < args.len()
        invariant
            i <= args@.len(),
            k@ == key@,
            arg_of(args@, key@) == arg_of(args@.subrange(i as int, args@.len() as int), key@),
        decreases args@.len() - i,
    {
        assert(args@.subrange(i as int, args@.len() as int).drop_first() =~= args@.subrange(
            i + 1,
            args@.len() as int,
        ));
        if args[i].0 == k {
            return Some(&args[i].1);
        }
        i += 1;
    }
    None
}

fn keys_allowed(args: &Vec<(String, ArgValue)>, allowed: &Vec<&str>) -> (r: bool)
    ensures
        r == keys_within(args@, allowed@.map_values(|a: &str| a@)),
{
    let ghost names = allowed@.map_values(|a: &str| a@);
    let mut i: usize = 0;
    while i < args.len()
        invariant
            i <= args@.len(),
            names == allowed@.map_values(|a: &str| a@),
            forall|j: int| 0 <= j < i ==> names.contains((#[trigger] args@[j]).0@),
        decreases args@.len() - i,
    {
        let mut found = false;
        let mut k: usize = 0;
        while k < allowed.len()
            invariant
                k <= allowed@.len(),
                i < args@.len(),
                names == allowed@.map_values(|a: &str| a@),
                found ==> names.contains(args@[i as int].0@),
                !found ==> forall|q: int| 0 <= q < k ==> names[q] != args@[i as int].0@,
            decreases allowed@.len() - k,
        {
            if args[i].0 == String::from_str(allowed[k]) {
                found = true;
                assert(names[k as int] == args@[i as int].0@);
            }
            k += 1;
        }
        if !found {
            assert(!names.contains(args@[i as int].0@));
            return false;
        }
        i += 1;
    }
    true
}

fn text_of(v: Option<&ArgValue>) -> (r: Option<String>)
    ensures
        match v {
            Some(ArgValue::Text(s)) => r == Some(*s),
            _ => r is None,
        },
{
    match v {
        Some(ArgValue::Text(s)) => Some(s.clone()),
        _ => None,
    }
}

pub open spec fn list_or_empty(v: Option<ArgValue>) -> Seq<Seq<char>> {
    match v {
        Some(ArgValue::List(l)) => strings_view(l@),
        _ => Seq::empty(),
    }
}

pub open spec fn table_view(t: Seq<(String, Vec<String>)>) -> Seq<(Seq<char>, Seq<Seq<char>>)> {
    t.map_values(|s: (String, Vec<String>)| section_view(s))
}

pub open spec fn table_or_empty(v: Option<ArgValue>) -> Seq<(Seq<char>, Seq<Seq<char>>)> {
    match v {
        Some(ArgValue::Table(t)) => table_view(t@),
        _ => Seq::empty(),
    }
}

/// The allowed keys of each kind that takes arguments.
pub open spec fn allowed_keys(kind: Seq<char>) -> Seq<Seq<char>> {
    if kind == "sleep"@ {
        seq!["secs"@]
    } else if kind == "lookup_paths"@ {
        seq!["pattern"@]
    } else if kind == "poller"@ {
        seq!["pattern"@, "hint"@]
    } else if kind == "launch"@ {
        seq!["comm"@, "mode"@, "args"@, "hint"@]
    } else if kind == "fio"@ {
        seq!["global"@, "sections"@]
    } else {
        Seq::empty()
    }
}

/// Reads the arguments of an activity of kind `kind`:
/// `sleep` needs `secs`; `lookup_paths` needs a text `pattern`; `poller`
/// needs a text `pattern` and may have a text `hint`; `launch` needs a text
/// `comm` and a `mode` (`fg`, `bgwait` or `bgkill`) and may have a list
/// `args` and a text `hint`; `fio` may have a list `global` and a table
/// `sections`. Any other key, a value of the wrong type, and arguments for
/// any other kind are errors.
pub fn parse_args(kind: &str, args: &Vec<(String, ArgValue)>) -> (r: Result<ConfigValue, String>)
    ensures
        !keys_within(args@, allowed_keys(kind@)) ==> r is Err,
        keys_within(args@, allowed_keys(kind@)) ==> {
            if kind@ == "sleep"@ {
                match arg_of(args@, "secs"@) {
                    Some(ArgValue::Seconds { millis }) => r == Ok::<ConfigValue, String>(
                        ConfigValue::Time(millis),
                    ),
                    _ => r is Err,
                }
            } else if kind@ == "lookup_paths"@ {
                match text_arg(args@, "pattern"@) {
                    Some(p) => r == Ok::<ConfigValue, String>(ConfigValue::String(p)),
                    None => r is Err,
                }
            } else if kind@ == "poller"@ {
                match (text_arg(args@, "pattern"@), arg_of(args@, "hint"@)) {
                    (Some(p), None) => r == Ok::<ConfigValue, String>(
                        ConfigValue::PollArgs { pattern: p, hint: None },
                    ),
                    (Some(p), Some(ArgValue::Text(h))) => r == Ok::<ConfigValue, String>(
                        ConfigValue::PollArgs { pattern: p, hint: Some(h) },
                    ),
                    _ => r is Err,
                }
            } else if kind@ == "launch"@ {
                let ok = text_arg(args@, "comm"@) is Some && text_arg(args@, "mode"@) is Some
                    && mode_named(text_arg(args@, "mode"@)->0@) is Some && (arg_of(args@, "args"@) is None
                    || arg_of(args@, "args"@)->0 is List) && (arg_of(args@, "hint"@) is None || arg_of(
                    args@,
                    "hint"@,
                )->0 is Text);
                if ok {
                    r is Ok && match r->Ok_0 {
                        ConfigValue::LaunchArgs { comm, mode, args: a, hint } => comm == text_arg(
                            args@,
                            "comm"@,
                        )->0 && Some(mode) == mode_named(text_arg(args@, "mode"@)->0@) && hint
                            == text_arg(args@, "hint"@) && strings_view(a@) == match arg_of(
                            args@,
                            "args"@,
                        ) {
                            Some(ArgValue::List(l)) => strings_view(l@),
                            _ => Seq::empty(),
                        },
                        _ => false,
                    }
                } else {
                    r is Err
                }
            } else if kind@ == "fio"@ {
                let ok = (arg_of(args@, "global"@) is None || arg_of(args@, "global"@)->0 is List)
                    && (arg_of(args@, "sections"@) is None || arg_of(args@, "sections"@)->0 is Table);
                if ok {
                    r is Ok && match r->Ok_0 {
                        ConfigValue::Ini(ini) => strings_view(ini.global@) == list_or_empty(
                            arg_of(args@, "global"@),
                        ) && table_view(ini.sections@) == table_or_empty(arg_of(args@, "sections"@)),
                        _ => false,
                    }
                } else {
                    r is Err
                }
            } else {
                args@.len() > 0 ==> r is Err
            }
        },
{
    proof {
        reveal_strlit("sleep");
        reveal_strlit("lookup_paths");
        reveal_strlit("poller");
        reveal_strlit("launch");
        reveal_strlit("fio");
        assert("sleep"@.len() == 5);
        assert("lookup_paths"@.len() == 12);
        assert("poller"@.len() == 6 && "poller"@[0] == 'p');
        assert("launch"@.len() == 6 && "launch"@[0] == 'l');
        assert("fio"@.len() == 3);
    }
    let n = String::from_str(kind);
    let mut allowed: Vec<&str> = Vec::new();
    if n == String::from_str("sleep") {
        allowed.push("secs");
    } else if n == String::from_str("lookup_paths") {
        allowed.push("pattern");
    } else if n == String::from_str("poller") {
        allowed.push("pattern");
        allowed.push("hint");
    } else if n == String::from_str("launch") {
        allowed.push("comm");
        allowed.push("mode");
        allowed.push("args");
        allowed.push("hint");
    } else if n == String::from_str("fio") {
        allowed.push("global");
        allowed.push("sections");
    }
    assert(allowed@.map_values(|a: &str| a@) =~= allowed_keys(kind@));
    if !keys_allowed(args, &allowed) {
        let mut msg = String::from_str("unexpected argument for '");
        msg.append(kind);
        msg.append("'");
        return Err(msg);
    }
    if n == String::from_str("sleep") {
        match find_arg(args, "secs") {
            Some(ArgValue::Seconds { millis }) => Ok(ConfigValue::Time(*millis)),
            _ => Err(String::from_str("'sleep' expects a number of seconds 'secs'")),
        }
    } else if n == String::from_str("lookup_paths") {
        match text_of(find_arg(args, "pattern")) {
            Some(p) => Ok(ConfigValue::String(p)),
            None => Err(String::from_str("'lookup_paths' expects a text 'pattern'")),
        }
    } else if n == String::from_str("poller") {
        let pattern = match text_of(find_arg(args, "pattern")) {
            Some(p) => p,
            None => return Err(String::from_str("'poller' expects a text 'pattern'")),
        };
        match find_arg(args, "hint") {
            None => Ok(ConfigValue::PollArgs { pattern, hint: None }),
            Some(ArgValue::Text(h)) => Ok(ConfigValue::PollArgs { pattern, hint: Some(h.clone()) }),
            _ => Err(String::from_str("'poller' expects a text 'hint'")),
        }
    } else if n == String::from_str("launch") {
        let comm = match text_of(find_arg(args, "comm")) {
            Some(c) => c,
            None => return Err(String::from_str("'launch' expects a text 'comm'")),
        };
        let mode = match text_of(find_arg(args, "mode")) {
            Some(m) => match spawn_mode_named(m.as_str()) {
                Some(mode) => mode,
                None => return Err(String::from_str("bad launch mode")),
            },
            None => return Err(String::from_str("'launch' expects a text 'mode'")),
        };
        let list = match find_arg(args, "args") {
            None => Vec::new(),
            Some(ArgValue::List(l)) => copy_strings(l),
            _ => return Err(String::from_str("'launch' expects a list 'args'")),
        };
        let hint = match find_arg(args, "hint") {
            None => None,
            Some(ArgValue::Text(h)) => Some(h.clone()),
            _ => return Err(String::from_str("'launch' expects a text 'hint'")),
        };
        Ok(ConfigValue::LaunchArgs { comm, mode, args: list, hint })
    } else if n == String::from_str("fio") {
        let global = match find_arg(args, "global") {
            None => {
                let g: Vec<String> = Vec::new();
                assert(strings_view(g@) =~= Seq::empty());
                g
            },
            Some(ArgValue::List(l)) => copy_strings(l),
            _ => return Err(String::from_str("'fio' expects a list 'global'")),
        };
        let mut sections: Vec<(String, Vec<String>)> = Vec::new();
        match find_arg(args, "sections") {
            None => {
                assert(table_view(sections@) =~= Seq::empty());
            },
            Some(ArgValue::Table(t)) => {
                let mut i: usize = 0;
                while i < t.len()
                    invariant
                        i <= t@.len(),
                        sections@.len() == i,
                        forall|j: int| 0 <= j < i ==> section_view(#[trigger] sections@[j]) == section_view(t@[j]),
                    decreases t@.len() - i,
                {
                    sections.push((t[i].0.clone(), copy_strings(&t[i].1)));
                    i += 1;
                }
                assert(table_view(sections@) =~= table_view(t@));
            },
            _ => return Err(String::from_str("'fio' expects a table 'sections'")),
        }
        Ok(ConfigValue::Ini(IniLike { global, sections }))
    } else {
        let mut msg = String::from_str("'");
        msg.append(kind);
        msg.append("' takes no arguments");
        Err(msg)
    }
}

} // verus!
