//! Translation of an INI-like fio job description into fio's command line.
//!
//! Every global line `key=value` becomes `--key=value`; every section
//! becomes `--name=<section>` followed by its own lines in that form. The
//! file names of `write_bw_log`, `write_iops_log` and `write_lat_log` lines
//! make the plot hint, separated by spaces.

use vstd::prelude::*;

use crate::activity::Activity;
use crate::protocol::SpawnMode;
use crate::types::{strings_view, IniLike};

verus! {

pub open spec fn dashed(line: Seq<char>) -> Seq<char> {
    "--"@ + line
}

pub open spec fn dashed_all(lines: Seq<Seq<char>>) -> Seq<Seq<char>> {
    lines.map_values(|l: Seq<char>| dashed(l))
}

pub open spec fn section_view(s: (String, Vec<String>)) -> (Seq<char>, Seq<Seq<char>>) {
    (s.0@, strings_view(s.1@))
}

/// Command-line arguments of the sections `secs`, in order.
pub open spec fn sections_args(secs: Seq<(Seq<char>, Seq<Seq<char>>)>) -> Seq<Seq<char>>
    decreases secs.len(),
{
    if secs.len() == 0 {
        Seq::empty()
    } else {
        sections_args(secs.drop_last()) + seq!["--name="@ + secs.last().0] + dashed_all(
            secs.last().1,
        )
    }
}

/// The job lines of the sections `secs`, in order.
pub open spec fn sections_lines(secs: Seq<(Seq<char>, Seq<Seq<char>>)>) -> Seq<Seq<char>>
    decreases secs.len(),
{
    if secs.len() == 0 {
        Seq::empty()
    } else {
        sections_lines(secs.drop_last()) + secs.last().1
    }
}

/// All job lines of `ini`: the global ones, then those of each section.
pub open spec fn ini_lines(ini: IniLike) -> Seq<Seq<char>> {
    strings_view(ini.global@) + sections_lines(
        ini.sections@.map_values(|s: (String, Vec<String>)| section_view(s)),
    )
}

/// fio's command line for `ini`.
pub open spec fn fio_args(ini: IniLike) -> Seq<Seq<char>> {
    dashed_all(strings_view(ini.global@)) + sections_args(
        ini.sections@.map_values(|s: (String, Vec<String>)| section_view(s)),
    )
}

/// The file name a job line asks fio to write a log into, if it is one of
/// the logged kinds.
pub open spec fn log_file_of(line: Seq<char>) -> Option<Seq<char>> {
    if line.len() >= "write_bw_log="@.len() && line.subrange(0, "write_bw_log="@.len() as int)
        == "write_bw_log="@ {
        Some(line.subrange("write_bw_log="@.len() as int, line.len() as int))
    } else if line.len() >= "write_iops_log="@.len() && line.subrange(
        0,
        "write_iops_log="@.len() as int,
    ) == "write_iops_log="@ {
        Some(line.subrange("write_iops_log="@.len() as int, line.len() as int))
    } else if line.len() >= "write_lat_log="@.len() && line.subrange(
        0,
        "write_lat_log="@.len() as int,
    ) == "write_lat_log="@ {
        Some(line.subrange("write_lat_log="@.len() as int, line.len() as int))
    } else {
        None
    }
}

/// The log file names of `lines`, separated by spaces.
pub open spec fn log_hint(lines: Seq<Seq<char>>) -> Seq<char>
    decreases lines.len(),
{
    if lines.len() == 0 {
        Seq::empty()
    } else {
        let prev = log_hint(lines.drop_last());
        match log_file_of(lines.last()) {
            None => prev,
            Some(f) => if prev.len() == 0 {
                f
            } else {
                prev + seq![' '] + f
            },
        }
    }
}

/// Whether `s` starts with `p`; if so, what follows it.
fn strip_prefix<'a>(s: &'a str, p: &str) -> (r: Option<&'a str>)
    ensures
        (s@.len() >= p@.len() && s@.subrange(0, p@.len() as int) == p@) ==> r is Some
            && r->Some_0@ == s@.subrange(p@.len() as int, s@.len() as int),
        !(s@.len() >= p@.len() && s@.subrange(0, p@.len() as int) == p@) ==> r is None,
{
    let n = s.unicode_len();
    let m = p.unicode_len();
    if n < m {
        return None;
    }
    let mut i: usize = 0;
    while i < m
        invariant
            i <= m <= n,
            n == s@.len(),
            m == p@.len(),
            forall|j: int| 0 <= j < i ==> s@[j] == p@[j],
        decreases m - i,
    {
        if s.get_char(i) != p.get_char(i) {
            assert(s@.subrange(0, m as int)[i as int] != p@[i as int]);
            return None;
        }
        i += 1;
    }
    assert(s@.subrange(0, m as int) =~= p@);
    Some(s.substring_char(m, n))
}

fn log_file(line: &str) -> (r: Option<&str>)
    ensures
        match log_file_of(line@) {
            Some(f) => r is Some && r->Some_0@ == f,
            None => r is None,
        },
{
    match strip_prefix(line, "write_bw_log=") {
        Some(f) => return Some(f),
        None => {},
    }
    match strip_prefix(line, "write_iops_log=") {
        Some(f) => return Some(f),
        None => {},
    }
    strip_prefix(line, "write_lat_log=")
}

/// Appends `--` + each line of `lines` to `out`, and each log file name to
/// `hint`.
fn push_lines(out: &mut Vec<String>, hint: &mut String, lines: &Vec<String>)
    ensures
        strings_view(final(out)@) == strings_view(old(out)@) + dashed_all(strings_view(lines@)),
        forall|prev: Seq<Seq<char>>|
            #[trigger] log_hint(prev) == old(hint)@ ==> log_hint(prev + strings_view(lines@)) == final(hint)@,
{
    let ghost start = strings_view(out@);
    let ghost hint0 = hint@;
    let mut i: usize = 0;
    while i < lines.len()
        invariant
            i <= lines@.len(),
            strings_view(out@) == start + dashed_all(strings_view(lines@.subrange(0, i as int))),
            forall|prev: Seq<Seq<char>>|
                #[trigger] log_hint(prev) == hint0 ==> log_hint(
                    prev + strings_view(lines@.subrange(0, i as int)),
                ) == hint@,
        decreases lines@.len() - i,
    {
        let line = lines[i].as_str();
        let mut arg = String::from_str("--");
        arg.append(line);
        let ghost before = out@;
        out.push(arg);
        assert(strings_view(out@) =~= strings_view(before).push(dashed(lines@[i as int]@)));
        match log_file(line) {
            Some(f) => {
                if hint.unicode_len() > 0 {
                    hint.append(" ");
                }
                hint.append(f);
            },
            None => {},
        }
        proof {
            reveal_strlit(" ");
            assert(strings_view(lines@.subrange(0, i + 1)) =~= strings_view(
                lines@.subrange(0, i as int),
            ).push(lines@[i as int]@));
            assert(dashed_all(strings_view(lines@.subrange(0, i + 1))) =~= dashed_all(
                strings_view(lines@.subrange(0, i as int)),
            ).push(dashed(lines@[i as int]@)));
            assert forall|prev: Seq<Seq<char>>| #[trigger] log_hint(prev) == hint0 implies log_hint(
                prev + strings_view(lines@.subrange(0, i + 1)),
            ) == hint@ by {
                let all = prev + strings_view(lines@.subrange(0, i + 1));
                assert(all.drop_last() =~= prev + strings_view(lines@.subrange(0, i as int)));
                assert(all.last() == lines@[i as int]@);
            }
        }
        i += 1;
    }
    assert(lines@.subrange(0, lines@.len() as int) =~= lines@);
}

/// fio's command line for `ini`, and the plot hint (empty when no log is
/// written).
pub fn fio_command_line(ini: &IniLike) -> (r: (Vec<String>, String))
    ensures
        strings_view(r.0@) == fio_args(*ini),
        r.1@ == log_hint(ini_lines(*ini)),
{
    let mut out: Vec<String> = Vec::new();
    let mut hint = String::new();
    push_lines(&mut out, &mut hint, &ini.global);
    assert(log_hint(Seq::<Seq<char>>::empty()) == Seq::<char>::empty());
    assert(Seq::<Seq<char>>::empty() + strings_view(ini.global@) =~= strings_view(ini.global@));
    let ghost globals = strings_view(out@);
    assert(globals == dashed_all(strings_view(ini.global@)));
    let ghost secs = ini.sections@.map_values(|s: (String, Vec<String>)| section_view(s));
    let mut k: usize = 0;
    while k < ini.sections.len()
        invariant
            k <= ini.sections@.len(),
            secs == ini.sections@.map_values(|s: (String, Vec<String>)| section_view(s)),
            strings_view(out@) == globals + sections_args(secs.subrange(0, k as int)),
            hint@ == log_hint(strings_view(ini.global@) + sections_lines(secs.subrange(0, k as int))),
        decreases ini.sections@.len() - k,
    {
        let mut name = String::from_str("--name=");
        name.append(ini.sections[k].0.as_str());
        let ghost before = strings_view(out@);
        out.push(name);
        assert(strings_view(out@) =~= before + seq!["--name="@ + ini.sections@[k as int].0@]);
        let ghost mid = strings_view(out@);
        let ghost lines_before = strings_view(ini.global@) + sections_lines(secs.subrange(0, k as int));
        push_lines(&mut out, &mut hint, &ini.sections[k].1);
        proof {
            assert(log_hint(lines_before + strings_view(ini.sections@[k as int].1@)) == hint@);
            assert(sections_lines(secs.subrange(0, k + 1)) == sections_lines(secs.subrange(0, k as int))
                + strings_view(ini.sections@[k as int].1@)) by {
                let upto = secs.subrange(0, k + 1);
                assert(upto.drop_last() =~= secs.subrange(0, k as int));
            }
            assert(lines_before + strings_view(ini.sections@[k as int].1@) =~= strings_view(
                ini.global@,
            ) + sections_lines(secs.subrange(0, k + 1)));
            let upto = secs.subrange(0, k + 1);
            assert(upto.drop_last() =~= secs.subrange(0, k as int));
            assert(upto.last() == section_view(ini.sections@[k as int]));
            assert(sections_args(upto) == sections_args(secs.subrange(0, k as int)) + seq![
                "--name="@ + ini.sections@[k as int].0@] + dashed_all(
                strings_view(ini.sections@[k as int].1@),
            ));
            assert(strings_view(out@) =~= globals + sections_args(upto));
        }
        k += 1;
    }
    assert(secs.subrange(0, secs.len() as int) =~= secs);
    (out, hint)
}

/// `fio` running the jobs of `ini`, waited for on stop, with the names of
/// the logs it writes as plot hint.
pub fn launch_fio_ini(ini: &IniLike) -> (r: Activity)
    ensures
        r is Launcher,
        r->Launcher_comm@ == "fio"@,
        strings_view(r->Launcher_args@) == fio_args(*ini),
        r->Launcher_mode == SpawnMode::BackgroundWait,
        r->Launcher_id is None,
        log_hint(ini_lines(*ini)).len() == 0 ==> r->Launcher_hint is None,
        log_hint(ini_lines(*ini)).len() > 0 ==> r->Launcher_hint is Some
            && r->Launcher_hint->Some_0@ == log_hint(ini_lines(*ini)),
{
    let (args, hint) = fio_command_line(ini);
    let h = if hint.unicode_len() == 0 {
        None
    } else {
        Some(hint)
    };
    Activity::Launcher { comm: String::from_str("fio"), args, mode: SpawnMode::BackgroundWait, hint: h, id: None }
}

} // verus!
