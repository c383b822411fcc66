//! The text a poller writes: one header line, then one record per snapshot.
//!
//! Header: `{"files":[...],"period":<nanoseconds>}` and a newline. Record: a
//! timestamp line, the contents of every file in header order, and a blank
//! delimiter line.

use vstd::prelude::*;

use crate::common::{decimal, decimal_string};
use crate::types::strings_view;

verus! {

/// Period between two snapshots when none is configured, in milliseconds.
pub const DEFAULT_PERIOD_MS: u32 = 250;

/// The JSON text of a list of strings, as `serde_json` writes it.
pub uninterp spec fn json_string_list(items: Seq<Seq<char>>) -> Seq<char>;

/// Relies on `serde_json::to_string` on a `Vec<String>`: the compact JSON
/// array of the strings, in which control characters (a newline among
/// them) are escaped. It fails only for a failing `Serialize` impl or a map
/// with non-string keys, neither of which a list of strings has, so the
/// result is always `Some`.
#[verifier::external_body]
fn json_list(items: &Vec<String>) -> (r: Option<String>)
    ensures
        r is Some,
        r is Some ==> r->Some_0@ == json_string_list(strings_view(items@)),
        r is Some ==> forall|i: int| 0 <= i < r->Some_0@.len() ==> r->Some_0@[i] != '\n',
{
    serde_json::to_string(items).ok()
}

/// Relies on `chrono`: the local time now, RFC 3339 with microseconds. It
/// depends on the clock, so nothing is stated of it.
#[verifier::external_body]
fn local_timestamp() -> (r: String) {
    chrono::Local::now().to_rfc3339_opts(chrono::SecondsFormat::Micros, false)
}

/// Whether `s` holds no newline.
pub open spec fn single_line(s: Seq<char>) -> bool {
    forall|i: int| 0 <= i < s.len() ==> s[i] != '\n'
}

pub open spec fn header_text(files_json: Seq<char>, period_ms: nat) -> Seq<char> {
    "{\"files\":"@ + files_json + ",\"period\":"@ + decimal(period_ms * 1_000_000) + "}\n"@
}

/// The header line of a poller over `files` with a period of `period_ms`
/// milliseconds (written in nanoseconds).
pub fn create_header(files: &Vec<String>, period_ms: u32) -> (r: String)
    ensures
        r@ == header_text(json_string_list(strings_view(files@)), period_ms as nat),
        single_line(json_string_list(strings_view(files@))),
{
    let json = match json_list(files) {
        Some(j) => j,
        None => String::new(),
    };
    let nanos: u64 = period_ms as u64 * 1_000_000;
    let mut s = String::from_str("{\"files\":");
    s.append(json.as_str());
    s.append(",\"period\":");
    s.append(decimal_string(nanos).as_str());
    s.append("}\n");
    s
}

/// All the strings of `v`, one after the other.
pub open spec fn concat_strings(v: Seq<Seq<char>>) -> Seq<char>
    decreases v.len(),
{
    if v.len() == 0 {
        Seq::empty()
    } else {
        concat_strings(v.drop_last()) + v.last()
    }
}

pub open spec fn record_text(stamp: Seq<char>, contents: Seq<Seq<char>>) -> Seq<char> {
    stamp + seq!['\n'] + concat_strings(contents) + seq!['\n']
}

/// One record: the timestamp line, the file contents in order, and the
/// blank delimiter.
pub fn poll_record(stamp: &str, contents: &Vec<String>) -> (r: String)
    ensures
        r@ == record_text(stamp@, strings_view(contents@)),
{
    proof {
        reveal_strlit("\n");
    }
    let mut s = String::from_str(stamp);
    s.append("\n");
    let mut i: usize = 0;
    while i < contents.len()
        invariant
            i <= contents@.len(),
            s@ == stamp@ + seq!['\n'] + concat_strings(strings_view(contents@.subrange(0, i as int))),
        decreases contents@.len() - i,
    {
        s.append(contents[i].as_str());
        proof {
            let next = strings_view(contents@.subrange(0, i + 1));
            assert(next.drop_last() =~= strings_view(contents@.subrange(0, i as int)));
        }
        i += 1;
    }
    assert(contents@.subrange(0, contents@.len() as int) =~= contents@);
    s.append("\n");
    s
}

proof fn lemma_decimal_single_line(n: nat)
    ensures
        single_line(decimal(n)),
    decreases n,
{
    if n >= 10 {
        lemma_decimal_single_line(n / 10);
    }
}

/// A poller log is line-structured: its header is exactly one line (the
/// file list is encoded without raw newlines), and every record ends with
/// a newline, so a record whose last file ends with a newline ends with a
/// blank delimiter line.
pub proof fn lemma_poll_log_layout(
    files_json: Seq<char>,
    period_ms: nat,
    stamp: Seq<char>,
    contents: Seq<Seq<char>>,
)
    requires
        single_line(files_json),
    ensures
        header_text(files_json, period_ms).last() == '\n',
        single_line(header_text(files_json, period_ms).drop_last()),
        record_text(stamp, contents).last() == '\n',
        contents.len() > 0 && contents.last().len() > 0 && contents.last().last() == '\n' ==> ({
            let r = record_text(stamp, contents);
            r[r.len() - 2] == '\n'
        }),
{
    reveal_strlit("{\"files\":");
    reveal_strlit(",\"period\":");
    reveal_strlit("}\n");
    lemma_decimal_single_line(period_ms * 1_000_000);
    let h = header_text(files_json, period_ms);
    let a = "{\"files\":"@;
    let b = ",\"period\":"@;
    let d = decimal(period_ms * 1_000_000);
    assert(h.drop_last() =~= a + files_json + b + d + seq!['}']);
    assert forall|i: int| 0 <= i < h.drop_last().len() implies h.drop_last()[i] != '\n' by {
        let x = a.len() as int;
        let y = x + files_json.len();
        let z = y + b.len();
        let w = z + d.len();
        if i < x {
        } else if i < y {
            assert(h.drop_last()[i] == files_json[i - x]);
        } else if i < z {
        } else if i < w {
            assert(h.drop_last()[i] == d[i - z]);
        }
    }
    if contents.len() > 0 && contents.last().len() > 0 {
        let c = concat_strings(contents);
        assert(c == concat_strings(contents.drop_last()) + contents.last());
        assert(c.last() == contents.last().last());
        let r = record_text(stamp, contents);
        assert(r[r.len() - 2] == c.last());
    }
}

/// A record of `contents` stamped with the local time now.
pub fn poll(contents: &Vec<String>) -> (r: String)
    ensures
        exists|stamp: Seq<char>| r@ == record_text(stamp, strings_view(contents@)),
{
    let stamp = local_timestamp();
    poll_record(stamp.as_str(), contents)
}

} // verus!
