//! Pattern resolution: a pattern is brace-expanded, each expansion is a
//! file glob, and the result is the concatenation of all match lists. A
//! glob that matches nothing fails the whole lookup.

use vstd::prelude::*;

use crate::types::strings_view;

verus! {

/// Whether the unescaped braces of `s` from position `i` on close every
/// brace opened so far (`depth`) and never close one that is not open.
/// A backslash escapes the character after it.
pub open spec fn braces_balanced_from(s: Seq<char>, i: int, depth: nat) -> bool
    decreases s.len() - i,
{
    if i >= s.len() {
        depth == 0
    } else if s[i] == '\\' {
        if i + 1 >= s.len() {
            depth == 0
        } else {
            braces_balanced_from(s, i + 2, depth)
        }
    } else if s[i] == '{' {
        braces_balanced_from(s, i + 1, depth + 1)
    } else if s[i] == '}' {
        depth > 0 && braces_balanced_from(s, i + 1, (depth - 1) as nat)
    } else {
        braces_balanced_from(s, i + 1, depth)
    }
}

pub open spec fn braces_balanced(s: Seq<char>) -> bool {
    braces_balanced_from(s, 0, 0)
}

/// Whether `c` is one of the characters that brace expansion interprets.
pub open spec fn is_brace_syntax(c: char) -> bool {
    c == '{' || c == '}' || c == ',' || c == '\\'
}

/// Checks that the braces of `s` are balanced.
pub fn check_braces(s: &str) -> (r: bool)
    ensures
        r == braces_balanced(s@),
{
    let n = s.unicode_len();
    let mut i: usize = 0;
    let mut depth: usize = 0;
    while i < n
        invariant
            n == s@.len(),
            i <= n + 1,
            depth <= i,
            braces_balanced(s@) == braces_balanced_from(s@, i as int, depth as nat),
        decreases n + 1 - i,
    {
        let c = s.get_char(i);
        if c == '\\' {
            if i + 1 >= n {
                return depth == 0;
            }
            i = i + 2;
        } else if c == '{' {
            depth = depth + 1;
            i = i + 1;
        } else if c == '}' {
            if depth == 0 {
                return false;
            }
            depth = depth - 1;
            i = i + 1;
        } else {
            i = i + 1;
        }
    }
    depth == 0
}

/// The expansions of a pattern, as `brace_expand::brace_expand` gives them.
pub uninterp spec fn brace_expansions(pattern: Seq<char>) -> Seq<Seq<char>>;

/// Relies on `brace_expand::brace_expand`: the expansions of `pattern`,
/// at least one; a pattern without braces, commas or backslashes expands
/// to itself. It does not return on unbalanced braces, hence `requires`.
#[verifier::external_body]
fn expand_braces(pattern: &str) -> (r: Vec<String>)
    requires
        braces_balanced(pattern@),
    ensures
        strings_view(r@) == brace_expansions(pattern@),
        r@.len() >= 1,
        (forall|i: int| 0 <= i < pattern@.len() ==> !is_brace_syntax(#[trigger] pattern@[i]))
            ==> strings_view(r@) == seq![pattern@],
{
    brace_expand::brace_expand(pattern)
}

/// Whether `s` begins with `p`.
pub open spec fn begins_with(s: Seq<char>, p: Seq<char>) -> bool {
    s.len() >= p.len() && s.subrange(0, p.len() as int) == p
}

/// Relies on `glob::glob`: the paths that match `pattern` on this machine
/// (nothing can be stated of them: they depend on the file system), or the
/// error as glob displays it: a `PatternError` ("Pattern syntax error near
/// position ...") or a `GlobError` ("attempting to read `...").
#[verifier::external_body]
fn glob_paths(pattern: &str) -> (r: Result<Vec<String>, String>)
    ensures
        r is Err ==> begins_with(r->Err_0@, "Pattern syntax error near position "@) || begins_with(
            r->Err_0@,
            "attempting to read `"@,
        ),
{
    let paths = glob::glob(pattern).map_err(|e| e.to_string())?;
    paths.map(|p| p.map(|b| b.to_string_lossy().into_owned()).map_err(|e| e.to_string())).collect()
}

/// All the lists of `ms`, one after the other.
pub open spec fn concat_all(ms: Seq<Seq<Seq<char>>>) -> Seq<Seq<char>>
    decreases ms.len(),
{
    if ms.len() == 0 {
        Seq::empty()
    } else {
        concat_all(ms.drop_last()) + ms.last()
    }
}

/// The match lists of `found`, one per expansion.
pub open spec fn match_lists(found: Seq<(String, Vec<String>)>) -> Seq<Seq<Seq<char>>> {
    found.map_values(|e: (String, Vec<String>)| strings_view(e.1@))
}

/// Joins the match lists of all expansions (each paired with its own
/// matches). Fails, naming the expansion, when one of them matched nothing.
pub fn combine_matches(found: &Vec<(String, Vec<String>)>) -> (r: Result<Vec<String>, String>)
    ensures
        (forall|i: int| 0 <= i < found@.len() ==> (#[trigger] found@[i]).1@.len() > 0) ==> r is Ok
            && strings_view(r->Ok_0@) == concat_all(match_lists(found@)),
        (exists|i: int| 0 <= i < found@.len() && (#[trigger] found@[i]).1@.len() == 0) ==> r is Err,
        r is Err ==> exists|i: int|
            0 <= i < found@.len() && (#[trigger] found@[i]).1@.len() == 0 && r->Err_0@
                == "got empty search result on expanding '"@ + found@[i].0@ + "'"@,
{
    let mut out: Vec<String> = Vec::new();
    let mut i: usize = 0;
    while i < found.len()
        invariant
            i <= found@.len(),
            forall|j: int| 0 <= j < i ==> (#[trigger] found@[j]).1@.len() > 0,
            strings_view(out@) == concat_all(match_lists(found@.subrange(0, i as int))),
        decreases found@.len() - i,
    {
        let matches = &found[i].1;
        if matches.len() == 0 {
            let mut msg = String::from_str("got empty search result on expanding '");
            msg.append(found[i].0.as_str());
            msg.append("'");
            assert(msg@ == "got empty search result on expanding '"@ + found@[i as int].0@ + "'"@);
            return Err(msg);
        }
        let ghost before = out@;
        let mut k: usize = 0;
        while k < matches.len()
            invariant
                k <= matches@.len(),
                out@.len() == before.len() + k,
                out@.subrange(0, before.len() as int) == before,
                forall|j: int| 0 <= j < k ==> (#[trigger] out@[before.len() + j])@ == matches@[j]@,
            decreases matches@.len() - k,
        {
            out.push(matches[k].clone());
            k += 1;
            assert(out@.subrange(0, before.len() as int) =~= before);
        }
        proof {
            let prefix = found@.subrange(0, i as int + 1);
            assert(match_lists(prefix).drop_last() =~= match_lists(found@.subrange(0, i as int)));
            assert(match_lists(prefix).last() == strings_view(matches@));
            let joined = strings_view(before) + strings_view(matches@);
            assert forall|j: int| 0 <= j < out@.len() implies strings_view(out@)[j] == joined[j] by {
                if j < before.len() {
                    assert(out@[j] == out@.subrange(0, before.len() as int)[j]);
                } else {
                    let t = j - before.len();
                    assert(out@[before.len() + t]@ == matches@[t]@);
                }
            }
            assert(strings_view(out@) =~= joined);
        }
        i += 1;
    }
    assert(found@.subrange(0, found@.len() as int) =~= found@);
    Ok(out)
}

/// The error `lookup_paths` gives for a pattern with unbalanced braces.
pub open spec fn unbalanced_message(pattern: Seq<char>) -> Seq<char> {
    "unbalanced braces in '"@ + pattern + "'"@
}

pub open spec fn expansions_of(found: Seq<(String, Vec<String>)>) -> Seq<Seq<char>> {
    found.map_values(|e: (String, Vec<String>)| e.0@)
}

/// Resolves `pattern`: brace-expands it, globs every expansion, and joins
/// the matches in expansion order. Unbalanced braces are an error, as is a
/// glob that fails or matches nothing. What each glob matches depends on
/// the file system; whatever it is, a success is the concatenation of
/// non-empty match lists, one per expansion, in expansion order.
pub fn lookup_paths(pattern: &str) -> (r: Result<Vec<String>, String>)
    ensures
        (r is Err && r->Err_0@ == unbalanced_message(pattern@)) <==> !braces_balanced(pattern@),
        r is Ok ==> r->Ok_0@.len() > 0 && exists|found: Seq<(String, Vec<String>)>|
            expansions_of(found) == brace_expansions(pattern@) && (forall|i: int|
                0 <= i < found.len() ==> (#[trigger] found[i]).1@.len() > 0) && strings_view(
                r->Ok_0@,
            ) == concat_all(match_lists(found)),
{
    if !check_braces(pattern) {
        let mut msg = String::from_str("unbalanced braces in '");
        msg.append(pattern);
        msg.append("'");
        return Err(msg);
    }
    proof {
        reveal_strlit("unbalanced braces in '");
        reveal_strlit("Pattern syntax error near position ");
        reveal_strlit("attempting to read `");
        reveal_strlit("got empty search result on expanding '");
        assert(unbalanced_message(pattern@)[0] == 'u');
    }
    let expansions = expand_braces(pattern);
    let mut found: Vec<(String, Vec<String>)> = Vec::new();
    let mut i: usize = 0;
    while i < expansions.len()
        invariant
            i <= expansions@.len(),
            braces_balanced(pattern@),
            found@.len() == i,
            expansions_of(found@) == strings_view(expansions@.subrange(0, i as int)),
        decreases expansions@.len() - i,
    {
        let exp = expansions[i].clone();
        let ghost before = found@;
        match glob_paths(exp.as_str()) {
            Ok(m) => found.push((exp, m)),
            Err(e) => {
                assert(e@[0] == 'P' || e@[0] == 'a') by {
                    reveal_strlit("Pattern syntax error near position ");
                    reveal_strlit("attempting to read `");
                    if begins_with(e@, "Pattern syntax error near position "@) {
                        assert(e@.subrange(0, "Pattern syntax error near position "@.len() as int)[0]
                            == e@[0]);
                    } else {
                        assert(e@.subrange(0, "attempting to read `"@.len() as int)[0] == e@[0]);
                    }
                }
                assert(unbalanced_message(pattern@)[0] == 'u') by {
                    reveal_strlit("unbalanced braces in '");
                }
                return Err(e);
            },
        }
        proof {
            assert(found@ == before.push(found@[i as int]));
            assert(found@[i as int].0@ == expansions@[i as int]@);
            assert forall|j: int| 0 <= j < i + 1 implies expansions_of(found@)[j] == strings_view(
                expansions@.subrange(0, i + 1),
            )[j] by {
                if j < i {
                    assert(found@[j] == before[j]);
                    assert(expansions_of(before)[j] == strings_view(expansions@.subrange(0, i as int))[j]);
                }
            }
        }
        i += 1;
        assert(expansions_of(found@) =~= strings_view(expansions@.subrange(0, i as int)));
    }
    assert(expansions@.subrange(0, expansions@.len() as int) =~= expansions@);
    let r = combine_matches(&found);
    proof {
        if r is Err {
            let e = r->Err_0@;
            assert(e[0] == 'g');
        }
        if r is Ok {
            let ms = match_lists(found@);
            assert(ms.len() > 0);
            assert(found@[ms.len() - 1].1@.len() > 0);
            assert(ms.last() == strings_view(found@[ms.len() - 1].1@));
            assert(concat_all(ms) == concat_all(ms.drop_last()) + ms.last());
        }
    }
    r
}

} // verus!
