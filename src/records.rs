//! Splitting of captured tool output into a header line and the rest.

use vstd::prelude::*;

verus! {

/// The characters `char::is_whitespace` accepts (Unicode `White_Space`).
pub open spec fn is_space(c: char) -> bool {
    ||| c == ' '
    ||| c == '\t'
    ||| c == '\n'
    ||| c == '\x0B'
    ||| c == '\x0C'
    ||| c == '\r'
    ||| c == '\u{85}'
    ||| c == '\u{A0}'
    ||| c == '\u{1680}'
    ||| ('\u{2000}' <= c && c <= '\u{200A}')
    ||| c == '\u{2028}'
    ||| c == '\u{2029}'
    ||| c == '\u{202F}'
    ||| c == '\u{205F}'
    ||| c == '\u{3000}'
}

fn space(c: char) -> (r: bool)
    ensures
        r == is_space(c),
{
    c == ' ' || c == '\t' || c == '\n' || c == '\x0B' || c == '\x0C' || c == '\r' || c == '\u{85}'
        || c == '\u{A0}' || c == '\u{1680}' || ('\u{2000}' <= c && c <= '\u{200A}') || c
        == '\u{2028}' || c == '\u{2029}' || c == '\u{202F}' || c == '\u{205F}' || c == '\u{3000}'
}

/// `s` without leading whitespace.
pub open spec fn trim_start(s: Seq<char>) -> Seq<char>
    decreases s.len(),
{
    if s.len() > 0 && is_space(s[0]) {
        trim_start(s.drop_first())
    } else {
        s
    }
}

/// `s` without trailing whitespace.
pub open spec fn trim_end(s: Seq<char>) -> Seq<char>
    decreases s.len(),
{
    if s.len() > 0 && is_space(s.last()) {
        trim_end(s.drop_last())
    } else {
        s
    }
}

/// `s` without leading and trailing whitespace.
pub open spec fn trim(s: Seq<char>) -> Seq<char> {
    trim_end(trim_start(s))
}

/// `s` without leading and trailing whitespace, as `str::trim` gives it.
pub fn trim_text<'a>(s: &'a str) -> (r: &'a str)
    ensures
        r@ == trim(s@),
{
    let n = s.unicode_len();
    let mut i: usize = 0;
    assert(s@.subrange(0, n as int) =~= s@);
    while i < n && space(s.get_char(i))
        invariant
            i <= n,
            n == s@.len(),
            trim_start(s@) == trim_start(s@.subrange(i as int, n as int)),
        decreases n - i,
    {
        assert(s@.subrange(i as int, n as int).drop_first() =~= s@.subrange(i + 1, n as int));
        i += 1;
    }
    let ghost front = s@.subrange(i as int, n as int);
    assert(trim_start(front) == front);
    let mut j: usize = n;
    while j > i && space(s.get_char(j - 1))
        invariant
            i <= j <= n,
            n == s@.len(),
            front == s@.subrange(i as int, n as int),
            trim_end(front) == trim_end(s@.subrange(i as int, j as int)),
        decreases j,
    {
        assert(s@.subrange(i as int, j as int).drop_last() =~= s@.subrange(i as int, j - 1));
        j -= 1;
    }
    s.substring_char(i, j)
}

/// Splits `content` at its first newline into the trimmed header and the
/// trimmed rest. Without a newline there is no header: an error.
pub fn split_header<'a>(content: &'a str) -> (r: Result<(&'a str, &'a str), String>)
    ensures
        (forall|i: int| 0 <= i < content@.len() ==> content@[i] != '\n') ==> r is Err,
        (exists|i: int| 0 <= i < content@.len() && content@[i] == '\n') ==> r is Ok && exists|
            k: int,
        |
            0 <= k < content@.len() && content@[k] == '\n' && (forall|j: int|
                0 <= j < k ==> content@[j] != '\n') && r->Ok_0.0@ == trim(content@.subrange(0, k))
                && r->Ok_0.1@ == trim(content@.subrange(k + 1, content@.len() as int)),
{
    let n = content.unicode_len();
    let mut k: usize = 0;
    while k < n
        invariant
            k <= n,
            n == content@.len(),
            forall|j: int| 0 <= j < k ==> content@[j] != '\n',
        decreases n - k,
    {
        if content.get_char(k) == '\n' {
            let header = content.substring_char(0, k);
            let rest = content.substring_char(k + 1, n);
            return Ok((trim_text(header), trim_text(rest)));
        }
        k += 1;
    }
    Err(String::from_str("header issue"))
}

} // verus!
