//! Small text helpers shared by the agent and the controller.

use vstd::prelude::*;

verus! {

/// The ASCII digit for `d` (`d < 10`).
pub open spec fn digit_char(d: nat) -> char {
    if d == 0 {
        '0'
    } else if d == 1 {
        '1'
    } else if d == 2 {
        '2'
    } else if d == 3 {
        '3'
    } else if d == 4 {
        '4'
    } else if d == 5 {
        '5'
    } else if d == 6 {
        '6'
    } else if d == 7 {
        '7'
    } else if d == 8 {
        '8'
    } else {
        '9'
    }
}

/// Decimal notation of `n`, without leading zeros.
pub open spec fn decimal(n: nat) -> Seq<char>
    decreases n,
{
    if n < 10 {
        seq![digit_char(n)]
    } else {
        decimal(n / 10).push(digit_char(n % 10))
    }
}

/// `n` written with at least three digits, padded with leading zeros.
pub open spec fn padded3(n: nat) -> Seq<char> {
    if n < 10 {
        seq!['0', '0'] + decimal(n)
    } else if n < 100 {
        seq!['0'] + decimal(n)
    } else {
        decimal(n)
    }
}

fn digit_string(d: u64) -> (r: String)
    requires
        d < 10,
    ensures
        r@ == seq![digit_char(d as nat)],
{
    let s = if d == 0 {
        "0"
    } else if d == 1 {
        "1"
    } else if d == 2 {
        "2"
    } else if d == 3 {
        "3"
    } else if d == 4 {
        "4"
    } else if d == 5 {
        "5"
    } else if d == 6 {
        "6"
    } else if d == 7 {
        "7"
    } else if d == 8 {
        "8"
    } else {
        "9"
    };
    proof {
        reveal_strlit("0");
        reveal_strlit("1");
        reveal_strlit("2");
        reveal_strlit("3");
        reveal_strlit("4");
        reveal_strlit("5");
        reveal_strlit("6");
        reveal_strlit("7");
        reveal_strlit("8");
        reveal_strlit("9");
    }
    let r = String::from_str(s);
    assert(r@ =~= seq![digit_char(d as nat)]);
    r
}

/// Decimal notation of `n`.
pub fn decimal_string(n: u64) -> (r: String)
    ensures
        r@ == decimal(n as nat),
    decreases n,
{
    if n < 10 {
        digit_string(n)
    } else {
        let mut s = decimal_string(n / 10);
        let d = digit_string(n % 10);
        s.append(d.as_str());
        assert(s@ =~= decimal(n as nat));
        s
    }
}

/// `n` with at least three digits, as `format!("{n:03}")` writes it.
pub fn padded3_string(n: u64) -> (r: String)
    ensures
        r@ == padded3(n as nat),
{
    let digits = decimal_string(n);
    if n < 10 {
        proof {
            reveal_strlit("00");
        }
        let mut s = String::from_str("00");
        s.append(digits.as_str());
        assert(s@ =~= padded3(n as nat));
        s
    } else if n < 100 {
        proof {
            reveal_strlit("0");
        }
        let mut s = String::from_str("0");
        s.append(digits.as_str());
        assert(s@ =~= padded3(n as nat));
        s
    } else {
        digits
    }
}

pub open spec fn is_digit(c: char) -> bool {
    '0' <= c && c <= '9'
}

/// Whether `s` is a non-empty run of ASCII digits.
pub open spec fn is_numeral(s: Seq<char>) -> bool {
    s.len() > 0 && forall|i: int| 0 <= i < s.len() ==> is_digit(#[trigger] s[i])
}

/// The number a run of digits denotes.
pub open spec fn numeral_value(s: Seq<char>) -> nat
    decreases s.len(),
{
    if s.len() == 0 {
        0
    } else {
        numeral_value(s.drop_last()) * 10 + ((s.last() as u32) - ('0' as u32)) as nat
    }
}

proof fn lemma_numeral_prefix_le(s: Seq<char>, i: int)
    requires
        0 <= i <= s.len(),
        forall|j: int| 0 <= j < s.len() ==> is_digit(#[trigger] s[j]),
    ensures
        numeral_value(s.subrange(0, i)) <= numeral_value(s),
    decreases s.len() - i,
{
    if i < s.len() {
        lemma_numeral_prefix_le(s, i + 1);
        let p = s.subrange(0, i + 1);
        assert(p.drop_last() =~= s.subrange(0, i));
        assert(is_digit(p.last()));
    } else {
        assert(s.subrange(0, i) =~= s);
    }
}

/// Reads a decimal numeral; `None` for anything else or a value beyond
/// `u32::MAX`.
pub fn parse_numeral(s: &str) -> (r: Option<u32>)
    ensures
        r is Some <==> is_numeral(s@) && numeral_value(s@) <= u32::MAX,
        r is Some ==> r->Some_0 == numeral_value(s@),
{
    let n = s.unicode_len();
    if n == 0 {
        return None;
    }
    let mut acc: u32 = 0;
    let mut i: usize = 0;
    while i < n
        invariant
            i <= n,
            n == s@.len(),
            forall|j: int| 0 <= j < i ==> is_digit(#[trigger] s@[j]),
            acc as nat == numeral_value(s@.subrange(0, i as int)),
        decreases n - i,
    {
        let c = s.get_char(i);
        if !('0' <= c && c <= '9') {
            return None;
        }
        let d: u32 = (c as u32) - ('0' as u32);
        proof {
            let p = s@.subrange(0, i + 1);
            assert(p.drop_last() =~= s@.subrange(0, i as int));
        }
        if acc > (u32::MAX - d) / 10 {
            proof {
                assert(forall|j: int| 0 <= j < i + 1 ==> is_digit(#[trigger] s@[j]));
                if forall|j: int| 0 <= j < n ==> is_digit(#[trigger] s@[j]) {
                    lemma_numeral_prefix_le(s@, i + 1);
                }
            }
            return None;
        }
        acc = acc * 10 + d;
        i += 1;
    }
    assert(s@.subrange(0, n as int) =~= s@);
    Some(acc)
}

/// Whether some name of `names` is the numeral of `n`.
pub open spec fn number_used(names: Seq<String>, n: nat) -> bool {
    exists|i: int|
        0 <= i < names.len() && is_numeral((#[trigger] names[i])@) && numeral_value(names[i]@) == n
}

/// Pigeonhole: a list holding every number below `n` has at least `n` items.
proof fn lemma_range_needs_room(s: Seq<int>, n: int)
    requires
        0 <= n,
        forall|m: int| 0 <= m < n ==> s.contains(m),
    ensures
        n <= s.len(),
{
    broadcast use vstd::seq_lib::seq_to_set_is_finite;

    vstd::set_lib::lemma_int_range(0, n);
    s.lemma_cardinality_of_set();
    assert(vstd::set_lib::set_int_range(0, n).subset_of(s.to_set()));
    vstd::set_lib::lemma_len_subset(vstd::set_lib::set_int_range(0, n), s.to_set());
}

pub open spec fn as_ints(v: Seq<u32>) -> Seq<int> {
    v.map_values(|x: u32| x as int)
}

/// The smallest non-negative number that no name of `names` is the numeral
/// of (the next session directory). It always exists below `u32::MAX` when
/// fewer than `u32::MAX` names are given.
pub fn smallest_unused_number(names: &Vec<String>) -> (r: Option<u32>)
    ensures
        names@.len() < u32::MAX ==> r is Some,
        r is Some ==> !number_used(names@, r->Some_0 as nat) && forall|m: nat|
            m < r->Some_0 ==> number_used(names@, m),
{
    let mut used: Vec<u32> = Vec::new();
    let mut i: usize = 0;
    while i < names.len()
        invariant
            i <= names@.len(),
            used@.len() <= i,
            forall|k: int| 0 <= k < used@.len() ==> number_used(names@, (#[trigger] used@[k]) as nat),
            forall|j: int|
                0 <= j < i && is_numeral((#[trigger] names@[j])@) && numeral_value(names@[j]@)
                    <= u32::MAX ==> exists|k: int| 0 <= k < used@.len() && used@[k] as nat == numeral_value(names@[j]@),
        decreases names@.len() - i,
    {
        let ghost before = used@;
        match parse_numeral(names[i].as_str()) {
            Some(v) => {
                used.push(v);
                assert(used@[used@.len() - 1] == v);
                assert forall|j: int|
                    0 <= j < i + 1 && is_numeral((#[trigger] names@[j])@) && numeral_value(names@[j]@)
                        <= u32::MAX implies exists|k: int| 0 <= k < used@.len() && used@[k] as nat
                        == numeral_value(names@[j]@) by {
                    if j < i {
                        let k = choose|k: int| 0 <= k < before.len() && before[k] as nat == numeral_value(names@[j]@);
                        assert(used@[k] == before[k]);
                    } else {
                        assert(used@[before.len() as int] == v);
                    }
                }
            },
            None => {},
        }
        i += 1;
    }
    let mut n: u32 = 0;
    loop
        invariant
            used@.len() <= names@.len(),
            forall|m: int| 0 <= m < n ==> as_ints(used@).contains(m),
            forall|k: int| 0 <= k < used@.len() ==> number_used(names@, (#[trigger] used@[k]) as nat),
            forall|j: int|
                0 <= j < names@.len() && is_numeral((#[trigger] names@[j])@) && numeral_value(names@[j]@)
                    <= u32::MAX ==> exists|k: int| 0 <= k < used@.len() && used@[k] as nat == numeral_value(names@[j]@),
            forall|m: nat| m < n ==> number_used(names@, m),
        decreases u32::MAX - n,
    {
        let mut found = false;
        let mut k: usize = 0;
        while k < used.len()
            invariant
                k <= used@.len(),
                found ==> exists|q: int| 0 <= q < used@.len() && used@[q] == n,
                !found ==> forall|q: int| 0 <= q < k ==> used@[q] != n,
            decreases used@.len() - k,
        {
            if used[k] == n {
                found = true;
            }
            k += 1;
        }
        if !found {
            return Some(n);
        }
        proof {
            let q = choose|q: int| 0 <= q < used@.len() && used@[q] == n;
            assert(as_ints(used@)[q] == n as int);
            assert forall|m: int| 0 <= m < n + 1 implies as_ints(used@).contains(m) by {
                if m == n as int {
                    assert(as_ints(used@)[q] == m);
                }
            }
            lemma_range_needs_room(as_ints(used@), n + 1);
        }
        if n == u32::MAX {
            return None;
        }
        n = n + 1;
    }
}

/// An error carrying the message `s`.
pub fn emsg<T>(s: &str) -> (r: Result<T, String>)
    ensures
        r is Err,
        r->Err_0@ == s@,
{
    Err(String::from_str(s))
}

} // verus!
