//! Character-level string helpers shared by the parsers and the formatter.
use vstd::prelude::*;
use vstd::string::StrSliceExecFns;
use vstd::string::StringExecFns;

verus! {

/// `p` is a literal prefix of `s`.
pub open spec fn is_prefix(p: Seq<char>, s: Seq<char>) -> bool {
    p.len() <= s.len() && s.subrange(0, p.len() as int) == p
}

/// `i` is the position of the first occurrence of `c` in `s`.
pub open spec fn first_at(s: Seq<char>, c: char, i: int) -> bool {
    &&& 0 <= i < s.len()
    &&& s[i] == c
    &&& forall|j: int| 0 <= j < i ==> s[j] != c
}

/// `c` occurs somewhere in `s`.
pub open spec fn contains(s: Seq<char>, c: char) -> bool {
    exists|i: int| 0 <= i < s.len() && s[i] == c
}

/// The position of the first occurrence of `c` in `s` (meaningful when it occurs).
pub open spec fn first_index(s: Seq<char>, c: char) -> int {
    choose|i: int| first_at(s, c, i)
}

/// The text before the first `c`, or the whole of `s` when there is none:
/// the first piece of splitting `s` on `c`.
pub open spec fn head(s: Seq<char>, c: char) -> Seq<char> {
    if contains(s, c) {
        s.subrange(0, first_index(s, c))
    } else {
        s
    }
}

/// The text after the first `c` (meaningful when it occurs).
pub open spec fn tail(s: Seq<char>, c: char) -> Seq<char> {
    s.subrange(first_index(s, c) + 1, s.len() as int)
}

/// The character of a decimal digit.
pub open spec fn digit_char(d: nat) -> char {
    if d == 0 { '0' }
    else if d == 1 { '1' }
    else if d == 2 { '2' }
    else if d == 3 { '3' }
    else if d == 4 { '4' }
    else if d == 5 { '5' }
    else if d == 6 { '6' }
    else if d == 7 { '7' }
    else if d == 8 { '8' }
    else { '9' }
}

/// The decimal notation of `n`, without sign or leading zeros.
pub open spec fn decimal(n: nat) -> Seq<char>
    decreases n,
{
    if n < 10 {
        seq![digit_char(n)]
    } else {
        decimal(n / 10).push(digit_char(n % 10))
    }
}

/// The value of a decimal digit character.
pub open spec fn digit_value(c: char) -> nat {
    (c as u32 - '0' as u32) as nat
}

pub open spec fn is_digit(c: char) -> bool {
    '0' <= c && c <= '9'
}

/// The value of a string of decimal digits (zero for the empty string).
pub open spec fn digits_value(s: Seq<char>) -> nat
    decreases s.len(),
{
    if s.len() == 0 {
        0
    } else {
        digits_value(s.drop_last()) * 10 + digit_value(s.last())
    }
}

/// `s` without one leading `+`, if it has one.
pub open spec fn unsigned_part(s: Seq<char>) -> Seq<char> {
    if s.len() > 0 && s[0] == '+' { s.drop_first() } else { s }
}

pub open spec fn all_digits(d: Seq<char>) -> bool {
    forall|i: int| 0 <= i < d.len() ==> is_digit(#[trigger] d[i])
}

/// What reading `s` as a `u8` gives: an optional `+`, then one or more
/// decimal digits whose value fits in a byte.
pub open spec fn byte_of(s: Seq<char>) -> Option<u8> {
    let d = unsigned_part(s);
    if d.len() > 0 && all_digits(d) && digits_value(d) <= 255 {
        Some(digits_value(d) as u8)
    } else {
        None
    }
}

proof fn lemma_first_at_unique(s: Seq<char>, c: char, i: int)
    requires
        first_at(s, c, i),
    ensures
        contains(s, c),
        first_index(s, c) == i,
{
    let k = first_index(s, c);
    assert(first_at(s, c, k));
    if k < i {
        assert(s[k] != c);
    } else if i < k {
        assert(s[i] != c);
    }
}

/// Whether `prefix` is a literal prefix of `s`.
pub fn starts_with(s: &str, prefix: &str) -> (r: bool)
    ensures
        r == is_prefix(prefix@, s@),
{
    let n = s.unicode_len();
    let m = prefix.unicode_len();
    if m > n {
        return false;
    }
    let mut i: usize = 0;
    while i < m
        invariant
            m == prefix@.len(),
            n == s@.len(),
            m <= n,
            i <= m,
            forall|j: int| 0 <= j < i ==> s@[j] == prefix@[j],
        decreases m - i,
    {
        if s.get_char(i) != prefix.get_char(i) {
            assert(s@.subrange(0, m as int)[i as int] != prefix@[i as int]);
            return false;
        }
        i = i + 1;
    }
    assert(s@.subrange(0, m as int) =~= prefix@);
    true
}

/// The position of the first `c` in `s`, if any.
pub fn find_char(s: &str, c: char) -> (r: Option<usize>)
    ensures
        match r {
            Some(i) => first_at(s@, c, i as int),
            None => !contains(s@, c),
        },
{
    let n = s.unicode_len();
    let mut i: usize = 0;
    while i < n
        invariant
            n == s@.len(),
            i <= n,
            forall|j: int| 0 <= j < i ==> s@[j] != c,
        decreases n - i,
    {
        if s.get_char(i) == c {
            return Some(i);
        }
        i = i + 1;
    }
    None
}

/// Split `s` at its first `c`: the text before it and, if it occurs, the
/// text after it.
pub fn split_first(s: &str, c: char) -> (r: (String, Option<String>))
    ensures
        r.0@ == head(s@, c),
        r.1 is Some <==> contains(s@, c),
        r.1 matches Some(t) ==> t@ == tail(s@, c),
{
    match find_char(s, c) {
        Some(i) => {
            proof {
                lemma_first_at_unique(s@, c, i as int);
            }
            let n = s.unicode_len();
            let before = String::from_str(s.substring_char(0, i));
            let after = String::from_str(s.substring_char(i + 1, n));
            (before, Some(after))
        },
        None => (String::from_str(s), None),
    }
}

proof fn lemma_digits_prefix_le(s: Seq<char>, j: int)
    requires
        0 <= j <= s.len(),
    ensures
        digits_value(s.subrange(0, j)) <= digits_value(s),
    decreases s.len(),
{
    if j == s.len() {
        assert(s.subrange(0, j) =~= s);
    } else {
        let t = s.drop_last();
        assert(s.subrange(0, j) =~= t.subrange(0, j));
        lemma_digits_prefix_le(t, j);
        let x = digits_value(t);
        assert(x <= x * 10) by (nonlinear_arith);
    }
}

/// Read `s` as a byte in decimal, as `u8`'s `FromStr` does.
pub fn parse_byte(s: &str) -> (r: Option<u8>)
    ensures
        r == byte_of(s@),
{
    let n = s.unicode_len();
    let k: usize = if n > 0 && s.get_char(0) == '+' { 1 } else { 0 };
    let ghost d = unsigned_part(s@);
    assert(d =~= s@.subrange(k as int, n as int));
    if k == n {
        return None;
    }
    let mut acc: u32 = 0;
    let mut i: usize = k;
    while i < n
        invariant
            n == s@.len(),
            k <= i <= n,
            d == s@.subrange(k as int, n as int),
            d == unsigned_part(s@),
            forall|j: int| k <= j < i ==> is_digit(s@[j]),
            acc as nat == digits_value(d.subrange(0, i - k)),
            acc <= 255,
        decreases n - i,
    {
        let c = s.get_char(i);
        if !('0' <= c && c <= '9') {
            assert(!is_digit(d[i - k]));
            assert(!all_digits(d));
            return None;
        }
        let v = (c as u32) - ('0' as u32);
        assert(d.subrange(0, i + 1 - k).drop_last() =~= d.subrange(0, i - k));
        assert(d.subrange(0, i + 1 - k).last() == c);
        let next = acc * 10 + v;
        if next > 255 {
            proof {
                lemma_digits_prefix_le(d, i + 1 - k);
                assert(digits_value(d.subrange(0, i + 1 - k)) == acc * 10 + v);
                assert(digits_value(d) > 255);
            }
            return None;
        }
        acc = next;
        i = i + 1;
    }
    assert(d.subrange(0, n - k) =~= d);
    assert forall|j: int| 0 <= j < d.len() implies is_digit(d[j]) by {
        assert(d[j] == s@[j + k]);
    }
    Some(acc as u8)
}

/// The digit string of a value below ten.
fn digit_str(d: usize) -> (r: &'static str)
    requires
        d < 10,
    ensures
        r@ == seq![digit_char(d as nat)],
{
    proof {
        reveal_strlit("0");
        reveal_strlit("1");
        reveal_strlit("2");
        reveal_strlit("3");
        reveal_strlit("4");
        reveal_strlit("5");
        reveal_strlit("6");
        reveal_strlit("7");
        reveal_strlit("8");
        reveal_strlit("9");
    }
    if d == 0 {
        assert("0"@ =~= seq!['0']);
        "0"
    } else if d == 1 {
        assert("1"@ =~= seq!['1']);
        "1"
    } else if d == 2 {
        assert("2"@ =~= seq!['2']);
        "2"
    } else if d == 3 {
        assert("3"@ =~= seq!['3']);
        "3"
    } else if d == 4 {
        assert("4"@ =~= seq!['4']);
        "4"
    } else if d == 5 {
        assert("5"@ =~= seq!['5']);
        "5"
    } else if d == 6 {
        assert("6"@ =~= seq!['6']);
        "6"
    } else if d == 7 {
        assert("7"@ =~= seq!['7']);
        "7"
    } else if d == 8 {
        assert("8"@ =~= seq!['8']);
        "8"
    } else {
        assert("9"@ =~= seq!['9']);
        "9"
    }
}

/// Append the decimal notation of `n` to `out`.
pub fn push_decimal(out: &mut String, n: usize)
    ensures
        final(out)@ == old(out)@ + decimal(n as nat),
    decreases n,
{
    if n >= 10 {
        push_decimal(out, n / 10);
    }
    out.append(digit_str(n % 10));
    proof {
        if n < 10 {
            assert(old(out)@ + decimal(n as nat) =~= final(out)@);
        } else {
            assert(old(out)@ + decimal(n as nat) =~= final(out)@);
        }
    }
}

} // verus!
