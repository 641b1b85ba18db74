//! Text primitives shared by the whole library: decimal rendering and
//! parsing of unsigned integers, and appending to strings.

use vstd::prelude::*;

verus! {

/// The character for a decimal digit `d` (`0 <= d < 10`).
pub open spec fn digit_char(d: nat) -> char {
    (48 + d) as char
}

/// Whether `c` is an ASCII decimal digit.
pub open spec fn is_digit(c: char) -> bool {
    '0' <= c && c <= '9'
}

/// The value of an ASCII decimal digit.
pub open spec fn digit_value(c: char) -> nat {
    (c as int - 48) as nat
}

/// The decimal rendering of `n`: most significant digit first, no leading
/// zeros, `"0"` for zero.  This is what `{}` formatting of an unsigned
/// integer produces.
pub open spec fn decimal(n: nat) -> Seq<char>
    decreases n,
{
    if n < 10 {
        seq![digit_char(n)]
    } else {
        decimal(n / 10).push(digit_char(n % 10))
    }
}

/// Whether every character of `s` is a decimal digit.
pub open spec fn all_digits(s: Seq<char>) -> bool {
    forall|i: int| 0 <= i < s.len() ==> is_digit(#[trigger] s[i])
}

/// The number that a string of decimal digits denotes.
pub open spec fn digits_value(s: Seq<char>) -> nat
    decreases s.len(),
{
    if s.len() == 0 {
        0
    } else {
        digits_value(s.drop_last()) * 10 + digit_value(s.last())
    }
}

/// The text that follows an optional leading `+`.
pub open spec fn unsigned_body(s: Seq<char>) -> Seq<char> {
    if s.len() > 0 && s[0] == '+' {
        s.drop_first()
    } else {
        s
    }
}

/// What parsing `s` as a `u64` gives: an optional `+` followed by at least
/// one decimal digit, with a value that fits in 64 bits.  No whitespace,
/// sign `-` or other character is accepted.
pub open spec fn parse_u64_spec(s: Seq<char>) -> Option<u64> {
    let body = unsigned_body(s);
    if body.len() > 0 && all_digits(body) && digits_value(body) <= u64::MAX {
        Some(digits_value(body) as u64)
    } else {
        None
    }
}

/// Appends one character to a string.
#[verifier::external_body]
pub(crate) fn push_char(s: &mut String, c: char)
    ensures
        final(s)@ == old(s)@.push(c),
{
    s.push(c);
}

/// Returns the character of decimal digit `d`.
pub fn digit_to_char(d: u64) -> (c: char)
    requires
        d < 10,
    ensures
        c == digit_char(d as nat),
        is_digit(c),
        digit_value(c) == d,
{
    let b: u8 = 48u8 + d as u8;
    b as char
}

/// Appends the decimal rendering of `n` to `s`.
pub fn push_decimal(s: &mut String, n: u64)
    ensures
        final(s)@ == old(s)@ + decimal(n as nat),
    decreases n,
{
    if n >= 10 {
        push_decimal(s, n / 10);
    }
    let c = digit_to_char(n % 10);
    push_char(s, c);
    proof {
        if n >= 10 {
            assert(decimal(n as nat) == decimal((n / 10) as nat).push(digit_char((n % 10) as nat)));
        } else {
            assert(decimal(n as nat) == seq![digit_char(n as nat)]);
        }
    }
    assert(final(s)@ =~= old(s)@ + decimal(n as nat));
}

/// The decimal rendering of `n` as a new string.
pub fn u64_to_decimal(n: u64) -> (s: String)
    ensures
        s@ == decimal(n as nat),
{
    let mut s = String::new();
    push_decimal(&mut s, n);
    assert(s@ =~= decimal(n as nat));
    s
}

/// The digit character of `d` has value `d`.
pub proof fn lemma_digit_char_value(d: nat)
    requires
        d < 10,
    ensures
        is_digit(digit_char(d)),
        digit_value(digit_char(d)) == d,
{
    assert(((48 + d) as char) as int == 48 + d);
}

/// A decimal rendering is made of digits only.
pub proof fn lemma_decimal_digits(n: nat)
    ensures
        decimal(n).len() > 0,
        all_digits(decimal(n)),
        digits_value(decimal(n)) == n,
        decimal(n)[0] != '+',
    decreases n,
{
    lemma_digit_char_value(n % 10);
    if n < 10 {
        assert(decimal(n) == seq![digit_char(n)]);
        assert(seq![digit_char(n)].drop_last() =~= Seq::<char>::empty());
        assert(digits_value(decimal(n)) == digits_value(Seq::<char>::empty()) * 10 + digit_value(digit_char(n)));
    } else {
        lemma_decimal_digits(n / 10);
        let d = decimal(n / 10);
        assert(decimal(n) == d.push(digit_char(n % 10)));
        assert(d.push(digit_char(n % 10)).drop_last() =~= d);
        assert(digits_value(decimal(n)) == digits_value(d) * 10 + digit_value(digit_char(n % 10)));
        assert forall|i: int| 0 <= i < decimal(n).len() implies is_digit(#[trigger] decimal(n)[i]) by {
            if i < d.len() {
                assert(decimal(n)[i] == d[i]);
            }
        }
    }
}

/// Parsing what `push_decimal` writes gives the number back.
pub proof fn lemma_parse_decimal(n: u64)
    ensures
        parse_u64_spec(decimal(n as nat)) == Some(n),
{
    lemma_decimal_digits(n as nat);
}

/// Parses a `u64` as `str::parse::<u64>` does: an optional `+` then decimal
/// digits; `None` on any other input or on overflow.
pub fn parse_u64(s: &str) -> (r: Option<u64>)
    ensures
        r == parse_u64_spec(s@),
{
    let len = s.unicode_len();
    let mut start: usize = 0;
    if len > 0 && s.get_char(0) == '+' {
        start = 1;
    }
    let ghost body = unsigned_body(s@);
    assert(body =~= s@.subrange(start as int, len as int));
    if start >= len {
        return None;
    }
    let mut acc: u64 = 0;
    let mut i: usize = start;
    while i < len
        invariant
            len == s@.len(),
            start <= i <= len,
            start < len,
            body == s@.subrange(start as int, len as int),
            body == unsigned_body(s@),
            all_digits(s@.subrange(start as int, i as int)),
            acc as nat == digits_value(s@.subrange(start as int, i as int)),
        decreases len - i,
    {
        let c = s.get_char(i);
        let ghost prefix = s@.subrange(start as int, i as int);
        let ghost next = s@.subrange(start as int, i + 1);
        assert(next.drop_last() =~= prefix);
        assert(next.last() == c);
        assert(body[i - start] == c);
        if !('0' <= c && c <= '9') {
            assert(!is_digit(body[i - start]));
            assert(!all_digits(body));
            return None;
        }
        let d: u64 = (c as u32 - 48) as u64;
        assert(d as nat == digit_value(c));
        match acc.checked_mul(10) {
            None => {
                proof {
                    lemma_digits_value_prefix_bound(body, (i - start + 1) as int);
                    assert(body.subrange(0, (i - start + 1) as int) =~= next);
                    assert(digits_value(next) == digits_value(prefix) * 10 + digit_value(c));
                }
                return None;
            },
            Some(m) => match m.checked_add(d) {
                None => {
                    proof {
                        lemma_digits_value_prefix_bound(body, (i - start + 1) as int);
                        assert(body.subrange(0, (i - start + 1) as int) =~= next);
                        assert(digits_value(next) == digits_value(prefix) * 10 + digit_value(c));
                    }
                    return None;
                },
                Some(v) => {
                    acc = v;
                },
            },
        }
        assert forall|k: int| 0 <= k < next.len() implies is_digit(#[trigger] next[k]) by {
            if k < prefix.len() {
                assert(next[k] == prefix[k]);
            }
        }
        i = i + 1;
    }
    assert(s@.subrange(start as int, len as int) =~= body);
    Some(acc)
}

/// A digit string is at least worth any of its prefixes, provided it is made
/// of digits up to that prefix's end.
proof fn lemma_digits_value_prefix_bound(s: Seq<char>, k: int)
    requires
        0 <= k <= s.len(),
    ensures
        all_digits(s) ==> digits_value(s.subrange(0, k)) <= digits_value(s),
    decreases s.len() - k,
{
    if k < s.len() && all_digits(s) {
        let t = s.subrange(0, k + 1);
        lemma_digits_value_prefix_bound(s, k + 1);
        assert(t.drop_last() =~= s.subrange(0, k));
    }
    if k == s.len() {
        assert(s.subrange(0, k) =~= s);
    }
}

/// A message made of a fixed text followed by the decimal rendering of a
/// code, such as `unknown channel type: 42`.
pub fn code_message(prefix: &str, v: u8) -> (r: String)
    ensures
        r@ == prefix@ + decimal(v as nat),
{
    let mut s = prefix.to_owned();
    push_decimal(&mut s, v as u64);
    s
}

/// Whether two strings hold the same characters.
pub fn str_eq(a: &str, b: &str) -> (r: bool)
    ensures
        r == (a@ == b@),
{
    let n = a.unicode_len();
    if n != b.unicode_len() {
        return false;
    }
    let mut i: usize = 0;
    while i < n
        invariant
            n == a@.len(),
            n == b@.len(),
            i <= n,
            forall|k: int| 0 <= k < i ==> a@[k] == b@[k],
        decreases n - i,
    {
        if a.get_char(i) != b.get_char(i) {
            return false;
        }
        i = i + 1;
    }
    assert(a@ =~= b@);
    true
}

/// Whether `s` begins with `prefix`.
pub fn starts_with(s: &str, prefix: &str) -> (r: bool)
    ensures
        r == (prefix@.len() <= s@.len() && s@.subrange(0, prefix@.len() as int) == prefix@),
{
    let n = prefix.unicode_len();
    if n > s.unicode_len() {
        return false;
    }
    let mut i: usize = 0;
    while i < n
        invariant
            n == prefix@.len(),
            n <= s@.len(),
            i <= n,
            forall|k: int| 0 <= k < i ==> s@[k] == prefix@[k],
        decreases n - i,
    {
        if s.get_char(i) != prefix.get_char(i) {
            assert(s@.subrange(0, n as int)[i as int] != prefix@[i as int]);
            return false;
        }
        i = i + 1;
    }
    assert(s@.subrange(0, n as int) =~= prefix@);
    true
}

/// The characters of a string, in order.
pub fn chars_of(s: &str) -> (r: Vec<char>)
    ensures
        r@ == s@,
{
    broadcast use vstd::string::axiom_spec_iter;
    let mut v: Vec<char> = Vec::new();
    for c in it: s.chars()
        invariant
            v@ == it.seq().take(it.index() as int),
    {
        v.push(c);
        assert(v@ =~= it.seq().take(it.index() as int + 1));
    }
    assert(v@ =~= s@);
    v
}

/// A decimal rendering followed by text that does not start with a digit
/// is read back unambiguously: the number and the text after it are both
/// determined.
pub proof fn lemma_decimal_split(a: nat, b: nat, s1: Seq<char>, s2: Seq<char>)
    requires
        decimal(a) + s1 == decimal(b) + s2,
        s1.len() > 0 ==> !is_digit(s1[0]),
        s2.len() > 0 ==> !is_digit(s2[0]),
    ensures
        a == b,
        s1 == s2,
{
    lemma_decimal_digits(a);
    lemma_decimal_digits(b);
    let da = decimal(a);
    let db = decimal(b);
    let t = da + s1;
    if da.len() < db.len() {
        assert(t[da.len() as int] == s1[0]);
        assert(t[da.len() as int] == db[da.len() as int]);
        assert(is_digit(db[da.len() as int]));
    } else if db.len() < da.len() {
        assert(t[db.len() as int] == s2[0]);
        assert(t[db.len() as int] == da[db.len() as int]);
        assert(is_digit(da[db.len() as int]));
    } else {
        assert(da =~= t.subrange(0, da.len() as int));
        assert(db =~= (db + s2).subrange(0, db.len() as int));
        assert(s1 =~= t.subrange(da.len() as int, t.len() as int));
        assert(s2 =~= (db + s2).subrange(db.len() as int, t.len() as int));
    }
}

/// Texts that agree after a common prefix are equal.
pub proof fn lemma_cancel_prefix(p: Seq<char>, x: Seq<char>, y: Seq<char>)
    requires
        p + x == p + y,
    ensures
        x == y,
{
    assert(x =~= (p + x).subrange(p.len() as int, (p + x).len() as int));
    assert(y =~= (p + y).subrange(p.len() as int, (p + y).len() as int));
}

} // verus!
