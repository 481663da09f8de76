//! Text predicates and the coercions of field text into values.
use vstd::prelude::*;
use vstd::string::StrSliceExecFns;

verus! {

/// `p` is a prefix of `s`.
pub open spec fn is_prefix(p: Seq<char>, s: Seq<char>) -> bool {
    p.len() <= s.len() && s.subrange(0, p.len() as int) == p
}

/// Whether `s` begins with `p`, characters compared exactly.
pub fn starts_with(s: &str, p: &str) -> (r: bool)
    ensures
        r == is_prefix(p@, s@),
{
    let n = p.unicode_len();
    if n > s.unicode_len() {
        return false;
    }
    let mut i: usize = 0;
    while i < n
        invariant
            n == p@.len(),
            n <= s@.len(),
            i <= n,
            forall|j: int| 0 <= j < i ==> s@[j] == p@[j],
        decreases n - i,
    {
        if s.get_char(i) != p.get_char(i) {
            assert(s@.subrange(0, n as int)[i as int] != p@[i as int]);
            return false;
        }
        i = i + 1;
    }
    assert(s@.subrange(0, n as int) =~= p@);
    true
}

/// Whether the text `s` is exactly `lit`.
pub fn is_named(s: &str, lit: &str) -> (r: bool)
    ensures
        r == (s@ == lit@),
{
    if s.unicode_len() != lit.unicode_len() {
        return false;
    }
    let r = starts_with(s, lit);
    assert(r ==> s@ =~= s@.subrange(0, lit@.len() as int));
    assert(s@ == lit@ ==> s@.subrange(0, lit@.len() as int) =~= lit@);
    r
}

pub open spec fn is_digit(c: char) -> bool {
    '0' <= c && c <= '9'
}

pub open spec fn all_digits(s: Seq<char>) -> bool {
    forall|i: int| 0 <= i < s.len() ==> is_digit(#[trigger] s[i])
}

/// The number that a string of decimal digits writes.
pub open spec fn digits_value(s: Seq<char>) -> int
    decreases s.len(),
{
    if s.len() == 0 {
        0
    } else {
        digits_value(s.drop_last()) * 10 + (s.last() as int - '0' as int)
    }
}

/// The digits of an integer text, after its optional sign.
pub open spec fn unsigned_part(s: Seq<char>) -> Seq<char> {
    if s.len() > 0 && (s[0] == '-' || s[0] == '+') {
        s.subrange(1, s.len() as int)
    } else {
        s
    }
}

/// The value of an integer text: an optional `+` or `-`, then one or more
/// decimal digits, in the range of `i32`; `None` for any other text.
pub open spec fn int_value(s: Seq<char>) -> Option<i32> {
    let d = unsigned_part(s);
    let v = if s.len() > 0 && s[0] == '-' { -digits_value(d) } else { digits_value(d) };
    if d.len() > 0 && all_digits(d) && i32::MIN <= v <= i32::MAX {
        Some(v as i32)
    } else {
        None
    }
}

proof fn lemma_digits_value_grows(s: Seq<char>, k: int)
    requires
        0 <= k <= s.len(),
        all_digits(s),
    ensures
        digits_value(s) >= digits_value(s.subrange(0, k)),
        digits_value(s) >= 0,
    decreases s.len(),
{
    if s.len() > 0 {
        let t = s.drop_last();
        assert(all_digits(t)) by {
            assert forall|i: int| 0 <= i < t.len() implies is_digit(#[trigger] t[i]) by {
                assert(t[i] == s[i]);
            }
        }
        assert(is_digit(s[s.len() - 1]));
        if k == s.len() {
            assert(s.subrange(0, k) =~= s);
            lemma_digits_value_grows(t, 0);
        } else {
            lemma_digits_value_grows(t, k);
            assert(t.subrange(0, k) =~= s.subrange(0, k));
        }
    } else {
        assert(s.subrange(0, k) =~= s);
    }
}

/// Reads an integer field: an optional sign, then decimal digits, within `i32`.
pub fn parse_int(s: &str) -> (r: Option<i32>)
    ensures
        r == int_value(s@),
{
    let n = s.unicode_len();
    let neg = n > 0 && s.get_char(0) == '-';
    let start: usize = if n > 0 && (s.get_char(0) == '-' || s.get_char(0) == '+') { 1 } else { 0 };
    let ghost d = unsigned_part(s@);
    assert(d =~= s@.subrange(start as int, n as int));
    if start >= n {
        return None;
    }
    let limit: i64 = if neg { 2147483648 } else { 2147483647 };
    let mut acc: i64 = 0;
    let mut i: usize = start;
    while i < n
        invariant
            start <= i <= n,
            n == s@.len(),
            d == s@.subrange(start as int, n as int),
            d == unsigned_part(s@),
            0 <= acc <= limit,
            limit == if neg { 2147483648i64 } else { 2147483647i64 },
            neg == (s@.len() > 0 && s@[0] == '-'),
            acc == digits_value(d.subrange(0, i - start)),
            all_digits(d.subrange(0, i - start)),
        decreases n - i,
    {
        let c = s.get_char(i);
        if !('0' <= c && c <= '9') {
            assert(d[i - start] == c);
            assert(!is_digit(d[i - start]));
            assert(!all_digits(d));
            return None;
        }
        let ghost pre = d.subrange(0, i - start);
        let ghost nxt = d.subrange(0, i + 1 - start);
        assert(nxt.drop_last() =~= pre);
        assert(nxt.last() == c);
        let v = acc * 10 + (c as u32 - '0' as u32) as i64;
        assert(all_digits(nxt)) by {
            assert forall|j: int| 0 <= j < nxt.len() implies is_digit(#[trigger] nxt[j]) by {
                if j < pre.len() {
                    assert(nxt[j] == pre[j]);
                }
            }
        }
        assert(digits_value(nxt) == v);
        if v > limit {
            proof {
                if all_digits(d) {
                    lemma_digits_value_grows(d, i + 1 - start);
                }
            }
            return None;
        }
        acc = v;
        i = i + 1;
    }
    assert(d.subrange(0, n - start) =~= d);
    if neg {
        Some((0 - acc) as i32)
    } else {
        Some(acc as i32)
    }
}

/// One step of the recogniser of decimal number texts. States: 0 start,
/// 1 after the sign, 2 in the integer digits, 3 at a point after digits,
/// 4 at a point before any digit, 5 in the fraction digits, 6 after the
/// exponent mark, 7 after the exponent's sign, 8 in the exponent digits,
/// 9 rejected.
pub open spec fn real_step(state: u8, c: char) -> u8 {
    let digit = is_digit(c);
    let sign = c == '+' || c == '-';
    let point = c == '.';
    let exp = c == 'e' || c == 'E';
    if state == 0 {
        if digit { 2 } else if sign { 1 } else if point { 4 } else { 9 }
    } else if state == 1 {
        if digit { 2 } else if point { 4 } else { 9 }
    } else if state == 2 {
        if digit { 2 } else if point { 3 } else if exp { 6 } else { 9 }
    } else if state == 3 || state == 5 {
        if digit { 5 } else if exp { 6 } else { 9 }
    } else if state == 4 {
        if digit { 5 } else { 9 }
    } else if state == 6 {
        if digit { 8 } else if sign { 7 } else { 9 }
    } else if state == 7 || state == 8 {
        if digit { 8 } else { 9 }
    } else {
        9
    }
}

/// The state of the recogniser after reading `s`.
pub open spec fn real_state(s: Seq<char>) -> u8
    decreases s.len(),
{
    if s.len() == 0 {
        0
    } else {
        real_step(real_state(s.drop_last()), s.last())
    }
}

/// A decimal number text: an optional sign, digits with an optional decimal
/// point (at least one digit), then an optional exponent `e` or `E` with an
/// optional sign and at least one digit.
pub open spec fn is_real_text(s: Seq<char>) -> bool {
    let q = real_state(s);
    q == 2 || q == 3 || q == 5 || q == 8
}

fn real_step_exec(state: u8, c: char) -> (r: u8)
    ensures
        r == real_step(state, c),
{
    let digit = '0' <= c && c <= '9';
    let sign = c == '+' || c == '-';
    let point = c == '.';
    let exp = c == 'e' || c == 'E';
    if state == 0 {
        if digit { 2 } else if sign { 1 } else if point { 4 } else { 9 }
    } else if state == 1 {
        if digit { 2 } else if point { 4 } else { 9 }
    } else if state == 2 {
        if digit { 2 } else if point { 3 } else if exp { 6 } else { 9 }
    } else if state == 3 || state == 5 {
        if digit { 5 } else if exp { 6 } else { 9 }
    } else if state == 4 {
        if digit { 5 } else { 9 }
    } else if state == 6 {
        if digit { 8 } else if sign { 7 } else { 9 }
    } else if state == 7 || state == 8 {
        if digit { 8 } else { 9 }
    } else {
        9
    }
}

/// Whether a field's text is a decimal number.
pub fn check_real(s: &str) -> (r: bool)
    ensures
        r == is_real_text(s@),
{
    let n = s.unicode_len();
    let mut state: u8 = 0;
    let mut i: usize = 0;
    while i < n
        invariant
            n == s@.len(),
            i <= n,
            state == real_state(s@.subrange(0, i as int)),
        decreases n - i,
    {
        let ghost pre = s@.subrange(0, i as int);
        let ghost nxt = s@.subrange(0, i + 1);
        assert(nxt.drop_last() =~= pre);
        state = real_step_exec(state, s.get_char(i));
        i = i + 1;
    }
    assert(s@.subrange(0, n as int) =~= s@);
    state == 2 || state == 3 || state == 5 || state == 8
}

} // verus!
