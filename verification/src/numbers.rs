//! Numbers as a config file spells them.
//!
//! The grammar is Rust's own `FromStr` for the integer and float types: an
//! optional sign, then ASCII digits, with no whitespace anywhere. Only
//! *whether* a float parses is decided here; its value is read where floating
//! point lives.

use vstd::prelude::*;

verus! {

pub open spec fn is_digit(c: char) -> bool {
    '0' <= c && c <= '9'
}

pub open spec fn all_digits(s: Seq<char>) -> bool {
    forall|i: int| 0 <= i < s.len() ==> is_digit(#[trigger] s[i])
}

pub open spec fn digit_value(c: char) -> int {
    (c as int) - ('0' as int)
}

/// The value of a run of decimal digits.
pub open spec fn digits_value(s: Seq<char>) -> int
    decreases s.len(),
{
    if s.len() == 0 {
        0
    } else {
        digits_value(s.drop_last()) * 10 + digit_value(s.last())
    }
}

pub open spec fn is_sign(c: char) -> bool {
    c == '+' || c == '-'
}

/// What `<i32 as FromStr>::from_str` gives for `s`.
pub open spec fn spec_parse_i32(s: Seq<char>) -> Option<i32> {
    if s.len() == 0 || (s.len() == 1 && is_sign(s[0])) {
        None
    } else {
        let digits = if is_sign(s[0]) {
            s.drop_first()
        } else {
            s
        };
        let value = if s[0] == '-' {
            -digits_value(digits)
        } else {
            digits_value(digits)
        };
        if all_digits(digits) && i32::MIN <= value <= i32::MAX {
            Some(value as i32)
        } else {
            None
        }
    }
}

/// What `<usize as FromStr>::from_str` gives for `s`: a leading `+` is
/// allowed, a leading `-` is not.
pub open spec fn spec_parse_usize(s: Seq<char>) -> Option<usize> {
    if s.len() == 0 || (s.len() == 1 && s[0] == '+') {
        None
    } else {
        let digits = if s[0] == '+' {
            s.drop_first()
        } else {
            s
        };
        if all_digits(digits) && digits_value(digits) <= usize::MAX {
            Some(digits_value(digits) as usize)
        } else {
            None
        }
    }
}

pub proof fn lemma_digits_value_nonneg(s: Seq<char>)
    requires
        all_digits(s),
    ensures
        digits_value(s) >= 0,
    decreases s.len(),
{
    if s.len() > 0 {
        lemma_digits_value_nonneg(s.drop_last());
    }
}

/// A prefix of a run of digits is worth no more than the run.
pub proof fn lemma_digits_value_prefix(s: Seq<char>, k: int)
    requires
        all_digits(s),
        0 <= k <= s.len(),
    ensures
        digits_value(s.take(k)) <= digits_value(s),
    decreases s.len(),
{
    if k == s.len() {
        assert(s.take(k) =~= s);
    } else {
        assert(s.drop_last().take(k) =~= s.take(k));
        lemma_digits_value_prefix(s.drop_last(), k);
        lemma_digits_value_nonneg(s.drop_last());
    }
}

fn is_digit_char(c: char) -> (b: bool)
    ensures
        b == is_digit(c),
{
    '0' <= c && c <= '9'
}

/// The value of the digits in `t[start..]`, or `None` when one of them is not
/// a digit or the value passes `limit`.
fn digits_up_to(t: &Vec<char>, start: usize, limit: u64) -> (r: Option<u64>)
    requires
        start <= t.len(),
        limit <= 0x0fff_ffff_ffff_ffffu64,
    ensures
        match r {
            Some(v) => all_digits(t@.skip(start as int)) && v == digits_value(t@.skip(start as int))
                && v <= limit,
            None => !all_digits(t@.skip(start as int)) || digits_value(t@.skip(start as int))
                > limit,
        },
{
    let mut acc: u64 = 0;
    let mut i: usize = start;
    while i < t.len()
        invariant
            start <= i <= t.len(),
            limit <= 0x0fff_ffff_ffff_ffffu64,
            all_digits(t@.subrange(start as int, i as int)),
            acc == digits_value(t@.subrange(start as int, i as int)),
            acc <= limit,
        decreases t.len() - i,
    {
        let c = t[i];
        proof {
            assert(t@.subrange(start as int, i + 1).drop_last() =~= t@.subrange(start as int, i as int));
        }
        if !is_digit_char(c) {
            proof {
                assert(t@.skip(start as int)[i - start] == c);
            }
            return None;
        }
        let d = (c as u32 - '0' as u32) as u64;
        acc = acc * 10 + d;
        i = i + 1;
        proof {
            assert(all_digits(t@.subrange(start as int, i as int)));
        }
        if acc > limit {
            proof {
                let tail = t@.skip(start as int);
                assert(tail.take(i - start) =~= t@.subrange(start as int, i as int));
                if all_digits(tail) {
                    lemma_digits_value_prefix(tail, i - start);
                }
            }
            return None;
        }
    }
    assert(t@.subrange(start as int, t.len() as int) =~= t@.skip(start as int));
    Some(acc)
}

/// Reads an `i32` the way `str::parse::<i32>` does.
pub fn parse_i32(t: &Vec<char>) -> (r: Option<i32>)
    ensures
        r == spec_parse_i32(t@),
{
    let n = t.len();
    if n == 0 {
        return None;
    }
    let first = t[0];
    let signed = first == '+' || first == '-';
    if n == 1 && signed {
        return None;
    }
    let start: usize = if signed {
        1
    } else {
        0
    };
    assert(t@.skip(start as int) =~= (if is_sign(t@[0]) {
        t@.drop_first()
    } else {
        t@
    }));
    let negative = first == '-';
    let limit: u64 = if negative {
        0x8000_0000
    } else {
        0x7fff_ffff
    };
    match digits_up_to(t, start, limit) {
        Some(v) => {
            if negative {
                Some((0 - (v as i64)) as i32)
            } else {
                Some(v as i32)
            }
        },
        None => None,
    }
}

/// Reads a `usize` the way `str::parse::<usize>` does.
pub fn parse_usize(t: &Vec<char>) -> (r: Option<usize>)
    ensures
        r == spec_parse_usize(t@),
{
    let n = t.len();
    if n == 0 {
        return None;
    }
    let first = t[0];
    if n == 1 && first == '+' {
        return None;
    }
    let start: usize = if first == '+' {
        1
    } else {
        0
    };
    assert(t@.skip(start as int) =~= (if t@[0] == '+' {
        t@.drop_first()
    } else {
        t@
    }));
    let limit: u64 = if usize::MAX as u64 <= 0x0fff_ffff_ffff_ffff {
        usize::MAX as u64
    } else {
        0x0fff_ffff_ffff_ffff
    };
    match digits_up_to(t, start, limit) {
        Some(v) => Some(v as usize),
        None => {
            if usize::MAX as u64 > 0x0fff_ffff_ffff_ffff {
                // Past this limit only a value too large for `usize` remains
                // to be told apart; read the rest with the full width.
                parse_wide_usize(t, start)
            } else {
                None
            }
        },
    }
}

/// The digits of `t[start..]` read into a `u128`, for a `usize` wider than
/// the fast path's limit.
fn parse_wide_usize(t: &Vec<char>, start: usize) -> (r: Option<usize>)
    requires
        start <= t.len(),
    ensures
        r == (if all_digits(t@.skip(start as int)) && digits_value(t@.skip(start as int))
            <= usize::MAX {
            Some(digits_value(t@.skip(start as int)) as usize)
        } else {
            None
        }),
{
    let mut acc: u128 = 0;
    let mut i: usize = start;
    while i < t.len()
        invariant
            start <= i <= t.len(),
            all_digits(t@.subrange(start as int, i as int)),
            acc == digits_value(t@.subrange(start as int, i as int)),
            acc <= usize::MAX,
        decreases t.len() - i,
    {
        let c = t[i];
        proof {
            assert(t@.subrange(start as int, i + 1).drop_last() =~= t@.subrange(start as int, i as int));
        }
        if !is_digit_char(c) {
            proof {
                assert(t@.skip(start as int)[i - start] == c);
            }
            return None;
        }
        let d = (c as u32 - '0' as u32) as u128;
        acc = acc * 10 + d;
        i = i + 1;
        proof {
            assert(all_digits(t@.subrange(start as int, i as int)));
        }
        if acc > usize::MAX as u128 {
            proof {
                let tail = t@.skip(start as int);
                assert(tail.take(i - start) =~= t@.subrange(start as int, i as int));
                if all_digits(tail) {
                    lemma_digits_value_prefix(tail, i - start);
                }
            }
            return None;
        }
    }
    assert(t@.subrange(start as int, t.len() as int) =~= t@.skip(start as int));
    Some(acc as usize)
}

/// The first position in `s` holding `a` or `b`, or its length when neither
/// is there.
pub open spec fn find_either(s: Seq<char>, a: char, b: char) -> int
    decreases s.len(),
{
    if s.len() == 0 {
        0
    } else if s[0] == a || s[0] == b {
        0
    } else {
        1 + find_either(s.drop_first(), a, b)
    }
}

/// `s` spells `lit` ignoring ASCII case, `lit` being written in lowercase.
pub open spec fn eq_ignore_case(s: Seq<char>, lit: Seq<char>) -> bool {
    &&& s.len() == lit.len()
    &&& forall|i: int|
        0 <= i < s.len() ==> #[trigger] s[i] == lit[i] || (lit[i] as u32 >= 32 && s[i] as u32 == (
            lit[i] as u32) - 32)
}

/// `Digit+`, `Digit+ '.' Digit*` or `Digit* '.' Digit+`.
pub open spec fn is_mantissa(m: Seq<char>) -> bool {
    let d = find_either(m, '.', '.');
    if d == m.len() {
        m.len() > 0 && all_digits(m)
    } else {
        m.len() >= 2 && all_digits(m.take(d)) && all_digits(m.skip(d + 1))
    }
}

/// What follows the `e` of an exponent: `Sign? Digit+`.
pub open spec fn is_exponent(x: Seq<char>) -> bool {
    let digits = if x.len() > 0 && is_sign(x[0]) {
        x.drop_first()
    } else {
        x
    };
    digits.len() > 0 && all_digits(digits)
}

pub open spec fn is_decimal(body: Seq<char>) -> bool {
    let e = find_either(body, 'e', 'E');
    is_mantissa(body.take(e)) && (e == body.len() || is_exponent(body.skip(e + 1)))
}

/// Whether `<f64 as FromStr>::from_str` accepts `s`: an optional sign, then
/// `inf`, `infinity` or `nan` in any ASCII case, or a decimal with an
/// optional exponent.
pub open spec fn is_float_literal(s: Seq<char>) -> bool {
    let body = if s.len() > 0 && is_sign(s[0]) {
        s.drop_first()
    } else {
        s
    };
    ||| eq_ignore_case(body, "inf"@)
    ||| eq_ignore_case(body, "infinity"@)
    ||| eq_ignore_case(body, "nan"@)
    ||| is_decimal(body)
}

proof fn lemma_find_either(s: Seq<char>, a: char, b: char, k: int)
    requires
        0 <= k <= s.len(),
        forall|j: int| 0 <= j < k ==> s[j] != a && s[j] != b,
        k == s.len() || s[k] == a || s[k] == b,
    ensures
        find_either(s, a, b) == k,
    decreases k,
{
    if k > 0 {
        lemma_find_either(s.drop_first(), a, b, k - 1);
    }
}

/// Where `a` or `b` first appears in `t[lo..hi]`, counted from `lo`; `hi` when
/// neither does.
fn find_in(t: &Vec<char>, lo: usize, hi: usize, a: char, b: char) -> (r: usize)
    requires
        lo <= hi <= t.len(),
    ensures
        lo <= r <= hi,
        r - lo == find_either(t@.subrange(lo as int, hi as int), a, b),
{
    let mut i = lo;
    while i < hi && t[i] != a && t[i] != b
        invariant
            lo <= i <= hi <= t.len(),
            forall|j: int| lo <= j < i ==> t@[j] != a && t@[j] != b,
        decreases hi - i,
    {
        i = i + 1;
    }
    proof {
        lemma_find_either(t@.subrange(lo as int, hi as int), a, b, i - lo);
    }
    i
}

/// Whether `t[lo..hi]` is all digits.
fn digits_in(t: &Vec<char>, lo: usize, hi: usize) -> (b: bool)
    requires
        lo <= hi <= t.len(),
    ensures
        b == all_digits(t@.subrange(lo as int, hi as int)),
{
    let mut i = lo;
    while i < hi
        invariant
            lo <= i <= hi <= t.len(),
            forall|j: int| lo <= j < i ==> is_digit(t@[j]),
        decreases hi - i,
    {
        if !is_digit_char(t[i]) {
            assert(t@.subrange(lo as int, hi as int)[i - lo] == t@[i as int]);
            return false;
        }
        i = i + 1;
    }
    assert forall|j: int| 0 <= j < hi - lo implies is_digit(
        #[trigger] t@.subrange(lo as int, hi as int)[j],
    ) by {
        assert(t@.subrange(lo as int, hi as int)[j] == t@[lo + j]);
    }
    true
}

/// Whether `t[lo..]` spells `lit` ignoring ASCII case.
fn matches_ignoring_case(t: &Vec<char>, lo: usize, lit: &str) -> (b: bool)
    requires
        lo <= t.len(),
    ensures
        b == eq_ignore_case(t@.skip(lo as int), lit@),
{
    let n = lit.unicode_len();
    if t.len() - lo != n {
        return false;
    }
    let mut i: usize = 0;
    while i < n
        invariant
            n == lit@.len(),
            t.len() - lo == n,
            i <= n,
            forall|j: int|
                0 <= j < i ==> #[trigger] t@.skip(lo as int)[j] == lit@[j] || (lit@[j] as u32 >= 32
                    && t@.skip(lo as int)[j] as u32 == (lit@[j] as u32) - 32),
        decreases n - i,
    {
        let c = t[lo + i];
        let l = lit.get_char(i);
        assert(t@.skip(lo as int)[i as int] == c);
        let (cu, lu) = (c as u32, l as u32);
        if !(c == l || (lu >= 32 && cu == lu - 32)) {
            return false;
        }
        i = i + 1;
    }
    true
}

/// Whether `t[lo..hi]` is a mantissa.
fn mantissa_in(t: &Vec<char>, lo: usize, hi: usize) -> (b: bool)
    requires
        lo <= hi <= t.len(),
    ensures
        b == is_mantissa(t@.subrange(lo as int, hi as int)),
{
    let ghost m = t@.subrange(lo as int, hi as int);
    let d = find_in(t, lo, hi, '.', '.');
    if d == hi {
        hi > lo && digits_in(t, lo, hi)
    } else {
        assert(m.take(d - lo) =~= t@.subrange(lo as int, d as int));
        assert(m.skip(d - lo + 1) =~= t@.subrange(d + 1, hi as int));
        hi - lo >= 2 && digits_in(t, lo, d) && digits_in(t, d + 1, hi)
    }
}

/// Whether `t` is something `str::parse::<f64>` accepts.
pub fn parses_as_float(t: &Vec<char>) -> (b: bool)
    ensures
        b == is_float_literal(t@),
{
    let n = t.len();
    let start: usize = if n > 0 && (t[0] == '+' || t[0] == '-') {
        1
    } else {
        0
    };
    let ghost body = t@.skip(start as int);
    assert(body =~= (if t@.len() > 0 && is_sign(t@[0]) {
        t@.drop_first()
    } else {
        t@
    }));
    if matches_ignoring_case(t, start, "inf") || matches_ignoring_case(t, start, "infinity")
        || matches_ignoring_case(t, start, "nan") {
        return true;
    }
    assert(body =~= t@.subrange(start as int, n as int));
    let e = find_in(t, start, n, 'e', 'E');
    assert(body.take(e - start) =~= t@.subrange(start as int, e as int));
    if !mantissa_in(t, start, e) {
        return false;
    }
    if e == n {
        return true;
    }
    let ghost x = body.skip(e - start + 1);
    assert(x =~= t@.subrange(e + 1, n as int));
    let mut digits = e + 1;
    if digits < n && (t[digits] == '+' || t[digits] == '-') {
        digits = digits + 1;
    }
    assert(t@.subrange(digits as int, n as int) =~= (if x.len() > 0 && is_sign(x[0]) {
        x.drop_first()
    } else {
        x
    }));
    digits < n && digits_in(t, digits, n)
}

} // verus!
