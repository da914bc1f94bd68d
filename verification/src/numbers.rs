//! Number syntax accepted by std's `FromStr` and `from_str_radix`: unsigned and
//! signed integers with overflow detection, and the decimal-literal grammar of
//! `f64::from_str`.
use vstd::prelude::*;

verus! {

/// `char::to_digit(radix)` for `2 <= radix <= 36`.
pub open spec fn digit_value(c: char, radix: int) -> Option<int> {
    let v = if '0' <= c && c <= '9' {
        c as int - '0' as int
    } else if 'a' <= c && c <= 'z' {
        c as int - 'a' as int + 10
    } else if 'A' <= c && c <= 'Z' {
        c as int - 'A' as int + 10
    } else {
        99
    };
    if v < radix {
        Some(v)
    } else {
        None
    }
}

/// Every character of `s` is a digit in `radix`.
pub open spec fn all_digits(s: Seq<char>, radix: int) -> bool {
    forall|i: int| 0 <= i < s.len() ==> (#[trigger] digit_value(s[i], radix)) is Some
}

/// The value of the digit string `s` in `radix` (most significant digit first).
pub open spec fn digits_value(s: Seq<char>, radix: int) -> int
    decreases s.len(),
{
    if s.len() == 0 {
        0
    } else {
        digits_value(s.drop_last(), radix) * radix + digit_value(s.last(), radix)->0
    }
}

/// `s` without one leading `+`, if it has one.
pub open spec fn strip_plus(s: Seq<char>) -> Seq<char> {
    if s.len() > 0 && s[0] == '+' {
        s.drop_first()
    } else {
        s
    }
}

/// The magnitude that an unsigned integer text denotes: an optional `+`
/// followed by at least one digit in `radix`.
pub open spec fn unsigned_magnitude(s: Seq<char>, radix: int) -> Option<int> {
    let body = strip_plus(s);
    if body.len() > 0 && all_digits(body, radix) {
        Some(digits_value(body, radix))
    } else {
        None
    }
}

/// `from_str_radix` of an unsigned type whose largest value is `max`.
pub open spec fn parse_unsigned(s: Seq<char>, radix: int, max: int) -> Option<int> {
    match unsigned_magnitude(s, radix) {
        Some(v) => if v <= max {
            Some(v)
        } else {
            None
        },
        None => None,
    }
}

/// `from_str` of a signed type ranging over `min..=max`: an optional `+` or `-`
/// followed by at least one decimal digit.
pub open spec fn parse_signed(s: Seq<char>, min: int, max: int) -> Option<int> {
    if s.len() > 0 && s[0] == '-' {
        let body = s.drop_first();
        if body.len() > 0 && all_digits(body, 10) && -digits_value(body, 10) >= min {
            Some(-digits_value(body, 10))
        } else {
            None
        }
    } else {
        parse_unsigned(s, 10, max)
    }
}

/// `u64::from_str`.
pub open spec fn parse_u64_spec(s: Seq<char>) -> Option<u64> {
    match parse_unsigned(s, 10, u64::MAX as int) {
        Some(v) => Some(v as u64),
        None => None,
    }
}

/// `u32::from_str`.
pub open spec fn parse_u32_spec(s: Seq<char>) -> Option<u32> {
    match parse_unsigned(s, 10, u32::MAX as int) {
        Some(v) => Some(v as u32),
        None => None,
    }
}

/// `i32::from_str`.
pub open spec fn parse_i32_spec(s: Seq<char>) -> Option<i32> {
    match parse_signed(s, i32::MIN as int, i32::MAX as int) {
        Some(v) => Some(v as i32),
        None => None,
    }
}

/// `u32::from_str_radix(s, 16)`.
pub open spec fn parse_hex_u32_spec(s: Seq<char>) -> Option<u32> {
    match parse_unsigned(s, 16, u32::MAX as int) {
        Some(v) => Some(v as u32),
        None => None,
    }
}

pub proof fn lemma_digits_value_nonneg(s: Seq<char>, radix: int)
    requires
        radix >= 2,
        all_digits(s, radix),
    ensures
        digits_value(s, radix) >= 0,
    decreases s.len(),
{
    if s.len() > 0 {
        assert(digit_value(s[s.len() - 1], radix) is Some);
        assert(all_digits(s.drop_last(), radix)) by {
            assert forall|i: int| 0 <= i < s.drop_last().len() implies (#[trigger] digit_value(
                s.drop_last()[i],
                radix,
            )) is Some by {
                assert(s.drop_last()[i] == s[i]);
            }
        }
        lemma_digits_value_nonneg(s.drop_last(), radix);
        assert(digits_value(s.drop_last(), radix) * radix >= 0) by (nonlinear_arith)
            requires
                digits_value(s.drop_last(), radix) >= 0,
                radix >= 2,
        ;
    }
}

/// Appending digits never makes the value smaller.
pub proof fn lemma_digits_value_monotone(s: Seq<char>, radix: int, i: int, j: int)
    requires
        radix >= 2,
        all_digits(s, radix),
        0 <= i <= j <= s.len(),
    ensures
        digits_value(s.take(i), radix) <= digits_value(s.take(j), radix),
    decreases j - i,
{
    if i < j {
        lemma_digits_value_monotone(s, radix, i, j - 1);
        let t = s.take(j);
        assert(t.drop_last() =~= s.take(j - 1));
        assert(digit_value(s[j - 1], radix) is Some);
        assert(t.last() == s[j - 1]);
        assert(all_digits(s.take(j - 1), radix)) by {
            assert forall|k: int| 0 <= k < s.take(j - 1).len() implies (#[trigger] digit_value(
                s.take(j - 1)[k],
                radix,
            )) is Some by {
                assert(s.take(j - 1)[k] == s[k]);
            }
        }
        lemma_digits_value_nonneg(s.take(j - 1), radix);
        let p = digits_value(s.take(j - 1), radix);
        assert(p * radix >= p) by (nonlinear_arith)
            requires
                p >= 0,
                radix >= 2,
        ;
    }
}

/// `char::to_digit(radix)` for radix 10 or 16.
pub fn digit_of(c: char, radix: u32) -> (r: Option<u32>)
    requires
        radix == 10 || radix == 16,
    ensures
        r matches Some(d) ==> digit_value(c, radix as int) == Some(d as int),
        r is None ==> digit_value(c, radix as int) is None,
{
    let v: u32 = if '0' <= c && c <= '9' {
        (c as u32) - ('0' as u32)
    } else if 'a' <= c && c <= 'z' {
        (c as u32) - ('a' as u32) + 10
    } else if 'A' <= c && c <= 'Z' {
        (c as u32) - ('A' as u32) + 10
    } else {
        99
    };
    if v < radix {
        Some(v)
    } else {
        None
    }
}

/// The value of the non-empty digit string `s[lo..]` in `radix` if it is at
/// most `max`; `None` if a character is no digit or the value exceeds `max`.
fn digits_bounded(s: &Vec<char>, lo: usize, radix: u32, max: u64) -> (r: Option<u64>)
    requires
        radix == 10 || radix == 16,
        lo <= s@.len(),
    ensures
        ({
            let body = s@.subrange(lo as int, s@.len() as int);
            match r {
                Some(v) => all_digits(body, radix as int) && digits_value(body, radix as int) == v
                    && v <= max,
                None => !all_digits(body, radix as int) || digits_value(body, radix as int) > max,
            }
        }),
{
    let ghost body = s@.subrange(lo as int, s@.len() as int);
    let n = s.len();
    let mut acc: u64 = 0;
    let mut i = lo;
    while i < n
        invariant
            n == s@.len(),
            lo <= i <= n,
            radix == 10 || radix == 16,
            body == s@.subrange(lo as int, n as int),
            all_digits(body.take(i - lo), radix as int),
            digits_value(body.take(i - lo), radix as int) == acc,
            acc <= max,
        decreases n - i,
    {
        let d = match digit_of(s[i], radix) {
            Some(d) => d,
            None => {
                assert(body[i - lo] == s@[i as int]);
                return None;
            },
        };
        assert((acc as u128) * (radix as u128) <= 16 * 0xffff_ffff_ffff_ffffu128) by (nonlinear_arith)
            requires
                acc <= 0xffff_ffff_ffff_ffffu64,
                radix <= 16,
        ;
        assert(d < 16);
        let next: u128 = (acc as u128) * (radix as u128) + (d as u128);
        let ghost t = body.take(i - lo + 1);
        assert(t.drop_last() =~= body.take(i - lo));
        assert(t.last() == s@[i as int]);
        assert(all_digits(t, radix as int)) by {
            assert forall|k: int| 0 <= k < t.len() implies (#[trigger] digit_value(
                t[k],
                radix as int,
            )) is Some by {
                if k < t.len() - 1 {
                    assert(t[k] == body.take(i - lo)[k]);
                }
            }
        }
        assert(digits_value(t, radix as int) == next);
        if next > max as u128 {
            proof {
                if all_digits(body, radix as int) {
                    lemma_digits_value_monotone(body, radix as int, i - lo + 1, body.len() as int);
                    assert(body.take(body.len() as int) =~= body);
                }
            }
            return None;
        }
        acc = next as u64;
        i = i + 1;
    }
    assert(body.take(n - lo) =~= body);
    Some(acc)
}

/// `from_str_radix` for an unsigned type whose largest value is `max`.
pub fn parse_unsigned_exec(s: &Vec<char>, radix: u32, max: u64) -> (r: Option<u64>)
    requires
        radix == 10 || radix == 16,
    ensures
        r matches Some(v) ==> parse_unsigned(s@, radix as int, max as int) == Some(v as int),
        r is None ==> parse_unsigned(s@, radix as int, max as int) is None,
{
    let lo: usize = if s.len() > 0 && s[0] == '+' {
        1
    } else {
        0
    };
    assert(strip_plus(s@) =~= s@.subrange(lo as int, s@.len() as int));
    if lo >= s.len() {
        return None;
    }
    digits_bounded(s, lo, radix, max)
}

/// `u64::from_str` on a character vector.
pub fn parse_u64(s: &Vec<char>) -> (r: Option<u64>)
    ensures
        r == parse_u64_spec(s@),
{
    parse_unsigned_exec(s, 10, u64::MAX)
}

/// `u32::from_str` on a character vector.
pub fn parse_u32(s: &Vec<char>) -> (r: Option<u32>)
    ensures
        r == parse_u32_spec(s@),
{
    match parse_unsigned_exec(s, 10, u32::MAX as u64) {
        Some(v) => Some(v as u32),
        None => None,
    }
}

/// `u32::from_str_radix(s, 16)` on a character vector.
pub fn parse_hex_u32(s: &Vec<char>) -> (r: Option<u32>)
    ensures
        r == parse_hex_u32_spec(s@),
{
    match parse_unsigned_exec(s, 16, u32::MAX as u64) {
        Some(v) => Some(v as u32),
        None => None,
    }
}

/// `i32::from_str` on a character vector.
pub fn parse_i32(s: &Vec<char>) -> (r: Option<i32>)
    ensures
        r == parse_i32_spec(s@),
{
    if s.len() > 0 && s[0] == '-' {
        assert(s@.drop_first() =~= s@.subrange(1, s@.len() as int));
        if s.len() == 1 {
            return None;
        }
        match digits_bounded(s, 1, 10, 2147483648) {
            Some(m) => {
                let v: i64 = -(m as i64);
                Some(v as i32)
            },
            None => None,
        }
    } else {
        match parse_unsigned_exec(s, 10, i32::MAX as u64) {
            Some(v) => Some(v as i32),
            None => None,
        }
    }
}

/// `c` is one of the two given letters (an ASCII letter in either case).
pub open spec fn is_letter(c: char, lower: char, upper: char) -> bool {
    c == lower || c == upper
}

/// `inf`, ignoring ASCII case.
pub open spec fn is_inf_word(b: Seq<char>) -> bool {
    b.len() == 3 && is_letter(b[0], 'i', 'I') && is_letter(b[1], 'n', 'N') && is_letter(
        b[2],
        'f',
        'F',
    )
}

/// `infinity`, ignoring ASCII case.
pub open spec fn is_infinity_word(b: Seq<char>) -> bool {
    &&& b.len() == 8
    &&& is_letter(b[0], 'i', 'I') && is_letter(b[1], 'n', 'N') && is_letter(b[2], 'f', 'F')
    &&& is_letter(b[3], 'i', 'I') && is_letter(b[4], 'n', 'N') && is_letter(b[5], 'i', 'I')
    &&& is_letter(b[6], 't', 'T') && is_letter(b[7], 'y', 'Y')
}

/// `nan`, ignoring ASCII case.
pub open spec fn is_nan_word(b: Seq<char>) -> bool {
    b.len() == 3 && is_letter(b[0], 'n', 'N') && is_letter(b[1], 'a', 'A') && is_letter(
        b[2],
        'n',
        'N',
    )
}

pub open spec fn is_decimal_digit(c: char) -> bool {
    '0' <= c && c <= '9'
}

/// `( Digit+ | Digit+ '.' Digit* | Digit* '.' Digit+ )`: digits with at most one
/// decimal point and at least one digit.
pub open spec fn is_mantissa(m: Seq<char>) -> bool {
    &&& forall|i: int| 0 <= i < m.len() ==> is_decimal_digit(#[trigger] m[i]) || m[i] == '.'
    &&& forall|i: int, j: int|
        0 <= i < m.len() && 0 <= j < m.len() && #[trigger] m[i] == '.' && #[trigger] m[j] == '.'
            ==> i == j
    &&& exists|i: int| 0 <= i < m.len() && is_decimal_digit(#[trigger] m[i])
}

/// The part of `Exp ::= 'e' Sign? Digit+` after the `e`.
pub open spec fn is_exponent_tail(x: Seq<char>) -> bool {
    let d = if x.len() > 0 && (x[0] == '+' || x[0] == '-') {
        x.drop_first()
    } else {
        x
    };
    d.len() > 0 && all_digits(d, 10)
}

pub open spec fn is_exp_marker(c: char) -> bool {
    c == 'e' || c == 'E'
}

/// Index of the first `e` or `E` at or after `i` (or `b.len()`).
pub open spec fn exp_marker_from(b: Seq<char>, i: int) -> int
    decreases b.len() - i,
{
    if 0 <= i < b.len() && !is_exp_marker(b[i]) {
        exp_marker_from(b, i + 1)
    } else {
        i
    }
}

/// `Number ::= Mantissa Exp?`.
pub open spec fn is_decimal_number(b: Seq<char>) -> bool {
    let k = exp_marker_from(b, 0);
    if k >= b.len() {
        is_mantissa(b)
    } else {
        is_mantissa(b.take(k)) && is_exponent_tail(b.skip(k + 1))
    }
}

/// Whether `f64::from_str` accepts `s`: an optional sign followed by `inf`,
/// `infinity`, `nan` (ignoring ASCII case) or a decimal number with an optional
/// exponent. Values that round to infinity or zero are accepted too.
pub open spec fn is_float_literal(s: Seq<char>) -> bool {
    let b = if s.len() > 0 && (s[0] == '+' || s[0] == '-') {
        s.drop_first()
    } else {
        s
    };
    is_inf_word(b) || is_infinity_word(b) || is_nan_word(b) || is_decimal_number(b)
}

fn is_letter_exec(c: char, lower: char, upper: char) -> (r: bool)
    ensures
        r == is_letter(c, lower, upper),
{
    c == lower || c == upper
}

/// Checks `is_mantissa(s[lo..hi])`.
fn mantissa_ok(s: &Vec<char>, lo: usize, hi: usize) -> (r: bool)
    requires
        lo <= hi <= s@.len(),
    ensures
        r == is_mantissa(s@.subrange(lo as int, hi as int)),
{
    let ghost m = s@.subrange(lo as int, hi as int);
    let mut i = lo;
    let mut dot: Option<usize> = None;
    let mut digit = false;
    while i < hi
        invariant
            lo <= i <= hi <= s@.len(),
            m == s@.subrange(lo as int, hi as int),
            forall|k: int| 0 <= k < i - lo ==> is_decimal_digit(#[trigger] m[k]) || m[k] == '.',
            dot matches Some(d) ==> lo <= d < i && m[d - lo] == '.',
            dot is None ==> forall|k: int| 0 <= k < i - lo ==> #[trigger] m[k] != '.',
            dot matches Some(d) ==> forall|k: int| 0 <= k < i - lo && #[trigger] m[k] == '.' ==> k
                == d - lo,
            digit <==> exists|k: int| 0 <= k < i - lo && is_decimal_digit(#[trigger] m[k]),
        decreases hi - i,
    {
        let c = s[i];
        assert(m[i - lo] == c);
        if '0' <= c && c <= '9' {
            digit = true;
        } else if c == '.' {
            if let Some(d) = dot {
                assert(m[d - lo] == '.' && m[i - lo] == '.');
                return false;
            }
            dot = Some(i);
        } else {
            return false;
        }
        i = i + 1;
    }
    digit
}

/// Checks `is_exponent_tail(s[lo..])`.
fn exponent_ok(s: &Vec<char>, lo: usize) -> (r: bool)
    requires
        lo <= s@.len(),
    ensures
        r == is_exponent_tail(s@.skip(lo as int)),
{
    let ghost x = s@.skip(lo as int);
    let n = s.len();
    let start = if lo < n && (s[lo] == '+' || s[lo] == '-') {
        lo + 1
    } else {
        lo
    };
    assert(x.len() > 0 ==> x[0] == s@[lo as int]);
    let ghost d = if x.len() > 0 && (x[0] == '+' || x[0] == '-') {
        x.drop_first()
    } else {
        x
    };
    assert(d =~= s@.subrange(start as int, n as int));
    if start >= n {
        assert(d.len() == 0);
        return false;
    }
    let mut i = start;
    while i < n
        invariant
            start <= i <= n,
            n == s@.len(),
            d == s@.subrange(start as int, n as int),
            x == s@.skip(lo as int),
            is_exponent_tail(x) == (d.len() > 0 && all_digits(d, 10)),
            forall|k: int| 0 <= k < i - start ==> (#[trigger] digit_value(d[k], 10)) is Some,
        decreases n - i,
    {
        assert(d[i - start] == s@[i as int]);
        if !('0' <= s[i] && s[i] <= '9') {
            assert(digit_value(d[i - start], 10) is None);
            assert(!all_digits(d, 10));
            assert(!is_exponent_tail(x));
            return false;
        }
        i = i + 1;
    }
    assert(all_digits(d, 10));
    true
}

/// Whether `f64::from_str` accepts the characters `s`.
pub fn is_float_literal_exec(s: &Vec<char>) -> (r: bool)
    ensures
        r == is_float_literal(s@),
{
    let n = s.len();
    let lo: usize = if n > 0 && (s[0] == '+' || s[0] == '-') {
        1
    } else {
        0
    };
    let ghost b = if s@.len() > 0 && (s@[0] == '+' || s@[0] == '-') {
        s@.drop_first()
    } else {
        s@
    };
    assert(b =~= s@.subrange(lo as int, n as int));
    let len = n - lo;
    if len == 3 {
        assert(b[0] == s@[lo as int] && b[1] == s@[lo + 1] && b[2] == s@[lo + 2]);
        if is_letter_exec(s[lo], 'i', 'I') && is_letter_exec(s[lo + 1], 'n', 'N')
            && is_letter_exec(s[lo + 2], 'f', 'F') {
            return true;
        }
        if is_letter_exec(s[lo], 'n', 'N') && is_letter_exec(s[lo + 1], 'a', 'A')
            && is_letter_exec(s[lo + 2], 'n', 'N') {
            return true;
        }
    }
    if len == 8 {
        assert(b[0] == s@[lo as int] && b[1] == s@[lo + 1] && b[2] == s@[lo + 2] && b[3]
            == s@[lo + 3] && b[4] == s@[lo + 4] && b[5] == s@[lo + 5] && b[6] == s@[lo + 6]
            && b[7] == s@[lo + 7]);
        if is_letter_exec(s[lo], 'i', 'I') && is_letter_exec(s[lo + 1], 'n', 'N')
            && is_letter_exec(s[lo + 2], 'f', 'F') && is_letter_exec(s[lo + 3], 'i', 'I')
            && is_letter_exec(s[lo + 4], 'n', 'N') && is_letter_exec(s[lo + 5], 'i', 'I')
            && is_letter_exec(s[lo + 6], 't', 'T') && is_letter_exec(s[lo + 7], 'y', 'Y') {
            return true;
        }
    }
    let mut k = lo;
    while k < n && !(s[k] == 'e' || s[k] == 'E')
        invariant
            lo <= k <= n,
            n == s@.len(),
            b == s@.subrange(lo as int, n as int),
            exp_marker_from(b, k - lo) == exp_marker_from(b, 0),
        decreases n - k,
    {
        assert(b[k - lo] == s@[k as int]);
        k = k + 1;
    }
    if k < n {
        assert(b[k - lo] == s@[k as int]);
    }
    assert(b.take(k - lo) =~= s@.subrange(lo as int, k as int));
    if k >= n {
        mantissa_ok(s, lo, n)
    } else {
        assert(b.skip(k - lo + 1) =~= s@.skip(k + 1));
        mantissa_ok(s, lo, k) && exponent_ok(s, k + 1)
    }
}

} // verus!
