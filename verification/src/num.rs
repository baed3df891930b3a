//! Numeric literal texts: recognizing decimal numerals and reading integers.
//!
//! The grammar accepted here is the decimal-numeral subset that SQL numeric
//! literals use: an optional sign, digits with at most one dot and at least
//! one digit, and an optional exponent part. Every text it accepts is also a
//! well-formed floating-point numeral for the execution engine to read.

use vstd::prelude::*;

verus! {

/// `c` is one of the digits `0` to `9`.
pub open spec fn is_digit_char(c: char) -> bool {
    48 <= c as u32 && c as u32 <= 57
}

/// The value of the digit `c`.
pub open spec fn digit_val(c: char) -> nat {
    (c as u32 - 48) as nat
}

/// Every character of `s` is a digit.
pub open spec fn all_digits(s: Seq<char>) -> bool {
    forall|i: int| 0 <= i < s.len() ==> is_digit_char(#[trigger] s[i])
}

/// `s` is a nonempty run of digits.
pub open spec fn digits_ok(s: Seq<char>) -> bool {
    s.len() > 0 && all_digits(s)
}

/// The value of `s` read as a decimal numeral, most significant digit first.
pub open spec fn dec_val(s: Seq<char>) -> nat
    decreases s.len(),
{
    if s.len() == 0 {
        0
    } else {
        dec_val(s.drop_last()) * 10 + digit_val(s.last())
    }
}

/// `s` opens with an explicit sign.
pub open spec fn has_sign(s: Seq<char>) -> bool {
    s.len() > 0 && (s[0] == '+' || s[0] == '-')
}

/// `s` without its sign, if it has one.
pub open spec fn strip_sign(s: Seq<char>) -> Seq<char> {
    if has_sign(s) {
        s.skip(1)
    } else {
        s
    }
}

/// What `s` denotes as a signed decimal integer within `i64` bounds:
/// an optional sign and a nonempty run of digits, or nothing.
pub open spec fn i64_text_value(s: Seq<char>) -> Option<int> {
    let body = strip_sign(s);
    let neg = s.len() > 0 && s[0] == '-';
    if digits_ok(body) {
        let v: int = if neg {
            -(dec_val(body) as int)
        } else {
            dec_val(body) as int
        };
        if i64::MIN <= v && v <= i64::MAX {
            Some(v)
        } else {
            None
        }
    } else {
        None
    }
}

/// What `s` denotes as an unsigned decimal integer within `usize` bounds:
/// an optional plus sign and a nonempty run of digits, or nothing.
pub open spec fn usize_text_value(s: Seq<char>) -> Option<int> {
    let body = if s.len() > 0 && s[0] == '+' {
        s.skip(1)
    } else {
        s
    };
    if digits_ok(body) && !(s.len() > 0 && s[0] == '-') {
        if dec_val(body) <= usize::MAX {
            Some(dec_val(body) as int)
        } else {
            None
        }
    } else {
        None
    }
}

/// `c` marks an exponent part.
pub open spec fn is_exp_char(c: char) -> bool {
    c == 'e' || c == 'E'
}

/// No character of `s` marks an exponent part.
pub open spec fn no_exp_char(s: Seq<char>) -> bool {
    forall|i: int| 0 <= i < s.len() ==> !is_exp_char(#[trigger] s[i])
}

/// `m` is a mantissa: nonempty, digits with at most one dot, and at least
/// one digit.
pub open spec fn mantissa_ok(m: Seq<char>) -> bool {
    &&& m.len() > 0
    &&& forall|i: int| 0 <= i < m.len() ==> is_digit_char(#[trigger] m[i]) || m[i] == '.'
    &&& forall|i: int, j: int|
        #![trigger m[i], m[j]]
        0 <= i < j < m.len() && m[i] == '.' ==> m[j] != '.'
    &&& exists|i: int| 0 <= i < m.len() && is_digit_char(#[trigger] m[i])
}

/// `e` is an exponent part: an optional sign and a nonempty run of digits.
pub open spec fn exponent_ok(e: Seq<char>) -> bool {
    digits_ok(strip_sign(e))
}

/// `s` is a decimal numeral: an optional sign, a mantissa, and an optional
/// exponent part after the first `e` or `E`.
pub open spec fn is_float_text(s: Seq<char>) -> bool {
    let b = strip_sign(s);
    ||| (no_exp_char(b) && mantissa_ok(b))
    ||| (exists|k: int|
        0 <= k < b.len() && is_exp_char(#[trigger] b[k]) && no_exp_char(b.take(k))
            && mantissa_ok(b.take(k)) && exponent_ok(b.skip(k + 1)))
}

/// A longer digit prefix never denotes a smaller value.
proof fn lemma_dec_val_prefix(s: Seq<char>, i: int)
    requires
        0 <= i <= s.len(),
    ensures
        dec_val(s.take(i)) <= dec_val(s),
    decreases s.len() - i,
{
    if i == s.len() {
        assert(s.take(i) =~= s);
    } else {
        assert(s.take(i + 1).drop_last() =~= s.take(i));
        assert(s.take(i + 1).last() == s[i]);
        assert(dec_val(s.take(i)) <= dec_val(s.take(i)) * 10 + digit_val(s[i]));
        lemma_dec_val_prefix(s, i + 1);
    }
}

/// Reads `s` from position `from` on as a nonempty run of digits, or answers
/// that it is none.
fn digits_from(s: &str, from: usize) -> (b: bool)
    requires
        from <= s@.len(),
    ensures
        b == digits_ok(s@.skip(from as int)),
{
    let n = s.unicode_len();
    if from == n {
        assert(!digits_ok(s@.skip(from as int)));
        return false;
    }
    let ghost body = s@.skip(from as int);
    let mut i: usize = from;
    while i < n
        invariant
            from <= i <= n,
            n == s@.len(),
            from < n,
            body == s@.skip(from as int),
            forall|j: int| 0 <= j < i - from ==> is_digit_char(#[trigger] body[j]),
        decreases n - i,
    {
        let c = s.get_char(i);
        let u = c as u32;
        assert(c == body[i - from]);
        if !(48 <= u && u <= 57) {
            assert(!is_digit_char(body[i - from]));
            return false;
        }
        i = i + 1;
    }
    assert(body.len() == n - from);
    true
}

/// Reads `s` as a signed decimal integer the way [`i64_text_value`] states
/// it: `None` on a malformed text or one outside `i64` bounds.
pub fn parse_i64_text(s: &str) -> (r: Option<i64>)
    ensures
        match r {
            Some(v) => i64_text_value(s@) == Some(v as int),
            None => i64_text_value(s@) is None,
        },
{
    let n = s.unicode_len();
    if n == 0 {
        return None;
    }
    let c0 = s.get_char(0);
    let neg = c0 == '-';
    let start: usize = if c0 == '-' || c0 == '+' {
        1
    } else {
        0
    };
    let ghost body = strip_sign(s@);
    assert(body =~= s@.skip(start as int));
    if start == n {
        assert(!digits_ok(body));
        return None;
    }
    let bound: u64 = if neg {
        9223372036854775808
    } else {
        9223372036854775807
    };
    let mut acc: u64 = 0;
    let mut i: usize = start;
    while i < n
        invariant
            start <= i <= n,
            n == s@.len(),
            start < n,
            body == s@.skip(start as int),
            body == strip_sign(s@),
            neg == (s@.len() > 0 && s@[0] == '-'),
            bound == if neg { 9223372036854775808u64 } else { 9223372036854775807u64 },
            acc <= bound,
            acc == dec_val(body.take(i - start)),
            all_digits(body.take(i - start)),
        decreases n - i,
    {
        let c = s.get_char(i);
        let u = c as u32;
        assert(c == body[i - start]);
        proof {
            assert(body.take(i - start + 1).drop_last() =~= body.take(i - start));
            assert(body.take(i - start + 1).last() == body[i - start]);
        }
        if !(48 <= u && u <= 57) {
            assert(!is_digit_char(body[i - start]));
            assert(!digits_ok(body));
            return None;
        }
        let d: u64 = (u - 48) as u64;
        if acc > (bound - d) / 10 {
            proof {
                assert(acc * 10 + d > bound) by (nonlinear_arith)
                    requires
                        acc > (bound - d) / 10,
                        d <= bound,
                        (bound - d) / 10 == ((bound - d) as int) / 10,
                ;
                assert(dec_val(body.take(i - start + 1)) == acc * 10 + d);
                lemma_dec_val_prefix(body, i - start + 1);
                assert(dec_val(body) > bound);
            }
            return None;
        }
        assert(acc * 10 + d <= bound) by (nonlinear_arith)
            requires
                acc <= (bound - d) / 10,
                d <= bound,
        ;
        acc = acc * 10 + d;
        i = i + 1;
    }
    assert(body.take(n - start) =~= body);
    assert(digits_ok(body));
    if neg {
        if acc == 9223372036854775808 {
            assert(i64_text_value(s@) == Some(i64::MIN as int));
            Some(i64::MIN)
        } else {
            Some(-(acc as i64))
        }
    } else {
        Some(acc as i64)
    }
}

/// Reads `s` as an unsigned decimal integer the way [`usize_text_value`]
/// states it: `None` on a malformed text or one outside `usize` bounds.
pub fn parse_usize_text(s: &str) -> (r: Option<usize>)
    ensures
        match r {
            Some(v) => usize_text_value(s@) == Some(v as int),
            None => usize_text_value(s@) is None,
        },
{
    let n = s.unicode_len();
    if n == 0 {
        return None;
    }
    let c0 = s.get_char(0);
    if c0 == '-' {
        return None;
    }
    let start: usize = if c0 == '+' {
        1
    } else {
        0
    };
    let ghost body = if s@.len() > 0 && s@[0] == '+' {
        s@.skip(1)
    } else {
        s@
    };
    assert(body =~= s@.skip(start as int));
    if start == n {
        assert(!digits_ok(body));
        return None;
    }
    let mut acc: usize = 0;
    let mut i: usize = start;
    while i < n
        invariant
            start <= i <= n,
            n == s@.len(),
            start < n,
            body == s@.skip(start as int),
            body == (if s@.len() > 0 && s@[0] == '+' { s@.skip(1) } else { s@ }),
            s@[0] != '-',
            acc == dec_val(body.take(i - start)),
            all_digits(body.take(i - start)),
        decreases n - i,
    {
        let c = s.get_char(i);
        let u = c as u32;
        assert(c == body[i - start]);
        proof {
            assert(body.take(i - start + 1).drop_last() =~= body.take(i - start));
            assert(body.take(i - start + 1).last() == body[i - start]);
        }
        if !(48 <= u && u <= 57) {
            assert(!is_digit_char(body[i - start]));
            assert(!digits_ok(body));
            return None;
        }
        let d: usize = (u - 48) as usize;
        if acc > (usize::MAX - d) / 10 {
            proof {
                assert(acc * 10 + d > usize::MAX) by (nonlinear_arith)
                    requires
                        acc > (usize::MAX - d) / 10,
                        d <= usize::MAX,
                ;
                assert(dec_val(body.take(i - start + 1)) == acc * 10 + d);
                lemma_dec_val_prefix(body, i - start + 1);
                assert(dec_val(body) > usize::MAX);
            }
            return None;
        }
        assert(acc * 10 + d <= usize::MAX) by (nonlinear_arith)
            requires
                acc <= (usize::MAX - d) / 10,
                d <= usize::MAX,
        ;
        acc = acc * 10 + d;
        i = i + 1;
    }
    assert(body.take(n - start) =~= body);
    assert(digits_ok(body));
    Some(acc)
}

/// Checks that `m` is a mantissa as [`mantissa_ok`] states it.
fn mantissa_check(m: &str) -> (b: bool)
    ensures
        b == mantissa_ok(m@),
{
    let n = m.unicode_len();
    if n == 0 {
        return false;
    }
    let mut dot_at: Option<usize> = None;
    let mut digit_at: Option<usize> = None;
    let mut i: usize = 0;
    while i < n
        invariant
            0 <= i <= n,
            n == m@.len(),
            forall|j: int| 0 <= j < i ==> is_digit_char(#[trigger] m@[j]) || m@[j] == '.',
            match dot_at {
                Some(d) => d < i && m@[d as int] == '.' && forall|j: int|
                    0 <= j < i && j != d ==> #[trigger] m@[j] != '.',
                None => forall|j: int| 0 <= j < i ==> #[trigger] m@[j] != '.',
            },
            match digit_at {
                Some(d) => d < i && is_digit_char(m@[d as int]),
                None => forall|j: int| 0 <= j < i ==> !is_digit_char(#[trigger] m@[j]),
            },
        decreases n - i,
    {
        let c = m.get_char(i);
        let u = c as u32;
        if 48 <= u && u <= 57 {
            if digit_at.is_none() {
                digit_at = Some(i);
            }
        } else if c == '.' {
            match dot_at {
                Some(d) => {
                    assert(m@[d as int] == '.' && m@[i as int] == '.' && d < i);
                    assert(!mantissa_ok(m@));
                    return false;
                },
                None => {
                    dot_at = Some(i);
                },
            }
        } else {
            assert(!(is_digit_char(m@[i as int]) || m@[i as int] == '.'));
            assert(!mantissa_ok(m@));
            return false;
        }
        i = i + 1;
    }
    match digit_at {
        Some(d) => {
            assert(is_digit_char(m@[d as int]));
            assert(mantissa_ok(m@)) by {
                assert(forall|x: int, y: int|
                    0 <= x < y < m@.len() && m@[x] == '.' ==> #[trigger] m@[x] == m@[x]
                        && #[trigger] m@[y] != '.');
            }
            true
        },
        None => {
            assert(!mantissa_ok(m@));
            false
        },
    }
}

/// Checks that `e` is an exponent part as [`exponent_ok`] states it.
fn exponent_check(e: &str) -> (b: bool)
    ensures
        b == exponent_ok(e@),
{
    let n = e.unicode_len();
    if n == 0 {
        return false;
    }
    let c0 = e.get_char(0);
    let start: usize = if c0 == '-' || c0 == '+' {
        1
    } else {
        0
    };
    assert(strip_sign(e@) =~= e@.skip(start as int));
    digits_from(e, start)
}

/// Checks that `s` is a decimal numeral as [`is_float_text`] states it.
pub fn float_text_ok(s: &str) -> (b: bool)
    ensures
        b == is_float_text(s@),
{
    let n = s.unicode_len();
    if n == 0 {
        return false;
    }
    let c0 = s.get_char(0);
    let start: usize = if c0 == '-' || c0 == '+' {
        1
    } else {
        0
    };
    let body = s.substring_char(start, n);
    assert(body@ =~= strip_sign(s@));
    let bn = body.unicode_len();

    // Find the first exponent mark, if any.
    let mut k: usize = 0;
    let mut found = false;
    while k < bn && !found
        invariant
            0 <= k <= bn,
            bn == body@.len(),
            found ==> k < bn && is_exp_char(body@[k as int]),
            forall|j: int| 0 <= j < k ==> !is_exp_char(#[trigger] body@[j]),
        decreases bn - k + (if found { 0int } else { 1int }),
    {
        let c = body.get_char(k);
        if c == 'e' || c == 'E' {
            found = true;
        } else {
            k = k + 1;
        }
    }
    if !found {
        assert(k == bn);
        assert(no_exp_char(body@));
        let ok = mantissa_check(body);
        proof {
            if !ok {
                assert forall|kk: int|
                    !(0 <= kk < body@.len() && is_exp_char(body@[kk]) && no_exp_char(
                        body@.take(kk),
                    ) && mantissa_ok(body@.take(kk)) && exponent_ok(body@.skip(kk + 1))) by {
                    if 0 <= kk < body@.len() {
                        assert(!is_exp_char(body@[kk]));
                    }
                }
            }
        }
        return ok;
    }
    // body@[k] is the first exponent mark.
    assert(is_exp_char(body@[k as int]));
    let mantissa = body.substring_char(0, k);
    assert(mantissa@ =~= body@.take(k as int));
    let m_ok = mantissa_check(mantissa);
    let exponent = body.substring_char(k + 1, bn);
    assert(exponent@ =~= body@.skip(k as int + 1));
    let e_ok = exponent_check(exponent);
    proof {
        // Any exponent mark whose prefix holds no exponent mark is the first.
        assert forall|kk: int|
            0 <= kk < body@.len() && is_exp_char(body@[kk]) && no_exp_char(body@.take(kk))
                implies kk == k by {
            if kk < k {
                assert(!is_exp_char(body@[kk]));
            } else if kk > k {
                assert(body@.take(kk)[k as int] == body@[k as int]);
            }
        }
        assert(!no_exp_char(body@));
    }
    if m_ok && e_ok {
        assert(is_float_text(s@));
        true
    } else {
        assert(!is_float_text(s@));
        false
    }
}

} // verus!
