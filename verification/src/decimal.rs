//! Decimal integers: reading them the way `str::parse::<i64>` does and writing them the way
//! `Display` and the zero-padded `{:0N}` format do.

use vstd::prelude::*;
use crate::text::{
    chars_of, is_white_space, push_char, trim, trim_end_spec, trim_spec, trim_start_spec,
};

verus! {

/// An ASCII decimal digit.
pub open spec fn is_digit(c: char) -> bool {
    '0' <= c && c <= '9'
}

/// The value of an ASCII decimal digit.
pub open spec fn digit_value(c: char) -> int {
    c as int - '0' as int
}

/// The character of a digit value below ten.
pub open spec fn digit_char(d: nat) -> char {
    (d + '0' as int) as char
}

/// Every character of `s` is a decimal digit.
pub open spec fn all_digits(s: Seq<char>) -> bool {
    forall|i: int| 0 <= i < s.len() ==> is_digit(#[trigger] s[i])
}

/// The number that a string of decimal digits denotes.
pub open spec fn digits_value(s: Seq<char>) -> int
    decreases s.len(),
{
    if s.len() == 0 {
        0
    } else {
        digits_value(s.drop_last()) * 10 + digit_value(s.last())
    }
}

/// The integer that `s` spells: an optional `+` or `-` followed by at least one decimal digit,
/// and nothing else.
pub open spec fn decimal_value(s: Seq<char>) -> Option<int> {
    if s.len() == 0 {
        None
    } else if s[0] == '+' || s[0] == '-' {
        let body = s.drop_first();
        if body.len() == 0 || !all_digits(body) {
            None
        } else if s[0] == '-' {
            Some(-digits_value(body))
        } else {
            Some(digits_value(body))
        }
    } else if all_digits(s) {
        Some(digits_value(s))
    } else {
        None
    }
}

/// What `str::parse::<i64>` returns: the spelled integer when it fits in an `i64`.
pub open spec fn parse_i64_spec(s: Seq<char>) -> Option<i64> {
    match decimal_value(s) {
        Some(v) => if i64::MIN <= v <= i64::MAX {
            Some(v as i64)
        } else {
            None
        },
        None => None,
    }
}

/// The shortest decimal spelling of `n`.
pub open spec fn digits_of(n: nat) -> Seq<char>
    decreases n,
{
    if n < 10 {
        seq![digit_char(n)]
    } else {
        digits_of(n / 10).push(digit_char(n % 10))
    }
}

/// How `Display` writes an integer: a `-` for negative numbers, then the digits of its magnitude.
pub open spec fn format_int_spec(n: int) -> Seq<char> {
    if n < 0 {
        seq!['-'] + digits_of((-n) as nat)
    } else {
        digits_of(n as nat)
    }
}

/// `n` copies of `0`.
pub open spec fn zeros(n: int) -> Seq<char> {
    Seq::new(if n > 0 { n as nat } else { 0 }, |i: int| '0')
}

/// How `{:0width}` writes an integer: the sign first, then zeros up to the width, then the
/// digits of the magnitude. The width counts the sign; nothing is cut when the number is wider.
pub open spec fn format_padded_spec(n: int, width: nat) -> Seq<char> {
    let sign: Seq<char> = if n < 0 { seq!['-'] } else { Seq::empty() };
    let digits = digits_of(if n < 0 { (-n) as nat } else { n as nat });
    sign + zeros(width - sign.len() - digits.len()) + digits
}

/// Parses a decimal `i64` as `str::parse::<i64>` does.
pub fn parse_i64(s: &str) -> (res: Option<i64>)
    ensures
        res == parse_i64_spec(s@),
{
    let cs = chars_of(s);
    let n = cs.len();
    if n == 0 {
        return None;
    }
    let negative = cs[0] == '-';
    let start: usize = if cs[0] == '+' || cs[0] == '-' { 1 } else { 0 };
    if start == n {
        return None;
    }
    let body = Ghost(s@.subrange(start as int, n as int));
    assert(start == 1 ==> body@ =~= s@.drop_first());
    assert(start == 0 ==> body@ =~= s@);
    let limit: u128 = if negative { 9223372036854775808 } else { 9223372036854775807 };
    let mut acc: u128 = 0;
    let mut k: usize = start;
    while k < n
        invariant
            start <= k <= n,
            n == s@.len(),
            cs@ == s@,
            body@ == s@.subrange(start as int, n as int),
            forall|i: int| start <= i < k ==> is_digit(#[trigger] s@[i]),
            acc == digits_value(s@.subrange(start as int, k as int)),
            acc <= limit,
            n > 0,
            negative == (s@[0] == '-'),
            start == (if s@[0] == '+' || s@[0] == '-' { 1usize } else { 0usize }),
            start < n,
            limit == (if negative { 9223372036854775808u128 } else { 9223372036854775807u128 }),
        decreases n - k,
    {
        let c = cs[k];
        if !('0' <= c && c <= '9') {
            assert(body@[k - start] == c);
            assert(!all_digits(body@));
            assert(start == 0 ==> !all_digits(s@));
            return None;
        }
        let d = (c as u32 - '0' as u32) as u128;
        assert(s@.subrange(start as int, k + 1).drop_last() =~= s@.subrange(start as int, k as int));
        acc = acc * 10 + d;
        assert(acc == digits_value(s@.subrange(start as int, k + 1)));
        if acc > limit {
            proof {
                if all_digits(body@) {
                    lemma_digits_prefix_le(body@, (k + 1 - start) as int);
                    assert(body@.subrange(0, k + 1 - start) =~= s@.subrange(start as int, k + 1));
                    assert(digits_value(body@) > limit);
                    assert(start == 1 ==> body@ =~= s@.drop_first());
                    assert(start == 0 ==> body@ =~= s@);
                }
            }
            return None;
        }
        k = k + 1;
    }
    assert(s@.subrange(start as int, n as int) =~= body@);
    if negative {
        if acc == 9223372036854775808 {
            Some(i64::MIN)
        } else {
            Some(-(acc as i64))
        }
    } else {
        Some(acc as i64)
    }
}

/// The character of a digit value below ten.
fn digit_to_char(d: u64) -> (c: char)
    requires
        d < 10,
    ensures
        c == digit_char(d as nat),
{
    let b: u8 = d as u8 + 48;
    b as char
}

/// Appends the decimal digits of `n`.
fn push_digits(out: &mut String, n: u64)
    ensures
        final(out)@ == old(out)@ + digits_of(n as nat),
    decreases n,
{
    if n >= 10 {
        push_digits(out, n / 10);
    }
    push_char(out, digit_to_char(n % 10));
    assert(final(out)@ =~= old(out)@ + digits_of(n as nat));
}

/// The magnitude of an `i64`.
fn magnitude(n: i64) -> (m: u64)
    ensures
        m as int == if n < 0 { -n } else { n as int },
{
    if n == i64::MIN {
        9223372036854775808
    } else if n < 0 {
        (-n) as u64
    } else {
        n as u64
    }
}

/// Writes `n` in decimal, as `Display` does.
pub fn format_i64(n: i64) -> (res: String)
    ensures
        res@ == format_int_spec(n as int),
{
    let mut out = String::new();
    if n < 0 {
        push_char(&mut out, '-');
    }
    push_digits(&mut out, magnitude(n));
    assert(out@ =~= format_int_spec(n as int));
    out
}

/// Writes `n` in decimal, zero-padded to `width` characters, as `{:0width}` does.
pub fn format_padded(n: i64, width: usize) -> (res: String)
    ensures
        res@ == format_padded_spec(n as int, width as nat),
{
    let mut digits = String::new();
    push_digits(&mut digits, magnitude(n));
    let count = digits.as_str().unicode_len();
    let mut out = String::new();
    let sign_len: usize = if n < 0 { 1 } else { 0 };
    if n < 0 {
        push_char(&mut out, '-');
    }
    let mut fill: usize = 0;
    if width > sign_len && width - sign_len > count {
        fill = width - sign_len - count;
    }
    let ghost sign = out@;
    let mut i: usize = 0;
    while i < fill
        invariant
            i <= fill,
            out@ == sign + zeros(i as int),
        decreases fill - i,
    {
        push_char(&mut out, '0');
        assert(out@ =~= sign + zeros(i + 1));
        i = i + 1;
    }
    out.append(digits.as_str());
    assert(out@ =~= format_padded_spec(n as int, width as nat));
    out
}

/// Reads a promotion id typed or handed over as text: surrounding white space is dropped and
/// the rest must be a decimal `i64`, as `start.trim().parse::<i64>()` reads it.
pub fn parse_promotion_id(text: &str) -> (res: Option<i64>)
    ensures
        res == parse_i64_spec(trim_spec(text@)),
{
    parse_i64(trim(text))
}

/// The digits of a number are decimal digits that denote that number.
pub proof fn lemma_digits_of(n: nat)
    ensures
        digits_of(n).len() >= 1,
        all_digits(digits_of(n)),
        digits_value(digits_of(n)) == n,
    decreases n,
{
    if n < 10 {
        let s = digits_of(n);
        assert(s.drop_last() =~= Seq::<char>::empty());
        assert(digits_value(Seq::<char>::empty()) == 0);
        assert(digit_value(digit_char(n)) == n);
        assert(s.last() == digit_char(n));
        assert(digits_value(s) == digits_value(s.drop_last()) * 10 + digit_value(s.last()));
    } else {
        lemma_digits_of(n / 10);
        let s = digits_of(n);
        assert(s.drop_last() =~= digits_of(n / 10));
        assert(digit_value(digit_char(n % 10)) == n % 10);
        assert(s.last() == digit_char(n % 10));
        assert((n / 10) * 10 + n % 10 == n);
        assert(digits_value(s) == digits_value(s.drop_last()) * 10 + digit_value(s.last()));
        assert forall|i: int| 0 <= i < s.len() implies is_digit(#[trigger] s[i]) by {
            if i < s.len() - 1 {
                assert(s[i] == digits_of(n / 10)[i]);
            }
        }
    }
}

/// Writing an `i64` in decimal and reading it back gives the same number.
pub proof fn law_format_parse_round_trip(n: i64)
    ensures
        parse_i64_spec(format_int_spec(n as int)) == Some(n),
{
    let s = format_int_spec(n as int);
    if n < 0 {
        lemma_digits_of((-n) as nat);
        assert(s.drop_first() =~= digits_of((-n) as nat));
    } else {
        lemma_digits_of(n as nat);
        assert(is_digit(s[0]));
    }
}

/// A decimal number written out has no white space around it, so reading it as a promotion id
/// gives the number back.
pub proof fn law_promotion_id_round_trip(n: i64)
    ensures
        parse_i64_spec(trim_spec(format_int_spec(n as int))) == Some(n),
{
    let s = format_int_spec(n as int);
    law_format_parse_round_trip(n);
    if n < 0 {
        lemma_digits_of((-n) as nat);
        assert(s.last() == digits_of((-n) as nat).last());
    } else {
        lemma_digits_of(n as nat);
    }
    assert(is_digit(s.last()));
    assert(!is_white_space(s[0]));
    assert(trim_start_spec(s) == s);
    assert(!is_white_space(s.last()));
    assert(trim_end_spec(s) == s);
}

/// The value of a digit string is never negative.
pub proof fn lemma_digits_value_nonneg(s: Seq<char>)
    requires
        all_digits(s),
    ensures
        digits_value(s) >= 0,
    decreases s.len(),
{
    if s.len() > 0 {
        assert(all_digits(s.drop_last())) by {
            assert forall|i: int| 0 <= i < s.drop_last().len() implies is_digit(
                #[trigger] s.drop_last()[i],
            ) by {
                assert(s.drop_last()[i] == s[i]);
            }
        }
        assert(is_digit(s[s.len() - 1]));
        lemma_digits_value_nonneg(s.drop_last());
    }
}

/// The value of a digit string is at least that of any of its prefixes.
pub proof fn lemma_digits_prefix_le(s: Seq<char>, k: int)
    requires
        all_digits(s),
        0 <= k <= s.len(),
    ensures
        digits_value(s.subrange(0, k)) <= digits_value(s),
    decreases s.len(),
{
    if k < s.len() {
        let t = s.drop_last();
        assert(all_digits(t)) by {
            assert forall|i: int| 0 <= i < t.len() implies is_digit(#[trigger] t[i]) by {
                assert(t[i] == s[i]);
            }
        }
        assert(is_digit(s[s.len() - 1]));
        lemma_digits_prefix_le(t, k);
        assert(t.subrange(0, k) =~= s.subrange(0, k));
        lemma_digits_value_nonneg(t);
    } else {
        assert(s.subrange(0, k) =~= s);
    }
}

} // verus!
