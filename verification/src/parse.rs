//! Reply parsers for the query shapes the instrument emits: bare unsigned and
//! signed integers, decimal values scaled to thousandths, whitespace-separated
//! fields, and single-character unit suffixes.

use vstd::prelude::*;
use vstd::string::StrSliceExecFns;
use crate::text::{
    all_digits, digit_char_test, digit_val, digits_val, is_digit, is_ws, lemma_digits_val_mono,
    ws_char,
};

verus! {

/// Value of a non-empty digit string, if that is what `s` is.
pub open spec fn parse_uint_spec(s: Seq<char>) -> Option<nat> {
    if s.len() > 0 && all_digits(s) {
        Some(digits_val(s))
    } else {
        None
    }
}

/// `parse_uint_spec` with values above `cap` rejected.
pub open spec fn parse_capped_spec(s: Seq<char>, cap: nat) -> Option<u64> {
    match parse_uint_spec(s) {
        Some(n) => if n <= cap {
            Some(n as u64)
        } else {
            None
        },
        None => None,
    }
}

/// Parses the characters of `s` from `start` on as a base-10 numeral, rejecting
/// empty input, non-digits, and values above `cap`.
pub fn parse_capped(s: &str, start: usize, cap: u64) -> (r: Option<u64>)
    requires
        start <= s@.len(),
        cap <= u32::MAX,
    ensures
        r == parse_capped_spec(s@.skip(start as int), cap as nat),
{
    let ghost t = s@.skip(start as int);
    let n: usize = s.unicode_len();
    if start == n {
        return None;
    }
    let mut i: usize = start;
    let mut acc: u64 = 0;
    while i < n
        invariant
            start <= i <= n,
            n == s@.len(),
            start < n,
            t == s@.skip(start as int),
            cap <= u32::MAX,
            acc <= cap,
            all_digits(t.take(i - start)),
            acc == digits_val(t.take(i - start)),
        decreases n - i,
    {
        let c = s.get_char(i);
        assert(t[i - start] == c);
        if !digit_char_test(c) {
            assert(!all_digits(t));
            return None;
        }
        let d: u64 = (c as u32 - '0' as u32) as u64;
        assert(d == digit_val(c));
        assert(t.take(i + 1 - start).drop_last() =~= t.take(i - start));
        assert(t.take(i + 1 - start).last() == c);
        let next: u64 = acc * 10 + d;
        assert(next == digits_val(t.take(i + 1 - start)));
        if next > cap {
            // The numeral so far already exceeds the cap; more digits cannot help.
            proof {
                if parse_uint_spec(t) is Some {
                    lemma_digits_val_mono(t, i + 1 - start, t.len() as int);
                    assert(t.take(t.len() as int) =~= t);
                }
            }
            return None;
        }
        acc = next;
        i = i + 1;
    }
    assert(t.take(i - start) =~= t);
    Some(acc)
}

/// Value of a non-negative numeral no larger than `u8::MAX`.
pub open spec fn parse_u8_spec(s: Seq<char>) -> Option<u8> {
    match parse_capped_spec(s, u8::MAX as nat) {
        Some(n) => Some(n as u8),
        None => None,
    }
}

/// Parses a status-register style reply: a bare numeral 0 to 255.
pub fn parse_u8(s: &str) -> (r: Option<u8>)
    ensures
        r == parse_u8_spec(s@),
{
    assert(s@.skip(0) =~= s@);
    match parse_capped(s, 0, 255) {
        Some(n) => Some(n as u8),
        None => None,
    }
}

/// Value of an optionally `-`-signed numeral that fits in an `i32`
/// (the most negative value is not accepted).
pub open spec fn parse_i32_spec(s: Seq<char>) -> Option<i32> {
    if s.len() > 0 && s[0] == '-' {
        match parse_capped_spec(s.skip(1), i32::MAX as nat) {
            Some(n) => Some((0 - n as int) as i32),
            None => None,
        }
    } else {
        match parse_capped_spec(s, i32::MAX as nat) {
            Some(n) => Some(n as i32),
            None => None,
        }
    }
}

/// Parses a signed integer reply such as an error code or a range index.
pub fn parse_i32(s: &str) -> (r: Option<i32>)
    ensures
        r == parse_i32_spec(s@),
{
    if s.unicode_len() > 0 && s.get_char(0) == '-' {
        match parse_capped(s, 1, i32::MAX as u64) {
            Some(n) => Some(-(n as i32)),
            None => None,
        }
    } else {
        assert(s@.skip(0) =~= s@);
        match parse_capped(s, 0, i32::MAX as u64) {
            Some(n) => Some(n as i32),
            None => None,
        }
    }
}

/// Position of the first `.` in `s`, or the length if there is none.
pub open spec fn dot_pos(s: Seq<char>) -> nat
    decreases s.len(),
{
    if s.len() > 0 && s[0] != '.' {
        1 + dot_pos(s.drop_first())
    } else {
        0
    }
}

/// A position preceded by no dot, and itself a dot or the end, is `dot_pos`.
pub proof fn lemma_dot_pos_val(s: Seq<char>, i: int)
    requires
        0 <= i <= s.len(),
        forall|k: int| 0 <= k < i ==> #[trigger] s[k] != '.',
        i < s.len() ==> s[i] == '.',
    ensures
        dot_pos(s) == i,
    decreases s.len(),
{
    if s.len() > 0 && s[0] != '.' {
        assert(i != 0);
        assert forall|k: int| 0 <= k < i - 1 implies #[trigger] s.drop_first()[k] != '.' by {
            assert(s.drop_first()[k] == s[k + 1]);
        }
        if i - 1 < s.drop_first().len() {
            assert(s.drop_first()[i - 1] == s[i]);
        }
        lemma_dot_pos_val(s.drop_first(), i - 1);
    } else {
        assert(i == 0);
    }
}

/// Scale factor that brings a fractional part of the given width to
/// thousandths.
pub open spec fn frac_scale(l: int) -> nat {
    if l == 1 {
        100
    } else if l == 2 {
        10
    } else {
        1
    }
}

/// Value, in thousandths, of a decimal numeral with an optional fractional
/// part of one to three digits.
pub open spec fn parse_milli_spec(s: Seq<char>) -> Option<nat> {
    let d = dot_pos(s);
    if d == s.len() {
        match parse_uint_spec(s) {
            Some(n) => Some(n * 1000),
            None => None,
        }
    } else {
        let ip = s.take(d as int);
        let fp = s.skip(d as int + 1);
        if 1 <= fp.len() <= 3 {
            match (parse_uint_spec(ip), parse_uint_spec(fp)) {
                (Some(i), Some(f)) => Some(i * 1000 + f * frac_scale(fp.len() as int)),
                _ => None,
            }
        } else {
            None
        }
    }
}

/// `parse_milli_spec` with values that do not fit a `u32` rejected.
pub open spec fn milli_u32_spec(s: Seq<char>) -> Option<u32> {
    match parse_milli_spec(s) {
        Some(n) => if n <= u32::MAX {
            Some(n as u32)
        } else {
            None
        },
        None => None,
    }
}

/// Parses a decimal reply such as `1.234` into thousandths (here, 1234),
/// rejecting values that do not fit in a `u32`.
pub fn parse_milli(s: &str) -> (r: Option<u32>)
    ensures
        r == milli_u32_spec(s@),
{
    let n: usize = s.unicode_len();
    let mut i: usize = 0;
    while i < n && s.get_char(i) != '.'
        invariant
            0 <= i <= n,
            n == s@.len(),
            forall|k: int| 0 <= k < i ==> #[trigger] s@[k] != '.',
        decreases n - i,
    {
        i = i + 1;
    }
    proof {
        lemma_dot_pos_val(s@, i as int);
    }
    if i == n {
        // No fractional part: the whole reply is the integer part.
        assert(s@.skip(0) =~= s@);
        let r = parse_capped(s, 0, (u32::MAX / 1000) as u64);
        proof {
            if let Some(m) = parse_uint_spec(s@) {
                if m > (u32::MAX / 1000) as nat {
                    assert(m * 1000 > u32::MAX) by (nonlinear_arith)
                        requires
                            m > (u32::MAX / 1000) as nat,
                    {}
                }
            }
        }
        match r {
            Some(v) => Some((v as u32) * 1000),
            None => None,
        }
    } else {
        let fp_len: usize = n - i - 1;
        if fp_len < 1 || fp_len > 3 {
            return None;
        }
        let ip = s.substring_char(0, i);
        assert(ip@ =~= s@.take(i as int));
        assert(ip@.skip(0) =~= s@.take(i as int));
        let iv = match parse_capped(ip, 0, (u32::MAX / 1000) as u64) {
            Some(v) => v,
            None => {
                proof {
                    if let Some(m) = parse_uint_spec(s@.take(i as int)) {
                        if m > (u32::MAX / 1000) as nat {
                            assert(m * 1000 > u32::MAX) by (nonlinear_arith)
                                requires
                                    m > (u32::MAX / 1000) as nat,
                            {}
                        }
                    }
                }
                return None;
            },
        };
        let fv = match parse_capped(s, i + 1, 999) {
            Some(v) => v,
            None => {
                proof {
                    if parse_uint_spec(s@.skip(i + 1)) is Some {
                        lemma_digits_val_bound(s@.skip(i + 1));
                    }
                }
                return None;
            },
        };
        proof {
            lemma_digits_val_bound(s@.skip(i + 1));
        }
        let total: u64 = iv * 1000 + fv * (if fp_len == 1 {
            100u64
        } else if fp_len == 2 {
            10u64
        } else {
            1u64
        });
        if total > u32::MAX as u64 {
            None
        } else {
            Some(total as u32)
        }
    }
}

/// A digit string of at most three characters has value at most 999.
proof fn lemma_digits_val_bound(s: Seq<char>)
    requires
        all_digits(s),
        s.len() <= 3,
    ensures
        s.len() <= 1 ==> digits_val(s) <= 9,
        s.len() <= 2 ==> digits_val(s) <= 99,
        digits_val(s) <= 999,
    decreases s.len(),
{
    if s.len() > 0 {
        assert(is_digit(s.last()));
        assert(digit_val(s.last()) <= 9);
        assert(all_digits(s.drop_last())) by {
            assert(forall|k: int|
                0 <= k < s.drop_last().len() ==> #[trigger] s.drop_last()[k] == s[k]);
        }
        lemma_digits_val_bound(s.drop_last());
    }
}

/// Length of the leading run of non-whitespace characters.
pub open spec fn token_len(s: Seq<char>) -> nat
    decreases s.len(),
{
    if s.len() > 0 && !is_ws(s[0]) {
        1 + token_len(s.drop_first())
    } else {
        0
    }
}

/// A position preceded only by non-whitespace, and itself whitespace or the
/// end, is `token_len`.
pub proof fn lemma_token_len_val(s: Seq<char>, i: int)
    requires
        0 <= i <= s.len(),
        forall|k: int| 0 <= k < i ==> !is_ws(#[trigger] s[k]),
        i < s.len() ==> is_ws(s[i]),
    ensures
        token_len(s) == i,
    decreases s.len(),
{
    if s.len() > 0 && !is_ws(s[0]) {
        assert(i != 0);
        assert forall|k: int| 0 <= k < i - 1 implies !is_ws(#[trigger] s.drop_first()[k]) by {
            assert(s.drop_first()[k] == s[k + 1]);
        }
        if i - 1 < s.drop_first().len() {
            assert(s.drop_first()[i - 1] == s[i]);
        }
        lemma_token_len_val(s.drop_first(), i - 1);
    } else {
        assert(i == 0);
    }
}

/// The whitespace-separated fields of `s`, in order.
pub open spec fn fields_spec(s: Seq<char>) -> Seq<Seq<char>>
    decreases s.len(),
    via fields_spec_dec
{
    if s.len() == 0 {
        seq![]
    } else if is_ws(s[0]) {
        fields_spec(s.drop_first())
    } else {
        seq![s.take(token_len(s) as int)] + fields_spec(s.skip(token_len(s) as int))
    }
}

#[via_fn]
proof fn fields_spec_dec(s: Seq<char>) {
    if s.len() > 0 && !is_ws(s[0]) {
        assert(token_len(s) == 1 + token_len(s.drop_first()));
        lemma_token_len_le(s);
    }
}

/// The leading token is no longer than the whole sequence.
pub proof fn lemma_token_len_le(s: Seq<char>)
    ensures
        token_len(s) <= s.len(),
    decreases s.len(),
{
    if s.len() > 0 && !is_ws(s[0]) {
        lemma_token_len_le(s.drop_first());
    }
}

/// Splits `s` into its whitespace-separated fields.
pub fn fields(s: &str) -> (r: Vec<String>)
    ensures
        r.deep_view() == fields_spec(s@),
{
    let n: usize = s.unicode_len();
    let mut out: Vec<String> = Vec::new();
    let mut i: usize = 0;
    proof {
        assert(out.deep_view() =~= Seq::<Seq<char>>::empty());
        assert(s@.skip(0) =~= s@);
        assert(out.deep_view() + fields_spec(s@) =~= fields_spec(s@));
    }
    while i < n
        invariant
            0 <= i <= n,
            n == s@.len(),
            fields_spec(s@) == out.deep_view() + fields_spec(s@.skip(i as int)),
        decreases n - i,
    {
        let c = s.get_char(i);
        if ws_char(c) {
            proof {
                assert(s@.skip(i as int)[0] == c);
                assert(s@.skip(i as int).drop_first() =~= s@.skip(i + 1));
            }
            i = i + 1;
        } else {
            let mut j: usize = i + 1;
            while j < n && !ws_char(s.get_char(j))
                invariant
                    i < j <= n,
                    n == s@.len(),
                    !is_ws(s@[i as int]),
                    forall|k: int| i <= k < j ==> !is_ws(#[trigger] s@[k]),
                decreases n - j,
            {
                j = j + 1;
            }
            let ghost rest = s@.skip(i as int);
            proof {
                assert forall|k: int| 0 <= k < j - i implies !is_ws(#[trigger] rest[k]) by {
                    assert(rest[k] == s@[i + k]);
                }
                if j - i < rest.len() {
                    assert(rest[j - i] == s@[j as int]);
                }
                lemma_token_len_val(rest, j - i);
                assert(rest.take(j - i) =~= s@.subrange(i as int, j as int));
                assert(rest.skip(j - i) =~= s@.skip(j as int));
            }
            let tok = s.substring_char(i, j).to_owned();
            let ghost before = out.deep_view();
            out.push(tok);
            proof {
                assert(out.deep_view() =~= before.push(tok@));
                assert(fields_spec(rest) == seq![tok@] + fields_spec(s@.skip(j as int)));
                assert(before.push(tok@) + fields_spec(s@.skip(j as int)) =~= before + fields_spec(
                    rest,
                ));
            }
            i = j;
        }
    }
    proof {
        assert(s@.skip(i as int) =~= Seq::<char>::empty());
        assert(fields_spec(Seq::<char>::empty()) == Seq::<Seq<char>>::empty());
        assert(out.deep_view() + Seq::<Seq<char>>::empty() =~= out.deep_view());
    }
    out
}

/// The value field of a `LABEL value` reply, if the reply has exactly two
/// whitespace-separated fields.
pub open spec fn pair_value_spec(s: Seq<char>) -> Option<Seq<char>> {
    if fields_spec(s).len() == 2 {
        Some(fields_spec(s)[1])
    } else {
        None
    }
}

/// Extracts the value field of a `LABEL value` reply.
pub fn pair_value(s: &str) -> (r: Option<String>)
    ensures
        (r matches Some(v)) == (pair_value_spec(s@) matches Some(_)),
        r matches Some(v) ==> pair_value_spec(s@) == Some(v@),
{
    let mut f = fields(s);
    if f.len() == 2 {
        let v = f.pop().unwrap();
        assert(v@ == fields_spec(s@)[1]);
        Some(v)
    } else {
        None
    }
}

/// Value of a reply like `1.234A`: a decimal in thousandths followed by the
/// given unit character.
pub open spec fn unit_milli_spec(s: Seq<char>, unit: char) -> Option<u32> {
    if s.len() > 0 && s.last() == unit {
        milli_u32_spec(s.take(s.len() - 1))
    } else {
        None
    }
}

/// Parses a unit-suffixed decimal reply such as `1.234A`.
pub fn parse_unit_milli(s: &str, unit: char) -> (r: Option<u32>)
    ensures
        r == unit_milli_spec(s@, unit),
{
    let n: usize = s.unicode_len();
    if n == 0 {
        return None;
    }
    if s.get_char(n - 1) != unit {
        return None;
    }
    let body = s.substring_char(0, n - 1);
    proof {
        assert(body@ =~= s@.take(s@.len() - 1));
    }
    parse_milli(body)
}

/// Value of a `LABEL value` reply whose value is a decimal in thousandths.
pub open spec fn pair_milli_spec(s: Seq<char>) -> Option<u32> {
    match pair_value_spec(s) {
        Some(v) => milli_u32_spec(v),
        None => None,
    }
}

/// Parses the value of a `LABEL value` reply as a decimal in thousandths.
pub fn parse_pair_milli(s: &str) -> (r: Option<u32>)
    ensures
        r == pair_milli_spec(s@),
{
    match pair_value(s) {
        Some(v) => parse_milli(v.as_str()),
        None => None,
    }
}

/// The reply ends with `OFF` in any letter case.
pub open spec fn ends_with_off_spec(s: Seq<char>) -> bool {
    s.len() >= 3 && (s[s.len() - 3] == 'O' || s[s.len() - 3] == 'o') && (s[s.len() - 2] == 'F'
        || s[s.len() - 2] == 'f') && (s[s.len() - 1] == 'F' || s[s.len() - 1] == 'f')
}

/// Tests whether a reply ends with `OFF` in any letter case.
pub fn ends_with_off(s: &str) -> (r: bool)
    ensures
        r == ends_with_off_spec(s@),
{
    let n: usize = s.unicode_len();
    if n < 3 {
        return false;
    }
    let a = s.get_char(n - 3);
    let b = s.get_char(n - 2);
    let c = s.get_char(n - 1);
    (a == 'O' || a == 'o') && (b == 'F' || b == 'f') && (c == 'F' || c == 'f')
}

/// Reply of a protection query: `OFF` in any case means the protection is
/// disabled; otherwise a `LABEL value` pair gives the trip point.
pub open spec fn protection_spec(s: Seq<char>) -> Option<Option<u32>> {
    if ends_with_off_spec(s) {
        Some(None)
    } else {
        match pair_milli_spec(s) {
            Some(v) => Some(Some(v)),
            None => None,
        }
    }
}

/// Parses a protection-query reply.
pub fn parse_protection(s: &str) -> (r: Option<Option<u32>>)
    ensures
        r == protection_spec(s@),
{
    if ends_with_off(s) {
        Some(None)
    } else {
        match parse_pair_milli(s) {
            Some(v) => Some(Some(v)),
            None => None,
        }
    }
}

/// Reply of an output-state query: `1` for on, `0` for off.
pub open spec fn onoff_spec(s: Seq<char>) -> Option<bool> {
    if s.len() == 1 && s[0] == '1' {
        Some(true)
    } else if s.len() == 1 && s[0] == '0' {
        Some(false)
    } else {
        None
    }
}

/// Parses an output-state reply.
pub fn parse_onoff(s: &str) -> (r: Option<bool>)
    ensures
        r == onoff_spec(s@),
{
    if s.unicode_len() == 1 {
        let c = s.get_char(0);
        if c == '1' {
            Some(true)
        } else if c == '0' {
            Some(false)
        } else {
            None
        }
    } else {
        None
    }
}

} // verus!
