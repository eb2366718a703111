//! Rendering of numbers into the command strings the instrument accepts:
//! plain decimals, signed decimals, three-decimal-place values, and the
//! eight-character binary form of a status byte.

use vstd::prelude::*;
use vstd::string::StringExecFns;

verus! {

/// Character for a single decimal digit value.
pub open spec fn digit_char(d: nat) -> char {
    if d == 0 {
        '0'
    } else if d == 1 {
        '1'
    } else if d == 2 {
        '2'
    } else if d == 3 {
        '3'
    } else if d == 4 {
        '4'
    } else if d == 5 {
        '5'
    } else if d == 6 {
        '6'
    } else if d == 7 {
        '7'
    } else if d == 8 {
        '8'
    } else {
        '9'
    }
}

/// Decimal rendering of `n`, most significant digit first, no leading zeros
/// (except for zero itself).
pub open spec fn dec_spec(n: nat) -> Seq<char>
    decreases n,
{
    if n < 10 {
        seq![digit_char(n)]
    } else {
        dec_spec(n / 10).push(digit_char(n % 10))
    }
}

/// Rendering of a signed value: a `-` sign followed by the magnitude.
pub open spec fn dec_i32_spec(v: int) -> Seq<char> {
    if v < 0 {
        seq!['-'] + dec_spec((0 - v) as nat)
    } else {
        dec_spec(v as nat)
    }
}

/// Exactly three digits for a value below 1000.
pub open spec fn pad3_spec(f: nat) -> Seq<char> {
    seq![digit_char(f / 100 % 10), digit_char(f / 10 % 10), digit_char(f % 10)]
}

/// A value in thousandths rendered with three decimal places, as the
/// instrument's set commands expect.
pub open spec fn milli_spec(mv: nat) -> Seq<char> {
    dec_spec(mv / 1000) + seq!['.'] + pad3_spec(mv % 1000)
}

/// Appends one decimal digit character.
pub fn append_digit(s: &mut String, d: u8)
    requires
        d < 10,
    ensures
        final(s)@ == old(s)@.push(digit_char(d as nat)),
{
    let t: &str = if d == 0 {
        "0"
    } else if d == 1 {
        "1"
    } else if d == 2 {
        "2"
    } else if d == 3 {
        "3"
    } else if d == 4 {
        "4"
    } else if d == 5 {
        "5"
    } else if d == 6 {
        "6"
    } else if d == 7 {
        "7"
    } else if d == 8 {
        "8"
    } else {
        "9"
    };
    proof {
        reveal_strlit("0");
        reveal_strlit("1");
        reveal_strlit("2");
        reveal_strlit("3");
        reveal_strlit("4");
        reveal_strlit("5");
        reveal_strlit("6");
        reveal_strlit("7");
        reveal_strlit("8");
        reveal_strlit("9");
        assert(t@ =~= seq![digit_char(d as nat)]);
    }
    s.append(t);
    proof {
        assert(old(s)@ + seq![digit_char(d as nat)] =~= old(s)@.push(digit_char(d as nat)));
    }
}

/// Appends the decimal rendering of `n`.
pub fn append_dec(s: &mut String, n: u32)
    ensures
        final(s)@ == old(s)@ + dec_spec(n as nat),
    decreases n,
{
    if n >= 10 {
        append_dec(s, n / 10);
        append_digit(s, (n % 10) as u8);
        proof {
            assert((old(s)@ + dec_spec((n / 10) as nat)).push(digit_char((n % 10) as nat)) =~= old(
                s,
            )@ + dec_spec(n as nat));
        }
    } else {
        append_digit(s, n as u8);
        proof {
            assert(old(s)@.push(digit_char(n as nat)) =~= old(s)@ + dec_spec(n as nat));
        }
    }
}

/// Appends the signed decimal rendering of `v`.
pub fn append_dec_i32(s: &mut String, v: i32)
    ensures
        final(s)@ == old(s)@ + dec_i32_spec(v as int),
{
    if v < 0 {
        s.append("-");
        let mag: u32 = (-(v as i64)) as u32;
        append_dec(s, mag);
        proof {
            reveal_strlit("-");
            assert("-"@ =~= seq!['-']);
            assert((old(s)@ + "-"@) + dec_spec(mag as nat) =~= old(s)@ + dec_i32_spec(v as int));
        }
    } else {
        append_dec(s, v as u32);
    }
}

/// Appends a thousandths value with exactly three decimal places; 1234
/// becomes `1.234`.
pub fn append_milli(s: &mut String, mv: u32)
    ensures
        final(s)@ == old(s)@ + milli_spec(mv as nat),
{
    append_dec(s, mv / 1000);
    s.append(".");
    let f: u32 = mv % 1000;
    append_digit(s, (f / 100 % 10) as u8);
    append_digit(s, (f / 10 % 10) as u8);
    append_digit(s, (f % 10) as u8);
    proof {
        reveal_strlit(".");
        assert(s@ =~= old(s)@ + milli_spec(mv as nat));
    }
}

/// The eight binary digits of a status byte, most significant bit first.
pub open spec fn bin8_spec(v: u8) -> Seq<char> {
    seq![
        digit_char(v as nat / 128 % 2),
        digit_char(v as nat / 64 % 2),
        digit_char(v as nat / 32 % 2),
        digit_char(v as nat / 16 % 2),
        digit_char(v as nat / 8 % 2),
        digit_char(v as nat / 4 % 2),
        digit_char(v as nat / 2 % 2),
        digit_char(v as nat % 2),
    ]
}

/// Renders a status byte as eight binary digits.
pub fn bin8(v: u8) -> (r: String)
    ensures
        r@ == bin8_spec(v),
{
    let mut s = String::new();
    append_digit(&mut s, v / 128 % 2);
    append_digit(&mut s, v / 64 % 2);
    append_digit(&mut s, v / 32 % 2);
    append_digit(&mut s, v / 16 % 2);
    append_digit(&mut s, v / 8 % 2);
    append_digit(&mut s, v / 4 % 2);
    append_digit(&mut s, v / 2 % 2);
    append_digit(&mut s, v % 2);
    proof {
        assert(s@ =~= bin8_spec(v));
    }
    s
}

} // verus!
