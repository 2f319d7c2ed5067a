//! The text drawn inside a region.

use crate::geometry::Rectangle;
use vstd::prelude::*;
use vstd::string::*;

verus! {

pub open spec fn digit_char(d: nat) -> char {
    if d == 0 {
        '0'
    } else if d == 1 {
        '1'
    } else if d == 2 {
        '2'
    } else if d == 3 {
        '3'
    } else if d == 4 {
        '4'
    } else if d == 5 {
        '5'
    } else if d == 6 {
        '6'
    } else if d == 7 {
        '7'
    } else if d == 8 {
        '8'
    } else {
        '9'
    }
}

/// The decimal digits of `n`, most significant first, without leading zeros.
pub open spec fn decimal(n: nat) -> Seq<char>
    decreases n,
{
    if n < 10 {
        seq![digit_char(n)]
    } else {
        decimal(n / 10) + seq![digit_char(n % 10)]
    }
}

/// A rate given in thousandths of a hertz, written in hertz: the whole part,
/// then, unless the rate is whole, a point and up to three decimals without
/// trailing zeros.
pub open spec fn hertz(millihertz: nat) -> Seq<char> {
    let whole = decimal(millihertz / 1000);
    let frac = millihertz % 1000;
    if frac == 0 {
        whole
    } else if frac % 100 == 0 {
        whole + seq!['.', digit_char(frac / 100)]
    } else if frac % 10 == 0 {
        whole + seq!['.', digit_char(frac / 100), digit_char((frac / 10) % 10)]
    } else {
        whole + seq!['.', digit_char(frac / 100), digit_char((frac / 10) % 10), digit_char(
            frac % 10,
        )]
    }
}

/// The status line of a region: `{width}x{height} @ {refresh}hz`.
pub open spec fn status_spec(rec: Rectangle, refresh: u32) -> Seq<char> {
    decimal(rec.width as nat) + seq!['x'] + decimal(rec.height as nat) + seq![' ', '@', ' ']
        + hertz(refresh as nat) + seq!['h', 'z']
}

fn digit_str(d: u32) -> (s: &'static str)
    requires
        d < 10,
    ensures
        s@ == seq![digit_char(d as nat)],
{
    proof {
        reveal_strlit("0");
        reveal_strlit("1");
        reveal_strlit("2");
        reveal_strlit("3");
        reveal_strlit("4");
        reveal_strlit("5");
        reveal_strlit("6");
        reveal_strlit("7");
        reveal_strlit("8");
        reveal_strlit("9");
    }
    let s = if d == 0 {
        "0"
    } else if d == 1 {
        "1"
    } else if d == 2 {
        "2"
    } else if d == 3 {
        "3"
    } else if d == 4 {
        "4"
    } else if d == 5 {
        "5"
    } else if d == 6 {
        "6"
    } else if d == 7 {
        "7"
    } else if d == 8 {
        "8"
    } else {
        "9"
    };
    assert(s@ =~= seq![digit_char(d as nat)]);
    s
}

/// Appends the decimal digits of `n`.
pub fn push_decimal(out: &mut String, n: u32)
    ensures
        final(out)@ == old(out)@ + decimal(n as nat),
    decreases n,
{
    if n >= 10 {
        push_decimal(out, n / 10);
    }
    out.append(digit_str(n % 10));
    assert(out@ =~= old(out)@ + decimal(n as nat));
}

/// Appends a rate given in millihertz, written in hertz.
pub fn push_hertz(out: &mut String, millihertz: u32)
    ensures
        final(out)@ == old(out)@ + hertz(millihertz as nat),
{
    push_decimal(out, millihertz / 1000);
    let frac: u32 = millihertz % 1000;
    if frac != 0 {
        proof {
            reveal_strlit(".");
        }
        out.append(".");
        out.append(digit_str(frac / 100));
        if frac % 100 != 0 {
            out.append(digit_str((frac / 10) % 10));
            if frac % 10 != 0 {
                out.append(digit_str(frac % 10));
            }
        }
    }
    assert(out@ =~= old(out)@ + hertz(millihertz as nat));
}

/// The status line drawn under a region's name.
pub fn status_line(rec: Rectangle, refresh: u32) -> (out: String)
    ensures
        out@ == status_spec(rec, refresh),
{
    proof {
        reveal_strlit("x");
        reveal_strlit(" @ ");
        reveal_strlit("hz");
    }
    let mut out = String::new();
    push_decimal(&mut out, rec.width);
    out.append("x");
    push_decimal(&mut out, rec.height);
    out.append(" @ ");
    push_hertz(&mut out, refresh);
    out.append("hz");
    assert(out@ =~= status_spec(rec, refresh));
    out
}

} // verus!
