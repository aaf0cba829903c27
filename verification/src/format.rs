//! The default value formatter for axis tick labels.
//!
//! Logical values are fixed-point milli-units; the formatter prints them as
//! plain decimals: the whole part, then a point and up to three fraction
//! digits with trailing zeros trimmed, so `1524000` prints as `1524` and
//! `30500` as `30.5`. A caller may override tick labels per axis instead of
//! using this formatter.

use vstd::prelude::*;

use vstd::arithmetic::div_mod::lemma_div_decreases;
use vstd::arithmetic::div_mod::lemma_div_is_ordered;
use vstd::arithmetic::div_mod::lemma_div_pos_is_pos;
use vstd::string::StringExecFns;

verus! {

/// The character of one decimal digit.
pub open spec fn spec_digit_char(d: int) -> char {
    if d == 0 {
        '0'
    } else if d == 1 {
        '1'
    } else if d == 2 {
        '2'
    } else if d == 3 {
        '3'
    } else if d == 4 {
        '4'
    } else if d == 5 {
        '5'
    } else if d == 6 {
        '6'
    } else if d == 7 {
        '7'
    } else if d == 8 {
        '8'
    } else {
        '9'
    }
}

/// The decimal digits of `n`, most significant first.
pub open spec fn spec_digits(n: nat) -> Seq<char>
    decreases n,
    via spec_digits_decreases
{
    if n < 10 {
        seq![spec_digit_char(n as int)]
    } else {
        spec_digits(n / 10).push(spec_digit_char((n % 10) as int))
    }
}

#[via_fn]
proof fn spec_digits_decreases(n: nat) {
    if n >= 10 {
        lemma_div_decreases(n as int, 10);
        lemma_div_pos_is_pos(n as int, 10);
    }
}

/// How a milli-unit value prints: sign, whole part, and up to three
/// fraction digits with trailing zeros trimmed.
pub open spec fn spec_format_millis(v: int) -> Seq<char> {
    let m = if v < 0 {
        -v
    } else {
        v
    };
    let sign: Seq<char> = if v < 0 {
        seq!['-']
    } else {
        Seq::empty()
    };
    let whole = spec_digits((m / 1000) as nat);
    let frac = m % 1000;
    if frac == 0 {
        sign + whole
    } else {
        let d1 = spec_digit_char(frac / 100);
        let d2 = spec_digit_char((frac / 10) % 10);
        let d3 = spec_digit_char(frac % 10);
        if frac % 10 != 0 {
            sign + whole + seq!['.', d1, d2, d3]
        } else if (frac / 10) % 10 != 0 {
            sign + whole + seq!['.', d1, d2]
        } else {
            sign + whole + seq!['.', d1]
        }
    }
}

/// The one-character string of a decimal digit.
fn digit_str(d: u64) -> (r: &'static str)
    requires
        d < 10,
    ensures
        r@ == seq![spec_digit_char(d as int)],
{
    proof {
        reveal_strlit("0");
        reveal_strlit("1");
        reveal_strlit("2");
        reveal_strlit("3");
        reveal_strlit("4");
        reveal_strlit("5");
        reveal_strlit("6");
        reveal_strlit("7");
        reveal_strlit("8");
        reveal_strlit("9");
    }
    let r = match d {
        0 => "0",
        1 => "1",
        2 => "2",
        3 => "3",
        4 => "4",
        5 => "5",
        6 => "6",
        7 => "7",
        8 => "8",
        _ => "9",
    };
    proof {
        assert(r@ =~= seq![spec_digit_char(d as int)]);
    }
    r
}

/// The decimal digits of `n`, most significant first.
fn u64_digits(n: u64) -> (s: String)
    ensures
        s@ == spec_digits(n as nat),
    decreases n,
{
    if n < 10 {
        digit_str(n).to_owned()
    } else {
        proof {
            lemma_div_decreases(n as int, 10);
            lemma_div_pos_is_pos(n as int, 10);
        }
        let mut s = u64_digits(n / 10);
        s.append(digit_str(n % 10));
        proof {
            assert(s@ =~= spec_digits(n as nat));
        }
        s
    }
}

/// Print a milli-unit value as a decimal string: the library's default
/// tick-label formatter.
pub fn format_value(v: i64) -> (s: String)
    requires
        v != i64::MIN,
    ensures
        s@ == spec_format_millis(v as int),
{
    let neg = v < 0;
    let m: u64 = if neg {
        (-v) as u64
    } else {
        v as u64
    };
    let whole = m / 1000;
    let frac = m % 1000;
    let mut s = if neg {
        proof {
            reveal_strlit("-");
        }
        "-".to_owned()
    } else {
        String::new()
    };
    let ds = u64_digits(whole);
    s.append(ds.as_str());
    if frac != 0 {
        proof {
            reveal_strlit(".");
            assert(frac / 100 < 10) by {
                lemma_div_is_ordered(frac as int, 999, 100);
            }
        }
        s.append(".");
        let d1 = frac / 100;
        let d2 = (frac / 10) % 10;
        let d3 = frac % 10;
        if d3 != 0 {
            s.append(digit_str(d1));
            s.append(digit_str(d2));
            s.append(digit_str(d3));
        } else if d2 != 0 {
            s.append(digit_str(d1));
            s.append(digit_str(d2));
        } else {
            s.append(digit_str(d1));
        }
    }
    proof {
        assert(s@ =~= spec_format_millis(v as int));
    }
    s
}

} // verus!
