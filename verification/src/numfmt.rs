//! Decimal formatting for counts: plain digit strings, zero-padded groups and
//! the comma-grouped form used in comparison fragments.

use vstd::prelude::*;
use vstd::string::*;

verus! {

/// The decimal digit character for a value below ten.
pub open spec fn digit_char(d: nat) -> char {
    if d == 0 {
        '0'
    } else if d == 1 {
        '1'
    } else if d == 2 {
        '2'
    } else if d == 3 {
        '3'
    } else if d == 4 {
        '4'
    } else if d == 5 {
        '5'
    } else if d == 6 {
        '6'
    } else if d == 7 {
        '7'
    } else if d == 8 {
        '8'
    } else {
        '9'
    }
}

/// The decimal digits of `n`, most significant first, with no leading zeros
/// (a single '0' for zero).
pub open spec fn dec_seq(n: nat) -> Seq<char>
    decreases n,
{
    if n < 10 {
        seq![digit_char(n)]
    } else {
        dec_seq(n / 10).push(digit_char(n % 10))
    }
}

/// `n` padded with leading zeros to two digits; `n` is below one hundred.
pub open spec fn pad2_seq(n: nat) -> Seq<char> {
    if n < 10 {
        seq!['0'] + dec_seq(n)
    } else {
        dec_seq(n)
    }
}

/// `n` padded with leading zeros to three digits; `n` is below one thousand.
pub open spec fn pad3_seq(n: nat) -> Seq<char> {
    if n < 10 {
        seq!['0', '0'] + dec_seq(n)
    } else if n < 100 {
        seq!['0'] + dec_seq(n)
    } else {
        dec_seq(n)
    }
}

/// The comma-grouped decimal form of `n`: digits in groups of three from the
/// right, the groups separated by commas.
pub open spec fn pretty_seq(n: nat) -> Seq<char>
    decreases n,
{
    if n < 1000 {
        dec_seq(n)
    } else {
        pretty_seq(n / 1000) + seq![','] + pad3_seq(n % 1000)
    }
}

fn digit_str(d: u64) -> (r: &'static str)
    requires
        d < 10,
    ensures
        r@ == seq![digit_char(d as nat)],
{
    let r: &'static str = if d == 0 {
        "0"
    } else if d == 1 {
        "1"
    } else if d == 2 {
        "2"
    } else if d == 3 {
        "3"
    } else if d == 4 {
        "4"
    } else if d == 5 {
        "5"
    } else if d == 6 {
        "6"
    } else if d == 7 {
        "7"
    } else if d == 8 {
        "8"
    } else {
        "9"
    };
    proof {
        reveal_strlit("0");
        reveal_strlit("1");
        reveal_strlit("2");
        reveal_strlit("3");
        reveal_strlit("4");
        reveal_strlit("5");
        reveal_strlit("6");
        reveal_strlit("7");
        reveal_strlit("8");
        reveal_strlit("9");
        assert(r@ =~= seq![digit_char(d as nat)]);
    }
    r
}

/// Writes `n` in decimal, most significant digit first.
pub fn fmt_u64(n: u64) -> (r: String)
    ensures
        r@ == dec_seq(n as nat),
    decreases n,
{
    if n < 10 {
        String::from_str(digit_str(n))
    } else {
        let mut s = fmt_u64(n / 10);
        s.append(digit_str(n % 10));
        proof {
            assert(s@ =~= dec_seq(n as nat));
        }
        s
    }
}

/// Writes `n` in decimal, most significant digit first.
pub fn fmt_usize(n: usize) -> (r: String)
    ensures
        r@ == dec_seq(n as nat),
{
    fmt_u64(n as u64)
}

/// Writes `n` padded with leading zeros to two digits.
pub fn fmt_pad2(n: u64) -> (r: String)
    requires
        n < 100,
    ensures
        r@ == pad2_seq(n as nat),
{
    if n < 10 {
        let mut s = String::from_str("0");
        s.append(digit_str(n));
        proof {
            reveal_strlit("0");
            assert(s@ =~= pad2_seq(n as nat));
        }
        s
    } else {
        fmt_u64(n)
    }
}

fn pad3_str(n: u64) -> (r: String)
    requires
        n < 1000,
    ensures
        r@ == pad3_seq(n as nat),
{
    if n < 10 {
        let mut s = String::from_str("00");
        s.append(digit_str(n));
        proof {
            reveal_strlit("00");
            assert(s@ =~= pad3_seq(n as nat));
        }
        s
    } else if n < 100 {
        let mut s = String::from_str("0");
        let d = fmt_u64(n);
        s.append(d.as_str());
        proof {
            reveal_strlit("0");
            assert(s@ =~= pad3_seq(n as nat));
        }
        s
    } else {
        fmt_u64(n)
    }
}

/// Writes `n` in decimal with a comma between each group of three digits.
pub fn prettyprint_usize(x: usize) -> (r: String)
    ensures
        r@ == pretty_seq(x as nat),
{
    pretty_u64(x as u64)
}

fn pretty_u64(n: u64) -> (r: String)
    ensures
        r@ == pretty_seq(n as nat),
    decreases n,
{
    if n < 1000 {
        fmt_u64(n)
    } else {
        let mut s = pretty_u64(n / 1000);
        s.append(",");
        let g = pad3_str(n % 1000);
        s.append(g.as_str());
        proof {
            reveal_strlit(",");
            assert(s@ =~= pretty_seq(n as nat));
        }
        s
    }
}

} // verus!
