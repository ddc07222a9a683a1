//! Decimal rendering of the integers and fixed-point quantities that appear
//! in the bot's messages: plain counters, zero-padded clock fields, and
//! milli-unit scores printed with three fractional digits.

use vstd::prelude::*;

verus! {

/// The decimal digit character for `d`.
pub open spec fn spec_digit(d: nat) -> char
    recommends
        d < 10,
{
    if d == 0 {
        '0'
    } else if d == 1 {
        '1'
    } else if d == 2 {
        '2'
    } else if d == 3 {
        '3'
    } else if d == 4 {
        '4'
    } else if d == 5 {
        '5'
    } else if d == 6 {
        '6'
    } else if d == 7 {
        '7'
    } else if d == 8 {
        '8'
    } else {
        '9'
    }
}

/// The decimal notation of `n`, without padding: most significant digit
/// first, a single `'0'` for zero.
pub open spec fn spec_dec(n: nat) -> Seq<char>
    decreases n,
{
    if n < 10 {
        seq![spec_digit(n)]
    } else {
        spec_dec(n / 10).push(spec_digit(n % 10))
    }
}

/// `n` as exactly two digits, zero-padded.
pub open spec fn spec_pad2(n: nat) -> Seq<char>
    recommends
        n < 100,
{
    seq![spec_digit(n / 10), spec_digit(n % 10)]
}

/// `n` as exactly four digits, zero-padded.
pub open spec fn spec_pad4(n: nat) -> Seq<char>
    recommends
        n < 10000,
{
    seq![
        spec_digit(n / 1000),
        spec_digit(n / 100 % 10),
        spec_digit(n / 10 % 10),
        spec_digit(n % 10),
    ]
}

/// A milli-unit quantity printed with three fractional digits, the fixed
/// point counterpart of printing a real number with `%.3f`: the integer part
/// in plain decimal, a dot, then the remaining thousandths zero-padded.
pub open spec fn spec_millis(m: nat) -> Seq<char> {
    spec_dec(m / 1000) + seq![
        '.',
        spec_digit(m % 1000 / 100),
        spec_digit(m % 1000 / 10 % 10),
        spec_digit(m % 1000 % 10),
    ]
}

/// The one-character string for the digit `d`.
fn digit_str(d: u64) -> (r: &'static str)
    requires
        d < 10,
    ensures
        r@ == seq![spec_digit(d as nat)],
{
    proof {
        reveal_strlit("0");
        reveal_strlit("1");
        reveal_strlit("2");
        reveal_strlit("3");
        reveal_strlit("4");
        reveal_strlit("5");
        reveal_strlit("6");
        reveal_strlit("7");
        reveal_strlit("8");
        reveal_strlit("9");
    }
    let r: &'static str = match d {
        0 => "0",
        1 => "1",
        2 => "2",
        3 => "3",
        4 => "4",
        5 => "5",
        6 => "6",
        7 => "7",
        8 => "8",
        _ => "9",
    };
    proof {
        assert(r@ =~= seq![spec_digit(d as nat)]);
    }
    r
}

/// `n` in decimal notation.
pub fn u64_to_dec(n: u64) -> (r: String)
    ensures
        r@ == spec_dec(n as nat),
    decreases n,
{
    if n < 10 {
        String::from_str(digit_str(n))
    } else {
        let mut s = u64_to_dec(n / 10);
        s.append(digit_str(n % 10));
        proof {
            assert(s@ =~= spec_dec((n / 10) as nat).push(spec_digit((n % 10) as nat)));
        }
        s
    }
}

/// `n` as two zero-padded digits.
pub fn u64_to_pad2(n: u64) -> (r: String)
    requires
        n < 100,
    ensures
        r@ == spec_pad2(n as nat),
{
    let mut s = String::from_str(digit_str(n / 10));
    s.append(digit_str(n % 10));
    proof {
        assert(s@ =~= spec_pad2(n as nat));
    }
    s
}

/// `n` as four zero-padded digits.
pub fn u64_to_pad4(n: u64) -> (r: String)
    requires
        n < 10000,
    ensures
        r@ == spec_pad4(n as nat),
{
    let mut s = String::from_str(digit_str(n / 1000));
    s.append(digit_str(n / 100 % 10));
    s.append(digit_str(n / 10 % 10));
    s.append(digit_str(n % 10));
    proof {
        assert(s@ =~= spec_pad4(n as nat));
    }
    s
}

/// A milli-unit quantity with three fractional digits, e.g. `12034` as
/// `"12.034"`.
pub fn millis_to_string(m: u64) -> (r: String)
    ensures
        r@ == spec_millis(m as nat),
{
    proof {
        reveal_strlit(".");
    }
    let mut s = u64_to_dec(m / 1000);
    s.append(".");
    let f = m % 1000;
    s.append(digit_str(f / 100));
    s.append(digit_str(f / 10 % 10));
    s.append(digit_str(f % 10));
    proof {
        assert(s@ =~= spec_millis(m as nat));
    }
    s
}

} // verus!
