//! Text rendering of numbers and small string utilities.

use vstd::prelude::*;
use vstd::string::*;

verus! {

/// The character of a single decimal digit.
pub open spec fn digit_char(d: nat) -> char {
    if d == 0 {
        '0'
    } else if d == 1 {
        '1'
    } else if d == 2 {
        '2'
    } else if d == 3 {
        '3'
    } else if d == 4 {
        '4'
    } else if d == 5 {
        '5'
    } else if d == 6 {
        '6'
    } else if d == 7 {
        '7'
    } else if d == 8 {
        '8'
    } else {
        '9'
    }
}

/// Decimal notation of `n`, most significant digit first, without leading zeros.
pub open spec fn decimal_digits(n: nat) -> Seq<char>
    decreases n,
{
    if n < 10 {
        seq![digit_char(n)]
    } else {
        decimal_digits(n / 10).push(digit_char(n % 10))
    }
}

/// The `places` low-order decimal digits of `n`, most significant first, zero-padded.
pub open spec fn fixed_digits(n: nat, places: nat) -> Seq<char>
    decreases places,
{
    if places == 0 {
        Seq::empty()
    } else {
        fixed_digits(n / 10, (places - 1) as nat).push(digit_char(n % 10))
    }
}

/// `fixed_digits(n, places)` with its trailing zeros removed.
pub open spec fn fraction_digits(n: nat, places: nat) -> Seq<char>
    decreases places,
{
    if places == 0 {
        Seq::empty()
    } else if n % 10 == 0 {
        fraction_digits(n / 10, (places - 1) as nat)
    } else {
        fixed_digits(n, places)
    }
}

/// Ten to the power `e`.
pub open spec fn pow10(e: nat) -> nat
    decreases e,
{
    if e == 0 {
        1
    } else {
        10 * pow10((e - 1) as nat)
    }
}

/// Shortest decimal notation of `amount / 10^places`: the whole part, then,
/// only when the remainder is non-zero, a point and the fractional digits
/// without trailing zeros.
pub open spec fn major_unit_text(amount: nat, places: nat) -> Seq<char> {
    let whole = amount / pow10(places);
    let part = amount % pow10(places);
    if part == 0 {
        decimal_digits(whole)
    } else {
        decimal_digits(whole) + seq!['.'] + fraction_digits(part, places)
    }
}

fn digit_str(d: u8) -> (r: &'static str)
    requires
        d < 10,
    ensures
        r@ == seq![digit_char(d as nat)],
{
    proof {
        reveal_strlit("0");
        reveal_strlit("1");
        reveal_strlit("2");
        reveal_strlit("3");
        reveal_strlit("4");
        reveal_strlit("5");
        reveal_strlit("6");
        reveal_strlit("7");
        reveal_strlit("8");
        reveal_strlit("9");
    }
    match d {
        0 => "0",
        1 => "1",
        2 => "2",
        3 => "3",
        4 => "4",
        5 => "5",
        6 => "6",
        7 => "7",
        8 => "8",
        _ => "9",
    }
}

/// Appends the decimal notation of `n` to `out`.
pub fn append_decimal(out: &mut String, n: u128)
    ensures
        final(out)@ == old(out)@ + decimal_digits(n as nat),
    decreases n,
{
    if n >= 10 {
        append_decimal(out, n / 10);
    }
    let d: u8 = (n % 10) as u8;
    out.append(digit_str(d));
}

/// Decimal notation of `n`.
pub fn decimal_text(n: u128) -> (r: String)
    ensures
        r@ == decimal_digits(n as nat),
{
    let mut out = String::new();
    append_decimal(&mut out, n);
    out
}

fn append_fixed(out: &mut String, n: u32, places: u8)
    ensures
        final(out)@ == old(out)@ + fixed_digits(n as nat, places as nat),
    decreases places,
{
    if places > 0 {
        append_fixed(out, n / 10, places - 1);
        let d: u8 = (n % 10) as u8;
        out.append(digit_str(d));
    }
}

fn append_fraction(out: &mut String, n: u32, places: u8)
    ensures
        final(out)@ == old(out)@ + fraction_digits(n as nat, places as nat),
    decreases places,
{
    if places > 0 {
        if n % 10 == 0 {
            append_fraction(out, n / 10, places - 1);
        } else {
            append_fixed(out, n, places);
        }
    }
}

/// Renders `amount / 10^places` in the shortest decimal notation, for up
/// to three places.
pub(crate) fn major_unit_string(amount: u32, places: u8) -> (r: String)
    requires
        places <= 3,
    ensures
        r@ == major_unit_text(amount as nat, places as nat),
{
    reveal_with_fuel(pow10, 4);
    let scale: u32 = if places == 0 {
        1
    } else if places == 1 {
        10
    } else if places == 2 {
        100
    } else {
        1000
    };
    let whole: u32 = amount / scale;
    let part: u32 = amount % scale;
    let mut out = decimal_text(whole as u128);
    if part != 0 {
        proof {
            reveal_strlit(".");
        }
        out.append(".");
        append_fraction(&mut out, part, places);
    }
    out
}

/// Whether two string slices hold the same text.
pub fn str_eq(a: &str, b: &str) -> (r: bool)
    ensures
        r == (a@ == b@),
{
    let x = String::from_str(a);
    let y = String::from_str(b);
    x == y
}

/// A copy of an optional string.
pub fn clone_opt_string(value: &Option<String>) -> (r: Option<String>)
    ensures
        r == *value,
{
    match value {
        Some(s) => Some(s.clone()),
        None => None,
    }
}

} // verus!
