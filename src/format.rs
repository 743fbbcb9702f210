//! Human-readable byte counts with binary prefixes.

use vstd::prelude::*;

verus! {

pub const KB: u64 = 1024;

pub const MB: u64 = 1048576;

pub const GB: u64 = 1073741824;

/// The character of a decimal digit.
pub open spec fn digit_char(d: nat) -> char
    recommends
        d < 10,
{
    seq!['0', '1', '2', '3', '4', '5', '6', '7', '8', '9'][d as int]
}

/// The decimal digits of `n`, without leading zeros (`0` is written "0").
pub open spec fn decimal(n: nat) -> Seq<char>
    decreases n,
{
    if n < 10 {
        seq![digit_char(n)]
    } else {
        decimal(n / 10).push(digit_char(n % 10))
    }
}

/// `bytes / unit` in hundredths, rounded to the nearest, a tie to the even one.
pub open spec fn hundredths(bytes: nat, unit: nat) -> nat
    recommends
        unit > 0,
{
    let q = bytes * 100 / unit;
    let r = bytes * 100 % unit;
    if 2 * r > unit || (2 * r == unit && q % 2 == 1) {
        q + 1
    } else {
        q
    }
}

/// A count of hundredths written with two decimals: 125 is "1.25".
pub open spec fn two_decimals(h: nat) -> Seq<char> {
    decimal(h / 100) + seq!['.', digit_char((h / 10) % 10), digit_char(h % 10)]
}

/// The text that stands for a size of `bytes` bytes.
pub open spec fn size_text(bytes: nat) -> Seq<char> {
    if bytes >= GB {
        two_decimals(hundredths(bytes, GB as nat)) + seq![' ', 'G', 'B']
    } else if bytes >= MB {
        two_decimals(hundredths(bytes, MB as nat)) + seq![' ', 'M', 'B']
    } else if bytes >= KB {
        two_decimals(hundredths(bytes, KB as nat)) + seq![' ', 'K', 'B']
    } else {
        decimal(bytes) + seq![' ', 'B']
    }
}

fn digit_str(d: u64) -> (r: &'static str)
    requires
        d < 10,
    ensures
        r@ == seq![digit_char(d as nat)],
{
    proof {
        reveal_strlit("0");
        reveal_strlit("1");
        reveal_strlit("2");
        reveal_strlit("3");
        reveal_strlit("4");
        reveal_strlit("5");
        reveal_strlit("6");
        reveal_strlit("7");
        reveal_strlit("8");
        reveal_strlit("9");
    }
    let r = match d {
        0 => "0",
        1 => "1",
        2 => "2",
        3 => "3",
        4 => "4",
        5 => "5",
        6 => "6",
        7 => "7",
        8 => "8",
        _ => "9",
    };
    assert(r@ =~= seq![digit_char(d as nat)]);
    r
}

/// Appends the decimal digits of `n` to `s`.
fn push_decimal(s: &mut String, n: u64)
    ensures
        final(s)@ == old(s)@ + decimal(n as nat),
    decreases n,
{
    if n >= 10 {
        push_decimal(s, n / 10);
    }
    s.append(digit_str(n % 10));
    assert(final(s)@ =~= old(s)@ + decimal(n as nat));
}

/// Appends `h` hundredths with two decimals to `s`.
fn push_two_decimals(s: &mut String, h: u64)
    ensures
        final(s)@ == old(s)@ + two_decimals(h as nat),
{
    push_decimal(s, h / 100);
    s.append(".");
    s.append(digit_str((h / 10) % 10));
    s.append(digit_str(h % 10));
    proof {
        reveal_strlit(".");
    }
    assert(final(s)@ =~= old(s)@ + two_decimals(h as nat));
}

/// `bytes / unit` in hundredths, rounded as `hundredths` says.
fn scaled(bytes: u64, unit: u64) -> (r: u64)
    requires
        unit >= KB,
    ensures
        r == hundredths(bytes as nat, unit as nat),
{
    let wide: u128 = bytes as u128 * 100;
    let q: u128 = wide / unit as u128;
    let rem: u128 = wide % unit as u128;
    proof {
        assert(q as int <= wide as int / 1024) by (nonlinear_arith)
            requires
                q as int == wide as int / unit as int,
                unit >= 1024,
                wide >= 0,
        ;
    }
    if 2 * rem > unit as u128 || (2 * rem == unit as u128 && q % 2 == 1) {
        (q + 1) as u64
    } else {
        q as u64
    }
}

/// Writes a byte count for people: below 1024 as a whole number of bytes
/// ("1023 B"), from there on in the largest of KB, MB and GB that it reaches,
/// with two decimals ("1.00 KB", "1.50 GB").
pub fn format_size(bytes: u64) -> (r: String)
    ensures
        r@ == size_text(bytes as nat),
{
    let mut s = String::new();
    if bytes >= GB {
        push_two_decimals(&mut s, scaled(bytes, GB));
        s.append(" GB");
        proof {
            reveal_strlit(" GB");
        }
    } else if bytes >= MB {
        push_two_decimals(&mut s, scaled(bytes, MB));
        s.append(" MB");
        proof {
            reveal_strlit(" MB");
        }
    } else if bytes >= KB {
        push_two_decimals(&mut s, scaled(bytes, KB));
        s.append(" KB");
        proof {
            reveal_strlit(" KB");
        }
    } else {
        push_decimal(&mut s, bytes);
        s.append(" B");
        proof {
            reveal_strlit(" B");
        }
    }
    assert(s@ =~= size_text(bytes as nat));
    s
}

} // verus!
