//! Decimal and hexadecimal rendering of numbers into strings.
use vstd::prelude::*;

verus! {

/// The character of digit `d` (0 to 15), with upper-case letters.
pub open spec fn digit_text(d: int) -> Seq<char> {
    if d == 0 {
        "0"@
    } else if d == 1 {
        "1"@
    } else if d == 2 {
        "2"@
    } else if d == 3 {
        "3"@
    } else if d == 4 {
        "4"@
    } else if d == 5 {
        "5"@
    } else if d == 6 {
        "6"@
    } else if d == 7 {
        "7"@
    } else if d == 8 {
        "8"@
    } else if d == 9 {
        "9"@
    } else if d == 10 {
        "A"@
    } else if d == 11 {
        "B"@
    } else if d == 12 {
        "C"@
    } else if d == 13 {
        "D"@
    } else if d == 14 {
        "E"@
    } else {
        "F"@
    }
}

/// `n` in decimal, without leading zeros.
pub open spec fn decimal_text(n: nat) -> Seq<char>
    decreases n,
{
    if n < 10 {
        digit_text(n as int)
    } else {
        decimal_text(n / 10) + digit_text((n % 10) as int)
    }
}

/// The low `width` hexadecimal digits of `n`, most significant first.
pub open spec fn hex_text(n: nat, width: nat) -> Seq<char>
    decreases width,
{
    if width == 0 {
        Seq::empty()
    } else {
        hex_text(n / 16, (width - 1) as nat) + digit_text((n % 16) as int)
    }
}

fn digit_str(d: u8) -> (r: &'static str)
    requires
        d < 16,
    ensures
        r@ == digit_text(d as int),
{
    match d {
        0 => "0",
        1 => "1",
        2 => "2",
        3 => "3",
        4 => "4",
        5 => "5",
        6 => "6",
        7 => "7",
        8 => "8",
        9 => "9",
        10 => "A",
        11 => "B",
        12 => "C",
        13 => "D",
        14 => "E",
        _ => "F",
    }
}

/// Appends `n` in decimal.
pub fn push_decimal(s: &mut String, n: u8)
    ensures
        final(s)@ == old(s)@ + decimal_text(n as nat),
{
    if n >= 100 {
        s.append(digit_str(n / 100));
    }
    if n >= 10 {
        s.append(digit_str((n / 10) % 10));
    }
    s.append(digit_str(n % 10));
    proof {
        let n = n as nat;
        if n >= 10 {
            if n / 10 >= 10 {
                assert(decimal_text(n / 10 / 10) == digit_text((n / 100) as int));
            }
            assert(decimal_text(n / 10) == if n >= 100 {
                digit_text((n / 100) as int) + digit_text((n / 10 % 10) as int)
            } else {
                digit_text((n / 10 % 10) as int)
            });
        }
    }
}

/// Appends the low `width` hexadecimal digits of `n` (upper case, zero-padded).
pub fn push_hex(s: &mut String, n: u16, width: u8)
    requires
        width <= 4,
    ensures
        final(s)@ == old(s)@ + hex_text(n as nat, width as nat),
    decreases width,
{
    if width > 0 {
        push_hex(s, n / 16, width - 1);
        s.append(digit_str((n % 16) as u8));
        proof {
            assert(old(s)@ + hex_text((n / 16) as nat, (width - 1) as nat) + digit_text(
                (n % 16) as int,
            ) == old(s)@ + hex_text(n as nat, width as nat));
        }
    }
}

} // verus!
