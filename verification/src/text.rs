//! Numbers as text: integers in decimal and bytes in hexadecimal notation.

use vstd::prelude::*;
use vstd::string::*;

verus! {

/// The digit for `value`, which is less than sixteen: the decimal digits,
/// then `a` to `f`.
pub open spec fn digit(value: int) -> char {
    seq!['0', '1', '2', '3', '4', '5', '6', '7', '8', '9', 'a', 'b', 'c', 'd', 'e', 'f'][value]
}

/// The decimal digits of a natural number, without leading zeros.
pub open spec fn natural_text(value: nat) -> Seq<char>
    decreases value,
{
    if value < 10 {
        seq![digit(value as int)]
    } else {
        natural_text(value / 10).push(digit(value as int % 10))
    }
}

/// The decimal text of an integer: a minus sign where it is negative, then
/// the digits of its magnitude.
pub open spec fn integer_text(value: int) -> Seq<char> {
    if value < 0 {
        seq!['-'] + natural_text((-value) as nat)
    } else {
        natural_text(value as nat)
    }
}

/// `bytes` in hexadecimal notation: two lower-case digits for each byte, the
/// upper half of the byte first.
pub open spec fn lower_hex(bytes: Seq<u8>) -> Seq<char>
    decreases bytes.len(),
{
    if bytes.len() == 0 {
        Seq::empty()
    } else {
        lower_hex(bytes.drop_last()) + seq![
            digit(bytes.last() as int / 16),
            digit(bytes.last() as int % 16),
        ]
    }
}

/// The number that the decimal digits `digits` denote; `None` where there
/// is no digit, or a character that is none of `0` to `9`.
pub open spec fn digits_value(digits: Seq<char>) -> Option<nat>
    decreases digits.len(),
{
    if digits.len() == 0 {
        None
    } else {
        let last = digits.last();
        if !('0' <= last <= '9') {
            None
        } else if digits.len() == 1 {
            Some((last as nat - '0' as nat) as nat)
        } else {
            match digits_value(digits.drop_last()) {
                Some(front) => Some((front * 10 + (last as nat - '0' as nat)) as nat),
                None => None,
            }
        }
    }
}

/// The integer that `text` denotes in decimal: an optional `+` or, where
/// `signed`, `-`, then digits and nothing else. `None` where `text` is not
/// of that form.
pub open spec fn decimal_value(text: Seq<char>, signed: bool) -> Option<int> {
    if text.len() > 0 && text[0] == '+' {
        match digits_value(text.skip(1)) {
            Some(magnitude) => Some(magnitude as int),
            None => None,
        }
    } else if signed && text.len() > 0 && text[0] == '-' {
        match digits_value(text.skip(1)) {
            Some(magnitude) => Some(-(magnitude as int)),
            None => None,
        }
    } else {
        match digits_value(text) {
            Some(magnitude) => Some(magnitude as int),
            None => None,
        }
    }
}

fn digit_text(value: u8) -> (text: &'static str)
    requires
        value < 16,
    ensures
        text@ == seq![digit(value as int)],
{
    proof {
        reveal_strlit("0");
        reveal_strlit("1");
        reveal_strlit("2");
        reveal_strlit("3");
        reveal_strlit("4");
        reveal_strlit("5");
        reveal_strlit("6");
        reveal_strlit("7");
        reveal_strlit("8");
        reveal_strlit("9");
        reveal_strlit("a");
        reveal_strlit("b");
        reveal_strlit("c");
        reveal_strlit("d");
        reveal_strlit("e");
        reveal_strlit("f");
    }
    let text = match value {
        0 => "0",
        1 => "1",
        2 => "2",
        3 => "3",
        4 => "4",
        5 => "5",
        6 => "6",
        7 => "7",
        8 => "8",
        9 => "9",
        10 => "a",
        11 => "b",
        12 => "c",
        13 => "d",
        14 => "e",
        _ => "f",
    };
    assert(text@ =~= seq![digit(value as int)]);
    text
}

fn natural(value: u64) -> (text: String)
    ensures
        text@ == natural_text(value as nat),
    decreases value,
{
    if value < 10 {
        String::from_str(digit_text(value as u8))
    } else {
        let mut text = natural(value / 10);
        text.append(digit_text((value % 10) as u8));
        assert(text@ =~= natural_text(value as nat));
        text
    }
}

/// The decimal text of `value`.
pub fn decimal(value: i64) -> (text: String)
    ensures
        text@ == integer_text(value as int),
{
    if value < 0 {
        let magnitude: u64 = (0 - value as i128) as u64;
        let mut text = String::from_str("-");
        proof {
            reveal_strlit("-");
        }
        text.append(natural(magnitude).as_str());
        assert(text@ =~= integer_text(value as int));
        text
    } else {
        natural(value as u64)
    }
}

/// `bytes` in hexadecimal notation, two lower-case digits for each byte.
pub fn to_lower_hex(bytes: &Vec<u8>) -> (hex: String)
    ensures
        hex@ == lower_hex(bytes@),
        hex@.len() == 2 * bytes.len(),
{
    let mut hex = String::new();
    let mut i: usize = 0;
    assert(bytes@.take(0) =~= Seq::<u8>::empty());
    while i < bytes.len()
        invariant
            i <= bytes.len(),
            hex@ == lower_hex(bytes@.take(i as int)),
            hex@.len() == 2 * i,
        decreases bytes.len() - i,
    {
        let byte = bytes[i];
        proof {
            assert(bytes@.take(i + 1).drop_last() =~= bytes@.take(i as int));
            assert(bytes@.take(i + 1).last() == byte);
        }
        let ghost before = hex@;
        hex.append(digit_text(byte / 16));
        hex.append(digit_text(byte % 16));
        assert(hex@ =~= before + seq![digit(byte as int / 16), digit(byte as int % 16)]);
        i += 1;
    }
    assert(bytes@.take(bytes.len() as int) =~= bytes@);
    hex
}

} // verus!
