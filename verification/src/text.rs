//! Verified helpers for building the textual pieces of generated source:
//! decimal renderings of integers and lowercase hex renderings of bytes.

use vstd::prelude::*;

verus! {

/// The lowercase hex digit character for a value below 16.
pub open spec fn spec_hex_char(n: u8) -> char {
    if n == 0 {
        '0'
    } else if n == 1 {
        '1'
    } else if n == 2 {
        '2'
    } else if n == 3 {
        '3'
    } else if n == 4 {
        '4'
    } else if n == 5 {
        '5'
    } else if n == 6 {
        '6'
    } else if n == 7 {
        '7'
    } else if n == 8 {
        '8'
    } else if n == 9 {
        '9'
    } else if n == 10 {
        'a'
    } else if n == 11 {
        'b'
    } else if n == 12 {
        'c'
    } else if n == 13 {
        'd'
    } else if n == 14 {
        'e'
    } else {
        'f'
    }
}

/// Whether a character is a hex digit in either case.
pub open spec fn spec_is_hex_digit(c: char) -> bool {
    c == '0' || c == '1' || c == '2' || c == '3' || c == '4' || c == '5' || c == '6' || c == '7'
        || c == '8' || c == '9' || c == 'a' || c == 'b' || c == 'c' || c == 'd' || c == 'e'
        || c == 'f' || c == 'A' || c == 'B' || c == 'C' || c == 'D' || c == 'E' || c == 'F'
}

/// The numeric value of a hex digit character; 0 for any other character.
pub open spec fn spec_hex_val(c: char) -> u8 {
    if c == '0' {
        0
    } else if c == '1' {
        1
    } else if c == '2' {
        2
    } else if c == '3' {
        3
    } else if c == '4' {
        4
    } else if c == '5' {
        5
    } else if c == '6' {
        6
    } else if c == '7' {
        7
    } else if c == '8' {
        8
    } else if c == '9' {
        9
    } else if c == 'a' || c == 'A' {
        10
    } else if c == 'b' || c == 'B' {
        11
    } else if c == 'c' || c == 'C' {
        12
    } else if c == 'd' || c == 'D' {
        13
    } else if c == 'e' || c == 'E' {
        14
    } else if c == 'f' || c == 'F' {
        15
    } else {
        0
    }
}

/// Two lowercase hex characters encoding one byte, high nibble first.
pub open spec fn spec_hex_byte(b: u8) -> Seq<char> {
    seq![spec_hex_char(b / 16), spec_hex_char(b % 16)]
}

/// The lowercase hex encoding of a byte sequence.
pub open spec fn spec_hex_bytes(bs: Seq<u8>) -> Seq<char>
    decreases bs.len(),
{
    if bs.len() == 0 {
        Seq::empty()
    } else {
        spec_hex_bytes(bs.drop_last()) + spec_hex_byte(bs.last())
    }
}

/// The decimal digit character for a value below 10.
pub open spec fn spec_dec_char(n: u8) -> char {
    if n == 0 {
        '0'
    } else if n == 1 {
        '1'
    } else if n == 2 {
        '2'
    } else if n == 3 {
        '3'
    } else if n == 4 {
        '4'
    } else if n == 5 {
        '5'
    } else if n == 6 {
        '6'
    } else if n == 7 {
        '7'
    } else if n == 8 {
        '8'
    } else {
        '9'
    }
}

/// The usual decimal rendering of a number: no leading zeroes, except that
/// zero itself is rendered as a single digit.
pub open spec fn spec_dec(n: nat) -> Seq<char>
    decreases n,
{
    if n < 10 {
        seq![spec_dec_char(n as u8)]
    } else {
        spec_dec((n / 10) as nat) + seq![spec_dec_char((n % 10) as u8)]
    }
}

/// The single-character string for a lowercase hex digit.
pub fn hex_char_str(n: u8) -> (r: &'static str)
    requires
        n < 16,
    ensures
        r@ =~= seq![spec_hex_char(n)],
{
    proof {
        reveal_strlit("0");
        reveal_strlit("1");
        reveal_strlit("2");
        reveal_strlit("3");
        reveal_strlit("4");
        reveal_strlit("5");
        reveal_strlit("6");
        reveal_strlit("7");
        reveal_strlit("8");
        reveal_strlit("9");
        reveal_strlit("a");
        reveal_strlit("b");
        reveal_strlit("c");
        reveal_strlit("d");
        reveal_strlit("e");
        reveal_strlit("f");
    }
    match n {
        0 => "0",
        1 => "1",
        2 => "2",
        3 => "3",
        4 => "4",
        5 => "5",
        6 => "6",
        7 => "7",
        8 => "8",
        9 => "9",
        10 => "a",
        11 => "b",
        12 => "c",
        13 => "d",
        14 => "e",
        _ => "f",
    }
}

/// Appends the two-character lowercase hex encoding of one byte.
pub fn append_hex_byte(s: &mut String, b: u8)
    ensures
        final(s)@ =~= old(s)@ + spec_hex_byte(b),
{
    s.append(hex_char_str(b / 16));
    s.append(hex_char_str(b % 16));
}

/// Appends the lowercase hex encoding of a byte sequence.
pub fn append_hex_bytes(s: &mut String, bs: &Vec<u8>)
    ensures
        final(s)@ =~= old(s)@ + spec_hex_bytes(bs@),
{
    let mut i: usize = 0;
    while i < bs.len()
        invariant
            i <= bs.len(),
            s@ =~= old(s)@ + spec_hex_bytes(bs@.take(i as int)),
        decreases bs.len() - i,
    {
        append_hex_byte(s, bs[i]);
        proof {
            assert(bs@.take(i + 1 as int).drop_last() =~= bs@.take(i as int));
            assert(bs@.take(i + 1 as int).last() == bs@[i as int]);
        }
        i = i + 1;
    }
    proof {
        assert(bs@.take(bs@.len() as int) =~= bs@);
    }
}

/// The single-character string for a decimal digit.
pub fn dec_char_str(n: u8) -> (r: &'static str)
    requires
        n < 10,
    ensures
        r@ =~= seq![spec_dec_char(n)],
{
    proof {
        reveal_strlit("0");
        reveal_strlit("1");
        reveal_strlit("2");
        reveal_strlit("3");
        reveal_strlit("4");
        reveal_strlit("5");
        reveal_strlit("6");
        reveal_strlit("7");
        reveal_strlit("8");
        reveal_strlit("9");
    }
    match n {
        0 => "0",
        1 => "1",
        2 => "2",
        3 => "3",
        4 => "4",
        5 => "5",
        6 => "6",
        7 => "7",
        8 => "8",
        _ => "9",
    }
}

/// Appends the decimal rendering of a number.
pub fn append_dec_u64(s: &mut String, n: u64)
    ensures
        final(s)@ =~= old(s)@ + spec_dec(n as nat),
    decreases n,
{
    if n < 10 {
        s.append(dec_char_str(n as u8));
    } else {
        append_dec_u64(s, n / 10);
        s.append(dec_char_str((n % 10) as u8));
    }
}

} // verus!
