use vstd::prelude::*;

verus! {

/// The lowercase hexadecimal digit that labels key `value` (0..=15).
pub open spec fn hex_char_of(value: u8) -> char {
    if value == 0 {
        '0'
    } else if value == 1 {
        '1'
    } else if value == 2 {
        '2'
    } else if value == 3 {
        '3'
    } else if value == 4 {
        '4'
    } else if value == 5 {
        '5'
    } else if value == 6 {
        '6'
    } else if value == 7 {
        '7'
    } else if value == 8 {
        '8'
    } else if value == 9 {
        '9'
    } else if value == 10 {
        'a'
    } else if value == 11 {
        'b'
    } else if value == 12 {
        'c'
    } else if value == 13 {
        'd'
    } else if value == 14 {
        'e'
    } else {
        'f'
    }
}

/// Whether `c` labels one of the sixteen keys (hexadecimal digit, either
/// case).
pub open spec fn is_hex_key(c: char) -> bool {
    ('0' <= c && c <= '9') || ('a' <= c && c <= 'f') || ('A' <= c && c <= 'F')
}

/// The key (0..=15) that the character `c` labels.
pub open spec fn hex_value_of(c: char) -> u8 {
    if '0' <= c && c <= '9' {
        (c as u8 - '0' as u8) as u8
    } else if 'a' <= c && c <= 'f' {
        (c as u8 - 'a' as u8 + 10) as u8
    } else {
        (c as u8 - 'A' as u8 + 10) as u8
    }
}

/// Map a key number 0..=15 to the character that labels it.
pub fn value_to_char(value: u8) -> (res: Result<char, &'static str>)
    ensures
        value <= 15 ==> res == Ok::<char, &'static str>(hex_char_of(value)),
        value > 15 ==> (res matches Err(m) && m@ == "Invalid value used for character"@),
{
    match value {
        0 => Ok('0'),
        1 => Ok('1'),
        2 => Ok('2'),
        3 => Ok('3'),
        4 => Ok('4'),
        5 => Ok('5'),
        6 => Ok('6'),
        7 => Ok('7'),
        8 => Ok('8'),
        9 => Ok('9'),
        0xA => Ok('a'),
        0xB => Ok('b'),
        0xC => Ok('c'),
        0xD => Ok('d'),
        0xE => Ok('e'),
        0xF => Ok('f'),
        _ => Err("Invalid value used for character"),
    }
}

/// Map a hexadecimal key label (either case) to its key number.
pub fn char_to_value(c: char) -> (res: Result<u8, &'static str>)
    ensures
        is_hex_key(c) ==> res == Ok::<u8, &'static str>(hex_value_of(c)),
        !is_hex_key(c) ==> (res matches Err(m) && m@ == "Invalid character used for value"@),
{
    match c {
        '0' => Ok(0),
        '1' => Ok(1),
        '2' => Ok(2),
        '3' => Ok(3),
        '4' => Ok(4),
        '5' => Ok(5),
        '6' => Ok(6),
        '7' => Ok(7),
        '8' => Ok(8),
        '9' => Ok(9),
        'a' | 'A' => Ok(0xA),
        'b' | 'B' => Ok(0xB),
        'c' | 'C' => Ok(0xC),
        'd' | 'D' => Ok(0xD),
        'e' | 'E' => Ok(0xE),
        'f' | 'F' => Ok(0xF),
        _ => Err("Invalid character used for value"),
    }
}

} // verus!
