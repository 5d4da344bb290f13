//! The host keyboard layout: the 4x4 block 1234/QWER/ASDF/ZXCV stands for
//! the hexadecimal keypad 123C/456D/789E/A0BF.
use vstd::prelude::*;

verus! {

/// The keypad value of a host key, if it has one.
pub open spec fn key_of(c: char) -> Option<u8> {
    if c == '1' {
        Some(0x1u8)
    } else if c == '2' {
        Some(0x2u8)
    } else if c == '3' {
        Some(0x3u8)
    } else if c == '4' {
        Some(0xCu8)
    } else if c == 'q' {
        Some(0x4u8)
    } else if c == 'w' {
        Some(0x5u8)
    } else if c == 'e' {
        Some(0x6u8)
    } else if c == 'r' {
        Some(0xDu8)
    } else if c == 'a' {
        Some(0x7u8)
    } else if c == 's' {
        Some(0x8u8)
    } else if c == 'd' {
        Some(0x9u8)
    } else if c == 'f' {
        Some(0xEu8)
    } else if c == 'z' {
        Some(0xAu8)
    } else if c == 'x' {
        Some(0x0u8)
    } else if c == 'c' {
        Some(0xBu8)
    } else if c == 'v' {
        Some(0xFu8)
    } else {
        None
    }
}

/// Maps a host key to its keypad value.
pub fn key_for_char(c: char) -> (r: Option<u8>)
    ensures
        r == key_of(c),
        r is Some ==> r->Some_0 < 16,
{
    match c {
        '1' => Some(0x1),
        '2' => Some(0x2),
        '3' => Some(0x3),
        '4' => Some(0xC),
        'q' => Some(0x4),
        'w' => Some(0x5),
        'e' => Some(0x6),
        'r' => Some(0xD),
        'a' => Some(0x7),
        's' => Some(0x8),
        'd' => Some(0x9),
        'f' => Some(0xE),
        'z' => Some(0xA),
        'x' => Some(0x0),
        'c' => Some(0xB),
        'v' => Some(0xF),
        _ => None,
    }
}

/// The state of the sixteen keys when only `key` is held (none for `None`).
pub fn keys_holding(key: Option<u8>) -> (r: [bool; 16])
    ensures
        forall|k: int| 0 <= k < 16 ==> r@[k] == (key is Some && key->Some_0 == k),
{
    let mut r = [false; 16];
    if let Some(k) = key {
        if k < 16 {
            r.set(k as usize, true);
        }
    }
    r
}

} // verus!
