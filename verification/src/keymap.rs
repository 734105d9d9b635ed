//! The key event encoder: the static map from a matrix coordinate to the HID
//! usage code of the key wired at that position.

use vstd::prelude::*;

verus! {

/// Usage code of the key at row 0, column 0.
pub const KEY_D: u8 = 0x07;
/// Usage code of the key at row 1, column 0.
pub const KEY_F: u8 = 0x09;
/// Usage code of the key at row 0, column 1.
pub const KEY_J: u8 = 0x0d;
/// Usage code of the key at row 1, column 1.
pub const KEY_K: u8 = 0x0e;

/// The static keymap: which usage code the switch at (`row`, `col`) carries.
/// Meaningful only for the four defined coordinates (`row < 2 && col < 2`).
pub open spec fn usage_of(row: int, col: int) -> u8 {
    if col == 0 {
        if row == 0 {
            KEY_D
        } else {
            KEY_F
        }
    } else {
        if row == 0 {
            KEY_J
        } else {
            KEY_K
        }
    }
}

/// Encode a matrix coordinate as its usage code, or report "no mapping" for a
/// coordinate outside the 2x2 matrix.
pub fn usage_for(row: u8, col: u8) -> (u: Option<u8>)
    ensures
        row < 2 && col < 2 ==> u == Some(usage_of(row as int, col as int)),
        !(row < 2 && col < 2) ==> u is None,
{
    if row < 2 && col < 2 {
        if col == 0 {
            if row == 0 {
                Some(KEY_D)
            } else {
                Some(KEY_F)
            }
        } else {
            if row == 0 {
                Some(KEY_J)
            } else {
                Some(KEY_K)
            }
        }
    } else {
        None
    }
}

/// The reverse of the keymap: the coordinate whose switch carries `usage`, or
/// `None` for a code no switch carries.
pub open spec fn spec_coord_of(usage: u8) -> Option<(u8, u8)> {
    if usage == KEY_D {
        Some((0u8, 0u8))
    } else if usage == KEY_F {
        Some((1u8, 0u8))
    } else if usage == KEY_J {
        Some((0u8, 1u8))
    } else if usage == KEY_K {
        Some((1u8, 1u8))
    } else {
        None
    }
}

/// Look a usage code up in the reverse table.
pub fn coord_for_usage(usage: u8) -> (c: Option<(u8, u8)>)
    ensures
        c == spec_coord_of(usage),
{
    if usage == KEY_D {
        Some((0, 0))
    } else if usage == KEY_F {
        Some((1, 0))
    } else if usage == KEY_J {
        Some((0, 1))
    } else if usage == KEY_K {
        Some((1, 1))
    } else {
        None
    }
}

/// Law: the keymap is bijective over the four defined coordinates. Encoding a
/// coordinate and looking the resulting code up in the reverse table gives
/// that same coordinate back.
pub proof fn lemma_keymap_round_trip(row: u8, col: u8)
    requires
        row < 2,
        col < 2,
    ensures
        spec_coord_of(usage_of(row as int, col as int)) == Some((row, col)),
{
}

/// Law: distinct defined coordinates carry distinct usage codes.
pub proof fn lemma_keymap_injective(r1: u8, c1: u8, r2: u8, c2: u8)
    requires
        r1 < 2,
        c1 < 2,
        r2 < 2,
        c2 < 2,
        usage_of(r1 as int, c1 as int) == usage_of(r2 as int, c2 as int),
    ensures
        r1 == r2,
        c1 == c2,
{
}

} // verus!
