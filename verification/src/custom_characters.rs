//! The application's user-defined glyphs.
//!
//! Each glyph is 8 rows of 5 significant bits, stored in one of the
//! display's 8 character-generator slots.
use vstd::prelude::*;

verus! {

/// One glyph bitmap: 8 row patterns, 5 bits significant per row.
pub type CharMap = [u8; 8];

/// A glyph together with the slot it is meant to live in.
pub struct CustomChar {
    pub id: u8,
    pub char_map: CharMap,
}

/// Slot of the standing-figure glyph.
pub const MAN_STANDING: u8 = 0;

/// Slot of the dancing-figure glyph.
pub const MAN_DANCING: u8 = 1;

/// Slot of the heart-outline glyph.
pub const HEART_BORDER: u8 = 2;

/// Slot of the filled-heart glyph.
pub const HEART_FULL: u8 = 3;

/// The bitmap belonging to each of the four application glyph slots.
pub open spec fn spec_custom_char_map(id: u8) -> Seq<u8> {
    if id == MAN_STANDING {
        seq![0x0eu8, 0x0e, 0x04, 0x1f, 0x04, 0x04, 0x0a, 0x0a]
    } else if id == MAN_DANCING {
        seq![0x0eu8, 0x0e, 0x15, 0x0e, 0x04, 0x04, 0x0a, 0x11]
    } else if id == HEART_BORDER {
        seq![0x00u8, 0x00, 0x0a, 0x15, 0x11, 0x0a, 0x04, 0x00]
    } else if id == HEART_FULL {
        seq![0x00u8, 0x00, 0x0a, 0x1f, 0x1f, 0x0e, 0x04, 0x00]
    } else {
        Seq::new(8, |i| 0u8)
    }
}

/// The bitmap for one of the four application glyphs.
pub fn custom_char_map(id: u8) -> (m: CharMap)
    ensures
        m@ =~= spec_custom_char_map(id),
{
    if id == MAN_STANDING {
        [0x0eu8, 0x0e, 0x04, 0x1f, 0x04, 0x04, 0x0a, 0x0a]
    } else if id == MAN_DANCING {
        [0x0eu8, 0x0e, 0x15, 0x0e, 0x04, 0x04, 0x0a, 0x11]
    } else if id == HEART_BORDER {
        [0x00u8, 0x00, 0x0a, 0x15, 0x11, 0x0a, 0x04, 0x00]
    } else if id == HEART_FULL {
        [0x00u8, 0x00, 0x0a, 0x1f, 0x1f, 0x0e, 0x04, 0x00]
    } else {
        [0u8; 8]
    }
}

} // verus!
