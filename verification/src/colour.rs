//! The sixteen-colour palette and the packed attribute byte.

use vstd::prelude::*;

verus! {

/// The colours of the text-mode palette, in the order of their hardware codes.
#[derive(Debug, Clone, Copy, Eq, PartialEq, Structural)]
pub enum ConsoleColour {
    Black,
    Blue,
    Green,
    Cyan,
    Red,
    Magenta,
    Brown,
    LightGray,
    DarkGray,
    LightBlue,
    LightGreen,
    LightCyan,
    LightRed,
    Pink,
    Yellow,
    White,
}

impl ConsoleColour {
    /// The hardware code of a colour: 0 for black up to 15 for white.
    pub open spec fn palette_index(self) -> u8 {
        match self {
            ConsoleColour::Black => 0,
            ConsoleColour::Blue => 1,
            ConsoleColour::Green => 2,
            ConsoleColour::Cyan => 3,
            ConsoleColour::Red => 4,
            ConsoleColour::Magenta => 5,
            ConsoleColour::Brown => 6,
            ConsoleColour::LightGray => 7,
            ConsoleColour::DarkGray => 8,
            ConsoleColour::LightBlue => 9,
            ConsoleColour::LightGreen => 10,
            ConsoleColour::LightCyan => 11,
            ConsoleColour::LightRed => 12,
            ConsoleColour::Pink => 13,
            ConsoleColour::Yellow => 14,
            ConsoleColour::White => 15,
        }
    }

    /// The hardware code of this colour.
    pub fn code(self) -> (code: u8)
        ensures
            code == self.palette_index(),
            code < 16,
    {
        self as u8
    }
}

/// A packed attribute byte: the background colour in the high nibble, the
/// foreground colour in the low nibble.
#[derive(Debug, Clone, Copy, Eq, PartialEq, Structural)]
pub struct ColourCode(pub u8);

impl ColourCode {
    /// The attribute byte for a foreground and a background code.
    pub open spec fn pack(foreground: u8, background: u8) -> ColourCode {
        ColourCode((background << 4) | foreground)
    }

    /// The foreground code held in the low nibble.
    pub open spec fn foreground(self) -> u8 {
        self.0 & 0x0f
    }

    /// The background code held in the high nibble.
    pub open spec fn background(self) -> u8 {
        self.0 >> 4
    }

    /// Packs a foreground and a background code into one attribute byte.
    /// Bits of a code beyond its nibble are not checked: those of the
    /// background are shifted out, those of the foreground reach the
    /// background's nibble.
    pub fn new(foreground: u8, background: u8) -> (code: ColourCode)
        ensures
            code == Self::pack(foreground, background),
            foreground < 16 && background < 16 ==> code.0 == background * 16 + foreground,
    {
        proof {
            if foreground < 16 && background < 16 {
                Self::lemma_pack_nibbles(foreground, background);
            }
        }
        Self((background << 4) | foreground)
    }

    /// Packing two valid codes loses nothing: each can be read back from its
    /// nibble, and the byte is sixteen times the background plus the foreground.
    pub proof fn lemma_pack_nibbles(foreground: u8, background: u8)
        requires
            foreground < 16,
            background < 16,
        ensures
            Self::pack(foreground, background).foreground() == foreground,
            Self::pack(foreground, background).background() == background,
            Self::pack(foreground, background).0 == background * 16 + foreground,
    {
        assert(((background << 4) | foreground) & 0x0f == foreground) by (bit_vector)
            requires
                foreground < 16,
                background < 16,
        ;
        assert(((background << 4) | foreground) >> 4 == background) by (bit_vector)
            requires
                foreground < 16,
                background < 16,
        ;
        assert(((background << 4) | foreground) == background * 16 + foreground) by (bit_vector)
            requires
                foreground < 16,
                background < 16,
        ;
    }
}

} // verus!
