//! The mathematical model of the console: what is on the screen and where the
//! next glyph goes.

use vstd::prelude::*;
use crate::cell::ScreenChar;
use crate::cell::BUFFER_HEIGHT;
use crate::cell::BUFFER_WIDTH;
use crate::colour::ColourCode;

verus! {

/// The byte that ends a line.
pub const NEWLINE: u8 = 0x0a;

/// The glyph shown in place of a byte that cannot be rendered.
pub const PLACEHOLDER: u8 = 0xfe;

/// Whether a byte is a printable ASCII character.
pub open spec fn is_printable(byte: u8) -> bool {
    0x20 <= byte <= 0x7e
}

/// The byte that is written for a byte of text: the byte itself where it is
/// printable or a newline, the placeholder otherwise.
pub open spec fn glyph(byte: u8) -> u8 {
    if is_printable(byte) || byte == NEWLINE {
        byte
    } else {
        PLACEHOLDER
    }
}

/// A row of empty cells in the given colours.
pub open spec fn blank_row(colour_code: ColourCode) -> Seq<ScreenChar> {
    Seq::new(BUFFER_WIDTH as nat, |c: int| ScreenChar::blank(colour_code))
}

/// The state of a console: the column of the cursor on the bottom row, the
/// active colours, and the cells of the grid by row and column.
pub struct ConsoleState {
    pub column: nat,
    pub colour_code: ColourCode,
    pub grid: Seq<Seq<ScreenChar>>,
}

impl ConsoleState {
    /// The grid has 25 rows of 80 cells and the cursor is at most one past
    /// the last column.
    pub open spec fn wf(self) -> bool {
        &&& self.column <= BUFFER_WIDTH
        &&& self.grid.len() == BUFFER_HEIGHT
        &&& forall|r: int|
            0 <= r < BUFFER_HEIGHT ==> (#[trigger] self.grid[r]).len() == BUFFER_WIDTH
    }

    /// The state with one row replaced by empty cells in the active colours.
    pub open spec fn clear_row(self, row: int) -> ConsoleState {
        ConsoleState { grid: self.grid.update(row, blank_row(self.colour_code)), ..self }
    }

    /// The state after a line ends: every row but the first has moved up by
    /// one, the bottom row is empty in the active colours, and the cursor is
    /// back at column 0.
    pub open spec fn new_line(self) -> ConsoleState {
        ConsoleState {
            column: 0,
            colour_code: self.colour_code,
            grid: Seq::new(
                BUFFER_HEIGHT as nat,
                |r: int|
                    if r < BUFFER_HEIGHT - 1 {
                        self.grid[r + 1]
                    } else {
                        blank_row(self.colour_code)
                    },
            ),
        }
    }

    /// The state with a glyph placed at the cursor and the cursor advanced.
    pub open spec fn place(self, byte: u8) -> ConsoleState {
        let bottom = BUFFER_HEIGHT - 1;
        let cell = ScreenChar { char: byte, colour_code: self.colour_code };
        ConsoleState {
            column: self.column + 1,
            colour_code: self.colour_code,
            grid: self.grid.update(bottom, self.grid[bottom].update(self.column as int, cell)),
        }
    }

    /// The state after one byte is written: a newline ends the line; any
    /// other byte is placed at the cursor, after a line break if the bottom
    /// row is full.
    pub open spec fn write_byte(self, byte: u8) -> ConsoleState {
        if byte == NEWLINE {
            self.new_line()
        } else if self.column >= BUFFER_WIDTH {
            self.new_line().place(byte)
        } else {
            self.place(byte)
        }
    }

    /// The state after a text is written: each byte in turn, with the
    /// placeholder in place of every byte that cannot be rendered.
    pub open spec fn write_string(self, bytes: Seq<u8>) -> ConsoleState
        decreases bytes.len(),
    {
        if bytes.len() == 0 {
            self
        } else {
            self.write_string(bytes.drop_last()).write_byte(glyph(bytes.last()))
        }
    }

    /// The state after `n` lines have ended.
    pub open spec fn new_lines(self, n: nat) -> ConsoleState
        decreases n,
    {
        if n == 0 {
            self
        } else {
            self.new_lines((n - 1) as nat).new_line()
        }
    }
}

} // verus!
