//! The console writer: byte and string output, line wrap and scrolling.

use vstd::prelude::*;
use vstd::string::StringSliceAdditionalSpecFns;
use crate::cell::cell_bytes;
use crate::cell::cell_read;
use crate::cell::cell_write;
use crate::cell::grid_of;
use crate::cell::Buffer;
use crate::cell::ScreenChar;
use crate::cell::BUFFER_HEIGHT;
use crate::cell::BUFFER_WIDTH;
use crate::cell::SPACE;
use crate::colour::ColourCode;
use crate::colour::ConsoleColour;
use crate::model::ConsoleState;
use crate::model::NEWLINE;
use crate::model::PLACEHOLDER;

verus! {

/// A writer over the display grid. It always writes to the bottom row and
/// scrolls the grid upward to make room.
pub struct Writer {
    column: usize,
    colour_code: ColourCode,
    buffer: &'static mut Buffer,
}

impl View for Writer {
    type V = ConsoleState;

    closed spec fn view(&self) -> ConsoleState {
        ConsoleState {
            column: self.column as nat,
            colour_code: self.colour_code,
            grid: grid_of(*self.buffer),
        }
    }
}

impl Writer {
    /// The cursor is on the bottom row or one past its last column.
    #[verifier::type_invariant]
    spec fn cursor_in_range(self) -> bool {
        self.column <= BUFFER_WIDTH
    }

    /// The bytes held by the cell in row `r` and column `c`.
    spec fn raw(self, r: int, c: int) -> Seq<u8> {
        cell_bytes((*self.buffer)[r][c])
    }

    /// The grid of the view, cell by cell, over the bytes that the cells hold.
    proof fn lemma_grid_cells(self)
        ensures
            self@.grid.len() == BUFFER_HEIGHT,
            forall|r: int|
                0 <= r < BUFFER_HEIGHT ==> (#[trigger] self@.grid[r]).len() == BUFFER_WIDTH,
            forall|r: int, c: int|
                0 <= r < BUFFER_HEIGHT && 0 <= c < BUFFER_WIDTH ==> #[trigger] self@.grid[r][c]
                    == ScreenChar::from_wire(self.raw(r, c)),
    {
    }

    /// Two grids of the full size with the same cells are the same grid.
    proof fn lemma_same_cells(a: Seq<Seq<ScreenChar>>, b: Seq<Seq<ScreenChar>>)
        requires
            a.len() == BUFFER_HEIGHT,
            b.len() == BUFFER_HEIGHT,
            forall|r: int| 0 <= r < BUFFER_HEIGHT ==> (#[trigger] a[r]).len() == BUFFER_WIDTH,
            forall|r: int| 0 <= r < BUFFER_HEIGHT ==> (#[trigger] b[r]).len() == BUFFER_WIDTH,
            forall|r: int, c: int|
                0 <= r < BUFFER_HEIGHT && 0 <= c < BUFFER_WIDTH ==> a[r][c] == b[r][c],
        ensures
            a == b,
    {
        assert forall|r: int| 0 <= r < BUFFER_HEIGHT implies a[r] == b[r] by {
            assert(a[r] =~= b[r]);
        }
        assert(a =~= b);
    }

    /// Reads the bytes of one cell of the grid.
    fn load(&self, row: usize, column: usize) -> (bytes: [u8; 2])
        requires
            row < BUFFER_HEIGHT,
            column < BUFFER_WIDTH,
        ensures
            bytes@ == self.raw(row as int, column as int),
    {
        cell_read(&self.buffer[row][column])
    }

    /// Writes the bytes of one cell of the grid and leaves every other cell,
    /// the cursor and the colours as they are.
    fn store(&mut self, row: usize, column: usize, bytes: [u8; 2])
        requires
            row < BUFFER_HEIGHT,
            column < BUFFER_WIDTH,
        ensures
            final(self).column == old(self).column,
            final(self).colour_code == old(self).colour_code,
            final(self).raw(row as int, column as int) == bytes@,
            forall|r: int, c: int|
                0 <= r < BUFFER_HEIGHT && 0 <= c < BUFFER_WIDTH && !(r == row && c == column)
                    ==> #[trigger] final(self).raw(r, c) == old(self).raw(r, c),
    {
        proof {
            use_type_invariant(&*self);
        }
        cell_write(&mut self.buffer[row][column], bytes);
    }

    /// A writer in the given colours over the given grid, with the cursor at
    /// the start of the bottom row. What the grid shows is left as it is.
    pub fn new(
        foreground_colour: ConsoleColour,
        background_colour: ConsoleColour,
        buffer: &'static mut Buffer,
    ) -> (writer: Writer)
        ensures
            writer@ == (ConsoleState {
                column: 0,
                colour_code: ColourCode::pack(
                    foreground_colour.palette_index(),
                    background_colour.palette_index(),
                ),
                grid: grid_of(*old(buffer)),
            }),
            writer@.colour_code.0 == background_colour.palette_index() * 16
                + foreground_colour.palette_index(),
            writer@.wf(),
    {
        Self {
            column: 0,
            colour_code: ColourCode::new(foreground_colour.code(), background_colour.code()),
            buffer,
        }
    }

    /// The column at which the next glyph is placed.
    pub fn column(&self) -> (column: usize)
        ensures
            column == self@.column,
            column <= BUFFER_WIDTH,
    {
        proof {
            use_type_invariant(self);
        }
        self.column
    }

    /// The colours in which glyphs and empty cells are written.
    pub fn colour_code(&self) -> (colour_code: ColourCode)
        ensures
            colour_code == self@.colour_code,
    {
        self.colour_code
    }

    /// The cell in the given row and column, or `None` outside the grid.
    pub fn cell(&self, row: usize, column: usize) -> (cell: Option<ScreenChar>)
        ensures
            cell == if row < BUFFER_HEIGHT && column < BUFFER_WIDTH {
                Some(self@.grid[row as int][column as int])
            } else {
                None
            },
    {
        if row < BUFFER_HEIGHT && column < BUFFER_WIDTH {
            Some(ScreenChar::from_bytes(self.load(row, column)))
        } else {
            None
        }
    }

    /// Writes one byte: a newline ends the line; any other byte is placed at
    /// the cursor as it stands, after a line break if the bottom row is full.
    pub fn write_byte(&mut self, byte: u8)
        ensures
            final(self)@ == old(self)@.write_byte(byte),
            final(self)@.wf(),
    {
        if byte == NEWLINE {
            self.new_line();
        } else {
            if self.column >= BUFFER_WIDTH {
                self.new_line();
            }
            proof {
                use_type_invariant(&*self);
            }
            let ghost before = *self;
            let row = BUFFER_HEIGHT - 1;
            let column = self.column;
            let colour_code = self.colour_code;
            let cell = ScreenChar { char: byte, colour_code };
            self.store(row, column, cell.to_bytes());
            let ghost stored = *self;
            self.column += 1;
            proof {
                let after = self@;
                let expected = before@.place(byte);
                before.lemma_grid_cells();
                self.lemma_grid_cells();
                stored.lemma_grid_cells();
                Self::lemma_same_cells(after.grid, expected.grid);
            }
        }
    }

    /// Writes a text byte by byte. Printable ASCII and newlines are written
    /// as they stand; every other byte is written as the placeholder glyph.
    pub fn write_string(&mut self, string: &str)
        ensures
            final(self)@ == old(self)@.write_string(string.spec_bytes()),
            final(self)@.wf(),
    {
        self.write_bytes(string.as_bytes());
    }

    /// Writes a sequence of bytes as text, whatever the bytes are: printable
    /// ASCII and newlines as they stand, the placeholder glyph for the rest.
    pub fn write_bytes(&mut self, bytes: &[u8])
        ensures
            final(self)@ == old(self)@.write_string(bytes@),
            final(self)@.wf(),
    {
        proof {
            use_type_invariant(&*self);
        }
        let length = bytes.len();
        for index in 0..length
            invariant
                length == bytes@.len(),
                self@ == old(self)@.write_string(bytes@.take(index as int)),
                self@.wf(),
        {
            let byte = bytes[index];
            if (0x20 <= byte && byte <= 0x7e) || byte == NEWLINE {
                self.write_byte(byte);
            } else {
                self.write_byte(PLACEHOLDER);
            }
            assert(bytes@.take(index + 1).drop_last() =~= bytes@.take(index as int));
        }
        assert(bytes@.take(length as int) =~= bytes@);
    }

    /// Ends the line: moves every row but the first up by one, empties the
    /// bottom row in the active colours and puts the cursor at column 0.
    pub fn new_line(&mut self)
        ensures
            final(self)@ == old(self)@.new_line(),
            final(self)@.wf(),
    {
        for row in 1..BUFFER_HEIGHT
            invariant
                self.column == old(self).column,
                self.colour_code == old(self).colour_code,
                forall|r: int, c: int|
                    0 <= r < row - 1 && 0 <= c < BUFFER_WIDTH ==> #[trigger] self.raw(r, c) == old(
                        self,
                    ).raw(r + 1, c),
                forall|r: int, c: int|
                    row - 1 <= r < BUFFER_HEIGHT && 0 <= c < BUFFER_WIDTH ==> #[trigger] self.raw(
                        r,
                        c,
                    ) == old(self).raw(r, c),
        {
            for column in 0..BUFFER_WIDTH
                invariant
                    1 <= row < BUFFER_HEIGHT,
                    self.column == old(self).column,
                    self.colour_code == old(self).colour_code,
                    forall|r: int, c: int|
                        0 <= r < row - 1 && 0 <= c < BUFFER_WIDTH ==> #[trigger] self.raw(r, c)
                            == old(self).raw(r + 1, c),
                    forall|r: int, c: int|
                        r == row - 1 && 0 <= c < column ==> #[trigger] self.raw(r, c) == old(
                            self,
                        ).raw(r + 1, c),
                    forall|r: int, c: int|
                        r == row - 1 && column <= c < BUFFER_WIDTH ==> #[trigger] self.raw(r, c)
                            == old(self).raw(r, c),
                    forall|r: int, c: int|
                        row <= r < BUFFER_HEIGHT && 0 <= c < BUFFER_WIDTH ==> #[trigger] self.raw(
                            r,
                            c,
                        ) == old(self).raw(r, c),
            {
                let bytes = self.load(row, column);
                self.store(row - 1, column, bytes);
            }
        }
        let ghost shifted = *self;
        self.clear_row(BUFFER_HEIGHT - 1);
        self.column = 0;
        proof {
            let after = self@;
            let expected = old(self)@.new_line();
            old(self).lemma_grid_cells();
            shifted.lemma_grid_cells();
            Self::lemma_same_cells(after.grid, expected.grid);
        }
    }

    /// Empties one row: every cell of it becomes a space in the active
    /// colours. The cursor stays where it is.
    pub fn clear_row(&mut self, row: usize)
        requires
            row < BUFFER_HEIGHT,
        ensures
            final(self)@ == old(self)@.clear_row(row as int),
            final(self)@.wf(),
    {
        proof {
            use_type_invariant(&*self);
        }
        let blank = ScreenChar { char: SPACE, colour_code: self.colour_code };
        for column in 0..BUFFER_WIDTH
            invariant
                row < BUFFER_HEIGHT,
                blank == ScreenChar::blank(old(self).colour_code),
                self.column == old(self).column,
                self.colour_code == old(self).colour_code,
                forall|r: int, c: int|
                    r == row && 0 <= c < column ==> #[trigger] self.raw(r, c) == blank.wire(),
                forall|r: int, c: int|
                    0 <= r < BUFFER_HEIGHT && 0 <= c < BUFFER_WIDTH && !(r == row && c < column)
                        ==> #[trigger] self.raw(r, c) == old(self).raw(r, c),
        {
            self.store(row, column, blank.to_bytes());
        }
        proof {
            let after = self@;
            let expected = old(self)@.clear_row(row as int);
            old(self).lemma_grid_cells();
            self.lemma_grid_cells();
            Self::lemma_same_cells(after.grid, expected.grid);
        }
    }
}

/// `core::fmt::Error`: the error of the formatting traits, a unit value.
#[verifier::external_type_specification]
#[verifier::external_body]
pub struct ExFmtError(core::fmt::Error);

impl core::fmt::Write for Writer {
    /// Writes a text as [`Writer::write_string`] does. It never fails.
    fn write_str(&mut self, string: &str) -> (result: Result<(), core::fmt::Error>)
        ensures
            result.is_ok(),
            final(self)@ == old(self)@.write_string(string.spec_bytes()),
            final(self)@.wf(),
    {
        self.write_string(string);
        Ok(())
    }
}

} // verus!
