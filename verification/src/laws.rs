//! Laws of the console model: what a sequence of writes leaves on the screen.

use vstd::prelude::*;
use crate::cell::ScreenChar;
use crate::cell::BUFFER_HEIGHT;
use crate::cell::BUFFER_WIDTH;
use crate::model::blank_row;
use crate::model::glyph;
use crate::model::is_printable;
use crate::model::ConsoleState;
use crate::model::NEWLINE;
use crate::model::PLACEHOLDER;

verus! {

/// Ending a line keeps the state well formed and the colours unchanged.
pub proof fn lemma_new_line_wf(state: ConsoleState)
    requires
        state.wf(),
    ensures
        state.new_line().wf(),
        state.new_line().colour_code == state.colour_code,
{
}

/// Writing one byte keeps the state well formed and the colours unchanged.
pub proof fn lemma_write_byte_wf(state: ConsoleState, byte: u8)
    requires
        state.wf(),
    ensures
        state.write_byte(byte).wf(),
        state.write_byte(byte).colour_code == state.colour_code,
{
    lemma_new_line_wf(state);
}

/// Writing a text keeps the state well formed and the colours unchanged.
pub proof fn lemma_write_string_wf(state: ConsoleState, bytes: Seq<u8>)
    requires
        state.wf(),
    ensures
        state.write_string(bytes).wf(),
        state.write_string(bytes).colour_code == state.colour_code,
    decreases bytes.len(),
{
    if bytes.len() > 0 {
        lemma_write_string_wf(state, bytes.drop_last());
        lemma_write_byte_wf(state.write_string(bytes.drop_last()), glyph(bytes.last()));
    }
}

/// Writing two texts one after the other is writing their concatenation.
pub proof fn lemma_write_string_concat(state: ConsoleState, first: Seq<u8>, second: Seq<u8>)
    ensures
        state.write_string(first + second) == state.write_string(first).write_string(second),
    decreases second.len(),
{
    if second.len() > 0 {
        lemma_write_string_concat(state, first, second.drop_last());
        assert((first + second).drop_last() =~= first + second.drop_last());
    }
}

/// Printable bytes that fit on the rest of the bottom row go there one
/// after the other, in the active colours, and nothing else changes: no
/// scroll happens, the rows above and the cells to the left and right of the
/// text stay as they were, and the cursor ends right behind the text.
pub proof fn lemma_printable_fits(state: ConsoleState, bytes: Seq<u8>)
    requires
        state.wf(),
        state.column + bytes.len() <= BUFFER_WIDTH,
        forall|i: int| 0 <= i < bytes.len() ==> is_printable(#[trigger] bytes[i]),
    ensures
        state.write_string(bytes).wf(),
        state.write_string(bytes).column == state.column + bytes.len(),
        state.write_string(bytes).colour_code == state.colour_code,
        forall|c: int|
            state.column <= c < state.column + bytes.len() ==> #[trigger] state.write_string(
                bytes,
            ).grid[BUFFER_HEIGHT - 1][c] == (ScreenChar {
                char: bytes[c - state.column],
                colour_code: state.colour_code,
            }),
        forall|c: int|
            0 <= c < BUFFER_WIDTH && !(state.column <= c < state.column + bytes.len())
                ==> #[trigger] state.write_string(bytes).grid[BUFFER_HEIGHT - 1][c]
                == state.grid[BUFFER_HEIGHT - 1][c],
        forall|r: int|
            0 <= r < BUFFER_HEIGHT - 1 ==> #[trigger] state.write_string(bytes).grid[r]
                == state.grid[r],
    decreases bytes.len(),
{
    if bytes.len() > 0 {
        let front = bytes.drop_last();
        let middle = state.write_string(front);
        let after = state.write_string(bytes);
        let bottom = BUFFER_HEIGHT - 1;
        lemma_printable_fits(state, front);
        assert forall|c: int|
            state.column <= c < state.column + bytes.len() implies #[trigger] after.grid[bottom][c]
            == (ScreenChar { char: bytes[c - state.column], colour_code: state.colour_code }) by {
            if c < state.column + front.len() {
                assert(middle.grid[bottom][c] == (ScreenChar {
                    char: front[c - state.column],
                    colour_code: state.colour_code,
                }));
            }
        }
    }
}

/// On a fresh line, fewer than 80 printable bytes end up at the start of the
/// bottom row in the active colours, and the cursor stands at their number.
pub proof fn lemma_short_line(state: ConsoleState, bytes: Seq<u8>)
    requires
        state.wf(),
        state.column == 0,
        bytes.len() < BUFFER_WIDTH,
        forall|i: int| 0 <= i < bytes.len() ==> is_printable(#[trigger] bytes[i]),
    ensures
        state.write_string(bytes).column == bytes.len(),
        forall|i: int|
            0 <= i < bytes.len() ==> #[trigger] state.write_string(bytes).grid[BUFFER_HEIGHT
                - 1][i] == (ScreenChar { char: bytes[i], colour_code: state.colour_code }),
{
    lemma_printable_fits(state, bytes);
}

/// A newline ends the line wherever the cursor stands: the cursor returns to
/// column 0, every row moves up by one and the bottom row is empty in the
/// active colours.
pub proof fn lemma_newline_scrolls(state: ConsoleState)
    requires
        state.wf(),
    ensures
        state.write_byte(NEWLINE) == state.new_line(),
        state.write_string(seq![NEWLINE]) == state.new_line(),
        state.new_line().column == 0,
        state.new_line().grid.len() == BUFFER_HEIGHT,
        forall|r: int|
            0 <= r < BUFFER_HEIGHT - 1 ==> #[trigger] state.new_line().grid[r] == state.grid[r + 1],
        state.new_line().grid[BUFFER_HEIGHT - 1] == blank_row(state.colour_code),
{
    lemma_single(state, NEWLINE);
}

/// Writing a text of one byte is writing the glyph of that byte.
pub proof fn lemma_single(state: ConsoleState, byte: u8)
    ensures
        state.write_string(seq![byte]) == state.write_byte(glyph(byte)),
{
    let text = seq![byte];
    assert(state.write_string(text.drop_last()) == state);
}

/// A byte that is neither printable nor a newline is written as the
/// placeholder glyph in the active colours: at the cursor, or at the start
/// of a new line if the bottom row was full. The byte itself leaves no trace.
pub proof fn lemma_placeholder(state: ConsoleState, byte: u8)
    requires
        state.wf(),
        !is_printable(byte),
        byte != NEWLINE,
    ensures
        glyph(byte) == PLACEHOLDER,
        state.write_string(seq![byte]) == state.write_byte(PLACEHOLDER),
        state.write_string(seq![byte]) == state.write_string(seq![PLACEHOLDER]),
        ({
            let at = if state.column < BUFFER_WIDTH {
                state.column as int
            } else {
                0
            };
            let after = state.write_string(seq![byte]);
            &&& after.column == at + 1
            &&& after.grid[BUFFER_HEIGHT - 1][at] == (ScreenChar {
                char: PLACEHOLDER,
                colour_code: state.colour_code,
            })
        }),
{
    lemma_single(state, byte);
    lemma_single(state, PLACEHOLDER);
}

/// Writing a text is writing the glyphs of its bytes: which unprintable byte
/// stood in the text makes no difference to the screen.
pub proof fn lemma_only_glyphs_matter(state: ConsoleState, first: Seq<u8>, second: Seq<u8>)
    requires
        first.len() == second.len(),
        forall|i: int| 0 <= i < first.len() ==> glyph(#[trigger] first[i]) == glyph(second[i]),
    ensures
        state.write_string(first) == state.write_string(second),
    decreases first.len(),
{
    if first.len() > 0 {
        lemma_only_glyphs_matter(state, first.drop_last(), second.drop_last());
    }
}

/// After 80 printable bytes on a fresh line, one more byte scrolls the grid
/// exactly once: the 80 bytes fill the row above the bottom row and every
/// other row has moved up by one. Unless it is a newline, the new byte's
/// glyph stands alone at the start of the bottom row; a newline leaves the
/// bottom row empty.
pub proof fn lemma_wrap_after_full_line(state: ConsoleState, bytes: Seq<u8>)
    requires
        state.wf(),
        state.column == 0,
        bytes.len() == BUFFER_WIDTH + 1,
        forall|i: int| 0 <= i < BUFFER_WIDTH ==> is_printable(#[trigger] bytes[i]),
    ensures
        state.write_string(bytes.drop_last()).column == BUFFER_WIDTH,
        forall|r: int|
            0 <= r < BUFFER_HEIGHT - 1 ==> #[trigger] state.write_string(bytes.drop_last()).grid[r]
                == state.grid[r],
        state.write_string(bytes).wf(),
        forall|r: int|
            0 <= r < BUFFER_HEIGHT - 2 ==> #[trigger] state.write_string(bytes).grid[r]
                == state.grid[r + 1],
        forall|c: int|
            0 <= c < BUFFER_WIDTH ==> #[trigger] state.write_string(bytes).grid[BUFFER_HEIGHT
                - 2][c] == (ScreenChar { char: bytes[c], colour_code: state.colour_code }),
        forall|c: int|
            1 <= c < BUFFER_WIDTH ==> #[trigger] state.write_string(bytes).grid[BUFFER_HEIGHT
                - 1][c] == ScreenChar::blank(state.colour_code),
        bytes.last() != NEWLINE ==> {
            &&& state.write_string(bytes).column == 1
            &&& state.write_string(bytes).grid[BUFFER_HEIGHT - 1][0] == (ScreenChar {
                char: glyph(bytes.last()),
                colour_code: state.colour_code,
            })
        },
        bytes.last() == NEWLINE ==> {
            &&& state.write_string(bytes).column == 0
            &&& state.write_string(bytes).grid[BUFFER_HEIGHT - 1][0] == ScreenChar::blank(
                state.colour_code,
            )
        },
{
    let line = bytes.drop_last();
    let full = state.write_string(line);
    let after = state.write_string(bytes);
    lemma_printable_fits(state, line);
    lemma_write_string_wf(state, bytes);
    assert forall|c: int| 0 <= c < BUFFER_WIDTH implies #[trigger] after.grid[BUFFER_HEIGHT
        - 2][c] == (ScreenChar { char: bytes[c], colour_code: state.colour_code }) by {
        assert(full.grid[BUFFER_HEIGHT - 1][c] == (ScreenChar {
            char: line[c - state.column],
            colour_code: state.colour_code,
        }));
    }
}

/// The number of line breaks that `n` bytes cause when they are placed one
/// after the other from the start of a row: none for the first 80, then one
/// for every further 80 begun.
pub open spec fn breaks_in(n: nat) -> int {
    if n == 0 {
        0
    } else {
        (n - 1) / (BUFFER_WIDTH as int)
    }
}

/// The column of the cursor after `n` bytes have been placed one after the
/// other from the start of a row.
pub open spec fn cursor_after(n: nat) -> int {
    if n == 0 {
        0
    } else {
        (n - 1) % (BUFFER_WIDTH as int) + 1
    }
}

/// Printable text of any length on a fresh line wraps every 80 bytes: byte
/// `i` stands in column `i % 80`, as many rows above the bottom row as line
/// breaks came after it, as long as that row is still on the screen. The
/// rows that were above the bottom row have moved up by the number of line
/// breaks, and once a break has happened the rest of the bottom row is empty.
pub proof fn lemma_printable_wraps(state: ConsoleState, bytes: Seq<u8>)
    requires
        state.wf(),
        state.column == 0,
        forall|i: int| 0 <= i < bytes.len() ==> is_printable(#[trigger] bytes[i]),
    ensures
        state.write_string(bytes).wf(),
        state.write_string(bytes).colour_code == state.colour_code,
        state.write_string(bytes).column == cursor_after(bytes.len()),
        forall|i: int|
            0 <= i < bytes.len() && breaks_in(bytes.len()) - i / (BUFFER_WIDTH as int)
                < BUFFER_HEIGHT ==> state.write_string(bytes).grid[BUFFER_HEIGHT - 1 - (breaks_in(
                bytes.len(),
            ) - i / (BUFFER_WIDTH as int))][i % (BUFFER_WIDTH as int)] == (ScreenChar {
                char: #[trigger] bytes[i],
                colour_code: state.colour_code,
            }),
        forall|r: int|
            0 <= r < BUFFER_HEIGHT - 1 - breaks_in(bytes.len()) ==> #[trigger] state.write_string(
                bytes,
            ).grid[r] == state.grid[r + breaks_in(bytes.len())],
        forall|c: int|
            cursor_after(bytes.len()) <= c < BUFFER_WIDTH ==> #[trigger] state.write_string(
                bytes,
            ).grid[BUFFER_HEIGHT - 1][c] == if breaks_in(bytes.len()) == 0 {
                state.grid[BUFFER_HEIGHT - 1][c]
            } else {
                ScreenChar::blank(state.colour_code)
            },
    decreases bytes.len(),
{
    if bytes.len() > 0 {
        let width = BUFFER_WIDTH as int;
        let bottom = BUFFER_HEIGHT - 1;
        let front = bytes.drop_last();
        let n = front.len();
        let middle = state.write_string(front);
        let after = state.write_string(bytes);
        lemma_printable_wraps(state, front);
        if middle.column == width {
            assert(after == middle.new_line().place(bytes.last()));
            assert(breaks_in(bytes.len()) == breaks_in(n) + 1);
        } else {
            assert(after == middle.place(bytes.last()));
            assert(breaks_in(bytes.len()) == breaks_in(n));
        }
        assert forall|i: int|
            0 <= i < bytes.len() && breaks_in(bytes.len()) - i / width
                < BUFFER_HEIGHT implies after.grid[bottom - (breaks_in(bytes.len()) - i / width)][i
            % width] == (ScreenChar { char: #[trigger] bytes[i], colour_code: state.colour_code }) by {
            if i < n {
                assert(middle.grid[bottom - (breaks_in(n) - i / width)][i % width] == (ScreenChar {
                    char: front[i],
                    colour_code: state.colour_code,
                }));
            }
        }
    }
}

/// After `n` lines have ended, the row that stood `n` rows below a place
/// stands in that place, and the last `n` rows are empty in the active
/// colours. With `n` at least 1 the cursor is at column 0.
pub proof fn lemma_scroll_shifts(state: ConsoleState, n: nat)
    requires
        state.wf(),
        n <= BUFFER_HEIGHT,
    ensures
        state.new_lines(n).wf(),
        state.new_lines(n).colour_code == state.colour_code,
        n > 0 ==> state.new_lines(n).column == 0,
        forall|r: int|
            0 <= r < BUFFER_HEIGHT - n ==> #[trigger] state.new_lines(n).grid[r] == state.grid[r
                + n],
        forall|r: int|
            BUFFER_HEIGHT - n <= r < BUFFER_HEIGHT ==> #[trigger] state.new_lines(n).grid[r]
                == blank_row(state.colour_code),
    decreases n,
{
    if n > 0 {
        let earlier = state.new_lines((n - 1) as nat);
        lemma_scroll_shifts(state, (n - 1) as nat);
        lemma_new_line_wf(earlier);
    }
}

/// What scrolls off the top is gone: after `n` lines have ended, the screen
/// shows nothing of the first `n` rows, so two states that differ only there
/// and in the cursor show the same grid.
pub proof fn lemma_scroll_forgets(first: ConsoleState, second: ConsoleState, n: nat)
    requires
        first.wf(),
        second.wf(),
        n <= BUFFER_HEIGHT,
        first.colour_code == second.colour_code,
        forall|r: int| n <= r < BUFFER_HEIGHT ==> #[trigger] first.grid[r] == second.grid[r],
    ensures
        first.new_lines(n).grid == second.new_lines(n).grid,
{
    lemma_scroll_shifts(first, n);
    lemma_scroll_shifts(second, n);
    let a = first.new_lines(n).grid;
    let b = second.new_lines(n).grid;
    assert forall|r: int| 0 <= r < BUFFER_HEIGHT implies a[r] == b[r] by {
        if r < BUFFER_HEIGHT - n {
            assert(a[r] == first.grid[r + n]);
            assert(b[r] == second.grid[r + n]);
        }
    }
    assert(a =~= b);
}

} // verus!
