//! A verified driver for the 80x25 memory-mapped text console.
//!
//! The console is a grid of two-byte cells that the display hardware reads on
//! its own. A [`Writer`] owns the only reference to that grid, keeps a cursor
//! on the bottom row and scrolls the whole grid upward whenever a line ends.
//! Every operation is specified over [`ConsoleState`], a mathematical model of
//! the grid, and proved against it; [`laws`] holds what follows for whole
//! sequences of writes.
//!
//! Two things are taken on trust and stated where they are used: that a
//! volatile store into a cell is what a later load of that cell yields, and
//! that the spin lock hands out the writer it protects. The reference to the
//! hardware grid itself is made by whoever builds the [`Writer`].

pub mod cell;
pub mod colour;
pub mod console;
pub mod laws;
pub mod model;
pub mod writer;

pub use cell::Buffer;
pub use cell::ScreenChar;
pub use cell::BUFFER_HEIGHT;
pub use cell::BUFFER_WIDTH;
pub use colour::ColourCode;
pub use colour::ConsoleColour;
pub use console::_print;
pub use model::ConsoleState;
pub use writer::Writer;
