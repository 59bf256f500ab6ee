//! Display cells and the hardware grid that holds them.

use vstd::prelude::*;
use volatile::Volatile;
use crate::colour::ColourCode;

verus! {

/// Number of text rows on the screen.
pub const BUFFER_HEIGHT: usize = 25;

/// Number of text columns on the screen.
pub const BUFFER_WIDTH: usize = 80;

/// The glyph of an empty cell.
pub const SPACE: u8 = 0x20;

/// One character position: a glyph and the attribute it is drawn with.
#[derive(Debug, Clone, Copy, Eq, PartialEq, Structural)]
pub struct ScreenChar {
    pub char: u8,
    pub colour_code: ColourCode,
}

impl ScreenChar {
    /// The two bytes that the hardware holds for this cell: the glyph first,
    /// the attribute second.
    pub open spec fn wire(self) -> Seq<u8> {
        seq![self.char, self.colour_code.0]
    }

    /// The cell that two bytes of the grid stand for.
    pub open spec fn from_wire(bytes: Seq<u8>) -> ScreenChar {
        ScreenChar { char: bytes[0], colour_code: ColourCode(bytes[1]) }
    }

    /// An empty cell in the given colours.
    pub open spec fn blank(colour_code: ColourCode) -> ScreenChar {
        ScreenChar { char: SPACE, colour_code }
    }

    /// Encodes the cell as the hardware expects it.
    pub fn to_bytes(self) -> (bytes: [u8; 2])
        ensures
            bytes@ == self.wire(),
            Self::from_wire(bytes@) == self,
    {
        let bytes: [u8; 2] = [self.char, self.colour_code.0];
        assert(bytes@ =~= self.wire());
        bytes
    }

    /// Decodes the two bytes of a cell.
    pub fn from_bytes(bytes: [u8; 2]) -> (cell: ScreenChar)
        ensures
            cell == Self::from_wire(bytes@),
            cell.wire() == bytes@,
    {
        let cell = ScreenChar { char: bytes[0], colour_code: ColourCode(bytes[1]) };
        assert(cell.wire() =~= bytes@);
        cell
    }
}

/// `volatile::Volatile`: a value that is only ever loaded and stored with
/// volatile accesses. The verifier sees nothing inside it; what a cell holds
/// is spoken of through [`cell_bytes`].
#[verifier::external_type_specification]
#[verifier::external_body]
#[verifier::reject_recursive_types(T)]
pub struct ExVolatile<T: Copy>(Volatile<T>);

/// The hardware grid: rows of cells, each cell two bytes behind a volatile
/// wrapper, laid out row by row without padding.
pub type Buffer = [[Volatile<[u8; 2]>; BUFFER_WIDTH]; BUFFER_HEIGHT];

/// The bytes that a cell of the grid holds: what the last store put there,
/// and what the display shows.
pub uninterp spec fn cell_bytes(cell: Volatile<[u8; 2]>) -> Seq<u8>;

/// `Volatile::read`: a volatile load of the wrapped value, which never
/// panics. The contract says that the load yields the bytes that the cell
/// holds. This rests on the display only reading its grid: nothing but a
/// store through the one reference to a cell changes what the cell holds.
#[verifier::external_body]
pub(crate) fn cell_read(cell: &Volatile<[u8; 2]>) -> (bytes: [u8; 2])
    ensures
        bytes@ == cell_bytes(*cell),
    no_unwind
{
    cell.read()
}

/// `Volatile::write`: a volatile store into the wrapped value, which never
/// panics. The contract says that afterwards the cell holds exactly the
/// bytes given.
#[verifier::external_body]
pub(crate) fn cell_write(cell: &mut Volatile<[u8; 2]>, bytes: [u8; 2])
    ensures
        cell_bytes(*final(cell)) == bytes@,
    no_unwind
{
    cell.write(bytes)
}

/// The cells of a grid, decoded: `grid_of(b)[r][c]` is the cell in row `r`
/// and column `c`.
pub open spec fn grid_of(buffer: Buffer) -> Seq<Seq<ScreenChar>> {
    Seq::new(
        BUFFER_HEIGHT as nat,
        |r: int|
            Seq::new(
                BUFFER_WIDTH as nat,
                |c: int| ScreenChar::from_wire(cell_bytes(buffer[r][c])),
            ),
    )
}

} // verus!
