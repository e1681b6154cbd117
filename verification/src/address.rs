//! Mapping from a (row, column) position to a DDRAM address.

use vstd::prelude::*;

verus! {

/// The display's size in character cells.
#[derive(Clone, Copy, Debug, PartialEq, Eq, Structural)]
pub struct Geometry {
    pub rows: u8,
    pub columns: u8,
}

impl Geometry {
    /// Two rows of sixteen columns.
    pub fn lcd16x2() -> (g: Geometry)
        ensures
            g == (Geometry { rows: 2, columns: 16 }),
    {
        Geometry { rows: 2, columns: 16 }
    }

    /// Four rows of sixteen columns.
    pub fn lcd16x4() -> (g: Geometry)
        ensures
            g == (Geometry { rows: 4, columns: 16 }),
    {
        Geometry { rows: 4, columns: 16 }
    }

    /// Four rows of twenty columns.
    pub fn lcd20x4() -> (g: Geometry)
        ensures
            g == (Geometry { rows: 4, columns: 20 }),
    {
        Geometry { rows: 4, columns: 20 }
    }

    /// Whether this is the sixteen-column, four-row display, whose third and
    /// fourth rows start at other addresses than on every other display.
    pub open spec fn spec_is_16x4(self) -> bool {
        self.rows == 4 && self.columns == 16
    }

    #[verifier::when_used_as_spec(spec_is_16x4)]
    pub fn is_16x4(self) -> (b: bool)
        ensures
            b == self.spec_is_16x4(),
    {
        self.rows == 4 && self.columns == 16
    }
}

/// Row base addresses of every display but the 16x4 one.
pub open spec fn offsets_normal() -> Seq<u8> {
    seq![0x00u8, 0x40u8, 0x14u8, 0x54u8]
}

/// Row base addresses of the 16x4 display.
pub open spec fn offsets_16x4() -> Seq<u8> {
    seq![0x00u8, 0x40u8, 0x10u8, 0x50u8]
}

/// The offset table that applies to `geometry`.
pub open spec fn offset_table(geometry: Geometry) -> Seq<u8> {
    if geometry.spec_is_16x4() {
        offsets_16x4()
    } else {
        offsets_normal()
    }
}

/// The DDRAM address of a position: the row's base plus the column, kept to
/// seven bits.
pub open spec fn address_of(row: u8, col: u8, geometry: Geometry) -> u8
    recommends
        row < 4,
{
    ((offset_table(geometry)[row as int] + col) % 0x80) as u8
}

/// Base address of `row` on a display of the given geometry.
pub fn row_offset(row: u8, geometry: Geometry) -> (base: u8)
    requires
        row < 4,
    ensures
        base == offset_table(geometry)[row as int],
        base <= 0x54,
{
    if geometry.is_16x4() {
        if row == 0 {
            0x00
        } else if row == 1 {
            0x40
        } else if row == 2 {
            0x10
        } else {
            0x50
        }
    } else {
        if row == 0 {
            0x00
        } else if row == 1 {
            0x40
        } else if row == 2 {
            0x14
        } else {
            0x54
        }
    }
}

/// Resolves a zero-based position to its DDRAM address. The table has four
/// rows; neither the row nor the column is held against the geometry, and a
/// sum beyond seven bits wraps.
pub fn row_col_to_address(row: u8, col: u8, geometry: Geometry) -> (address: u8)
    requires
        row < 4,
    ensures
        address == address_of(row, col, geometry),
        address < 0x80,
        offset_table(geometry)[row as int] + col < 0x80 ==> address == offset_table(geometry)[row as int] + col,
{
    let base: u8 = row_offset(row, geometry);
    let sum: u16 = base as u16 + col as u16;
    (sum % 0x80) as u8
}

/// On every display, the first column of a row within the row count
/// resolves to that row's entry of the display's offset table.
pub proof fn lemma_first_column_is_table_entry(row: u8, geometry: Geometry)
    requires
        row < geometry.rows,
        geometry.rows <= 4,
    ensures
        address_of(row, 0, geometry) == offset_table(geometry)[row as int],
        offset_table(geometry).len() == 4,
{
}

} // verus!
