use vstd::prelude::*;

verus! {

/// Number of distinct palette symbols offered to the player.
pub const PALETTE_SIZE: usize = 6;

/// One of the fixed palette of symbols a player can pick up and place on the
/// board. The variants are listed in palette order, so each color also has a
/// stable index (see [`PieceColor::value`]).
#[derive(Clone, Copy, Debug, PartialEq, Eq, Structural)]
pub enum PieceColor {
    Black,
    White,
    Yellow,
    Blue,
    Red,
    Green,
}

impl PieceColor {
    /// Index of this color within the palette, as a mathematical value.
    pub open spec fn spec_value(self) -> int {
        match self {
            PieceColor::Black => 0,
            PieceColor::White => 1,
            PieceColor::Yellow => 2,
            PieceColor::Blue => 3,
            PieceColor::Red => 4,
            PieceColor::Green => 5,
        }
    }

    /// Index of this color within the palette.
    pub fn value(&self) -> (v: usize)
        ensures
            v == self.spec_value(),
            v < PALETTE_SIZE,
    {
        match self {
            PieceColor::Black => 0,
            PieceColor::White => 1,
            PieceColor::Yellow => 2,
            PieceColor::Blue => 3,
            PieceColor::Red => 4,
            PieceColor::Green => 5,
        }
    }

    /// The palette color with the given index; inverse of [`PieceColor::value`].
    pub fn from_value(value: usize) -> (c: PieceColor)
        requires
            value < PALETTE_SIZE,
        ensures
            c.spec_value() == value,
    {
        match value {
            0 => PieceColor::Black,
            1 => PieceColor::White,
            2 => PieceColor::Yellow,
            3 => PieceColor::Blue,
            4 => PieceColor::Red,
            _ => PieceColor::Green,
        }
    }
}

} // verus!
