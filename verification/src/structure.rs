use vstd::prelude::*;

use crate::adapter::Marker;
use crate::color::{PieceColor, PALETTE_SIZE};
use crate::geometry::{Point, Selectable, SelectableShape};
use crate::picking::{Piece, Position};

verus! {

/// Upper bound on one board cell's side, in scene units.
pub const MAX_PIECE_SIZE: i32 = 0x100000;

/// Upper bound on a layout anchor coordinate, in scene units.
pub const MAX_ANCHOR: i32 = 0x1000000;

/// Geometry of the scene: the side of one board cell and the anchors of the
/// palette row, the guess board and the secret row, all in scene units.
#[derive(Clone, Copy, Debug, PartialEq, Eq, Structural)]
pub struct Structure {
    pub piece_size: i32,
    pub pieces_position: Point,
    pub boardgame_position: Point,
    pub secrets_position: Point,
}

impl Structure {
    /// Sane geometry: a positive cell side and anchors that leave every
    /// derived coordinate well inside the representable range.
    pub open spec fn wf(&self) -> bool {
        &&& 0 < self.piece_size <= MAX_PIECE_SIZE
        &&& 0 <= self.pieces_position.x <= MAX_ANCHOR
        &&& 0 <= self.pieces_position.y <= MAX_ANCHOR
        &&& 0 <= self.boardgame_position.x <= MAX_ANCHOR
        &&& 0 <= self.boardgame_position.y <= MAX_ANCHOR
        &&& 0 <= self.secrets_position.x <= MAX_ANCHOR
        &&& 0 <= self.secrets_position.y <= MAX_ANCHOR
    }

    /// The layout for a window of the given size: the cell side is chosen so
    /// that six columns and twelve rows fit, the whole centered; the board
    /// sits half a cell right of the palette column and one row up; the
    /// secret row sits ten rows above the board's base.
    pub fn from_window(width: i32, height: i32) -> (s: Structure)
        requires
            6 <= width <= MAX_PIECE_SIZE * 6,
            12 <= height <= MAX_PIECE_SIZE * 12,
        ensures
            s.wf(),
            s.piece_size == if width as int / 6 <= height as int / 12 {
                width as int / 6
            } else {
                height as int / 12
            },
            s.pieces_position.x == (width - s.piece_size * 6) / 2,
            s.pieces_position.y == (height - s.piece_size * 12) / 2,
            s.boardgame_position.x == s.pieces_position.x + s.piece_size / 2,
            s.boardgame_position.y == s.pieces_position.y + s.piece_size,
            s.secrets_position.x == s.pieces_position.x + s.piece_size / 2,
            s.secrets_position.y == s.pieces_position.y + s.piece_size * 10,
    {
        let a: i32 = width / 6;
        let b: i32 = height / 12;
        let piece_size = if a <= b {
            a
        } else {
            b
        };
        proof {
            assert(piece_size * 6 <= width && piece_size * 12 <= height && piece_size * 10
                <= height) by (nonlinear_arith)
                requires
                    piece_size <= width / 6,
                    piece_size <= height / 12,
                    width >= 6,
                    height >= 12,
                    piece_size >= 1,
            ;
        }
        let initial = Point { x: (width - piece_size * 6) / 2, y: (height - piece_size * 12) / 2 };
        Structure {
            piece_size,
            pieces_position: initial,
            boardgame_position: Point { x: initial.x + piece_size / 2, y: initial.y + piece_size },
            secrets_position: Point { x: initial.x + piece_size / 2, y: initial.y + piece_size * 10 },
        }
    }
}

/// The interaction regions and coordinates of the forty guess slots, in the
/// board's spawn order: row by row from the bottom, four columns per row.
/// The slot `(row, col)` is a circle of half a cell's radius centered in
/// the cell `col` cells right of and `row` cells above the board anchor.
pub fn board_cells(s: &Structure) -> (cells: Vec<(Selectable, Position)>)
    requires
        s.wf(),
    ensures
        cells@.len() == 40,
        forall|k: int| 0 <= k < 40 ==> ({
            let cell = #[trigger] cells@[k];
            &&& cell.1.row == k / 4
            &&& cell.1.col == k % 4
            &&& cell.0.center().x == s.boardgame_position.x + (k % 4) * s.piece_size
                + s.piece_size / 2
            &&& cell.0.center().y == s.boardgame_position.y + (k / 4) * s.piece_size
                + s.piece_size / 2
            &&& cell.0.radius() == s.piece_size / 2
        }),
{
    let mut cells: Vec<(Selectable, Position)> = Vec::new();
    let mut k: usize = 0;
    while k < 40
        invariant
            k <= 40,
            s.wf(),
            cells@.len() == k,
            forall|j: int| 0 <= j < k ==> ({
                let cell = #[trigger] cells@[j];
                &&& cell.1.row == j / 4
                &&& cell.1.col == j % 4
                &&& cell.0.center().x == s.boardgame_position.x + (j % 4) * s.piece_size
                    + s.piece_size / 2
                &&& cell.0.center().y == s.boardgame_position.y + (j / 4) * s.piece_size
                    + s.piece_size / 2
                &&& cell.0.radius() == s.piece_size / 2
            }),
        decreases 40 - k,
    {
        let row: i32 = (k / 4) as i32;
        let col: i32 = (k % 4) as i32;
        proof {
            assert(col * s.piece_size <= 3 * s.piece_size && row * s.piece_size <= 9
                * s.piece_size && col * s.piece_size >= 0 && row * s.piece_size >= 0)
                by (nonlinear_arith)
                requires
                    0 <= col <= 3,
                    0 <= row <= 9,
                    s.piece_size > 0,
            ;
        }
        let center = Point {
            x: s.boardgame_position.x + col * s.piece_size + s.piece_size / 2,
            y: s.boardgame_position.y + row * s.piece_size + s.piece_size / 2,
        };
        let region = Selectable::new(center, SelectableShape::Circle(s.piece_size / 2));
        cells.push((region, Position { row: row as u32, col: col as u32 }));
        k += 1;
    }
    cells
}

/// The palette row: six swatches in palette order, each a circle of half a
/// cell's radius centered in the cell `col` cells right of the palette
/// anchor, carrying the color of index `col`.
pub fn palette_pieces(s: &Structure) -> (pieces: Vec<(Selectable, Piece)>)
    requires
        s.wf(),
    ensures
        pieces@.len() == PALETTE_SIZE,
        forall|k: int| 0 <= k < PALETTE_SIZE ==> ({
            let swatch = #[trigger] pieces@[k];
            &&& swatch.1.color.spec_value() == k
            &&& swatch.0.center().x == s.pieces_position.x + k * s.piece_size + s.piece_size / 2
            &&& swatch.0.center().y == s.pieces_position.y + s.piece_size / 2
            &&& swatch.0.radius() == s.piece_size / 2
        }),
{
    let mut pieces: Vec<(Selectable, Piece)> = Vec::new();
    let mut k: usize = 0;
    while k < PALETTE_SIZE
        invariant
            k <= PALETTE_SIZE,
            s.wf(),
            pieces@.len() == k,
            forall|j: int| 0 <= j < k ==> ({
                let swatch = #[trigger] pieces@[j];
                &&& swatch.1.color.spec_value() == j
                &&& swatch.0.center().x == s.pieces_position.x + j * s.piece_size + s.piece_size
                    / 2
                &&& swatch.0.center().y == s.pieces_position.y + s.piece_size / 2
                &&& swatch.0.radius() == s.piece_size / 2
            }),
        decreases PALETTE_SIZE - k,
    {
        let col: i32 = k as i32;
        proof {
            assert(col * s.piece_size <= 5 * s.piece_size && col * s.piece_size >= 0)
                by (nonlinear_arith)
                requires
                    0 <= col <= 5,
                    s.piece_size > 0,
            ;
        }
        let center = Point {
            x: s.pieces_position.x + col * s.piece_size + s.piece_size / 2,
            y: s.pieces_position.y + s.piece_size / 2,
        };
        let region = Selectable::new(center, SelectableShape::Circle(s.piece_size / 2));
        pieces.push((region, Piece { color: PieceColor::from_value(k) }));
        k += 1;
    }
    pieces
}

/// Where the piece placed at `(row, col)` is drawn: the cell's own corner,
/// `col` cells right of and `row` cells above the board anchor.
pub fn piece_draw_position(s: &Structure, row: u32, col: u32) -> (p: Point)
    requires
        s.wf(),
        row < 10,
        col < 4,
    ensures
        p.x == s.boardgame_position.x + col * s.piece_size,
        p.y == s.boardgame_position.y + row * s.piece_size,
{
    proof {
        assert(row * s.piece_size <= 9 * s.piece_size && col * s.piece_size <= 3 * s.piece_size
            && row * s.piece_size >= 0 && col * s.piece_size >= 0) by (nonlinear_arith)
            requires
                0 <= row < 10,
                0 <= col < 4,
                s.piece_size > 0,
        ;
    }
    Point {
        x: s.boardgame_position.x + (col as i32) * s.piece_size,
        y: s.boardgame_position.y + (row as i32) * s.piece_size,
    }
}

/// Where one feedback marker is drawn beside scored row `row`: the 2-wide
/// sub-grid of half-cell sub-cells is anchored a quarter cell back from the
/// row's result box, four cells right of the board anchor, and the marker
/// fills its sub-cell `(sub_col, sub_row)` — the same position for any row
/// only shifted by the row's origin.
pub fn marker_position(s: &Structure, row: u32, marker: &Marker) -> (p: Point)
    requires
        s.wf(),
        row < 10,
        marker.sub_col < 2,
        marker.sub_row < 2,
    ensures
        p.x == s.boardgame_position.x - s.piece_size / 4 + 4 * s.piece_size + marker.sub_col * (
        s.piece_size / 2),
        p.y == s.boardgame_position.y - s.piece_size / 4 + row * s.piece_size + marker.sub_row * (
        s.piece_size / 2),
{
    proof {
        assert(row * s.piece_size <= 9 * s.piece_size && row * s.piece_size >= 0 && marker.sub_col
            * (s.piece_size / 2) <= s.piece_size / 2 && marker.sub_col * (s.piece_size / 2) >= 0
            && marker.sub_row * (s.piece_size / 2) <= s.piece_size / 2 && marker.sub_row * (
        s.piece_size / 2) >= 0) by (nonlinear_arith)
            requires
                0 <= row < 10,
                0 <= marker.sub_col < 2,
                0 <= marker.sub_row < 2,
                s.piece_size > 0,
        ;
    }
    let half: i32 = s.piece_size / 2;
    Point {
        x: s.boardgame_position.x - s.piece_size / 4 + 4 * s.piece_size + (marker.sub_col as i32)
            * half,
        y: s.boardgame_position.y - s.piece_size / 4 + (row as i32) * s.piece_size + (
        marker.sub_row as i32) * half,
    }
}

/// Where one of the revealed secret's pieces is drawn: `col` cells right of
/// the board anchor, ten rows up.
pub fn secret_draw_position(s: &Structure, col: u32) -> (p: Point)
    requires
        s.wf(),
        col < 4,
    ensures
        p.x == s.boardgame_position.x + col * s.piece_size,
        p.y == s.boardgame_position.y + 10 * s.piece_size,
{
    proof {
        assert(col * s.piece_size <= 3 * s.piece_size && col * s.piece_size >= 0)
            by (nonlinear_arith)
            requires
                0 <= col < 4,
                s.piece_size > 0,
        ;
    }
    Point {
        x: s.boardgame_position.x + (col as i32) * s.piece_size,
        y: s.boardgame_position.y + 10 * s.piece_size,
    }
}

} // verus!
