use vstd::prelude::*;

use crate::color::PieceColor;
use crate::geometry::{Point, Selectable};
use crate::selector::Selector;
use crate::turn::State;

verus! {

broadcast use vstd::array::group_array_axioms;

/// Board coordinates of a guess slot: `row` counts rows of the board, `col`
/// the four columns of a row.
#[derive(Clone, Copy, Debug, PartialEq, Eq, Structural)]
pub struct Position {
    pub row: u32,
    pub col: u32,
}

/// Palette marker attached to a swatch entity: which color that swatch
/// stands for.
#[derive(Clone, Copy, Debug, PartialEq, Eq, Structural)]
pub struct Piece {
    pub color: PieceColor,
}

/// The held selection: the piece most recently picked from the palette. It
/// persists across ticks until a later pick overwrites it; holding an item
/// outlives the tick by design.
#[derive(Clone, Copy, Debug, PartialEq, Eq, Structural)]
pub struct Select {
    pub piece: Piece,
}

/// Index of the first palette entry whose region contains `pos`, if any.
pub open spec fn palette_hit(entries: Seq<(Selectable, Piece)>, pos: Point) -> Option<int>
    decreases entries.len(),
{
    if entries.len() == 0 {
        None
    } else if entries.first().0.contains(pos) {
        Some(0)
    } else {
        match palette_hit(entries.drop_first(), pos) {
            Some(i) => Some(i + 1),
            None => None,
        }
    }
}

/// A palette entry hit by the pointer, with no hit entry before it, is the
/// first palette hit.
pub proof fn lemma_palette_hit_at(entries: Seq<(Selectable, Piece)>, pos: Point, k: int)
    requires
        0 <= k < entries.len(),
        entries[k].0.contains(pos),
        forall|j: int| 0 <= j < k ==> !(#[trigger] entries[j]).0.contains(pos),
    ensures
        palette_hit(entries, pos) == Some(k),
    decreases k,
{
    if k > 0 {
        assert(forall|j: int| 0 <= j < k - 1 ==> entries.drop_first()[j] == entries[j + 1]
            && !(#[trigger] entries.drop_first()[j]).0.contains(pos));
        lemma_palette_hit_at(entries.drop_first(), pos, k - 1);
    }
}

/// When the pointer hits no palette entry there is no first palette hit.
pub proof fn lemma_palette_hit_none(entries: Seq<(Selectable, Piece)>, pos: Point)
    requires
        forall|j: int| 0 <= j < entries.len() ==> !(#[trigger] entries[j]).0.contains(pos),
    ensures
        palette_hit(entries, pos) is None,
    decreases entries.len(),
{
    if entries.len() > 0 {
        assert(forall|j: int| 0 <= j < entries.drop_first().len() ==> entries.drop_first()[j]
            == entries[j + 1] && !(#[trigger] entries.drop_first()[j]).0.contains(pos));
        lemma_palette_hit_none(entries.drop_first(), pos);
    }
}

/// The held selection after one pick-up step: when the click pulse is up and
/// a swatch is hit, its piece replaces whatever was held; otherwise the old
/// selection stays.
pub open spec fn held_after_pick(
    held: Option<Select>,
    selected: bool,
    pos: Point,
    entries: Seq<(Selectable, Piece)>,
) -> Option<Select> {
    if selected {
        match palette_hit(entries, pos) {
            Some(k) => Some(Select { piece: entries[k].1 }),
            None => held,
        }
    } else {
        held
    }
}

/// Pick-up step: when the click pulse is up, the first palette entry whose
/// region contains the pointer becomes the new held selection and the click
/// is consumed at once, so the same click cannot also place a piece. A click
/// that hits no swatch changes nothing.
pub fn select(selector: &mut Selector, held: &mut Option<Select>, entries: &Vec<(Selectable, Piece)>)
    ensures
        final(selector).position == old(selector).position,
        *final(held) == held_after_pick(
            *old(held),
            old(selector).selected,
            old(selector).position,
            entries@,
        ),
        final(selector).selected == (old(selector).selected && palette_hit(
            entries@,
            old(selector).position,
        ) is None),
{
    if selector.selected {
        let pos = selector.position;
        let mut i: usize = 0;
        while i < entries.len()
            invariant
                i <= entries@.len(),
                old(selector).selected,
                pos == old(selector).position,
                *selector == *old(selector),
                *held == *old(held),
                forall|j: int| 0 <= j < i ==> !(#[trigger] entries@[j]).0.contains(pos),
            decreases entries@.len() - i,
        {
            if entries[i].0.is_selected(&pos) {
                *held = Some(Select { piece: entries[i].1 });
                selector.selected = false;
                proof {
                    lemma_palette_hit_at(entries@, pos, i as int);
                }
                return;
            }
            i += 1;
        }
        proof {
            lemma_palette_hit_none(entries@, pos);
        }
    }
}

/// Last pick wins: when two successive pick-up steps each hit a swatch, the
/// second swatch's piece is held afterward — and it would be whatever had
/// been held before, so no trace of the first pick leaks through.
pub proof fn lemma_last_pick_wins(
    held0: Option<Select>,
    pos1: Point,
    entries1: Seq<(Selectable, Piece)>,
    pos2: Point,
    entries2: Seq<(Selectable, Piece)>,
)
    requires
        palette_hit(entries1, pos1) is Some,
        palette_hit(entries2, pos2) is Some,
    ensures
        ({
            let h1 = held_after_pick(held0, true, pos1, entries1);
            let h2 = held_after_pick(h1, true, pos2, entries2);
            &&& h1 == Some((Select { piece: entries1[palette_hit(entries1, pos1)->0].1 }))
            &&& h2 == Some((Select { piece: entries2[palette_hit(entries2, pos2)->0].1 }))
            &&& forall|other: Option<Select>| held_after_pick(other, true, pos2, entries2) == h2
        }),
{
}

/// Index of the first board cell whose region contains `pos` and whose row
/// is the active one, if any: the placement target of a click.
pub open spec fn cell_target(
    cells: Seq<(u64, Selectable, Position)>,
    pos: Point,
    active_row: int,
) -> Option<int>
    decreases cells.len(),
{
    if cells.len() == 0 {
        None
    } else if cells.first().1.contains(pos) && cells.first().2.row == active_row {
        Some(0)
    } else {
        match cell_target(cells.drop_first(), pos, active_row) {
            Some(i) => Some(i + 1),
            None => None,
        }
    }
}

/// A cell of the active row hit by the pointer, preceded by no such cell, is
/// the placement target.
pub proof fn lemma_cell_target_at(
    cells: Seq<(u64, Selectable, Position)>,
    pos: Point,
    active_row: int,
    k: int,
)
    requires
        0 <= k < cells.len(),
        cells[k].1.contains(pos) && cells[k].2.row == active_row,
        forall|j: int| 0 <= j < k ==> !((#[trigger] cells[j]).1.contains(pos)
            && cells[j].2.row == active_row),
    ensures
        cell_target(cells, pos, active_row) == Some(k),
    decreases k,
{
    if k > 0 {
        assert(forall|j: int| 0 <= j < k - 1 ==> cells.drop_first()[j] == cells[j + 1]
            && !((#[trigger] cells.drop_first()[j]).1.contains(pos)
            && cells.drop_first()[j].2.row == active_row));
        lemma_cell_target_at(cells.drop_first(), pos, active_row, k - 1);
    }
}

/// When no cell of the active row is hit there is no placement target.
pub proof fn lemma_cell_target_none(
    cells: Seq<(u64, Selectable, Position)>,
    pos: Point,
    active_row: int,
)
    requires
        forall|j: int| 0 <= j < cells.len() ==> !((#[trigger] cells[j]).1.contains(pos)
            && cells[j].2.row == active_row),
    ensures
        cell_target(cells, pos, active_row) is None,
    decreases cells.len(),
{
    if cells.len() > 0 {
        assert(forall|j: int| 0 <= j < cells.drop_first().len() ==> cells.drop_first()[j]
            == cells[j + 1] && !((#[trigger] cells.drop_first()[j]).1.contains(pos)
            && cells.drop_first()[j].2.row == active_row));
        lemma_cell_target_none(cells.drop_first(), pos, active_row);
    }
}

/// What the turn resolver asks of the scene after a successful placement:
/// redraw the cell entity at `(row, col)` with `color`; `replaced` says
/// whether an earlier piece visual must be removed first.
#[derive(Clone, Copy, Debug, PartialEq, Eq, Structural)]
pub struct Placement {
    pub entity: u64,
    pub row: u32,
    pub col: u32,
    pub color: PieceColor,
    pub replaced: bool,
}

/// The placement report for the click that lands on cell `k` of `cells`
/// while `color` is held and the buffer reads `code`.
pub open spec fn placement_result(
    cells: Seq<(u64, Selectable, Position)>,
    k: int,
    color: PieceColor,
    code: Seq<Option<PieceColor>>,
) -> Placement {
    Placement {
        entity: cells[k].0,
        row: cells[k].2.row,
        col: cells[k].2.col,
        color: color,
        replaced: code[cells[k].2.col as int] is Some,
    }
}

/// Placement step: guarded by the click pulse and a held selection. The held
/// color is written into the active row's slot under the pointer, replacing
/// any previous value; clicks on cells of other rows, or on no cell, change
/// no buffer. Once the guard holds the click is consumed either way.
pub fn play_code(
    selector: &mut Selector,
    held: &Option<Select>,
    game: &mut State,
    cells: &Vec<(u64, Selectable, Position)>,
) -> (placed: Option<Placement>)
    requires
        forall|j: int| 0 <= j < cells@.len() ==> (#[trigger] cells@[j]).2.col < 4,
    ensures
        final(selector).position == old(selector).position,
        final(game).row == old(game).row,
        final(selector).selected == (old(selector).selected && *held is None),
        !(old(selector).selected && *held is Some) ==> final(game).code == old(game).code
            && placed is None,
        (old(selector).selected && *held is Some) ==> match cell_target(
            cells@,
            old(selector).position,
            old(game).row as int,
        ) {
            None => final(game).code == old(game).code && placed is None,
            Some(k) => ({
                let color = (*held)->0.piece.color;
                &&& final(game).code@ == old(game).code@.update(cells@[k].2.col as int, Some(color))
                &&& placed == Some(placement_result(cells@, k, color, old(game).code@))
            }),
        },
{
    if selector.selected {
        if let Some(sel) = held {
            let pos = selector.position;
            let mut i: usize = 0;
            while i < cells.len()
                invariant
                    i <= cells@.len(),
                    old(selector).selected,
                    *held == Some(*sel),
                    pos == old(selector).position,
                    *selector == *old(selector),
                    *game == *old(game),
                    forall|j: int| 0 <= j < cells@.len() ==> (#[trigger] cells@[j]).2.col < 4,
                    forall|j: int| 0 <= j < i ==> !((#[trigger] cells@[j]).1.contains(pos)
                        && cells@[j].2.row == old(game).row as int),
                decreases cells@.len() - i,
            {
                let cell = &cells[i];
                if cell.1.is_selected(&pos) && cell.2.row as usize == game.row {
                    let col = cell.2.col as usize;
                    let replaced = game.code[col].is_some();
                    game.code[col] = Some(sel.piece.color);
                    selector.selected = false;
                    proof {
                        lemma_cell_target_at(cells@, pos, old(game).row as int, i as int);
                    }
                    return Some(Placement {
                        entity: cell.0,
                        row: cell.2.row,
                        col: cell.2.col,
                        color: sel.piece.color,
                        replaced: replaced,
                    });
                }
                i += 1;
            }
            selector.selected = false;
            proof {
                lemma_cell_target_none(cells@, pos, old(game).row as int);
            }
            return None;
        }
    }
    None
}

} // verus!
