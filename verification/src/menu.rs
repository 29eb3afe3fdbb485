use vstd::prelude::*;

use crate::color::{PieceColor, PALETTE_SIZE};
use crate::loading::AssetsLoading;
use crate::modes::{push_result, AppState, Hook, ModeStack};
use crate::random::{random_u8_below, random_usize_below};
use crate::snapshots::{clear_post, Snapshots};

verus! {

/// Number of rows in the menu's animated backdrop field.
pub const BACKDROP_ROWS: u32 = 14;

/// Number of columns in the menu's animated backdrop field.
pub const BACKDROP_COLS: u32 = 6;

/// Decides the menu's animated backdrop: walking a fourteen-by-six field in
/// row-major order, each cell receives a piece of a random palette color
/// with three chances in five, or stays empty. The returned spawn list
/// names each chosen cell once, in walking order; which cells and colors
/// come up is the dice's affair.
pub fn menu_backdrop_pieces() -> (pieces: Vec<(u32, u32, PieceColor)>)
    ensures
        pieces@.len() <= BACKDROP_ROWS * BACKDROP_COLS,
        forall|k: int| 0 <= k < pieces@.len() ==> (#[trigger] pieces@[k]).0 < BACKDROP_ROWS
            && pieces@[k].1 < BACKDROP_COLS,
        forall|k1: int, k2: int| 0 <= k1 < k2 < pieces@.len() ==> (#[trigger] pieces@[k1]).0 * 6
            + pieces@[k1].1 < (#[trigger] pieces@[k2]).0 * 6 + pieces@[k2].1,
{
    let mut pieces: Vec<(u32, u32, PieceColor)> = Vec::new();
    let mut row: u32 = 0;
    while row < BACKDROP_ROWS
        invariant
            row <= BACKDROP_ROWS,
            pieces@.len() <= row * 6,
            forall|k: int| 0 <= k < pieces@.len() ==> (#[trigger] pieces@[k]).0 < row
                && pieces@[k].1 < BACKDROP_COLS,
            forall|k1: int, k2: int| 0 <= k1 < k2 < pieces@.len() ==> (#[trigger] pieces@[k1]).0
                * 6 + pieces@[k1].1 < (#[trigger] pieces@[k2]).0 * 6 + pieces@[k2].1,
        decreases BACKDROP_ROWS - row,
    {
        let mut col: u32 = 0;
        while col < BACKDROP_COLS
            invariant
                row < BACKDROP_ROWS,
                col <= BACKDROP_COLS,
                pieces@.len() <= row * 6 + col,
                forall|k: int| 0 <= k < pieces@.len() ==> ((#[trigger] pieces@[k]).0 < row || (
                pieces@[k].0 == row && pieces@[k].1 < col)),
                forall|k: int| 0 <= k < pieces@.len() ==> (#[trigger] pieces@[k]).1
                    < BACKDROP_COLS,
                forall|k1: int, k2: int| 0 <= k1 < k2 < pieces@.len() ==> (
                #[trigger] pieces@[k1]).0 * 6 + pieces@[k1].1 < (#[trigger] pieces@[k2]).0 * 6
                    + pieces@[k2].1,
            decreases BACKDROP_COLS - col,
        {
            if random_u8_below(5) >= 2 {
                let color = PieceColor::from_value(random_usize_below(PALETTE_SIZE));
                pieces.push((row, col, color));
            }
            col += 1;
        }
        row += 1;
    }
    pieces
}

/// Entering the menu: the "Menu" scope is registered empty, the menu's one
/// font asset is tracked for loading, and the Loading mode is pushed over
/// the menu until it arrives.
pub fn menu_setup(
    snapshots: &mut Snapshots,
    app_state: &mut ModeStack,
    font_handle: u64,
) -> (r: (AssetsLoading, Vec<Hook>))
    requires
        old(snapshots).wf(),
        old(app_state).wf(),
    ensures
        final(snapshots).wf(),
        final(app_state).wf(),
        final(snapshots).spec_get("Menu"@) == Some(Seq::<u64>::empty()),
        forall|n: Seq<char>| n != "Menu"@ ==> final(snapshots).spec_get(n) == old(
            snapshots,
        ).spec_get(n),
        r.0@ =~= seq![font_handle],
        (final(app_state)@, r.1@) == push_result(old(app_state)@, AppState::Loading),
{
    snapshots.snap(&("Menu".to_owned()), Vec::new());
    let mut loader = AssetsLoading::new();
    loader.add(font_handle);
    let hooks = app_state.push(AppState::Loading);
    (loader, hooks)
}

/// Pausing or leaving the menu: its scope is emptied and the backdrop's
/// entities handed back for despawning.
pub fn menu_clear(snapshots: &mut Snapshots) -> (removed: Vec<u64>)
    requires
        old(snapshots).wf(),
    ensures
        final(snapshots).wf(),
        clear_post(*old(snapshots), *final(snapshots), removed@, "Menu"@),
{
    snapshots.clear(&("Menu".to_owned()))
}

} // verus!
