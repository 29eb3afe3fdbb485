use vstd::prelude::*;

use crate::color::PieceColor;

verus! {

broadcast use vstd::array::group_array_axioms;

/// Number of slots in a guess row: the length of a submitted code.
pub const CODE_LENGTH: usize = 4;

/// Turn state of one game session: the board row currently accepting
/// placements and the partially assembled code for that row. Owned by the
/// session and reset to its initial values when a new session starts.
pub struct State {
    /// The active row: the only row whose cells accept placements.
    pub row: usize,
    /// One optional color per column of the active row.
    pub code: [Option<PieceColor>; 4],
}

/// Holds when every slot of a code buffer is filled.
pub open spec fn all_some(code: Seq<Option<PieceColor>>) -> bool {
    forall|i: int| 0 <= i < code.len() ==> code[i] is Some
}

/// The color a buffer slot contributes to a submitted code: its content, or
/// the first palette color for a slot that was never filled.
pub open spec fn slot_color(slot: Option<PieceColor>) -> PieceColor {
    match slot {
        Some(color) => color,
        None => PieceColor::Black,
    }
}

/// The code a buffer submits: its slots flattened in order.
pub open spec fn submitted_code(code: Seq<Option<PieceColor>>) -> Seq<PieceColor> {
    Seq::new(code.len(), |i: int| slot_color(code[i]))
}

impl State {
    /// Initial turn state: active row zero, all buffer slots empty.
    pub fn new() -> (s: State)
        ensures
            s.row == 0,
            forall|i: int| 0 <= i < 4 ==> s.code@[i] is None,
    {
        State { row: 0, code: [None, None, None, None] }
    }
}

/// Whether the whole code buffer is filled, so that the row can be submitted
/// to the rule engine.
pub fn is_all_some(tab: &[Option<PieceColor>; 4]) -> (b: bool)
    ensures
        b == all_some(tab@),
{
    let mut b: bool = true;
    for i in 0..4usize
        invariant
            b == (forall|j: int| 0 <= j < i ==> tab@[j] is Some),
    {
        b = b && tab[i].is_some();
    }
    b
}

/// Flattens a fully or partially filled buffer into a submittable code,
/// filling empty slots with the first palette color.
pub fn some_code_to_code(tab: &[Option<PieceColor>; 4]) -> (code: [PieceColor; 4])
    ensures
        forall|i: int| 0 <= i < 4 ==> code@[i] == slot_color(tab@[i]),
        code@ == submitted_code(tab@),
{
    let mut code: [PieceColor; 4] = [PieceColor::Black; 4];
    for i in 0..4usize
        invariant
            forall|j: int| 0 <= j < i ==> code@[j] == slot_color(tab@[j]),
            forall|j: int| i <= j < 4 ==> code@[j] == PieceColor::Black,
    {
        if let Some(color) = &tab[i] {
            code[i] = *color;
        }
    }
    proof {
        assert(code@ =~= submitted_code(tab@));
    }
    code
}

} // verus!
