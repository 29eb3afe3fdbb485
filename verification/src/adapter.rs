use vstd::prelude::*;

use crate::color::PieceColor;
use crate::engine::{Mastermind, Outcome, Score};
use crate::turn::{all_some, is_all_some, some_code_to_code, submitted_code, State};

verus! {

broadcast use vstd::array::group_array_axioms;

/// Kind of a feedback marker: an exact match ("good") or a color-only match
/// ("bad").
#[derive(Clone, Copy, Debug, PartialEq, Eq, Structural)]
pub enum MarkerKind {
    Good,
    Bad,
}

/// One feedback marker in the 2-wide sub-grid beside a scored row, at
/// sub-cell `(sub_col, sub_row)` relative to that row's feedback origin.
#[derive(Clone, Copy, Debug, PartialEq, Eq, Structural)]
pub struct Marker {
    pub kind: MarkerKind,
    pub sub_col: u32,
    pub sub_row: u32,
}

/// Where the `i`-th of a row's feedback markers sits and what it shows:
/// good markers come first, and marker `i` fills sub-cell
/// `(i % 2, i / 2)` row-major.
pub open spec fn marker_at(exact: int, i: int) -> Marker {
    Marker {
        kind: if i < exact {
            MarkerKind::Good
        } else {
            MarkerKind::Bad
        },
        sub_col: (i % 2) as u32,
        sub_row: (i / 2) as u32,
    }
}

/// Lays out the feedback for one scored row: `exact` good markers followed
/// by `partial` bad ones fill the 2-wide sub-grid by the formula
/// `(i % 2, i / 2)`. A row scores at most its four columns, so the grid
/// never needs more than two sub-rows.
pub fn feedback_layout(exact: usize, partial: usize) -> (markers: Vec<Marker>)
    requires
        exact + partial <= 4,
    ensures
        markers@.len() == exact + partial,
        forall|i: int| 0 <= i < markers@.len() ==> markers@[i] == marker_at(exact as int, i),
{
    let mut markers: Vec<Marker> = Vec::new();
    let mut i: usize = 0;
    while i < exact
        invariant
            i <= exact,
            exact + partial <= 4,
            markers@.len() == i,
            forall|j: int| 0 <= j < i ==> markers@[j] == marker_at(exact as int, j),
        decreases exact - i,
    {
        markers.push(Marker { kind: MarkerKind::Good, sub_col: (i % 2) as u32, sub_row: (i / 2) as u32 });
        i += 1;
    }
    while i < exact + partial
        invariant
            exact <= i <= exact + partial,
            exact + partial <= 4,
            markers@.len() == i,
            forall|j: int| 0 <= j < i ==> markers@[j] == marker_at(exact as int, j),
        decreases exact + partial - i,
    {
        markers.push(Marker { kind: MarkerKind::Bad, sub_col: (i % 2) as u32, sub_row: (i / 2) as u32 });
        i += 1;
    }
    markers
}

/// The engine answered in a way the session cannot reconcile: its history
/// fell behind the active row. Fatal to the session; the caller must give
/// the game up rather than patch the turn counter.
#[derive(Clone, Copy, Debug, PartialEq, Eq, Structural)]
pub struct EngineContractViolation;

/// What one adapter step asks of the scene.
#[derive(Clone, Debug)]
pub enum TurnEffect {
    /// The buffer was not full, or the engine re-reported an already scored
    /// row: nothing to draw.
    Idle,
    /// A new row was scored: draw `markers` beside row `row`; the next row
    /// is now active and the buffer is empty again.
    Scored { row: usize, markers: Vec<Marker> },
    /// The game ended: reveal the secret and lock the board.
    Finished { secret: [PieceColor; 4] },
}

/// Rule-engine adapter, run once per tick. A fully filled buffer is
/// submitted to the engine exactly once and then cleared: a `Continuing`
/// verdict that grew the history scores the buffer's row, whose feedback is
/// laid out, and advances the active row to the history's length; a
/// `Finished` verdict reveals the secret. A history that fell behind the
/// active row is a fatal engine-contract violation.
pub fn game_update(mastermind: &mut Mastermind, state: &mut State) -> (r: Result<
    TurnEffect,
    EngineContractViolation,
>)
    requires
        old(mastermind).state.wf(),
    ensures
        final(mastermind).state.wf(),
        final(mastermind).state.spec_secret() == old(mastermind).state.spec_secret(),
        !all_some(old(state).code@) ==> *final(state) == *old(state) && *final(mastermind)
            == *old(mastermind) && (r matches Ok(e) && e is Idle),
        all_some(old(state).code@) ==> ((r matches Ok(e) && e is Finished) <==> submitted_code(
            old(state).code@,
        ) == old(mastermind).state.spec_secret()),
        all_some(old(state).code@) ==> match r {
            Ok(effect) => match effect {
                TurnEffect::Idle => *final(state) == *old(state)
                    && final(mastermind).state.spec_history().len() == old(state).row,
                TurnEffect::Scored { row, markers } => ({
                    let hist = final(mastermind).state.spec_history();
                    &&& row == old(state).row
                    &&& hist.drop_last() == old(mastermind).state.spec_history()
                    &&& hist.len() == old(mastermind).state.spec_history().len() + 1
                    &&& final(state).row == hist.len()
                    &&& final(state).row > old(state).row
                    &&& forall|i: int| 0 <= i < 4 ==> final(state).code@[i] is None
                    &&& markers@.len() == hist.last().exact + hist.last().partial
                    &&& forall|i: int| 0 <= i < markers@.len() ==> markers@[i] == marker_at(
                        hist.last().exact as int,
                        i,
                    )
                }),
                TurnEffect::Finished { secret } => {
                    &&& secret@ == old(mastermind).state.spec_secret()
                    &&& *final(state) == *old(state)
                },
            },
            Err(_) => *final(state) == *old(state) && final(mastermind).state.spec_history().len()
                < old(state).row,
        },
{
    if !is_all_some(&state.code) {
        return Ok(TurnEffect::Idle);
    }
    let outcome = mastermind.state.play(some_code_to_code(&state.code));
    match outcome {
        Outcome::Continuing { history } => {
            if history.len() > state.row {
                let last: Score = history[history.len() - 1];
                let markers = feedback_layout(last.exact, last.partial);
                let scored_row = state.row;
                state.row = history.len();
                state.code = [None, None, None, None];
                Ok(TurnEffect::Scored { row: scored_row, markers })
            } else if history.len() == state.row {
                Ok(TurnEffect::Idle)
            } else {
                Err(EngineContractViolation)
            }
        },
        Outcome::Finished { secret } => Ok(TurnEffect::Finished { secret }),
    }
}

} // verus!
