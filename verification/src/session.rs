use vstd::prelude::*;

use crate::adapter::{game_update, marker_at, EngineContractViolation, TurnEffect};
use crate::engine::Mastermind;
use crate::geometry::{Point, Selectable};
use crate::modes::{push_result, set_result, AppState, Hook, ModeStack};
use crate::picking::{
    cell_target, held_after_pick, palette_hit, placement_result, play_code, select, Piece,
    Placement, Position, Select,
};
use crate::selector::{
    clean_selector, edge_run, position_from_mouse, selector_from_mouse, ButtonEvent, MouseState,
    PointerButtonState, Selector,
};
use crate::snapshots::{clear_post, Snapshots};
use crate::turn::{all_some, submitted_code, State};

verus! {

/// All mutable interaction state of one running game: the tracked button,
/// the pointer, the held piece, the turn state and the rule-engine session.
pub struct Session {
    pub mouse: MouseState,
    pub selector: Selector,
    pub held: Option<Select>,
    pub state: State,
    pub mastermind: Mastermind,
    /// Set once the engine reports the game finished: the board is locked
    /// and no further pick or placement is possible.
    pub locked: bool,
}

impl Session {
    /// A session before its first tick: pointer at the origin with no click
    /// pending, nothing held, the first row active with an empty buffer,
    /// and a fresh engine session.
    pub fn new() -> (s: Session)
        ensures
            s.mouse.state == PointerButtonState::Released,
            s.selector.selected == false,
            s.selector.position == (Point { x: 0, y: 0 }),
            s.held is None,
            s.state.row == 0,
            forall|i: int| 0 <= i < 4 ==> s.state.code@[i] is None,
            s.mastermind.state.wf(),
            s.mastermind.state.spec_history() =~= Seq::<crate::engine::Score>::empty(),
            s.mastermind.state.spec_secret().len() == 4,
            s.locked == false,
    {
        Session {
            mouse: MouseState { state: PointerButtonState::Released },
            selector: Selector { position: Point { x: 0, y: 0 }, selected: false },
            held: None,
            state: State::new(),
            mastermind: Mastermind::new(),
            locked: false,
        }
    }
}

/// How one in-game tick relates what came in to what comes out, following
/// the fixed pipeline order: detect click edges, move the pointer, pick up,
/// place, submit a full buffer to the engine, and clear the one-shot click
/// pulse last of all.
pub open spec fn tick_post(
    pre: Session,
    post: Session,
    moves: Seq<Point>,
    buttons: Seq<ButtonEvent>,
    palette: Seq<(Selectable, Piece)>,
    cells: Seq<(u64, Selectable, Position)>,
    r: Result<(Option<Placement>, TurnEffect), EngineContractViolation>,
) -> bool {
    let run = edge_run(pre.mouse.state, pre.selector.selected, buttons);
    let pos = if moves.len() > 0 {
        moves.last()
    } else {
        pre.selector.position
    };
    let held1 = held_after_pick(pre.held, run.1, pos, palette);
    let clicked_after_pick = run.1 && palette_hit(palette, pos) is None;
    let guard = clicked_after_pick && held1 is Some;
    let target = cell_target(cells, pos, pre.state.row as int);
    let code1 = if guard && target is Some {
        pre.state.code@.update(cells[target->0].2.col as int, Some(held1->0.piece.color))
    } else {
        pre.state.code@
    };
    let expected_placed = if guard && target is Some {
        Some(placement_result(cells, target->0, held1->0.piece.color, pre.state.code@))
    } else {
        Option::<Placement>::None
    };
    &&& post.mouse.state == run.0
    &&& post.selector.position == pos
    &&& post.selector.selected == false
    &&& post.mastermind.state.spec_secret() == pre.mastermind.state.spec_secret()
    &&& post.locked == (pre.locked || (r matches Ok(pair) && pair.1 is Finished))
    &&& pre.locked ==> post.held == pre.held && post.state == pre.state
        && post.mastermind.state.spec_history() == pre.mastermind.state.spec_history()
        && (r matches Ok(pair) && pair.0 is None && pair.1 is Idle)
    &&& !pre.locked && all_some(code1) ==> ((r matches Ok(pair) && pair.1 is Finished)
        <==> submitted_code(code1) == pre.mastermind.state.spec_secret())
    &&& !pre.locked ==> post.held == held1 && match r {
        Ok(pair) => {
            &&& pair.0 == expected_placed
            &&& match pair.1 {
                TurnEffect::Idle => {
                    &&& post.state.row == pre.state.row
                    &&& post.state.code@ == code1
                    &&& !all_some(code1) ==> post.mastermind.state.spec_history()
                        == pre.mastermind.state.spec_history()
                },
                TurnEffect::Scored { row, markers } => ({
                    let hist = post.mastermind.state.spec_history();
                    &&& all_some(code1)
                    &&& row == pre.state.row
                    &&& hist.drop_last() == pre.mastermind.state.spec_history()
                    &&& hist.len() == pre.mastermind.state.spec_history().len() + 1
                    &&& post.state.row == hist.len()
                    &&& post.state.row > pre.state.row
                    &&& forall|i: int| 0 <= i < 4 ==> post.state.code@[i] is None
                    &&& markers@.len() == hist.last().exact + hist.last().partial
                    &&& forall|i: int| 0 <= i < markers@.len() ==> markers@[i] == marker_at(
                        hist.last().exact as int,
                        i,
                    )
                }),
                TurnEffect::Finished { secret } => {
                    &&& all_some(code1)
                    &&& secret@ == pre.mastermind.state.spec_secret()
                    &&& post.state.row == pre.state.row
                    &&& post.state.code@ == code1
                },
            }
        },
        Err(_) => post.state.row == pre.state.row && post.state.code@ == code1,
    }
}

/// One tick of the in-game pipeline, in its fixed order. The same click is
/// consumed by at most one consumer: a pick-up eats it before placement
/// sees it, and whatever remains is cleared at the end of the tick.
pub fn game_tick(
    session: &mut Session,
    moves: &Vec<Point>,
    buttons: &Vec<ButtonEvent>,
    palette: &Vec<(Selectable, Piece)>,
    cells: &Vec<(u64, Selectable, Position)>,
) -> (r: Result<(Option<Placement>, TurnEffect), EngineContractViolation>)
    requires
        old(session).mastermind.state.wf(),
        forall|j: int| 0 <= j < cells@.len() ==> (#[trigger] cells@[j]).2.col < 4,
    ensures
        final(session).mastermind.state.wf(),
        tick_post(*old(session), *final(session), moves@, buttons@, palette@, cells@, r),
{
    selector_from_mouse(&mut session.mouse, &mut session.selector, buttons);
    position_from_mouse(&mut session.selector, moves);
    if session.locked {
        clean_selector(&mut session.selector);
        return Ok((None, TurnEffect::Idle));
    }
    select(&mut session.selector, &mut session.held, palette);
    let placed = play_code(&mut session.selector, &session.held, &mut session.state, cells);
    let update = game_update(&mut session.mastermind, &mut session.state);
    clean_selector(&mut session.selector);
    match update {
        Ok(effect) => {
            if let TurnEffect::Finished { .. } = &effect {
                session.locked = true;
            }
            Ok((placed, effect))
        },
        Err(violation) => Err(violation),
    }
}

/// Entering the game mode: the "Game" scope is registered empty, a fresh
/// session is made, and the Loading mode is pushed over the game while its
/// assets are fetched.
pub fn game_setup(snapshots: &mut Snapshots, app_state: &mut ModeStack) -> (r: (Session, Vec<Hook>))
    requires
        old(snapshots).wf(),
        old(app_state).wf(),
    ensures
        final(snapshots).wf(),
        final(app_state).wf(),
        final(snapshots).spec_get("Game"@) == Some(Seq::<u64>::empty()),
        forall|n: Seq<char>| n != "Game"@ ==> final(snapshots).spec_get(n) == old(
            snapshots,
        ).spec_get(n),
        (final(app_state)@, r.1@) == push_result(old(app_state)@, AppState::Loading),
        r.0.selector.selected == false,
        r.0.held is None,
        r.0.state.row == 0,
        forall|i: int| 0 <= i < 4 ==> r.0.state.code@[i] is None,
        r.0.mastermind.state.wf(),
        r.0.mastermind.state.spec_history() =~= Seq::<crate::engine::Score>::empty(),
        r.0.locked == false,
{
    let session = Session::new();
    snapshots.snap(&("Game".to_owned()), Vec::new());
    let hooks = app_state.push(AppState::Loading);
    (session, hooks)
}

/// Leaving the game mode: the "Game" scope is emptied and its entities
/// handed back for despawning.
pub fn game_clear(snapshots: &mut Snapshots) -> (removed: Vec<u64>)
    requires
        old(snapshots).wf(),
    ensures
        final(snapshots).wf(),
        clear_post(*old(snapshots), *final(snapshots), removed@, "Game"@),
{
    snapshots.clear(&("Game".to_owned()))
}

/// The restart mode's whole job: a one-way reset into a fresh game mode,
/// with no way back to what was on the stack before.
pub fn restart(app_state: &mut ModeStack) -> (hooks: Vec<Hook>)
    requires
        old(app_state).wf(),
    ensures
        final(app_state).wf(),
        (final(app_state)@, hooks@) == set_result(old(app_state)@, AppState::InGame),
{
    app_state.set(AppState::InGame)
}

} // verus!
