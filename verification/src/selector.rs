use vstd::prelude::*;

use crate::geometry::Point;

verus! {

/// Last observed logical state of a pointer button.
#[derive(Clone, Copy, Debug, PartialEq, Eq, Structural)]
pub enum PointerButtonState {
    Pressed,
    Released,
}

/// Tracks the primary pointer button's last observed state across ticks.
pub struct MouseState {
    pub state: PointerButtonState,
}

/// Identifies which pointer button an event is about. Only the left button
/// drives the click edge detector.
#[derive(Clone, Copy, Debug, PartialEq, Eq, Structural)]
pub enum MouseButton {
    Left,
    Right,
    Middle,
    Other(u16),
}

/// A discrete button event delivered by the input source: which button, and
/// whether it was pressed or released.
#[derive(Clone, Copy, Debug, PartialEq, Eq, Structural)]
pub struct ButtonEvent {
    pub button: MouseButton,
    pub state: PointerButtonState,
}

/// Pointer state shared by all interaction steps of a tick: the current
/// pointer position and a one-shot "clicked this tick" pulse.
pub struct Selector {
    pub position: Point,
    pub selected: bool,
}

/// Whether `event`, arriving while the button is in `state`, completes a
/// press-release cycle and so raises the click pulse.
pub open spec fn click_edge(state: PointerButtonState, event: ButtonEvent) -> bool {
    event.button is Left && state is Pressed && event.state is Released
}

/// The tracked button state after `event` is applied in state `state`.
pub open spec fn step_state(state: PointerButtonState, event: ButtonEvent) -> PointerButtonState {
    if event.button is Left {
        event.state
    } else {
        state
    }
}

/// One step of the click edge detector: how a single event changes the
/// tracked button state and the click pulse. A release completing a press
/// raises the pulse; a fresh press clears it; anything else is a no-op.
pub open spec fn edge_step(
    state: PointerButtonState,
    selected: bool,
    event: ButtonEvent,
) -> (PointerButtonState, bool) {
    if event.button is Left {
        match (state, event.state) {
            (PointerButtonState::Pressed, PointerButtonState::Released) => (
                PointerButtonState::Released,
                true,
            ),
            (PointerButtonState::Released, PointerButtonState::Pressed) => (
                PointerButtonState::Pressed,
                false,
            ),
            _ => (state, selected),
        }
    } else {
        (state, selected)
    }
}

/// The edge detector folded over a whole tick's events, in order.
pub open spec fn edge_run(
    state: PointerButtonState,
    selected: bool,
    events: Seq<ButtonEvent>,
) -> (PointerButtonState, bool)
    decreases events.len(),
{
    if events.len() == 0 {
        (state, selected)
    } else {
        let prev = edge_run(state, selected, events.drop_last());
        edge_step(prev.0, prev.1, events.last())
    }
}

/// The click pulse left at the end of one tick that starts with tracked
/// button state `state` and a cleared pulse — cleared because the
/// end-of-tick safety net ran — and processes `events`.
pub open spec fn tick_pulse(state: PointerButtonState, events: Seq<ButtonEvent>) -> bool {
    edge_run(state, false, events).1
}

/// The tracked button state such a tick carries into the next one.
pub open spec fn tick_end_state(
    state: PointerButtonState,
    events: Seq<ButtonEvent>,
) -> PointerButtonState {
    edge_run(state, false, events).0
}

/// Number of completed press-release cycles in an event stream that starts
/// with tracked button state `state`.
pub open spec fn completed_cycles(state: PointerButtonState, events: Seq<ButtonEvent>) -> nat
    decreases events.len(),
{
    if events.len() == 0 {
        0
    } else {
        (if click_edge(state, events.first()) {
            1nat
        } else {
            0nat
        }) + completed_cycles(step_state(state, events.first()), events.drop_first())
    }
}

/// Number of ticks of a run that end with the click pulse raised, each tick
/// starting from the button state the previous tick left behind and from a
/// cleared pulse.
pub open spec fn pulses_seen(state: PointerButtonState, ticks: Seq<Seq<ButtonEvent>>) -> nat
    decreases ticks.len(),
{
    if ticks.len() == 0 {
        0
    } else {
        (if tick_pulse(state, ticks.first()) {
            1nat
        } else {
            0nat
        }) + pulses_seen(tick_end_state(state, ticks.first()), ticks.drop_first())
    }
}

/// A tick with no button event never raises the pulse; a tick with exactly
/// one raises it exactly when that event completes a press-release cycle —
/// so the pulse is false on every other tick, the tick of a new press
/// included.
pub proof fn lemma_tick_pulse(state: PointerButtonState, events: Seq<ButtonEvent>)
    requires
        events.len() <= 1,
    ensures
        events.len() == 0 ==> tick_pulse(state, events) == false && tick_end_state(state, events)
            == state,
        events.len() == 1 ==> tick_pulse(state, events) == click_edge(state, events[0])
            && tick_end_state(state, events) == step_state(state, events[0]),
{
    if events.len() == 1 {
        assert(events.drop_last() =~= Seq::<ButtonEvent>::empty());
        assert(edge_run(state, false, Seq::<ButtonEvent>::empty()) == (state, false));
        let e = events[0];
        assert(events.last() == e);
        assert(edge_step(state, false, e) == (step_state(state, e), click_edge(state, e))) by {
            match (e.button, state, e.state) {
                (MouseButton::Left, PointerButtonState::Pressed, PointerButtonState::Released) => {
                },
                (MouseButton::Left, PointerButtonState::Released, PointerButtonState::Pressed) => {
                },
                _ => {},
            }
        }
    }
}

/// One click pulse per completed press-release cycle: over any run of ticks
/// that each carry at most one button event, starting from a cleared pulse,
/// the number of ticks that end with the pulse raised equals the number of
/// press-release cycles the whole event stream completes.
pub proof fn lemma_one_pulse_per_cycle(state: PointerButtonState, ticks: Seq<Seq<ButtonEvent>>)
    requires
        forall|t: int| 0 <= t < ticks.len() ==> (#[trigger] ticks[t]).len() <= 1,
    ensures
        pulses_seen(state, ticks) == completed_cycles(state, ticks.flatten()),
    decreases ticks.len(),
{
    if ticks.len() == 0 {
        assert(ticks.flatten() =~= Seq::<ButtonEvent>::empty());
    } else {
        let head = ticks.first();
        let rest = ticks.drop_first();
        assert(ticks.flatten() == head + rest.flatten());
        assert(forall|t: int| 0 <= t < rest.len() ==> (#[trigger] rest[t]).len() <= 1 && rest[t]
            == ticks[t + 1]);
        lemma_tick_pulse(state, head);
        if head.len() == 0 {
            assert(head + rest.flatten() =~= rest.flatten());
            lemma_one_pulse_per_cycle(state, rest);
        } else {
            let e = head[0];
            let all = head + rest.flatten();
            assert(all.first() == e);
            assert(all.drop_first() =~= rest.flatten());
            lemma_one_pulse_per_cycle(step_state(state, e), rest);
        }
    }
}

/// Applies one tick's button events, in order, to the tracked button state
/// and the selector's click pulse. Multiple events in one tick are applied in
/// sequence, never coalesced.
pub fn selector_from_mouse(
    mouse_state: &mut MouseState,
    selector: &mut Selector,
    events: &Vec<ButtonEvent>,
)
    ensures
        (final(mouse_state).state, final(selector).selected) == edge_run(
            old(mouse_state).state,
            old(selector).selected,
            events@,
        ),
        final(selector).position == old(selector).position,
{
    let ghost initial_state = mouse_state.state;
    let ghost initial_selected = selector.selected;
    for i in 0..events.len()
        invariant
            (mouse_state.state, selector.selected) == edge_run(
                initial_state,
                initial_selected,
                events@.take(i as int),
            ),
            selector.position == old(selector).position,
    {
        let event = events[i];
        match (event.button, mouse_state.state, event.state) {
            (MouseButton::Left, PointerButtonState::Pressed, PointerButtonState::Released) => {
                selector.selected = true;
                mouse_state.state = PointerButtonState::Released;
            },
            (MouseButton::Left, PointerButtonState::Released, PointerButtonState::Pressed) => {
                selector.selected = false;
                mouse_state.state = PointerButtonState::Pressed;
            },
            _ => (),
        }
        proof {
            assert(events@.take(i + 1).drop_last() =~= events@.take(i as int));
            assert(events@.take(i + 1).last() == events@[i as int]);
        }
    }
    proof {
        assert(events@.take(events@.len() as int) =~= events@);
    }
}

/// Applies one tick's pointer-move events: every move overwrites the stored
/// position, so the last one wins and the click pulse is untouched.
pub fn position_from_mouse(selector: &mut Selector, moves: &Vec<Point>)
    ensures
        final(selector).selected == old(selector).selected,
        moves@.len() == 0 ==> final(selector).position == old(selector).position,
        moves@.len() > 0 ==> final(selector).position == moves@.last(),
{
    for i in 0..moves.len()
        invariant
            selector.selected == old(selector).selected,
            i == 0 ==> selector.position == old(selector).position,
            i > 0 ==> selector.position == moves@[i - 1],
    {
        selector.position = moves[i];
    }
}

/// End-of-tick safety net: unconditionally clears the one-shot click pulse,
/// so a click can never persist beyond the tick that produced it.
pub fn clean_selector(selector: &mut Selector)
    ensures
        final(selector).selected == false,
        final(selector).position == old(selector).position,
{
    selector.selected = false;
}

} // verus!
