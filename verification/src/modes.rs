use vstd::prelude::*;

verus! {

/// The application's modes. Exactly one mode is current at any time: the top
/// of the mode stack.
#[derive(Clone, Copy, Debug, PartialEq, Eq, Hash, Structural)]
pub enum AppState {
    Loading,
    Menu,
    InGame,
    Restart,
}

/// A lifecycle hook fired by a mode transition. Transitions hand back the
/// hooks to fire, in firing order; the driver runs the matching scope work.
#[derive(Clone, Copy, Debug, PartialEq, Eq, Structural)]
pub enum Hook {
    /// A mode becomes current for the first time (or anew after `set`).
    Enter(AppState),
    /// A mode is removed for good by `set`; its scopes are torn down.
    Exit(AppState),
    /// A mode is suspended by a push; it stays on the stack.
    Pause(AppState),
    /// A suspended mode becomes current again after a pop.
    Resume(AppState),
}

/// Popping the only remaining mode: a programming error that is reported
/// loudly rather than ignored.
#[derive(Clone, Copy, Debug, PartialEq, Eq, Structural)]
pub struct StackUnderflow;

/// What a push does: the pushed mode goes on top, the mode that was current
/// pauses and the new one enters.
pub open spec fn push_result(stack: Seq<AppState>, mode: AppState) -> (Seq<AppState>, Seq<Hook>) {
    (stack.push(mode), seq![Hook::Pause(stack.last()), Hook::Enter(mode)])
}

/// What a pop does, when the stack keeps at least one mode: the top is
/// discarded and the mode beneath resumes. The discarded mode was only
/// suspended-and-removed, never exited: exit hooks belong to `set` alone.
pub open spec fn pop_result(stack: Seq<AppState>) -> Option<(Seq<AppState>, Seq<Hook>)> {
    if stack.len() <= 1 {
        None
    } else {
        Some((stack.drop_last(), seq![Hook::Resume(stack.drop_last().last())]))
    }
}

/// The exit hooks for a wholly dropped stack, topmost mode first.
pub open spec fn exit_hooks(stack: Seq<AppState>) -> Seq<Hook> {
    Seq::new(stack.len(), |i: int| Hook::Exit(stack[stack.len() - 1 - i]))
}

/// What a set does: the whole stack is replaced by the single mode `mode`;
/// every removed mode exits, the current one first, then `mode` enters.
pub open spec fn set_result(stack: Seq<AppState>, mode: AppState) -> (Seq<AppState>, Seq<Hook>) {
    (seq![mode], exit_hooks(stack) + seq![Hook::Enter(mode)])
}

/// Stack-based application-mode state machine: the top of the stack is the
/// one current mode, whose per-tick update logic runs; the modes beneath are
/// suspended until the stack shrinks back to them.
pub struct ModeStack {
    stack: Vec<AppState>,
}

impl View for ModeStack {
    type V = Seq<AppState>;

    closed spec fn view(&self) -> Seq<AppState> {
        self.stack@
    }
}

impl ModeStack {
    /// A mode stack never runs dry: some mode is always current.
    pub open spec fn wf(&self) -> bool {
        self@.len() >= 1
    }

    /// A stack holding only the starting mode. The caller fires the starting
    /// mode's enter hook itself, as part of bringing the application up.
    pub fn new(initial: AppState) -> (s: ModeStack)
        ensures
            s.wf(),
            s@ =~= seq![initial],
    {
        let mut stack: Vec<AppState> = Vec::new();
        stack.push(initial);
        ModeStack { stack }
    }

    /// The current mode: the top of the stack.
    pub fn current(&self) -> (m: AppState)
        requires
            self.wf(),
        ensures
            m == self@.last(),
    {
        self.stack[self.stack.len() - 1]
    }

    /// Suspends the current mode and makes `mode` current. The suspended
    /// mode's pause hook fires, then the new mode's enter hook.
    pub fn push(&mut self, mode: AppState) -> (hooks: Vec<Hook>)
        requires
            old(self).wf(),
        ensures
            final(self).wf(),
            (final(self)@, hooks@) == push_result(old(self)@, mode),
    {
        let paused = self.current();
        self.stack.push(mode);
        let mut hooks: Vec<Hook> = Vec::new();
        hooks.push(Hook::Pause(paused));
        hooks.push(Hook::Enter(mode));
        proof {
            assert(hooks@ =~= push_result(old(self)@, mode).1);
        }
        hooks
    }

    /// Discards the current mode and resumes the one beneath it. Popping the
    /// only remaining mode is refused: the stack may never become empty.
    pub fn pop(&mut self) -> (r: Result<Vec<Hook>, StackUnderflow>)
        requires
            old(self).wf(),
        ensures
            final(self).wf(),
            match pop_result(old(self)@) {
                None => r is Err && *final(self) == *old(self),
                Some(next) => r matches Ok(hooks) && final(self)@ == next.0 && hooks@ == next.1,
            },
    {
        if self.stack.len() <= 1 {
            return Err(StackUnderflow);
        }
        self.stack.pop();
        let resumed = self.current();
        let mut hooks: Vec<Hook> = Vec::new();
        hooks.push(Hook::Resume(resumed));
        proof {
            assert(pop_result(old(self)@) matches Some(next) && hooks@ =~= next.1);
        }
        Ok(hooks)
    }

    /// Replaces the entire stack with `mode` alone: a one-way transition
    /// with no return path. Every removed mode's exit hook fires, the
    /// current mode's first, then the new mode's enter hook.
    pub fn set(&mut self, mode: AppState) -> (hooks: Vec<Hook>)
        requires
            old(self).wf(),
        ensures
            final(self).wf(),
            (final(self)@, hooks@) == set_result(old(self)@, mode),
    {
        let ghost dropped = self.stack@;
        let mut hooks: Vec<Hook> = Vec::new();
        loop
            invariant
                hooks@.len() + self.stack@.len() == dropped.len(),
                self.stack@ =~= dropped.take(self.stack@.len() as int),
                forall|i: int| 0 <= i < hooks@.len() ==> hooks@[i] == Hook::Exit(
                    dropped[dropped.len() - 1 - i],
                ),
            ensures
                self.stack@.len() == 0,
                hooks@.len() == dropped.len(),
                forall|i: int| 0 <= i < hooks@.len() ==> hooks@[i] == Hook::Exit(
                    dropped[dropped.len() - 1 - i],
                ),
            decreases self.stack@.len(),
        {
            let top = self.stack.pop();
            match top {
                Some(m) => {
                    hooks.push(Hook::Exit(m));
                },
                None => {
                    break;
                },
            }
        }
        self.stack.push(mode);
        hooks.push(Hook::Enter(mode));
        proof {
            assert(self.stack@ =~= seq![mode]);
            assert(hooks@ =~= set_result(dropped, mode).1);
        }
        hooks
    }
}

/// The mode-stack laws: pushing a mode over a current mode and popping
/// straight away restores the stack and fires exactly one hook, a resume of
/// the mode that was current before the push; and `set` from any stack
/// leaves exactly one entry, firing the previously current mode's exit hook
/// first and the new mode's enter hook last.
pub proof fn lemma_mode_transitions(stack0: Seq<AppState>, pushed: AppState, target: AppState)
    requires
        stack0.len() >= 1,
    ensures
        ({
            let after_push = push_result(stack0, pushed).0;
            let popped = pop_result(after_push);
            &&& popped matches Some(next) && next.0 == stack0 && next.1 =~= seq![
                Hook::Resume(stack0.last()),
            ]
        }),
        ({
            let reset = set_result(stack0, target);
            &&& reset.0 =~= seq![target]
            &&& reset.1.len() == stack0.len() + 1
            &&& reset.1.first() == Hook::Exit(stack0.last())
            &&& reset.1.last() == Hook::Enter(target)
        }),
{
    assert(push_result(stack0, pushed).0.drop_last() =~= stack0);
}

} // verus!
