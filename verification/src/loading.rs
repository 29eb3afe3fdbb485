use vstd::prelude::*;

use crate::modes::{pop_result, Hook, ModeStack, StackUnderflow};

verus! {

/// Readiness of a tracked group of loading assets, as the asset server
/// reports it when polled.
#[derive(Clone, Copy, Debug, PartialEq, Eq, Structural)]
pub enum LoadState {
    NotLoaded,
    Loading,
    Loaded,
    Failed,
}

/// The asset handles whose loading the Loading mode is waiting on.
pub struct AssetsLoading {
    handles: Vec<u64>,
}

impl View for AssetsLoading {
    type V = Seq<u64>;

    closed spec fn view(&self) -> Seq<u64> {
        self.handles@
    }
}

impl AssetsLoading {
    /// A tracker waiting on nothing.
    pub fn new() -> (s: AssetsLoading)
        ensures
            s@ =~= Seq::<u64>::empty(),
    {
        AssetsLoading { handles: Vec::new() }
    }

    /// Tracks one more handle until the whole group is loaded.
    pub fn add(&mut self, handle_untyped: u64)
        ensures
            final(self)@ == old(self)@.push(handle_untyped),
    {
        self.handles.push(handle_untyped);
    }

    /// The handles still being waited on, for the caller to poll.
    pub fn handles(&self) -> (r: &Vec<u64>)
        ensures
            r@ == self@,
    {
        &self.handles
    }
}

/// Loading-mode poll step: only a `Loaded` report leaves the Loading mode —
/// the tracked handles are dropped and the mode beneath resumes. A `Failed`
/// report is detected but, like a still-pending one, changes nothing here;
/// recovery is left to the caller. Popping with no mode beneath is refused.
pub fn check_assets_ready(
    app_state: &mut ModeStack,
    loading: &mut AssetsLoading,
    report: LoadState,
) -> (r: Result<Vec<Hook>, StackUnderflow>)
    requires
        old(app_state).wf(),
    ensures
        final(app_state).wf(),
        report != LoadState::Loaded ==> *final(app_state) == *old(app_state) && *final(loading)
            == *old(loading) && (r matches Ok(hooks) && hooks@ =~= Seq::<Hook>::empty()),
        report == LoadState::Loaded ==> final(loading)@ =~= Seq::<u64>::empty() && match pop_result(
            old(app_state)@,
        ) {
            None => r is Err && *final(app_state) == *old(app_state),
            Some(next) => final(app_state)@ == next.0 && (r matches Ok(hooks) && hooks@ == next.1),
        },
{
    match report {
        LoadState::Loaded => {
            self_clear(loading);
            app_state.pop()
        },
        _ => Ok(Vec::new()),
    }
}

/// Drops every tracked handle once the group has loaded.
fn self_clear(loading: &mut AssetsLoading)
    ensures
        final(loading)@ =~= Seq::<u64>::empty(),
{
    loading.handles.clear();
}

} // verus!
