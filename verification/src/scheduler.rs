use vstd::prelude::*;

verus! {

/// What the refresh clock does on one tick.
#[derive(Clone, Copy, Debug, PartialEq, Eq, Structural)]
pub enum RefreshAction {
    /// No bar window is managed any more: the clock shuts down.
    Stop,
    /// Post one redraw request onto the shared event channel.
    RequestRedraw,
}

/// The refresh clock's per-tick decision: keep requesting redraws on the
/// shared event channel while at least one bar window is managed, and stop
/// cooperatively once the managed set is observed empty. The clock itself —
/// the timer thread waking on a fixed interval — runs outside the library
/// and only acts on this decision.
pub fn refresh_tick(managed_windows: usize) -> (r: RefreshAction)
    ensures
        r == RefreshAction::Stop <==> managed_windows == 0,
{
    if managed_windows == 0 {
        RefreshAction::Stop
    } else {
        RefreshAction::RequestRedraw
    }
}

} // verus!
