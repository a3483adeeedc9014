//! The navigation state machine: which view is active and how the tab cycle,
//! drill-down and back actions move between views. The four top-level views
//! cycle in a fixed order; a detail view counts as its parent top-level view
//! for the purpose of cycling.

use vstd::prelude::*;

verus! {

/// The active view. Exactly one is active at any time; detail views are
/// reached only by drilling down from their parent list.
#[derive(Clone, Copy, Debug, PartialEq, Eq, Structural)]
pub enum AppState {
    Dashboard,
    Ships,
    ShipDetail,
    Systems,
    SystemDetail,
    Markets,
    WaypointDetail,
}

/// The top-level view a state belongs to: a detail view maps to the list
/// view that produced it, a top-level view to itself.
pub open spec fn top_level_of(s: AppState) -> AppState {
    match s {
        AppState::Dashboard => AppState::Dashboard,
        AppState::Ships => AppState::Ships,
        AppState::ShipDetail => AppState::Ships,
        AppState::Systems => AppState::Systems,
        AppState::SystemDetail => AppState::Systems,
        AppState::WaypointDetail => AppState::Systems,
        AppState::Markets => AppState::Markets,
    }
}

/// Whether a state is one of the four top-level views.
pub open spec fn is_top_level(s: AppState) -> bool {
    top_level_of(s) == s
}

/// The successor of a top-level view in the tab cycle.
pub open spec fn forward_of(s: AppState) -> AppState {
    match s {
        AppState::Dashboard => AppState::Ships,
        AppState::Ships => AppState::Systems,
        AppState::Systems => AppState::Markets,
        _ => AppState::Dashboard,
    }
}

/// The predecessor of a top-level view in the tab cycle.
pub open spec fn backward_of(s: AppState) -> AppState {
    match s {
        AppState::Dashboard => AppState::Markets,
        AppState::Ships => AppState::Dashboard,
        AppState::Systems => AppState::Ships,
        _ => AppState::Systems,
    }
}

/// State after a forward tab: the successor of the state's top-level view.
pub open spec fn next_tab_spec(s: AppState) -> AppState {
    forward_of(top_level_of(s))
}

/// State after a backward tab: the predecessor of the state's top-level view.
pub open spec fn previous_tab_spec(s: AppState) -> AppState {
    backward_of(top_level_of(s))
}

/// State after backing out of a detail view: its parent, one level up.
/// From a top-level view, backing out changes nothing.
pub open spec fn back_spec(s: AppState) -> AppState {
    match s {
        AppState::ShipDetail => AppState::Ships,
        AppState::SystemDetail => AppState::Systems,
        AppState::WaypointDetail => AppState::SystemDetail,
        _ => s,
    }
}

/// Cycle forward through the four top-level views; from a detail view, move
/// to the successor of its parent.
pub fn next_tab(s: AppState) -> (r: AppState)
    ensures
        r == next_tab_spec(s),
{
    match s {
        AppState::Dashboard => AppState::Ships,
        AppState::Ships | AppState::ShipDetail => AppState::Systems,
        AppState::Systems | AppState::SystemDetail | AppState::WaypointDetail => AppState::Markets,
        AppState::Markets => AppState::Dashboard,
    }
}

/// Cycle backward through the four top-level views; from a detail view, move
/// to the predecessor of its parent.
pub fn previous_tab(s: AppState) -> (r: AppState)
    ensures
        r == previous_tab_spec(s),
{
    match s {
        AppState::Dashboard => AppState::Markets,
        AppState::Ships | AppState::ShipDetail => AppState::Dashboard,
        AppState::Systems | AppState::SystemDetail | AppState::WaypointDetail => AppState::Ships,
        AppState::Markets => AppState::Systems,
    }
}

/// Position of a state's top-level parent in the tab strip, left to right.
pub fn tab_index_of(s: AppState) -> (i: usize)
    ensures
        top_level_of(s) == AppState::Dashboard ==> i == 0,
        top_level_of(s) == AppState::Ships ==> i == 1,
        top_level_of(s) == AppState::Systems ==> i == 2,
        top_level_of(s) == AppState::Markets ==> i == 3,
{
    match s {
        AppState::Dashboard => 0,
        AppState::Ships | AppState::ShipDetail => 1,
        AppState::Systems | AppState::SystemDetail | AppState::WaypointDetail => 2,
        AppState::Markets => 3,
    }
}

/// Four forward tabs return every state to its top-level view: in
/// particular, tabbing forward four times from the dashboard lands on the
/// dashboard again.
pub proof fn lemma_tab_cycle(s: AppState)
    ensures
        next_tab_spec(next_tab_spec(next_tab_spec(next_tab_spec(s)))) == top_level_of(s),
{
}

/// On top-level views the two tab directions are exact inverses of one
/// another.
pub proof fn lemma_tab_inverse(s: AppState)
    requires
        is_top_level(s),
    ensures
        previous_tab_spec(next_tab_spec(s)) == s,
        next_tab_spec(previous_tab_spec(s)) == s,
{
}

/// Backing out of any view lands on a view of the same top-level family, so
/// a drill-down followed by back returns to the originating top-level view's
/// family.
pub proof fn lemma_back_stays_in_family(s: AppState)
    ensures
        top_level_of(back_spec(s)) == top_level_of(s),
        is_top_level(s) ==> back_spec(s) == s,
{
}

} // verus!
