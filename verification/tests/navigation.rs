use space_traders_tui::nav::{next_tab, previous_tab, tab_index_of, AppState};

#[test]
fn four_forward_tabs_from_dashboard_return_to_dashboard() {
    let mut s = AppState::Dashboard;
    for _ in 0..4 {
        s = next_tab(s);
    }
    assert_eq!(s, AppState::Dashboard);
}

#[test]
fn forward_cycle_order() {
    assert_eq!(next_tab(AppState::Dashboard), AppState::Ships);
    assert_eq!(next_tab(AppState::Ships), AppState::Systems);
    assert_eq!(next_tab(AppState::Systems), AppState::Markets);
    assert_eq!(next_tab(AppState::Markets), AppState::Dashboard);
}

#[test]
fn backward_is_inverse_of_forward_on_top_level_views() {
    let tops = [AppState::Dashboard, AppState::Ships, AppState::Systems, AppState::Markets];
    for s in tops {
        assert_eq!(previous_tab(next_tab(s)), s);
        assert_eq!(next_tab(previous_tab(s)), s);
    }
}

#[test]
fn detail_views_cycle_as_their_parent() {
    assert_eq!(next_tab(AppState::ShipDetail), AppState::Systems);
    assert_eq!(previous_tab(AppState::ShipDetail), AppState::Dashboard);
    assert_eq!(next_tab(AppState::SystemDetail), AppState::Markets);
    assert_eq!(previous_tab(AppState::SystemDetail), AppState::Ships);
    assert_eq!(next_tab(AppState::WaypointDetail), AppState::Markets);
    assert_eq!(previous_tab(AppState::WaypointDetail), AppState::Ships);
}

#[test]
fn tab_strip_highlights_parent_tab() {
    assert_eq!(tab_index_of(AppState::Dashboard), 0);
    assert_eq!(tab_index_of(AppState::Ships), 1);
    assert_eq!(tab_index_of(AppState::ShipDetail), 1);
    assert_eq!(tab_index_of(AppState::Systems), 2);
    assert_eq!(tab_index_of(AppState::SystemDetail), 2);
    assert_eq!(tab_index_of(AppState::WaypointDetail), 2);
    assert_eq!(tab_index_of(AppState::Markets), 3);
}
