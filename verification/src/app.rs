//! The application state and its transitions: which view is active, the
//! three snapshots and their cursors, the stored drill-down indices, and
//! what each key does to them. Every transition is a pure function of the
//! state; the event loop around this crate reads one key, applies it here,
//! and performs the refresh this module asks for.

use vstd::prelude::*;
use crate::client::SpaceTradersClient;
use crate::models::{Agent, GameStatus, Ship, System};
use crate::nav::{back_spec, next_tab_spec, previous_tab_spec, AppState};
use crate::selection;
use crate::selection::{wrap_next, wrap_previous};

verus! {

/// The whole in-memory state of the dashboard: the active view, the three
/// snapshots, a cursor per list, the stored drill-down indices, and the
/// help toggle.
#[derive(Debug)]
pub struct App {
    pub state: AppState,
    pub client: SpaceTradersClient,
    pub should_quit: bool,
    pub agent: Option<Agent>,
    pub status: Option<GameStatus>,
    pub ships: Option<Vec<Ship>>,
    pub systems: Option<Vec<System>>,
    pub ships_cursor: Option<usize>,
    pub systems_cursor: Option<usize>,
    pub waypoints_cursor: Option<usize>,
    pub help_visible: bool,
    pub selected_ship_index: Option<usize>,
    pub selected_system_index: Option<usize>,
    pub selected_waypoint_index: Option<usize>,
}

/// One key press, after the terminal backend has decoded it.
#[derive(Clone, Copy, Debug, PartialEq, Eq, Structural)]
pub enum Key {
    Char(char),
    Tab,
    BackTab,
    Enter,
    Esc,
    Up,
    Down,
    Other,
}

/// Which snapshot the active view wants fetched.
#[derive(Clone, Copy, Debug, PartialEq, Eq, Structural)]
pub enum RefreshKind {
    Dashboard,
    Ships,
    Systems,
    NoFetch,
}

/// The snapshot a refresh of the given view fetches: the dashboard fetches
/// the agent and the server status, the two list views their lists, and
/// every other view nothing.
pub open spec fn refresh_kind_spec(s: AppState) -> RefreshKind {
    match s {
        AppState::Dashboard => RefreshKind::Dashboard,
        AppState::Ships => RefreshKind::Ships,
        AppState::Systems => RefreshKind::Systems,
        _ => RefreshKind::NoFetch,
    }
}

/// State after a forward tab: only the active view changes.
pub open spec fn after_next_tab(a: App) -> App {
    App { state: next_tab_spec(a.state), ..a }
}

/// State after a backward tab: only the active view changes.
pub open spec fn after_previous_tab(a: App) -> App {
    App { state: previous_tab_spec(a.state), ..a }
}

/// State after toggling the help overlay: nothing else is affected.
pub open spec fn after_toggle_help(a: App) -> App {
    App { help_visible: !a.help_visible, ..a }
}

/// State after backing out of a detail view: only the active view changes.
pub open spec fn after_back(a: App) -> App {
    App { state: back_spec(a.state), ..a }
}

/// State after a forward selection move: the cursor of the active list
/// steps with wrap-around; over an absent or empty list nothing moves.
pub open spec fn after_next_item(a: App) -> App {
    match a.state {
        AppState::Ships => match a.ships {
            Some(ships) => if ships@.len() == 0 {
                a
            } else {
                App { ships_cursor: wrap_next(a.ships_cursor, ships@.len() as usize), ..a }
            },
            None => a,
        },
        AppState::Systems => match a.systems {
            Some(systems) => if systems@.len() == 0 {
                a
            } else {
                App { systems_cursor: wrap_next(a.systems_cursor, systems@.len() as usize), ..a }
            },
            None => a,
        },
        AppState::SystemDetail => match a.systems {
            Some(systems) => match a.selected_system_index {
                Some(six) => if six >= systems@.len() {
                    a
                } else if systems@[six as int].waypoints@.len() == 0 {
                    a
                } else {
                    App {
                        waypoints_cursor: wrap_next(
                            a.waypoints_cursor,
                            systems@[six as int].waypoints@.len() as usize,
                        ),
                        ..a
                    }
                },
                None => a,
            },
            None => a,
        },
        _ => a,
    }
}

/// State after a backward selection move, the mirror of the forward move.
pub open spec fn after_previous_item(a: App) -> App {
    match a.state {
        AppState::Ships => match a.ships {
            Some(ships) => if ships@.len() == 0 {
                a
            } else {
                App { ships_cursor: wrap_previous(a.ships_cursor, ships@.len() as usize), ..a }
            },
            None => a,
        },
        AppState::Systems => match a.systems {
            Some(systems) => if systems@.len() == 0 {
                a
            } else {
                App {
                    systems_cursor: wrap_previous(a.systems_cursor, systems@.len() as usize),
                    ..a
                }
            },
            None => a,
        },
        AppState::SystemDetail => match a.systems {
            Some(systems) => match a.selected_system_index {
                Some(six) => if six >= systems@.len() {
                    a
                } else if systems@[six as int].waypoints@.len() == 0 {
                    a
                } else {
                    App {
                        waypoints_cursor: wrap_previous(
                            a.waypoints_cursor,
                            systems@[six as int].waypoints@.len() as usize,
                        ),
                        ..a
                    }
                },
                None => a,
            },
            None => a,
        },
        _ => a,
    }
}

/// State after confirming on the ship list: with a fetched, non-empty fleet
/// and a cursor, the cursor is stored and the ship detail view opens; with
/// no valid cursor nothing happens.
pub open spec fn after_view_ship_detail(a: App) -> App {
    match a.ships {
        Some(ships) => if ships@.len() > 0 && a.ships_cursor is Some {
            App { selected_ship_index: a.ships_cursor, state: AppState::ShipDetail, ..a }
        } else {
            a
        },
        None => a,
    }
}

/// State after confirming on the system list: with a fetched, non-empty
/// list and a cursor, the cursor is stored and the system detail view
/// opens; with no valid cursor nothing happens.
pub open spec fn after_view_system_detail(a: App) -> App {
    match a.systems {
        Some(systems) => if systems@.len() > 0 && a.systems_cursor is Some {
            App { selected_system_index: a.systems_cursor, state: AppState::SystemDetail, ..a }
        } else {
            a
        },
        None => a,
    }
}

/// State after confirming on the system detail view: with a valid stored
/// system, a non-empty waypoint list and a waypoint cursor within it, the
/// cursor is stored and the waypoint detail view opens; otherwise nothing
/// happens.
pub open spec fn after_view_waypoint_detail(a: App) -> App {
    match a.systems {
        Some(systems) => match a.selected_system_index {
            Some(six) => if six >= systems@.len() {
                a
            } else if systems@[six as int].waypoints@.len() == 0 {
                a
            } else {
                match a.waypoints_cursor {
                    Some(wix) => if wix < systems@[six as int].waypoints@.len() {
                        App {
                            selected_waypoint_index: Some(wix),
                            state: AppState::WaypointDetail,
                            ..a
                        }
                    } else {
                        a
                    },
                    None => a,
                }
            },
            None => a,
        },
        None => a,
    }
}

/// Whether a key asks the event loop to refresh the active view's snapshot:
/// the manual refresh, both tab directions, and the four direct jumps do;
/// nothing else does.
pub open spec fn key_requests_refresh(key: Key) -> bool {
    match key {
        Key::Char(ch) => ch == 'r' || ch == '1' || ch == '2' || ch == '3' || ch == '4',
        Key::Tab => true,
        Key::BackTab => true,
        _ => false,
    }
}

/// The full keyboard surface: what one key press does to the state. Keys
/// outside the surface do nothing.
pub open spec fn after_key(a: App, key: Key) -> App {
    match key {
        Key::Char(ch) => if ch == 'q' {
            App { should_quit: true, ..a }
        } else if ch == 'h' {
            after_toggle_help(a)
        } else if ch == 'j' {
            after_next_item(a)
        } else if ch == 'k' {
            after_previous_item(a)
        } else if ch == '1' {
            App { state: AppState::Dashboard, ..a }
        } else if ch == '2' {
            App { state: AppState::Ships, ..a }
        } else if ch == '3' {
            App { state: AppState::Systems, ..a }
        } else if ch == '4' {
            App { state: AppState::Markets, ..a }
        } else {
            a
        },
        Key::Tab => after_next_tab(a),
        Key::BackTab => after_previous_tab(a),
        Key::Enter => match a.state {
            AppState::Ships => after_view_ship_detail(a),
            AppState::Systems => after_view_system_detail(a),
            AppState::SystemDetail => after_view_waypoint_detail(a),
            AppState::ShipDetail => after_back(a),
            AppState::WaypointDetail => after_back(a),
            AppState::Dashboard => a,
            AppState::Markets => a,
        },
        Key::Esc => match a.state {
            AppState::ShipDetail => after_back(a),
            AppState::SystemDetail => after_back(a),
            AppState::WaypointDetail => after_back(a),
            _ => a,
        },
        Key::Down => after_next_item(a),
        Key::Up => after_previous_item(a),
        Key::Other => a,
    }
}

impl App {
    /// A fresh application: the dashboard active, no snapshot fetched yet,
    /// every cursor on the first entry, nothing drilled into, help hidden.
    pub fn new(client: SpaceTradersClient) -> (app: App)
        ensures
            app.state == AppState::Dashboard,
            app.client == client,
            app.should_quit == false,
            app.agent is None,
            app.status is None,
            app.ships is None,
            app.systems is None,
            app.ships_cursor == Some(0usize),
            app.systems_cursor == Some(0usize),
            app.waypoints_cursor == Some(0usize),
            app.help_visible == false,
            app.selected_ship_index is None,
            app.selected_system_index is None,
            app.selected_waypoint_index is None,
    {
        App {
            state: AppState::Dashboard,
            client,
            should_quit: false,
            agent: None,
            status: None,
            ships: None,
            systems: None,
            ships_cursor: Some(0),
            systems_cursor: Some(0),
            waypoints_cursor: Some(0),
            help_visible: false,
            selected_ship_index: None,
            selected_system_index: None,
            selected_waypoint_index: None,
        }
    }

    /// Which snapshot a refresh of the active view fetches.
    pub fn refresh_kind(&self) -> (k: RefreshKind)
        ensures
            k == refresh_kind_spec(self.state),
    {
        match self.state {
            AppState::Dashboard => RefreshKind::Dashboard,
            AppState::Ships => RefreshKind::Ships,
            AppState::Systems => RefreshKind::Systems,
            _ => RefreshKind::NoFetch,
        }
    }

    /// Install a fetched agent, replacing the snapshot whole and touching
    /// nothing else — in particular not the status, whose own fetch may
    /// still fail on its own.
    pub fn load_agent(&mut self, agent: Agent)
        ensures
            *final(self) == (App { agent: Some(agent), ..*old(self) }),
    {
        self.agent = Some(agent);
    }

    /// Install a fetched server status, replacing the snapshot whole and
    /// touching nothing else.
    pub fn load_status(&mut self, status: GameStatus)
        ensures
            *final(self) == (App { status: Some(status), ..*old(self) }),
    {
        self.status = Some(status);
    }

    /// Install a fetched ship list, replacing the snapshot whole and
    /// touching nothing else.
    pub fn load_ships(&mut self, ships: Vec<Ship>)
        ensures
            *final(self) == (App { ships: Some(ships), ..*old(self) }),
    {
        self.ships = Some(ships);
    }

    /// Install a fetched system list, replacing the snapshot whole and
    /// touching nothing else.
    pub fn load_systems(&mut self, systems: Vec<System>)
        ensures
            *final(self) == (App { systems: Some(systems), ..*old(self) }),
    {
        self.systems = Some(systems);
    }

    /// Cycle forward through the top-level views.
    pub fn next_tab(&mut self)
        ensures
            *final(self) == after_next_tab(*old(self)),
    {
        self.state = crate::nav::next_tab(self.state);
    }

    /// Cycle backward through the top-level views.
    pub fn previous_tab(&mut self)
        ensures
            *final(self) == after_previous_tab(*old(self)),
    {
        self.state = crate::nav::previous_tab(self.state);
    }

    /// Show or hide the help overlay.
    pub fn toggle_help(&mut self)
        ensures
            *final(self) == after_toggle_help(*old(self)),
    {
        self.help_visible = !self.help_visible;
    }

    /// Move the active list's selection one entry down, wrapping at the
    /// end; a no-op outside the list views or over an absent or empty list.
    pub fn next_item(&mut self)
        ensures
            *final(self) == after_next_item(*old(self)),
    {
        match self.state {
            AppState::Ships => {
                match &self.ships {
                    Some(ships) => {
                        if ships.len() > 0 {
                            self.ships_cursor = selection::next(self.ships_cursor, ships.len());
                        }
                    },
                    None => {},
                }
            },
            AppState::Systems => {
                match &self.systems {
                    Some(systems) => {
                        if systems.len() > 0 {
                            self.systems_cursor = selection::next(
                                self.systems_cursor,
                                systems.len(),
                            );
                        }
                    },
                    None => {},
                }
            },
            AppState::SystemDetail => {
                match &self.systems {
                    Some(systems) => {
                        match self.selected_system_index {
                            Some(six) => {
                                if six < systems.len() {
                                    let wlen = systems[six].waypoints.len();
                                    if wlen > 0 {
                                        self.waypoints_cursor = selection::next(
                                            self.waypoints_cursor,
                                            wlen,
                                        );
                                    }
                                }
                            },
                            None => {},
                        }
                    },
                    None => {},
                }
            },
            _ => {},
        }
    }

    /// Move the active list's selection one entry up, wrapping at the
    /// start; a no-op outside the list views or over an absent or empty
    /// list.
    pub fn previous_item(&mut self)
        ensures
            *final(self) == after_previous_item(*old(self)),
    {
        match self.state {
            AppState::Ships => {
                match &self.ships {
                    Some(ships) => {
                        if ships.len() > 0 {
                            self.ships_cursor = selection::previous(
                                self.ships_cursor,
                                ships.len(),
                            );
                        }
                    },
                    None => {},
                }
            },
            AppState::Systems => {
                match &self.systems {
                    Some(systems) => {
                        if systems.len() > 0 {
                            self.systems_cursor = selection::previous(
                                self.systems_cursor,
                                systems.len(),
                            );
                        }
                    },
                    None => {},
                }
            },
            AppState::SystemDetail => {
                match &self.systems {
                    Some(systems) => {
                        match self.selected_system_index {
                            Some(six) => {
                                if six < systems.len() {
                                    let wlen = systems[six].waypoints.len();
                                    if wlen > 0 {
                                        self.waypoints_cursor = selection::previous(
                                            self.waypoints_cursor,
                                            wlen,
                                        );
                                    }
                                }
                            },
                            None => {},
                        }
                    },
                    None => {},
                }
            },
            _ => {},
        }
    }

    /// Store the ship cursor and open the ship detail view; a no-op without
    /// a fetched, non-empty fleet and a cursor.
    pub fn view_selected_ship_detail(&mut self)
        ensures
            *final(self) == after_view_ship_detail(*old(self)),
    {
        match &self.ships {
            Some(ships) => {
                if ships.len() > 0 {
                    match self.ships_cursor {
                        Some(i) => {
                            self.selected_ship_index = Some(i);
                            self.state = AppState::ShipDetail;
                        },
                        None => {},
                    }
                }
            },
            None => {},
        }
    }

    /// Store the system cursor and open the system detail view; a no-op
    /// without a fetched, non-empty list and a cursor.
    pub fn view_selected_system_detail(&mut self)
        ensures
            *final(self) == after_view_system_detail(*old(self)),
    {
        match &self.systems {
            Some(systems) => {
                if systems.len() > 0 {
                    match self.systems_cursor {
                        Some(i) => {
                            self.selected_system_index = Some(i);
                            self.state = AppState::SystemDetail;
                        },
                        None => {},
                    }
                }
            },
            None => {},
        }
    }

    /// Store the waypoint cursor and open the waypoint detail view; a no-op
    /// without a valid stored system, a non-empty waypoint list and a
    /// cursor within it.
    pub fn view_selected_waypoint_detail(&mut self)
        ensures
            *final(self) == after_view_waypoint_detail(*old(self)),
    {
        match &self.systems {
            Some(systems) => {
                match self.selected_system_index {
                    Some(six) => {
                        if six < systems.len() {
                            let wlen = systems[six].waypoints.len();
                            if wlen > 0 {
                                match self.waypoints_cursor {
                                    Some(wix) => {
                                        if wix < wlen {
                                            self.selected_waypoint_index = Some(wix);
                                            self.state = AppState::WaypointDetail;
                                        }
                                    },
                                    None => {},
                                }
                            }
                        }
                    },
                    None => {},
                }
            },
            None => {},
        }
    }

    /// Leave a detail view for its parent, one level up; a no-op on the
    /// top-level views.
    pub fn back_from_detail(&mut self)
        ensures
            *final(self) == after_back(*old(self)),
    {
        self.state = match self.state {
            AppState::ShipDetail => AppState::Ships,
            AppState::SystemDetail => AppState::Systems,
            AppState::WaypointDetail => AppState::SystemDetail,
            _ => self.state,
        };
    }

    /// Apply one key press to the state and say whether the event loop
    /// should refresh the active view's snapshot afterwards.
    pub fn handle_key(&mut self, key: Key) -> (refresh: bool)
        ensures
            *final(self) == after_key(*old(self), key),
            refresh == key_requests_refresh(key),
    {
        match key {
            Key::Char(ch) => {
                if ch == 'q' {
                    self.should_quit = true;
                    false
                } else if ch == 'r' {
                    true
                } else if ch == 'h' {
                    self.toggle_help();
                    false
                } else if ch == 'j' {
                    self.next_item();
                    false
                } else if ch == 'k' {
                    self.previous_item();
                    false
                } else if ch == '1' {
                    self.state = AppState::Dashboard;
                    true
                } else if ch == '2' {
                    self.state = AppState::Ships;
                    true
                } else if ch == '3' {
                    self.state = AppState::Systems;
                    true
                } else if ch == '4' {
                    self.state = AppState::Markets;
                    true
                } else {
                    false
                }
            },
            Key::Tab => {
                self.next_tab();
                true
            },
            Key::BackTab => {
                self.previous_tab();
                true
            },
            Key::Enter => {
                match self.state {
                    AppState::Ships => self.view_selected_ship_detail(),
                    AppState::Systems => self.view_selected_system_detail(),
                    AppState::SystemDetail => self.view_selected_waypoint_detail(),
                    AppState::ShipDetail => self.back_from_detail(),
                    AppState::WaypointDetail => self.back_from_detail(),
                    AppState::Dashboard => {},
                    AppState::Markets => {},
                }
                false
            },
            Key::Esc => {
                match self.state {
                    AppState::ShipDetail => self.back_from_detail(),
                    AppState::SystemDetail => self.back_from_detail(),
                    AppState::WaypointDetail => self.back_from_detail(),
                    _ => {},
                }
                false
            },
            Key::Down => {
                self.next_item();
                false
            },
            Key::Up => {
                self.previous_item();
                false
            },
            Key::Other => false,
        }
    }
}

/// Whether confirming on the system detail view actually opens the
/// waypoint detail: a valid stored system with a non-empty waypoint list
/// and a waypoint cursor within it.
pub open spec fn can_drill_waypoint(a: App) -> bool {
    match a.systems {
        Some(systems) => match a.selected_system_index {
            Some(six) => six < systems@.len() && systems@[six as int].waypoints@.len() > 0
                && (match a.waypoints_cursor {
                Some(wix) => wix < systems@[six as int].waypoints@.len(),
                None => false,
            }),
            None => false,
        },
        None => false,
    }
}

/// Confirming and backing out again returns to the originating view: a
/// drill-down from a list lands back on that list, a successful drill into
/// a waypoint lands back on the system detail, and in every case the
/// top-level family the user was in is the one back returns to.
pub proof fn lemma_drill_then_back(a: App)
    ensures
        a.state == AppState::Ships ==> after_back(after_view_ship_detail(a)).state
            == AppState::Ships,
        a.state == AppState::Systems ==> after_back(after_view_system_detail(a)).state
            == AppState::Systems,
        a.state == AppState::SystemDetail && can_drill_waypoint(a) ==> after_back(
            after_view_waypoint_detail(a),
        ).state == AppState::SystemDetail,
        a.state == AppState::SystemDetail ==> crate::nav::top_level_of(
            after_back(after_view_waypoint_detail(a)).state,
        ) == AppState::Systems,
{
}

/// Confirming with an absent cursor changes nothing at all: the drill-down
/// requires a selection.
pub proof fn lemma_drill_needs_cursor(a: App)
    ensures
        a.ships_cursor is None ==> after_view_ship_detail(a) == a,
        a.systems_cursor is None ==> after_view_system_detail(a) == a,
        a.waypoints_cursor is None ==> after_view_waypoint_detail(a) == a,
{
}

} // verus!
