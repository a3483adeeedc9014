//! The view renderer: for each view, the content of its panes as plain
//! structured values — placeholder messages while a snapshot is absent,
//! error messages for stale drill-down indices, entry lists with their
//! highlight, and the map grids of the map-bearing views. Painting these
//! values into styled terminal text is left to the caller; everything the
//! panes show is pinned here.

use vstd::prelude::*;
use crate::models::{Agent, GameStatus, Ship, ShipNavStatus, ShipRole, System, SystemType,
    SystemWaypoint, WaypointType};
use crate::project::{plot_cell, render_plot, spec_bounds, Cell, Grid, HighlightStyle, PlotPoint};
use crate::style::{nav_status_color, get_nav_status_color, get_ship_role_color,
    get_system_type_color, get_waypoint_type_color, get_waypoint_type_glyph, ship_role_color,
    system_type_color, waypoint_type_color, waypoint_type_glyph, Color};

verus! {

// ---------------------------------------------------------------------------
// Dashboard
// ---------------------------------------------------------------------------

/// The agent fields the dashboard shows.
#[derive(Clone, Debug, PartialEq)]
pub struct AgentInfo {
    pub symbol: String,
    pub credits: i64,
    pub headquarters: String,
    pub starting_faction: String,
    pub ship_count: i32,
}

/// The agent pane of the dashboard.
#[derive(Debug, PartialEq)]
pub enum DashboardAgentPane {
    Loading,
    Info(AgentInfo),
}

/// The displayed agent info carries the snapshot's fields verbatim.
pub open spec fn agent_info_matches(info: AgentInfo, agent: Agent) -> bool {
    &&& info.symbol == agent.symbol
    &&& info.credits == agent.credits
    &&& info.headquarters == agent.headquarters
    &&& info.starting_faction == agent.starting_faction
    &&& info.ship_count == agent.ship_count
}

/// Content of the dashboard's agent pane: a loading placeholder until the
/// first fetch lands, then the agent's five fields verbatim.
pub fn render_dashboard(agent: &Option<Agent>) -> (pane: DashboardAgentPane)
    ensures
        agent is None ==> pane is Loading,
        agent matches Some(a) ==> (pane matches DashboardAgentPane::Info(info)
            && agent_info_matches(info, *a)),
{
    match agent {
        None => DashboardAgentPane::Loading,
        Some(a) => DashboardAgentPane::Info(
            AgentInfo {
                symbol: a.symbol.clone(),
                credits: a.credits,
                headquarters: a.headquarters.clone(),
                starting_faction: a.starting_faction.clone(),
                ship_count: a.ship_count,
            },
        ),
    }
}

impl DashboardAgentPane {
    /// Placeholder text of the pane, when it shows one.
    pub fn message(&self) -> (m: Option<&'static str>)
        ensures
            *self is Loading ==> (m matches Some(t) && t@ == "Loading agent data..."@),
            *self is Info ==> m is None,
    {
        match self {
            DashboardAgentPane::Loading => Some("Loading agent data..."),
            DashboardAgentPane::Info(_) => None,
        }
    }
}

/// The status pane of the dashboard.
#[derive(Debug, PartialEq)]
pub enum StatusPane {
    Welcome,
    Status(GameStatus),
}

/// Content of the dashboard's status pane: a welcome line until the first
/// status fetch lands, then the server's three status fields verbatim.
pub fn render_status(status: &Option<GameStatus>) -> (pane: StatusPane)
    ensures
        status is None ==> pane is Welcome,
        status matches Some(s) ==> (pane matches StatusPane::Status(shown) && shown.status
            == s.status && shown.version == s.version && shown.reset_date == s.reset_date),
{
    match status {
        None => StatusPane::Welcome,
        Some(s) => StatusPane::Status(
            GameStatus {
                status: s.status.clone(),
                version: s.version.clone(),
                reset_date: s.reset_date.clone(),
            },
        ),
    }
}

/// The line the status pane shows before any status has been fetched.
pub fn welcome_message() -> (m: &'static str)
    ensures
        m@ == "Welcome to Space Traders"@,
{
    "Welcome to Space Traders"
}

// ---------------------------------------------------------------------------
// Ship list
// ---------------------------------------------------------------------------

/// One row of the ship list.
#[derive(Clone, Debug, PartialEq)]
pub struct ShipListEntry {
    pub symbol: String,
    pub role: ShipRole,
    pub role_color: Color,
}

/// The ship list pane.
#[derive(Debug, PartialEq)]
pub enum ShipsPane {
    Loading,
    Empty,
    List(Vec<ShipListEntry>, Option<usize>),
}

/// A ship list row shows the ship's symbol and its role, colored by role.
pub open spec fn ship_entry_matches(e: ShipListEntry, s: Ship) -> bool {
    &&& e.symbol == s.symbol
    &&& e.role == s.registration.role
    &&& e.role_color == ship_role_color(s.registration.role)
}

/// The one content the ship list shows for a given snapshot and cursor:
/// loading until fetched, an empty notice for an empty fleet, else one row
/// per ship with the cursor as highlight.
pub open spec fn ships_pane_spec(
    ships: Option<Vec<Ship>>,
    cursor: Option<usize>,
    pane: ShipsPane,
) -> bool {
    match ships {
        None => pane is Loading,
        Some(v) => if v.len() == 0 {
            pane is Empty
        } else {
            pane matches ShipsPane::List(entries, highlight) && highlight == cursor
                && entries.len() == v.len() && forall|i: int|
                0 <= i < v.len() ==> ship_entry_matches(#[trigger] entries[i], v[i])
        },
    }
}

/// Content of the ship list: loading until fetched, an empty notice for an
/// empty fleet, else one row per ship with the cursor as highlight.
pub fn render_ships(ships: &Option<Vec<Ship>>, cursor: Option<usize>) -> (pane: ShipsPane)
    ensures
        ships_pane_spec(*ships, cursor, pane),
{
    match ships {
        None => ShipsPane::Loading,
        Some(v) => {
            if v.len() == 0 {
                ShipsPane::Empty
            } else {
                let mut entries: Vec<ShipListEntry> = Vec::new();
                let mut i: usize = 0;
                while i < v.len()
                    invariant
                        i <= v@.len(),
                        entries@.len() == i,
                        forall|j: int|
                            0 <= j < i ==> ship_entry_matches(#[trigger] entries@[j], v@[j]),
                    decreases v@.len() - i,
                {
                    let role = v[i].registration.role;
                    entries.push(
                        ShipListEntry {
                            symbol: v[i].symbol.clone(),
                            role,
                            role_color: get_ship_role_color(role),
                        },
                    );
                    i = i + 1;
                }
                ShipsPane::List(entries, cursor)
            }
        },
    }
}

impl ShipsPane {
    /// Placeholder text of the pane, when it shows one.
    pub fn message(&self) -> (m: Option<&'static str>)
        ensures
            *self is Loading ==> (m matches Some(t) && t@ == "Loading ships data..."@),
            *self is Empty ==> (m matches Some(t) && t@ == "No ships found"@),
            *self is List ==> m is None,
    {
        match self {
            ShipsPane::Loading => Some("Loading ships data..."),
            ShipsPane::Empty => Some("No ships found"),
            ShipsPane::List(_, _) => None,
        }
    }
}

// ---------------------------------------------------------------------------
// System list and system map
// ---------------------------------------------------------------------------

/// One row of the system list.
#[derive(Clone, Debug, PartialEq)]
pub struct SystemListEntry {
    pub symbol: String,
    pub system_type: SystemType,
    pub type_color: Color,
    pub x: i32,
    pub y: i32,
}

/// The system list pane.
#[derive(Debug, PartialEq)]
pub enum SystemsPane {
    Loading,
    Empty,
    List(Vec<SystemListEntry>, Option<usize>),
}

/// A system list row shows the system's type, symbol and position, colored
/// by spectral type.
pub open spec fn system_entry_matches(e: SystemListEntry, s: System) -> bool {
    &&& e.symbol == s.symbol
    &&& e.system_type == s.system_type
    &&& e.type_color == system_type_color(s.system_type)
    &&& e.x == s.x
    &&& e.y == s.y
}

/// The one content the system list shows for a given snapshot and cursor:
/// loading until fetched, an empty notice when the fetch returned none,
/// else one row per system with the cursor as highlight.
pub open spec fn systems_pane_spec(
    systems: Option<Vec<System>>,
    cursor: Option<usize>,
    pane: SystemsPane,
) -> bool {
    match systems {
        None => pane is Loading,
        Some(v) => if v.len() == 0 {
            pane is Empty
        } else {
            pane matches SystemsPane::List(entries, highlight) && highlight == cursor
                && entries.len() == v.len() && forall|i: int|
                0 <= i < v.len() ==> system_entry_matches(#[trigger] entries[i], v[i])
        },
    }
}

/// Content of the system list: loading until fetched, an empty notice when
/// the fetch returned none, else one row per system with the cursor as
/// highlight.
pub fn render_systems(systems: &Option<Vec<System>>, cursor: Option<usize>) -> (pane: SystemsPane)
    ensures
        systems_pane_spec(*systems, cursor, pane),
{
    match systems {
        None => SystemsPane::Loading,
        Some(v) => {
            if v.len() == 0 {
                SystemsPane::Empty
            } else {
                let mut entries: Vec<SystemListEntry> = Vec::new();
                let mut i: usize = 0;
                while i < v.len()
                    invariant
                        i <= v@.len(),
                        entries@.len() == i,
                        forall|j: int|
                            0 <= j < i ==> system_entry_matches(#[trigger] entries@[j], v@[j]),
                    decreases v@.len() - i,
                {
                    let t = v[i].system_type;
                    entries.push(
                        SystemListEntry {
                            symbol: v[i].symbol.clone(),
                            system_type: t,
                            type_color: get_system_type_color(t),
                            x: v[i].x,
                            y: v[i].y,
                        },
                    );
                    i = i + 1;
                }
                SystemsPane::List(entries, cursor)
            }
        },
    }
}

impl SystemsPane {
    /// Placeholder text of the pane, when it shows one.
    pub fn message(&self) -> (m: Option<&'static str>)
        ensures
            *self is Loading ==> (m matches Some(t) && t@ == "Loading systems..."@),
            *self is Empty ==> (m matches Some(t) && t@ == "No systems found."@),
            *self is List ==> m is None,
    {
        match self {
            SystemsPane::Loading => Some("Loading systems..."),
            SystemsPane::Empty => Some("No systems found."),
            SystemsPane::List(_, _) => None,
        }
    }
}

/// The plot entities of the system map: one dot per system at its galactic
/// position, colored by spectral type.
pub open spec fn spec_system_points(systems: Seq<System>) -> Seq<PlotPoint> {
    Seq::new(
        systems.len(),
        |i: int|
            PlotPoint {
                x: systems[i].x,
                y: systems[i].y,
                glyph: '●',
                color: system_type_color(systems[i].system_type),
            },
    )
}

/// Build the plot entities of the system map.
pub fn system_plot_points(systems: &Vec<System>) -> (pts: Vec<PlotPoint>)
    ensures
        pts@ == spec_system_points(systems@),
{
    let mut pts: Vec<PlotPoint> = Vec::new();
    let mut i: usize = 0;
    while i < systems.len()
        invariant
            i <= systems@.len(),
            pts@.len() == i,
            forall|j: int| 0 <= j < i ==> pts@[j] == spec_system_points(systems@)[j],
        decreases systems@.len() - i,
    {
        let t = systems[i].system_type;
        pts.push(
            PlotPoint { x: systems[i].x, y: systems[i].y, glyph: '●', color: get_system_type_color(t) },
        );
        i = i + 1;
    }
    proof {
        assert(pts@ =~= spec_system_points(systems@));
    }
    pts
}

/// Render the system map: every system plotted as a colored dot, with the
/// selected system overdrawn by a white star marker.
pub fn render_system_map(systems: &Vec<System>, selected: Option<usize>, width: usize, height: usize) -> (g: Grid)
    requires
        systems.len() > 0,
        width * height <= usize::MAX,
    ensures
        g.wf(),
        g.width == width,
        g.height == height,
        forall|r: int, c: int|
            0 <= r < height && 0 <= c < width ==> #[trigger] g.cell(r, c) == plot_cell(
                spec_system_points(systems@),
                selected,
                None,
                HighlightStyle::Fixed('★'),
                spec_bounds(spec_system_points(systems@)),
                width as int,
                height as int,
                r,
                c,
            ),
{
    let pts = system_plot_points(systems);
    render_plot(&pts, selected, None, HighlightStyle::Fixed('★'), width, height)
}

// ---------------------------------------------------------------------------
// Ship detail
// ---------------------------------------------------------------------------

/// The fields the ship detail view shows.
#[derive(Clone, Debug, PartialEq)]
pub struct ShipDetailInfo {
    pub symbol: String,
    pub role: ShipRole,
    pub role_color: Color,
    pub registration_name: String,
    pub faction_symbol: String,
    pub frame_symbol: String,
    pub engine_symbol: String,
    pub fuel_current: i32,
    pub fuel_capacity: i32,
    pub cargo_units: i32,
    pub cargo_capacity: i32,
    pub module_symbols: Vec<String>,
    pub nav_status: ShipNavStatus,
    pub nav_status_color: Color,
    pub waypoint_symbol: String,
    pub route_origin: String,
    pub route_destination: String,
    pub route_arrival: String,
}

/// The ship detail pane.
#[derive(Debug, PartialEq)]
pub enum ShipDetailPane {
    NoSelection,
    Loading,
    InvalidSelection,
    Detail(ShipDetailInfo),
}

/// The displayed detail carries the selected ship's fields verbatim.
pub open spec fn ship_detail_matches(d: ShipDetailInfo, s: Ship) -> bool {
    &&& d.symbol == s.symbol
    &&& d.role == s.registration.role
    &&& d.role_color == ship_role_color(s.registration.role)
    &&& d.registration_name == s.registration.name
    &&& d.faction_symbol == s.registration.faction_symbol
    &&& d.frame_symbol == s.frame.symbol
    &&& d.engine_symbol == s.engine.symbol
    &&& d.fuel_current == s.fuel.current
    &&& d.fuel_capacity == s.fuel.capacity
    &&& d.cargo_units == s.cargo.units
    &&& d.cargo_capacity == s.cargo.capacity
    &&& d.module_symbols.len() == s.modules.len()
    &&& (forall|i: int|
        0 <= i < s.modules.len() ==> #[trigger] d.module_symbols[i] == s.modules[i].symbol)
    &&& d.nav_status == s.nav.status
    &&& d.nav_status_color == nav_status_color(s.nav.status)
    &&& d.waypoint_symbol == s.nav.waypoint_symbol
    &&& d.route_origin == s.nav.route.origin.symbol
    &&& d.route_destination == s.nav.route.destination.symbol
    &&& d.route_arrival == s.nav.route.arrival
}

/// The one content the ship detail view shows for a given snapshot and
/// stored index: the missing-index notice before anything else, loading
/// while no fleet is fetched, the invalid-selection notice for an index
/// that outgrew a refreshed snapshot, else the indexed ship's fields.
pub open spec fn ship_detail_pane_spec(
    ships: Option<Vec<Ship>>,
    selected: Option<usize>,
    pane: ShipDetailPane,
) -> bool {
    match selected {
        None => pane is NoSelection,
        Some(ix) => match ships {
            None => pane is Loading,
            Some(v) => if ix >= v.len() {
                pane is InvalidSelection
            } else {
                pane matches ShipDetailPane::Detail(d) && ship_detail_matches(d, v[ix as int])
            },
        },
    }
}

/// Content of the ship detail view. A missing stored index is reported
/// before anything else, as the view never re-validates it; an index that
/// outgrew a refreshed snapshot yields the invalid-selection notice rather
/// than any out-of-range access.
pub fn render_ship_detail(ships: &Option<Vec<Ship>>, selected: Option<usize>) -> (pane:
    ShipDetailPane)
    ensures
        ship_detail_pane_spec(*ships, selected, pane),
{
    let ix = match selected {
        None => {
            return ShipDetailPane::NoSelection;
        },
        Some(ix) => ix,
    };
    match ships {
        None => ShipDetailPane::Loading,
        Some(v) => {
            if ix >= v.len() {
                ShipDetailPane::InvalidSelection
            } else {
                let s = &v[ix];
                let mut module_symbols: Vec<String> = Vec::new();
                let mut i: usize = 0;
                while i < s.modules.len()
                    invariant
                        i <= s.modules@.len(),
                        module_symbols@.len() == i,
                        forall|j: int|
                            0 <= j < i ==> #[trigger] module_symbols@[j] == s.modules@[j].symbol,
                    decreases s.modules@.len() - i,
                {
                    module_symbols.push(s.modules[i].symbol.clone());
                    i = i + 1;
                }
                ShipDetailPane::Detail(
                    ShipDetailInfo {
                        symbol: s.symbol.clone(),
                        role: s.registration.role,
                        role_color: get_ship_role_color(s.registration.role),
                        registration_name: s.registration.name.clone(),
                        faction_symbol: s.registration.faction_symbol.clone(),
                        frame_symbol: s.frame.symbol.clone(),
                        engine_symbol: s.engine.symbol.clone(),
                        fuel_current: s.fuel.current,
                        fuel_capacity: s.fuel.capacity,
                        cargo_units: s.cargo.units,
                        cargo_capacity: s.cargo.capacity,
                        module_symbols,
                        nav_status: s.nav.status,
                        nav_status_color: get_nav_status_color(s.nav.status),
                        waypoint_symbol: s.nav.waypoint_symbol.clone(),
                        route_origin: s.nav.route.origin.symbol.clone(),
                        route_destination: s.nav.route.destination.symbol.clone(),
                        route_arrival: s.nav.route.arrival.clone(),
                    },
                )
            }
        },
    }
}

impl ShipDetailPane {
    /// Placeholder or error text of the pane, when it shows one.
    pub fn message(&self) -> (m: Option<&'static str>)
        ensures
            *self is NoSelection ==> (m matches Some(t) && t@ == "No ship selected"@),
            *self is InvalidSelection ==> (m matches Some(t) && t@ == "Invalid ship selection"@),
            *self is Loading ==> (m matches Some(t) && t@ == "Loading ship data..."@),
            *self is Detail ==> m is None,
    {
        match self {
            ShipDetailPane::NoSelection => Some("No ship selected"),
            ShipDetailPane::InvalidSelection => Some("Invalid ship selection"),
            ShipDetailPane::Loading => Some("Loading ship data..."),
            ShipDetailPane::Detail(_) => None,
        }
    }
}

// ---------------------------------------------------------------------------
// System detail, waypoint list and waypoint map
// ---------------------------------------------------------------------------

/// One row of the waypoint list within a system.
#[derive(Clone, Debug, PartialEq)]
pub struct WaypointListEntry {
    pub symbol: String,
    pub waypoint_type: WaypointType,
    pub type_color: Color,
    pub x: i32,
    pub y: i32,
}

/// The waypoint list of the system detail view.
#[derive(Debug, PartialEq)]
pub enum WaypointsPane {
    Empty,
    List(Vec<WaypointListEntry>, Option<usize>),
}

/// A waypoint row shows the waypoint's symbol, type and position, colored
/// by type.
pub open spec fn waypoint_entry_matches(e: WaypointListEntry, w: SystemWaypoint) -> bool {
    &&& e.symbol == w.symbol
    &&& e.waypoint_type == w.waypoint_type
    &&& e.type_color == waypoint_type_color(w.waypoint_type)
    &&& e.x == w.x
    &&& e.y == w.y
}

/// The fields the system detail view shows, with its waypoint list.
#[derive(Debug, PartialEq)]
pub struct SystemDetailInfo {
    pub symbol: String,
    pub system_type: SystemType,
    pub type_color: Color,
    pub x: i32,
    pub y: i32,
    pub waypoint_count: usize,
    pub faction_count: usize,
    pub waypoints: WaypointsPane,
}

/// The system detail pane.
#[derive(Debug, PartialEq)]
pub enum SystemDetailPane {
    NoSelection,
    Loading,
    InvalidSelection,
    Detail(SystemDetailInfo),
}

/// The displayed detail carries the selected system's fields verbatim, and
/// its waypoints as rows under the waypoint cursor.
pub open spec fn system_detail_matches(
    d: SystemDetailInfo,
    s: System,
    waypoint_cursor: Option<usize>,
) -> bool {
    &&& d.symbol == s.symbol
    &&& d.system_type == s.system_type
    &&& d.type_color == system_type_color(s.system_type)
    &&& d.x == s.x
    &&& d.y == s.y
    &&& d.waypoint_count == s.waypoints.len()
    &&& d.faction_count == s.factions.len()
    &&& (s.waypoints.len() == 0 ==> d.waypoints is Empty)
    &&& (s.waypoints.len() > 0 ==> (d.waypoints matches WaypointsPane::List(entries, highlight)
        && highlight == waypoint_cursor && entries.len() == s.waypoints.len() && forall|i: int|
        0 <= i < s.waypoints.len() ==> waypoint_entry_matches(
            #[trigger] entries[i],
            s.waypoints[i],
        )))
}

/// The one content the system detail view shows for a given snapshot,
/// stored index and waypoint cursor.
pub open spec fn system_detail_pane_spec(
    systems: Option<Vec<System>>,
    selected: Option<usize>,
    waypoint_cursor: Option<usize>,
    pane: SystemDetailPane,
) -> bool {
    match selected {
        None => pane is NoSelection,
        Some(ix) => match systems {
            None => pane is Loading,
            Some(v) => if ix >= v.len() {
                pane is InvalidSelection
            } else {
                pane matches SystemDetailPane::Detail(d) && system_detail_matches(
                    d,
                    v[ix as int],
                    waypoint_cursor,
                )
            },
        },
    }
}

/// Content of the system detail view: the missing-index and stale-index
/// guards first, then the system's fields and its waypoint list.
pub fn render_system_detail(
    systems: &Option<Vec<System>>,
    selected: Option<usize>,
    waypoint_cursor: Option<usize>,
) -> (pane: SystemDetailPane)
    ensures
        system_detail_pane_spec(*systems, selected, waypoint_cursor, pane),
{
    let ix = match selected {
        None => {
            return SystemDetailPane::NoSelection;
        },
        Some(ix) => ix,
    };
    match systems {
        None => SystemDetailPane::Loading,
        Some(v) => {
            if ix >= v.len() {
                SystemDetailPane::InvalidSelection
            } else {
                let s = &v[ix];
                let waypoints = if s.waypoints.len() == 0 {
                    WaypointsPane::Empty
                } else {
                    let mut entries: Vec<WaypointListEntry> = Vec::new();
                    let mut i: usize = 0;
                    while i < s.waypoints.len()
                        invariant
                            i <= s.waypoints@.len(),
                            entries@.len() == i,
                            forall|j: int|
                                0 <= j < i ==> waypoint_entry_matches(
                                    #[trigger] entries@[j],
                                    s.waypoints@[j],
                                ),
                        decreases s.waypoints@.len() - i,
                    {
                        let t = s.waypoints[i].waypoint_type;
                        entries.push(
                            WaypointListEntry {
                                symbol: s.waypoints[i].symbol.clone(),
                                waypoint_type: t,
                                type_color: get_waypoint_type_color(t),
                                x: s.waypoints[i].x,
                                y: s.waypoints[i].y,
                            },
                        );
                        i = i + 1;
                    }
                    WaypointsPane::List(entries, waypoint_cursor)
                };
                SystemDetailPane::Detail(
                    SystemDetailInfo {
                        symbol: s.symbol.clone(),
                        system_type: s.system_type,
                        type_color: get_system_type_color(s.system_type),
                        x: s.x,
                        y: s.y,
                        waypoint_count: s.waypoints.len(),
                        faction_count: s.factions.len(),
                        waypoints,
                    },
                )
            }
        },
    }
}

impl SystemDetailPane {
    /// Placeholder or error text of the pane, when it shows one.
    pub fn message(&self) -> (m: Option<&'static str>)
        ensures
            *self is NoSelection ==> (m matches Some(t) && t@ == "No system selected"@),
            *self is InvalidSelection ==> (m matches Some(t) && t@ == "Invalid system selection"@),
            *self is Loading ==> (m matches Some(t) && t@ == "Loading system data..."@),
            *self is Detail ==> m is None,
    {
        match self {
            SystemDetailPane::NoSelection => Some("No system selected"),
            SystemDetailPane::InvalidSelection => Some("Invalid system selection"),
            SystemDetailPane::Loading => Some("Loading system data..."),
            SystemDetailPane::Detail(_) => None,
        }
    }
}

impl WaypointsPane {
    /// Placeholder text of the waypoint list, when it shows one.
    pub fn message(&self) -> (m: Option<&'static str>)
        ensures
            *self is Empty ==> (m matches Some(t) && t@ == "No waypoints in this system"@),
            *self is List ==> m is None,
    {
        match self {
            WaypointsPane::Empty => Some("No waypoints in this system"),
            WaypointsPane::List(_, _) => None,
        }
    }
}

/// The plot entities of the waypoint map: one glyph per waypoint at its
/// position within the system, glyph and color chosen by waypoint type.
pub open spec fn spec_waypoint_points(waypoints: Seq<SystemWaypoint>) -> Seq<PlotPoint> {
    Seq::new(
        waypoints.len(),
        |i: int|
            PlotPoint {
                x: waypoints[i].x,
                y: waypoints[i].y,
                glyph: waypoint_type_glyph(waypoints[i].waypoint_type),
                color: waypoint_type_color(waypoints[i].waypoint_type),
            },
    )
}

/// Build the plot entities of the waypoint map.
pub fn waypoint_plot_points(waypoints: &Vec<SystemWaypoint>) -> (pts: Vec<PlotPoint>)
    ensures
        pts@ == spec_waypoint_points(waypoints@),
{
    let mut pts: Vec<PlotPoint> = Vec::new();
    let mut i: usize = 0;
    while i < waypoints.len()
        invariant
            i <= waypoints@.len(),
            pts@.len() == i,
            forall|j: int| 0 <= j < i ==> pts@[j] == spec_waypoint_points(waypoints@)[j],
        decreases waypoints@.len() - i,
    {
        let t = waypoints[i].waypoint_type;
        pts.push(
            PlotPoint {
                x: waypoints[i].x,
                y: waypoints[i].y,
                glyph: get_waypoint_type_glyph(t),
                color: get_waypoint_type_color(t),
            },
        );
        i = i + 1;
    }
    proof {
        assert(pts@ =~= spec_waypoint_points(waypoints@));
    }
    pts
}

/// Render the waypoint map: the system's star as a yellow marker at world
/// (0, 0), every waypoint as its type glyph, and the selected waypoint's
/// glyph overdrawn in white.
pub fn render_waypoint_map(
    waypoints: &Vec<SystemWaypoint>,
    selected: Option<usize>,
    width: usize,
    height: usize,
) -> (g: Grid)
    requires
        waypoints.len() > 0,
        width * height <= usize::MAX,
    ensures
        g.wf(),
        g.width == width,
        g.height == height,
        forall|r: int, c: int|
            0 <= r < height && 0 <= c < width ==> #[trigger] g.cell(r, c) == plot_cell(
                spec_waypoint_points(waypoints@),
                selected,
                Some(Cell { glyph: '★', color: Color::Yellow }),
                HighlightStyle::Keep,
                spec_bounds(spec_waypoint_points(waypoints@)),
                width as int,
                height as int,
                r,
                c,
            ),
{
    let pts = waypoint_plot_points(waypoints);
    render_plot(
        &pts,
        selected,
        Some(Cell { glyph: '★', color: Color::Yellow }),
        HighlightStyle::Keep,
        width,
        height,
    )
}

// ---------------------------------------------------------------------------
// Waypoint detail
// ---------------------------------------------------------------------------

/// The fields the waypoint detail view shows: the waypoint itself, its
/// orbital bodies, and a summary of the system it belongs to.
#[derive(Clone, Debug, PartialEq)]
pub struct WaypointDetailInfo {
    pub symbol: String,
    pub waypoint_type: WaypointType,
    pub type_color: Color,
    pub x: i32,
    pub y: i32,
    pub orbits: Option<String>,
    pub orbital_symbols: Vec<String>,
    pub system_symbol: String,
    pub system_type: SystemType,
    pub system_type_color: Color,
    pub system_x: i32,
    pub system_y: i32,
    pub system_waypoint_count: usize,
}

/// The waypoint detail pane.
#[derive(Debug, PartialEq)]
pub enum WaypointDetailPane {
    NoSelection,
    Loading,
    MissingSystem,
    InvalidSelection,
    Detail(WaypointDetailInfo),
}

/// The displayed detail carries the selected waypoint's fields verbatim,
/// with the owning system's summary beside them.
pub open spec fn waypoint_detail_matches(d: WaypointDetailInfo, s: System, w: SystemWaypoint) -> bool {
    &&& d.symbol == w.symbol
    &&& d.waypoint_type == w.waypoint_type
    &&& d.type_color == waypoint_type_color(w.waypoint_type)
    &&& d.x == w.x
    &&& d.y == w.y
    &&& d.orbits == w.orbits
    &&& d.orbital_symbols.len() == w.orbitals.len()
    &&& (forall|i: int|
        0 <= i < w.orbitals.len() ==> #[trigger] d.orbital_symbols[i] == w.orbitals[i].symbol)
    &&& d.system_symbol == s.symbol
    &&& d.system_type == s.system_type
    &&& d.system_type_color == system_type_color(s.system_type)
    &&& d.system_x == s.x
    &&& d.system_y == s.y
    &&& d.system_waypoint_count == s.waypoints.len()
}

/// The one content the waypoint detail view shows for a given snapshot and
/// stored indices: the missing-index notice first; the invalid-selection
/// notice when the owning system's index is absent or stale, or when the
/// waypoint index is; else the waypoint's fields beside its system's
/// summary.
pub open spec fn waypoint_detail_pane_spec(
    systems: Option<Vec<System>>,
    selected_system: Option<usize>,
    selected_waypoint: Option<usize>,
    pane: WaypointDetailPane,
) -> bool {
    match selected_waypoint {
        None => pane is NoSelection,
        Some(wx) => match systems {
            None => pane is Loading,
            Some(v) => match selected_system {
                None => pane is MissingSystem,
                Some(sx) => if sx >= v.len() {
                    pane is MissingSystem
                } else if wx >= v[sx as int].waypoints.len() {
                    pane is InvalidSelection
                } else {
                    pane matches WaypointDetailPane::Detail(d) && waypoint_detail_matches(
                        d,
                        v[sx as int],
                        v[sx as int].waypoints[wx as int],
                    )
                },
            },
        },
    }
}

/// Content of the waypoint detail view. The missing-index guard comes
/// first; an absent or stale owning-system index is reported; a waypoint
/// index that outgrew the system's waypoint list yields the
/// invalid-selection notice rather than any out-of-range access.
pub fn render_waypoint_detail(
    systems: &Option<Vec<System>>,
    selected_system: Option<usize>,
    selected_waypoint: Option<usize>,
) -> (pane: WaypointDetailPane)
    ensures
        waypoint_detail_pane_spec(*systems, selected_system, selected_waypoint, pane),
{
    let wx = match selected_waypoint {
        None => {
            return WaypointDetailPane::NoSelection;
        },
        Some(wx) => wx,
    };
    match systems {
        None => WaypointDetailPane::Loading,
        Some(v) => {
            let sx = match selected_system {
                None => {
                    return WaypointDetailPane::MissingSystem;
                },
                Some(sx) => sx,
            };
            if sx >= v.len() {
                return WaypointDetailPane::MissingSystem;
            }
            let s = &v[sx];
            if wx >= s.waypoints.len() {
                return WaypointDetailPane::InvalidSelection;
            }
            let w = &s.waypoints[wx];
            let mut orbital_symbols: Vec<String> = Vec::new();
            let mut i: usize = 0;
            while i < w.orbitals.len()
                invariant
                    i <= w.orbitals@.len(),
                    orbital_symbols@.len() == i,
                    forall|j: int|
                        0 <= j < i ==> #[trigger] orbital_symbols@[j] == w.orbitals@[j].symbol,
                decreases w.orbitals@.len() - i,
            {
                orbital_symbols.push(w.orbitals[i].symbol.clone());
                i = i + 1;
            }
            let orbits = match &w.orbits {
                Some(o) => Some(o.clone()),
                None => None,
            };
            WaypointDetailPane::Detail(
                WaypointDetailInfo {
                    symbol: w.symbol.clone(),
                    waypoint_type: w.waypoint_type,
                    type_color: get_waypoint_type_color(w.waypoint_type),
                    x: w.x,
                    y: w.y,
                    orbits,
                    orbital_symbols,
                    system_symbol: s.symbol.clone(),
                    system_type: s.system_type,
                    system_type_color: get_system_type_color(s.system_type),
                    system_x: s.x,
                    system_y: s.y,
                    system_waypoint_count: s.waypoints.len(),
                },
            )
        },
    }
}

impl WaypointDetailPane {
    /// Placeholder or error text of the pane, when it shows one. A stale or
    /// absent owning-system index is itself an invalid selection and is
    /// reported, never silently ignored.
    pub fn message(&self) -> (m: Option<&'static str>)
        ensures
            *self is NoSelection ==> (m matches Some(t) && t@ == "No waypoint selected"@),
            *self is InvalidSelection ==> (m matches Some(t) && t@
                == "Invalid waypoint selection"@),
            *self is Loading ==> (m matches Some(t) && t@ == "Loading system data..."@),
            *self is MissingSystem ==> (m matches Some(t) && t@ == "Invalid system selection"@),
            *self is Detail ==> m is None,
    {
        match self {
            WaypointDetailPane::NoSelection => Some("No waypoint selected"),
            WaypointDetailPane::InvalidSelection => Some("Invalid waypoint selection"),
            WaypointDetailPane::Loading => Some("Loading system data..."),
            WaypointDetailPane::MissingSystem => Some("Invalid system selection"),
            WaypointDetailPane::Detail(_) => None,
        }
    }
}

// ---------------------------------------------------------------------------
// Markets, tab strip, status bar and help overlay
// ---------------------------------------------------------------------------

/// Heading of the static markets placeholder panel.
pub fn markets_heading() -> (m: &'static str)
    ensures
        m@ == "COMING SOON"@,
{
    "COMING SOON"
}

/// Body of the static markets placeholder panel.
pub fn markets_message() -> (m: &'static str)
    ensures
        m@ == "The Markets feature is under development and will be available in a future update."@,
{
    "The Markets feature is under development and will be available in a future update."
}

/// Footer of the static markets placeholder panel.
pub fn markets_footer() -> (m: &'static str)
    ensures
        m@ == "Stay tuned for trading capabilities!"@,
{
    "Stay tuned for trading capabilities!"
}

/// Title of the surrounding application frame.
pub fn app_title() -> (m: &'static str)
    ensures
        m@ == "Space Traders"@,
{
    "Space Traders"
}

/// The four top-level tab labels, in tab-cycle order.
pub fn tab_titles() -> (v: Vec<&'static str>)
    ensures
        v.len() == 4,
        v[0]@ == "Dashboard"@,
        v[1]@ == "Ships"@,
        v[2]@ == "Systems"@,
        v[3]@ == "Markets"@,
{
    let mut v: Vec<&'static str> = Vec::new();
    v.push("Dashboard");
    v.push("Ships");
    v.push("Systems");
    v.push("Markets");
    v
}

/// Height in rows of the tab strip at the top of the frame.
pub fn tab_strip_height() -> (h: u16)
    ensures
        h == 3,
{
    3
}

/// Height in rows of the bottom region: three rows for the one-line status
/// hint, nine when the help overlay is visible.
pub fn status_bar_height(help_visible: bool) -> (h: u16)
    ensures
        help_visible ==> h == 9,
        !help_visible ==> h == 3,
{
    if help_visible {
        9
    } else {
        3
    }
}

/// The one-line hint shown while the help overlay is hidden.
pub fn status_hint() -> (m: &'static str)
    ensures
        m@ == "Press h for help | q to quit | r to refresh | Enter to view details"@,
{
    "Press h for help | q to quit | r to refresh | Enter to view details"
}

/// The keybinding legend of the help overlay, one row per line.
pub fn help_lines() -> (v: Vec<&'static str>)
    ensures
        v.len() == 6,
        v[0]@ == "Keyboard Navigation"@,
        v[1]@ == ""@,
        v[2]@ == "q: Quit  r: Refresh  h: Toggle Help"@,
        v[3]@ == "Tab: Next tab  Shift+Tab: Previous tab"@,
        v[4]@ == "Enter: View details  Esc: Back from details"@,
        v[5]@ == "1-4: Switch tabs directly (1=Dashboard, 2=Ships, etc.)"@,
{
    let mut v: Vec<&'static str> = Vec::new();
    v.push("Keyboard Navigation");
    v.push("");
    v.push("q: Quit  r: Refresh  h: Toggle Help");
    v.push("Tab: Next tab  Shift+Tab: Previous tab");
    v.push("Enter: View details  Esc: Back from details");
    v.push("1-4: Switch tabs directly (1=Dashboard, 2=Ships, etc.)");
    v
}

} // verus!
