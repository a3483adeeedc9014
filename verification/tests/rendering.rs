use space_traders_tui::models::{
    Agent, GameStatus, Ship, ShipCargo, ShipEngine, ShipFrame, ShipFuel, ShipModule, ShipNav,
    ShipNavRoute, ShipNavRouteWaypoint, ShipNavStatus, ShipRegistration, ShipRole, System,
    SystemFaction, SystemType, SystemWaypoint, WaypointOrbital, WaypointType,
};
use space_traders_tui::render::{
    help_lines, markets_heading, markets_message, render_dashboard, render_ship_detail,
    render_ships, render_status, render_system_detail, render_system_map, render_systems,
    render_waypoint_detail, render_waypoint_map, status_bar_height, status_hint, tab_titles,
    DashboardAgentPane, ShipDetailPane, ShipsPane, StatusPane, SystemDetailPane, SystemsPane,
    WaypointDetailPane, WaypointsPane,
};
use space_traders_tui::style::Color;

fn ship(symbol: &str, role: ShipRole) -> Ship {
    Ship {
        symbol: symbol.to_string(),
        registration: ShipRegistration {
            name: format!("{} name", symbol),
            faction_symbol: "COSMIC".to_string(),
            role,
        },
        nav: ShipNav {
            status: ShipNavStatus::Docked,
            waypoint_symbol: "X1-A1".to_string(),
            route: ShipNavRoute {
                origin: ShipNavRouteWaypoint { symbol: "X1-A1".to_string(), x: 0, y: 0 },
                destination: ShipNavRouteWaypoint { symbol: "X1-B2".to_string(), x: 5, y: 5 },
                arrival: "2024-01-01T00:00:00Z".to_string(),
            },
        },
        frame: ShipFrame { symbol: "FRAME_FRIGATE".to_string() },
        engine: ShipEngine { symbol: "ENGINE_ION_DRIVE_II".to_string() },
        fuel: ShipFuel { current: 400, capacity: 800 },
        cargo: ShipCargo { capacity: 60, units: 15 },
        modules: vec![
            ShipModule { symbol: "MODULE_CARGO_HOLD_I".to_string() },
            ShipModule { symbol: "MODULE_CREW_QUARTERS_I".to_string() },
        ],
    }
}

fn system(symbol: &str, x: i32, y: i32, waypoints: Vec<SystemWaypoint>) -> System {
    System {
        symbol: symbol.to_string(),
        system_type: SystemType::RedStar,
        x,
        y,
        waypoints,
        factions: vec![SystemFaction { symbol: "COSMIC".to_string() }],
    }
}

fn waypoint(symbol: &str, x: i32, y: i32) -> SystemWaypoint {
    SystemWaypoint {
        symbol: symbol.to_string(),
        waypoint_type: WaypointType::Planet,
        x,
        y,
        orbits: None,
        orbitals: vec![WaypointOrbital { symbol: format!("{}-M1", symbol) }],
    }
}

#[test]
fn dashboard_shows_loading_before_first_fetch() {
    let pane = render_dashboard(&None);
    assert!(matches!(pane, DashboardAgentPane::Loading));
    assert_eq!(pane.message(), Some("Loading agent data..."));
}

#[test]
fn dashboard_shows_agent_fields_verbatim() {
    // Starting with no data the dashboard shows the loading placeholder;
    // once the agent fetch resolves, its five fields appear verbatim.
    let agent = Agent::new(
        "TEST-1".to_string(),
        "X1-HQ".to_string(),
        100000,
        "COSMIC".to_string(),
        2,
    );
    let pane = render_dashboard(&Some(agent));
    match pane {
        DashboardAgentPane::Info(info) => {
            assert_eq!(info.symbol, "TEST-1");
            assert_eq!(info.credits, 100000);
            assert_eq!(info.headquarters, "X1-HQ");
            assert_eq!(info.starting_faction, "COSMIC");
            assert_eq!(info.ship_count, 2);
        }
        _ => panic!("expected agent info"),
    }
}

#[test]
fn status_pane_shows_welcome_then_fields() {
    assert!(matches!(render_status(&None), StatusPane::Welcome));
    let status = GameStatus {
        status: "online".to_string(),
        version: "v2".to_string(),
        reset_date: "2024-05-01".to_string(),
    };
    match render_status(&Some(status)) {
        StatusPane::Status(s) => {
            assert_eq!(s.status, "online");
            assert_eq!(s.version, "v2");
            assert_eq!(s.reset_date, "2024-05-01");
        }
        _ => panic!("expected status fields"),
    }
}

#[test]
fn ship_list_placeholders() {
    assert_eq!(render_ships(&None, Some(0)).message(), Some("Loading ships data..."));
    assert_eq!(render_ships(&Some(vec![]), Some(0)).message(), Some("No ships found"));
}

#[test]
fn ship_list_rows_follow_the_snapshot() {
    let ships = vec![ship("AGENT-1", ShipRole::Command), ship("AGENT-2", ShipRole::Hauler)];
    match render_ships(&Some(ships), Some(1)) {
        ShipsPane::List(entries, highlight) => {
            assert_eq!(entries.len(), 2);
            assert_eq!(entries[0].symbol, "AGENT-1");
            assert_eq!(entries[0].role_color, Color::Yellow);
            assert_eq!(entries[1].symbol, "AGENT-2");
            assert_eq!(entries[1].role_color, Color::Green);
            assert_eq!(highlight, Some(1));
        }
        _ => panic!("expected a ship list"),
    }
}

#[test]
fn system_list_rows_follow_the_snapshot() {
    let systems = vec![system("X1-S1", 3, -4, vec![])];
    match render_systems(&Some(systems), Some(0)) {
        SystemsPane::List(entries, highlight) => {
            assert_eq!(entries.len(), 1);
            assert_eq!(entries[0].symbol, "X1-S1");
            assert_eq!(entries[0].type_color, Color::Red);
            assert_eq!(entries[0].x, 3);
            assert_eq!(entries[0].y, -4);
            assert_eq!(highlight, Some(0));
        }
        _ => panic!("expected a system list"),
    }
    assert_eq!(render_systems(&None, None).message(), Some("Loading systems..."));
    assert_eq!(render_systems(&Some(vec![]), None).message(), Some("No systems found."));
}

#[test]
fn ship_detail_reports_missing_selection_first() {
    let pane = render_ship_detail(&None, None);
    assert!(matches!(pane, ShipDetailPane::NoSelection));
    assert_eq!(pane.message(), Some("No ship selected"));
}

#[test]
fn stale_ship_index_yields_invalid_selection() {
    // A snapshot of three ships with a stored index of five: the view
    // shows the invalid-selection notice instead of indexing out of range.
    let ships = vec![
        ship("A", ShipRole::Command),
        ship("B", ShipRole::Hauler),
        ship("C", ShipRole::Explorer),
    ];
    let pane = render_ship_detail(&Some(ships), Some(5));
    assert!(matches!(pane, ShipDetailPane::InvalidSelection));
    assert_eq!(pane.message(), Some("Invalid ship selection"));
}

#[test]
fn ship_detail_carries_the_ship_fields() {
    let ships = vec![ship("AGENT-1", ShipRole::Excavator)];
    match render_ship_detail(&Some(ships), Some(0)) {
        ShipDetailPane::Detail(d) => {
            assert_eq!(d.symbol, "AGENT-1");
            assert_eq!(d.role, ShipRole::Excavator);
            assert_eq!(d.role_color, Color::LightRed);
            assert_eq!(d.registration_name, "AGENT-1 name");
            assert_eq!(d.faction_symbol, "COSMIC");
            assert_eq!(d.frame_symbol, "FRAME_FRIGATE");
            assert_eq!(d.engine_symbol, "ENGINE_ION_DRIVE_II");
            assert_eq!(d.fuel_current, 400);
            assert_eq!(d.fuel_capacity, 800);
            assert_eq!(d.cargo_units, 15);
            assert_eq!(d.cargo_capacity, 60);
            assert_eq!(
                d.module_symbols,
                vec!["MODULE_CARGO_HOLD_I".to_string(), "MODULE_CREW_QUARTERS_I".to_string()]
            );
            assert_eq!(d.nav_status, ShipNavStatus::Docked);
            assert_eq!(d.nav_status_color, Color::Green);
            assert_eq!(d.waypoint_symbol, "X1-A1");
            assert_eq!(d.route_origin, "X1-A1");
            assert_eq!(d.route_destination, "X1-B2");
            assert_eq!(d.route_arrival, "2024-01-01T00:00:00Z");
        }
        _ => panic!("expected ship detail"),
    }
}

#[test]
fn ship_detail_loading_without_snapshot() {
    let pane = render_ship_detail(&None, Some(0));
    assert!(matches!(pane, ShipDetailPane::Loading));
    assert_eq!(pane.message(), Some("Loading ship data..."));
}

#[test]
fn stale_system_index_yields_invalid_selection() {
    let systems = vec![system("X1-S1", 0, 0, vec![])];
    let pane = render_system_detail(&Some(systems), Some(7), Some(0));
    assert!(matches!(pane, SystemDetailPane::InvalidSelection));
    assert_eq!(pane.message(), Some("Invalid system selection"));
}

#[test]
fn system_detail_carries_fields_and_waypoints() {
    let systems = vec![system(
        "X1-S1",
        2,
        9,
        vec![waypoint("X1-S1-W1", 1, 1), waypoint("X1-S1-W2", -3, 4)],
    )];
    match render_system_detail(&Some(systems), Some(0), Some(1)) {
        SystemDetailPane::Detail(d) => {
            assert_eq!(d.symbol, "X1-S1");
            assert_eq!(d.system_type, SystemType::RedStar);
            assert_eq!(d.type_color, Color::Red);
            assert_eq!(d.x, 2);
            assert_eq!(d.y, 9);
            assert_eq!(d.waypoint_count, 2);
            assert_eq!(d.faction_count, 1);
            match d.waypoints {
                WaypointsPane::List(entries, highlight) => {
                    assert_eq!(entries.len(), 2);
                    assert_eq!(entries[0].symbol, "X1-S1-W1");
                    assert_eq!(entries[1].symbol, "X1-S1-W2");
                    assert_eq!(entries[1].type_color, Color::Green);
                    assert_eq!(highlight, Some(1));
                }
                _ => panic!("expected waypoint rows"),
            }
        }
        _ => panic!("expected system detail"),
    }
}

#[test]
fn system_without_waypoints_reports_it() {
    let systems = vec![system("X1-S1", 0, 0, vec![])];
    match render_system_detail(&Some(systems), Some(0), None) {
        SystemDetailPane::Detail(d) => {
            assert_eq!(d.waypoints.message(), Some("No waypoints in this system"));
        }
        _ => panic!("expected system detail"),
    }
}

#[test]
fn waypoint_detail_guards_come_in_order() {
    let systems = vec![system("X1-S1", 0, 0, vec![waypoint("X1-S1-W1", 1, 1)])];
    assert!(matches!(
        render_waypoint_detail(&Some(systems.clone()), Some(0), None),
        WaypointDetailPane::NoSelection
    ));
    assert!(matches!(
        render_waypoint_detail(&None, Some(0), Some(0)),
        WaypointDetailPane::Loading
    ));
    let pane = render_waypoint_detail(&Some(systems.clone()), None, Some(0));
    assert!(matches!(pane, WaypointDetailPane::MissingSystem));
    assert_eq!(pane.message(), Some("Invalid system selection"));
    let pane = render_waypoint_detail(&Some(systems.clone()), Some(4), Some(0));
    assert!(matches!(pane, WaypointDetailPane::MissingSystem));
    assert_eq!(pane.message(), Some("Invalid system selection"));
    let pane = render_waypoint_detail(&Some(systems), Some(0), Some(9));
    assert!(matches!(pane, WaypointDetailPane::InvalidSelection));
    assert_eq!(pane.message(), Some("Invalid waypoint selection"));
}

#[test]
fn waypoint_detail_carries_waypoint_and_system_fields() {
    let mut w = waypoint("X1-S1-W2", -3, 4);
    w.orbits = Some("X1-S1-W1".to_string());
    let systems = vec![system("X1-S1", 2, 9, vec![waypoint("X1-S1-W1", 1, 1), w])];
    match render_waypoint_detail(&Some(systems), Some(0), Some(1)) {
        WaypointDetailPane::Detail(d) => {
            assert_eq!(d.symbol, "X1-S1-W2");
            assert_eq!(d.waypoint_type, WaypointType::Planet);
            assert_eq!(d.type_color, Color::Green);
            assert_eq!(d.x, -3);
            assert_eq!(d.y, 4);
            assert_eq!(d.orbits, Some("X1-S1-W1".to_string()));
            assert_eq!(d.orbital_symbols, vec!["X1-S1-W2-M1".to_string()]);
            assert_eq!(d.system_symbol, "X1-S1");
            assert_eq!(d.system_x, 2);
            assert_eq!(d.system_y, 9);
            assert_eq!(d.system_waypoint_count, 2);
        }
        _ => panic!("expected waypoint detail"),
    }
}

#[test]
fn map_panes_draw_dot_star_and_type_glyphs() {
    // System map: each system a filled-circle dot in its type color, the
    // selected one overdrawn by a white star.
    let systems = vec![system("X1-A", 0, 0, vec![]), system("X1-B", 10, 10, vec![])];
    let g = render_system_map(&systems, Some(1), 20, 10);
    assert_eq!(g.at(8, 0).glyph, '●');
    assert_eq!(g.at(8, 0).color, Color::Red);
    assert_eq!(g.at(0, 17).glyph, '★');
    assert_eq!(g.at(0, 17).color, Color::White);

    // Waypoint map: the system's star at world (0, 0) in yellow, each
    // waypoint as its type glyph in its type color.
    let mut asteroid = waypoint("X1-S1-W2", 6, 6);
    asteroid.waypoint_type = WaypointType::AsteroidField;
    let waypoints = vec![waypoint("X1-S1-W1", -5, -5), asteroid];
    let g = render_waypoint_map(&waypoints, None, 14, 7);
    assert_eq!(g.at(3, 5).glyph, '★');
    assert_eq!(g.at(3, 5).color, Color::Yellow);
    assert_eq!(g.at(5, 0).glyph, 'P');
    assert_eq!(g.at(5, 0).color, Color::Green);
    assert_eq!(g.at(0, 11).glyph, '∗');
    assert_eq!(g.at(0, 11).color, Color::Yellow);
}

#[test]
fn markets_panel_is_static() {
    assert_eq!(markets_heading(), "COMING SOON");
    assert_eq!(
        markets_message(),
        "The Markets feature is under development and will be available in a future update."
    );
}

#[test]
fn chrome_text_and_layout() {
    let titles = tab_titles();
    assert_eq!(titles, vec!["Dashboard", "Ships", "Systems", "Markets"]);
    assert_eq!(status_bar_height(false), 3);
    assert_eq!(status_bar_height(true), 9);
    assert_eq!(
        status_hint(),
        "Press h for help | q to quit | r to refresh | Enter to view details"
    );
    let help = help_lines();
    assert_eq!(help.len(), 6);
    assert_eq!(help[0], "Keyboard Navigation");
}
