//! Colors and glyphs for the entities the dashboard draws. Every lookup is a
//! total function of the entity's category, so no category can ever fail to
//! render; categories outside the named ones fall back to a neutral gray.

use vstd::prelude::*;
use crate::models::{ShipNavStatus, ShipRole, SystemType, WaypointType};

verus! {

/// A terminal foreground color, named as terminal palettes name them.
/// `Reset` stands for the terminal's default.
#[derive(Clone, Copy, Debug, PartialEq, Eq, Structural)]
pub enum Color {
    Reset,
    White,
    Gray,
    DarkGray,
    Yellow,
    LightYellow,
    Green,
    LightGreen,
    Red,
    LightRed,
    Blue,
    LightBlue,
    Cyan,
    LightCyan,
    Magenta,
    LightMagenta,
}

/// Color of a ship in the fleet list, by its registered role.
pub open spec fn ship_role_color(role: ShipRole) -> Color {
    match role {
        ShipRole::Command => Color::Yellow,
        ShipRole::Excavator => Color::LightRed,
        ShipRole::Hauler => Color::Green,
        ShipRole::Interceptor => Color::Red,
        ShipRole::Explorer => Color::Blue,
        ShipRole::Transport => Color::Cyan,
        ShipRole::Carrier => Color::Magenta,
        ShipRole::Patrol => Color::LightBlue,
        ShipRole::Satellite => Color::LightCyan,
        ShipRole::Surveyor => Color::LightGreen,
        _ => Color::Gray,
    }
}

/// Color of a ship in the fleet list, by its registered role.
pub fn get_ship_role_color(role: ShipRole) -> (c: Color)
    ensures
        c == ship_role_color(role),
{
    match role {
        ShipRole::Command => Color::Yellow,
        ShipRole::Excavator => Color::LightRed,
        ShipRole::Hauler => Color::Green,
        ShipRole::Interceptor => Color::Red,
        ShipRole::Explorer => Color::Blue,
        ShipRole::Transport => Color::Cyan,
        ShipRole::Carrier => Color::Magenta,
        ShipRole::Patrol => Color::LightBlue,
        ShipRole::Satellite => Color::LightCyan,
        ShipRole::Surveyor => Color::LightGreen,
        _ => Color::Gray,
    }
}

/// Color of a star system, by its spectral type.
pub open spec fn system_type_color(t: SystemType) -> Color {
    match t {
        SystemType::NeutronStar => Color::Cyan,
        SystemType::RedStar => Color::Red,
        SystemType::OrangeStar => Color::LightRed,
        SystemType::BlueStar => Color::Blue,
        SystemType::YoungStar => Color::Yellow,
        SystemType::WhiteDwarf => Color::White,
        SystemType::BlackHole => Color::DarkGray,
        SystemType::Hypergiant => Color::Magenta,
        SystemType::Nebula => Color::LightMagenta,
        SystemType::Unstable => Color::LightYellow,
    }
}

/// Color of a star system, by its spectral type.
pub fn get_system_type_color(t: SystemType) -> (c: Color)
    ensures
        c == system_type_color(t),
{
    match t {
        SystemType::NeutronStar => Color::Cyan,
        SystemType::RedStar => Color::Red,
        SystemType::OrangeStar => Color::LightRed,
        SystemType::BlueStar => Color::Blue,
        SystemType::YoungStar => Color::Yellow,
        SystemType::WhiteDwarf => Color::White,
        SystemType::BlackHole => Color::DarkGray,
        SystemType::Hypergiant => Color::Magenta,
        SystemType::Nebula => Color::LightMagenta,
        SystemType::Unstable => Color::LightYellow,
    }
}

/// Color of a waypoint, by its category.
pub open spec fn waypoint_type_color(t: WaypointType) -> Color {
    match t {
        WaypointType::Planet => Color::Green,
        WaypointType::GasGiant => Color::LightRed,
        WaypointType::Moon => Color::White,
        WaypointType::OrbitalStation => Color::Blue,
        WaypointType::JumpGate => Color::Magenta,
        WaypointType::AsteroidField => Color::Yellow,
        WaypointType::Nebula => Color::LightMagenta,
        WaypointType::DebrisField => Color::DarkGray,
        _ => Color::Gray,
    }
}

/// Color of a waypoint, by its category.
pub fn get_waypoint_type_color(t: WaypointType) -> (c: Color)
    ensures
        c == waypoint_type_color(t),
{
    match t {
        WaypointType::Planet => Color::Green,
        WaypointType::GasGiant => Color::LightRed,
        WaypointType::Moon => Color::White,
        WaypointType::OrbitalStation => Color::Blue,
        WaypointType::JumpGate => Color::Magenta,
        WaypointType::AsteroidField => Color::Yellow,
        WaypointType::Nebula => Color::LightMagenta,
        WaypointType::DebrisField => Color::DarkGray,
        _ => Color::Gray,
    }
}

/// Map glyph of a waypoint, by its category.
pub open spec fn waypoint_type_glyph(t: WaypointType) -> char {
    match t {
        WaypointType::Planet => 'P',
        WaypointType::GasGiant => 'G',
        WaypointType::Moon => 'm',
        WaypointType::OrbitalStation => 'S',
        WaypointType::JumpGate => 'J',
        WaypointType::AsteroidField => '∗',
        WaypointType::Nebula => '≈',
        WaypointType::DebrisField => '⦿',
        _ => '•',
    }
}

/// Map glyph of a waypoint, by its category.
pub fn get_waypoint_type_glyph(t: WaypointType) -> (g: char)
    ensures
        g == waypoint_type_glyph(t),
{
    match t {
        WaypointType::Planet => 'P',
        WaypointType::GasGiant => 'G',
        WaypointType::Moon => 'm',
        WaypointType::OrbitalStation => 'S',
        WaypointType::JumpGate => 'J',
        WaypointType::AsteroidField => '∗',
        WaypointType::Nebula => '≈',
        WaypointType::DebrisField => '⦿',
        _ => '•',
    }
}

/// Color of a ship's navigation status line.
pub open spec fn nav_status_color(s: ShipNavStatus) -> Color {
    match s {
        ShipNavStatus::InTransit => Color::Yellow,
        ShipNavStatus::Docked => Color::Green,
        ShipNavStatus::InOrbit => Color::Blue,
    }
}

/// Color of a ship's navigation status line.
pub fn get_nav_status_color(s: ShipNavStatus) -> (c: Color)
    ensures
        c == nav_status_color(s),
{
    match s {
        ShipNavStatus::InTransit => Color::Yellow,
        ShipNavStatus::Docked => Color::Green,
        ShipNavStatus::InOrbit => Color::Blue,
    }
}

} // verus!
