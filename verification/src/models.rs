//! Plain data records for the game entities the dashboard shows: the agent,
//! the fleet's ships, star systems with their waypoints, and the shipyard and
//! contract records of the trading API. Each snapshot the UI holds is a value
//! of one of these types, fetched whole and replaced whole on refresh.

use vstd::prelude::*;

verus! {

/// Agent details.
#[derive(Clone, Debug, PartialEq)]
pub struct Agent {
    /// Account ID tied to this agent; present only on one's own agent.
    pub account_id: Option<String>,
    /// Symbol of the agent.
    pub symbol: String,
    /// The headquarters of the agent.
    pub headquarters: String,
    /// Credits available; negative when funds are overdrawn.
    pub credits: i64,
    /// The faction the agent started with.
    pub starting_faction: String,
    /// How many ships the agent owns.
    pub ship_count: i32,
}

impl Agent {
    /// Agent details.
    pub fn new(
        symbol: String,
        headquarters: String,
        credits: i64,
        starting_faction: String,
        ship_count: i32,
    ) -> (agent: Agent)
        ensures
            agent.account_id is None,
            agent.symbol == symbol,
            agent.headquarters == headquarters,
            agent.credits == credits,
            agent.starting_faction == starting_faction,
            agent.ship_count == ship_count,
    {
        Agent {
            account_id: None,
            symbol,
            headquarters,
            credits,
            starting_faction,
            ship_count,
        }
    }
}

/// The game server's status report shown on the dashboard.
#[derive(Clone, Debug, PartialEq)]
pub struct GameStatus {
    pub status: String,
    pub version: String,
    pub reset_date: String,
}

/// Type of contract.
#[derive(Clone, Copy, Debug, PartialEq, Eq, Structural)]
pub enum Type {
    Procurement,
    Transport,
    Shuttle,
}

impl Default for Type {
    fn default() -> (t: Type)
        ensures
            t == Type::Procurement,
    {
        Type::Procurement
    }
}

/// Payment terms of a contract.
#[derive(Clone, Debug, PartialEq)]
pub struct ContractPayment {
    pub on_accepted: i32,
    pub on_fulfilled: i32,
}

/// One good a contract asks to be delivered.
#[derive(Clone, Debug, PartialEq)]
pub struct ContractDeliverGood {
    pub trade_symbol: String,
    pub destination_symbol: String,
    pub units_required: i32,
    pub units_fulfilled: i32,
}

/// The terms a contract is to be fulfilled under.
#[derive(Clone, Debug, PartialEq)]
pub struct ContractTerms {
    pub deadline: String,
    pub payment: ContractPayment,
    pub deliver: Vec<ContractDeliverGood>,
}

/// Contract details.
#[derive(Clone, Debug, PartialEq)]
pub struct Contract {
    /// ID of the contract.
    pub id: String,
    /// The symbol of the faction this contract is for.
    pub faction_symbol: String,
    /// Type of contract.
    pub contract_type: Type,
    pub terms: Box<ContractTerms>,
    /// Whether the contract has been accepted by the agent.
    pub accepted: bool,
    /// Whether the contract has been fulfilled.
    pub fulfilled: bool,
    /// Deprecated in favor of `deadline_to_accept`.
    pub expiration: String,
    /// The time past which the contract can no longer be accepted.
    pub deadline_to_accept: Option<String>,
}

impl Contract {
    /// Contract details.
    pub fn new(
        id: String,
        faction_symbol: String,
        contract_type: Type,
        terms: ContractTerms,
        accepted: bool,
        fulfilled: bool,
        expiration: String,
    ) -> (c: Contract)
        ensures
            c.id == id,
            c.faction_symbol == faction_symbol,
            c.contract_type == contract_type,
            c.terms == terms,
            c.accepted == accepted,
            c.fulfilled == fulfilled,
            c.expiration == expiration,
            c.deadline_to_accept is None,
    {
        Contract {
            id,
            faction_symbol,
            contract_type,
            terms: Box::new(terms),
            accepted,
            fulfilled,
            expiration,
            deadline_to_accept: None,
        }
    }
}

/// A cooldown is a period of time in which a ship cannot perform certain
/// actions.
#[derive(Clone, Debug, PartialEq)]
pub struct Cooldown {
    /// The symbol of the ship that is on cooldown.
    pub ship_symbol: String,
    /// The total duration of the cooldown in seconds.
    pub total_seconds: i32,
    /// The remaining duration of the cooldown in seconds.
    pub remaining_seconds: i32,
    /// When the cooldown expires, in ISO 8601 format.
    pub expiration: Option<String>,
}

impl Cooldown {
    /// A cooldown is a period of time in which a ship cannot perform certain
    /// actions.
    pub fn new(ship_symbol: String, total_seconds: i32, remaining_seconds: i32) -> (c: Cooldown)
        ensures
            c.ship_symbol == ship_symbol,
            c.total_seconds == total_seconds,
            c.remaining_seconds == remaining_seconds,
            c.expiration is None,
    {
        Cooldown {
            ship_symbol,
            total_seconds,
            remaining_seconds,
            expiration: None,
        }
    }
}

/// The yield of a resource extraction.
#[derive(Clone, Debug, PartialEq)]
pub struct ExtractionYield {
    pub symbol: String,
    pub units: i32,
}

/// A resource extraction made by a ship.
#[derive(Clone, Debug, PartialEq)]
pub struct Extraction {
    pub ship_symbol: String,
    pub extraction_yield: ExtractionYield,
}

/// A ship's cargo hold: how much it can carry and how much it holds.
#[derive(Clone, Debug, PartialEq)]
pub struct ShipCargo {
    pub capacity: i32,
    pub units: i32,
}

/// An event affecting a ship's condition.
#[derive(Clone, Debug, PartialEq)]
pub struct ShipConditionEvent {
    pub symbol: String,
    pub component: String,
    pub name: String,
    pub description: String,
}

/// The payload returned when a ship extracts resources.
#[derive(Clone, Debug, PartialEq)]
pub struct ExtractResources201ResponseData {
    pub cooldown: Box<Cooldown>,
    pub extraction: Box<Extraction>,
    pub cargo: Box<ShipCargo>,
    pub events: Vec<ShipConditionEvent>,
}

impl ExtractResources201ResponseData {
    pub fn new(
        cooldown: Cooldown,
        extraction: Extraction,
        cargo: ShipCargo,
        events: Vec<ShipConditionEvent>,
    ) -> (d: ExtractResources201ResponseData)
        ensures
            d.cooldown == cooldown,
            d.extraction == extraction,
            d.cargo == cargo,
            d.events == events,
    {
        ExtractResources201ResponseData {
            cooldown: Box::new(cooldown),
            extraction: Box::new(extraction),
            cargo: Box::new(cargo),
            events,
        }
    }
}

/// The registered role of a ship.
#[derive(Clone, Copy, Debug, PartialEq, Eq, Structural)]
pub enum ShipRole {
    Fabricator,
    Harvester,
    Hauler,
    Interceptor,
    Excavator,
    Transport,
    Repair,
    Surveyor,
    Command,
    Carrier,
    Patrol,
    Satellite,
    Explorer,
    Refinery,
}

/// The public registration information of a ship.
#[derive(Clone, Debug, PartialEq)]
pub struct ShipRegistration {
    pub name: String,
    pub faction_symbol: String,
    pub role: ShipRole,
}

/// Whether a ship is in transit, parked in orbit, or docked.
#[derive(Clone, Copy, Debug, PartialEq, Eq, Structural)]
pub enum ShipNavStatus {
    InTransit,
    InOrbit,
    Docked,
}

/// One end of a ship's current route.
#[derive(Clone, Debug, PartialEq)]
pub struct ShipNavRouteWaypoint {
    pub symbol: String,
    pub x: i32,
    pub y: i32,
}

/// The route a ship is navigating.
#[derive(Clone, Debug, PartialEq)]
pub struct ShipNavRoute {
    pub origin: ShipNavRouteWaypoint,
    pub destination: ShipNavRouteWaypoint,
    pub arrival: String,
}

/// The navigation information of a ship.
#[derive(Clone, Debug, PartialEq)]
pub struct ShipNav {
    pub status: ShipNavStatus,
    pub waypoint_symbol: String,
    pub route: ShipNavRoute,
}

/// The frame of a ship.
#[derive(Clone, Debug, PartialEq)]
pub struct ShipFrame {
    pub symbol: String,
}

/// The reactor of a ship.
#[derive(Clone, Debug, PartialEq)]
pub struct ShipReactor {
    pub symbol: String,
}

/// The engine of a ship.
#[derive(Clone, Debug, PartialEq)]
pub struct ShipEngine {
    pub symbol: String,
}

/// The fuel tank of a ship.
#[derive(Clone, Debug, PartialEq)]
pub struct ShipFuel {
    pub current: i32,
    pub capacity: i32,
}

/// A module installed in a ship.
#[derive(Clone, Debug, PartialEq)]
pub struct ShipModule {
    pub symbol: String,
}

/// A mount installed on a ship.
#[derive(Clone, Debug, PartialEq)]
pub struct ShipMount {
    pub symbol: String,
}

/// One ship of the agent's fleet, as the fleet view shows it.
#[derive(Clone, Debug, PartialEq)]
pub struct Ship {
    pub symbol: String,
    pub registration: ShipRegistration,
    pub nav: ShipNav,
    pub frame: ShipFrame,
    pub engine: ShipEngine,
    pub fuel: ShipFuel,
    pub cargo: ShipCargo,
    pub modules: Vec<ShipModule>,
}

/// The model of a ship a shipyard offers.
#[derive(Clone, Copy, Debug, PartialEq, Eq, Structural)]
pub enum ShipType {
    ShipProbe,
    ShipMiningDrone,
    ShipSiphonDrone,
    ShipInterceptor,
    ShipLightHauler,
    ShipCommandFrigate,
    ShipExplorer,
    ShipHeavyFreighter,
    ShipLightShuttle,
    ShipOreHound,
    ShipRefiningFreighter,
    ShipSurveyor,
}

/// The activity level of a trade good.
#[derive(Clone, Copy, Debug, PartialEq, Eq, Structural)]
pub enum ActivityLevel {
    Weak,
    Growing,
    Strong,
    Restricted,
}

/// The supply level of a trade good.
#[derive(Clone, Copy, Debug, PartialEq, Eq, Structural)]
pub enum SupplyLevel {
    Scarce,
    Limited,
    Moderate,
    High,
    Abundant,
}

impl SupplyLevel {
    /// The upper-case wire name of the level, as the API spells it.
    pub fn as_text(&self) -> (r: &'static str)
        ensures
            *self == SupplyLevel::Scarce ==> r@ == "SCARCE"@,
            *self == SupplyLevel::Limited ==> r@ == "LIMITED"@,
            *self == SupplyLevel::Moderate ==> r@ == "MODERATE"@,
            *self == SupplyLevel::High ==> r@ == "HIGH"@,
            *self == SupplyLevel::Abundant ==> r@ == "ABUNDANT"@,
    {
        match self {
            SupplyLevel::Scarce => "SCARCE",
            SupplyLevel::Limited => "LIMITED",
            SupplyLevel::Moderate => "MODERATE",
            SupplyLevel::High => "HIGH",
            SupplyLevel::Abundant => "ABUNDANT",
        }
    }
}

impl Default for SupplyLevel {
    fn default() -> (s: SupplyLevel)
        ensures
            s == SupplyLevel::Scarce,
    {
        SupplyLevel::Scarce
    }
}

/// The crew a shipyard ship comes with.
#[derive(Clone, Debug, PartialEq)]
pub struct ShipyardShipCrew {
    pub required: i32,
    pub capacity: i32,
}

/// A ship offered for sale at a shipyard.
#[derive(Clone, Debug, PartialEq)]
pub struct ShipyardShip {
    pub ship_type: ShipType,
    pub name: String,
    pub description: String,
    pub supply: SupplyLevel,
    pub activity: Option<ActivityLevel>,
    pub purchase_price: i32,
    pub frame: Box<ShipFrame>,
    pub reactor: Box<ShipReactor>,
    pub engine: Box<ShipEngine>,
    pub modules: Vec<ShipModule>,
    pub mounts: Vec<ShipMount>,
    pub crew: Box<ShipyardShipCrew>,
}

impl ShipyardShip {
    pub fn new(
        ship_type: ShipType,
        name: String,
        description: String,
        supply: SupplyLevel,
        purchase_price: i32,
        frame: ShipFrame,
        reactor: ShipReactor,
        engine: ShipEngine,
        modules: Vec<ShipModule>,
        mounts: Vec<ShipMount>,
        crew: ShipyardShipCrew,
    ) -> (s: ShipyardShip)
        ensures
            s.ship_type == ship_type,
            s.name == name,
            s.description == description,
            s.supply == supply,
            s.activity is None,
            s.purchase_price == purchase_price,
            s.frame == frame,
            s.reactor == reactor,
            s.engine == engine,
            s.modules == modules,
            s.mounts == mounts,
            s.crew == crew,
    {
        ShipyardShip {
            ship_type,
            name,
            description,
            supply,
            activity: None,
            purchase_price,
            frame: Box::new(frame),
            reactor: Box::new(reactor),
            engine: Box::new(engine),
            modules,
            mounts,
            crew: Box::new(crew),
        }
    }
}

/// The spectral type of a star system.
#[derive(Clone, Copy, Debug, PartialEq, Eq, Structural)]
pub enum SystemType {
    NeutronStar,
    RedStar,
    OrangeStar,
    BlueStar,
    YoungStar,
    WhiteDwarf,
    BlackHole,
    Hypergiant,
    Nebula,
    Unstable,
}

/// The category of a waypoint within a system.
#[derive(Clone, Copy, Debug, PartialEq, Eq, Structural)]
pub enum WaypointType {
    Planet,
    GasGiant,
    Moon,
    OrbitalStation,
    JumpGate,
    AsteroidField,
    Asteroid,
    EngineeredAsteroid,
    AsteroidBase,
    Nebula,
    DebrisField,
    GravityWell,
    ArtificialGravityWell,
    FuelStation,
}

/// A body orbiting a waypoint.
#[derive(Clone, Debug, PartialEq)]
pub struct WaypointOrbital {
    pub symbol: String,
}

/// A waypoint of a star system, with its position within the system.
#[derive(Clone, Debug, PartialEq)]
pub struct SystemWaypoint {
    pub symbol: String,
    pub waypoint_type: WaypointType,
    pub x: i32,
    pub y: i32,
    /// The symbol of the parent body this waypoint orbits, if any.
    pub orbits: Option<String>,
    pub orbitals: Vec<WaypointOrbital>,
}

/// A faction present in a system.
#[derive(Clone, Debug, PartialEq)]
pub struct SystemFaction {
    pub symbol: String,
}

/// A star system, with its galactic position and its waypoints.
#[derive(Clone, Debug, PartialEq)]
pub struct System {
    pub symbol: String,
    pub system_type: SystemType,
    pub x: i32,
    pub y: i32,
    pub waypoints: Vec<SystemWaypoint>,
    pub factions: Vec<SystemFaction>,
}

} // verus!
