use space_traders_tui::models::{
    Agent, Contract, ContractDeliverGood, ContractPayment, ContractTerms, Cooldown,
    ExtractResources201ResponseData, Extraction, ExtractionYield, ShipCargo,
    ShipConditionEvent, ShipEngine, ShipFrame, ShipModule, ShipMount, ShipReactor, ShipType,
    ShipyardShip, ShipyardShipCrew, SupplyLevel, Type,
};

#[test]
fn agent_constructor_fills_the_fields() {
    let a = Agent::new(
        "TEST-1".to_string(),
        "X1-HQ".to_string(),
        -50,
        "COSMIC".to_string(),
        3,
    );
    assert_eq!(a.account_id, None);
    assert_eq!(a.symbol, "TEST-1");
    assert_eq!(a.headquarters, "X1-HQ");
    assert_eq!(a.credits, -50);
    assert_eq!(a.starting_faction, "COSMIC");
    assert_eq!(a.ship_count, 3);
}

#[test]
fn contract_constructor_fills_the_fields() {
    let terms = ContractTerms {
        deadline: "2024-06-01".to_string(),
        payment: ContractPayment { on_accepted: 10, on_fulfilled: 90 },
        deliver: vec![ContractDeliverGood {
            trade_symbol: "IRON_ORE".to_string(),
            destination_symbol: "X1-A1".to_string(),
            units_required: 100,
            units_fulfilled: 0,
        }],
    };
    let c = Contract::new(
        "c-1".to_string(),
        "COSMIC".to_string(),
        Type::Transport,
        terms.clone(),
        false,
        false,
        "2024-05-01".to_string(),
    );
    assert_eq!(c.id, "c-1");
    assert_eq!(c.faction_symbol, "COSMIC");
    assert_eq!(c.contract_type, Type::Transport);
    assert_eq!(*c.terms, terms);
    assert!(!c.accepted);
    assert!(!c.fulfilled);
    assert_eq!(c.expiration, "2024-05-01");
    assert_eq!(c.deadline_to_accept, None);
}

#[test]
fn contract_type_defaults_to_procurement() {
    assert_eq!(Type::default(), Type::Procurement);
}

#[test]
fn cooldown_constructor_fills_the_fields() {
    let c = Cooldown::new("AGENT-1".to_string(), 60, 12);
    assert_eq!(c.ship_symbol, "AGENT-1");
    assert_eq!(c.total_seconds, 60);
    assert_eq!(c.remaining_seconds, 12);
    assert_eq!(c.expiration, None);
}

#[test]
fn extraction_payload_constructor_fills_the_fields() {
    let cooldown = Cooldown::new("AGENT-1".to_string(), 60, 60);
    let extraction = Extraction {
        ship_symbol: "AGENT-1".to_string(),
        extraction_yield: ExtractionYield { symbol: "IRON_ORE".to_string(), units: 7 },
    };
    let cargo = ShipCargo { capacity: 60, units: 7 };
    let events = vec![ShipConditionEvent {
        symbol: "REACTOR_OVERLOAD".to_string(),
        component: "REACTOR".to_string(),
        name: "Reactor overload".to_string(),
        description: "The reactor ran hot.".to_string(),
    }];
    let d = ExtractResources201ResponseData::new(
        cooldown.clone(),
        extraction.clone(),
        cargo.clone(),
        events.clone(),
    );
    assert_eq!(*d.cooldown, cooldown);
    assert_eq!(*d.extraction, extraction);
    assert_eq!(*d.cargo, cargo);
    assert_eq!(d.events, events);
}

#[test]
fn shipyard_ship_constructor_fills_the_fields() {
    let s = ShipyardShip::new(
        ShipType::ShipProbe,
        "Probe".to_string(),
        "A small probe.".to_string(),
        SupplyLevel::Moderate,
        25000,
        ShipFrame { symbol: "FRAME_PROBE".to_string() },
        ShipReactor { symbol: "REACTOR_SOLAR_I".to_string() },
        ShipEngine { symbol: "ENGINE_IMPULSE_DRIVE_I".to_string() },
        vec![ShipModule { symbol: "MODULE_CARGO_HOLD_I".to_string() }],
        vec![ShipMount { symbol: "MOUNT_SENSOR_ARRAY_I".to_string() }],
        ShipyardShipCrew { required: 0, capacity: 0 },
    );
    assert_eq!(s.ship_type, ShipType::ShipProbe);
    assert_eq!(s.name, "Probe");
    assert_eq!(s.description, "A small probe.");
    assert_eq!(s.supply, SupplyLevel::Moderate);
    assert_eq!(s.activity, None);
    assert_eq!(s.purchase_price, 25000);
    assert_eq!(s.frame.symbol, "FRAME_PROBE");
    assert_eq!(s.reactor.symbol, "REACTOR_SOLAR_I");
    assert_eq!(s.engine.symbol, "ENGINE_IMPULSE_DRIVE_I");
    assert_eq!(s.modules.len(), 1);
    assert_eq!(s.mounts.len(), 1);
    assert_eq!(s.crew.capacity, 0);
}

#[test]
fn supply_level_text_is_the_wire_name() {
    assert_eq!(SupplyLevel::Scarce.as_text(), "SCARCE");
    assert_eq!(SupplyLevel::Limited.as_text(), "LIMITED");
    assert_eq!(SupplyLevel::Moderate.as_text(), "MODERATE");
    assert_eq!(SupplyLevel::High.as_text(), "HIGH");
    assert_eq!(SupplyLevel::Abundant.as_text(), "ABUNDANT");
}

#[test]
fn supply_level_defaults_to_scarce() {
    assert_eq!(SupplyLevel::default(), SupplyLevel::Scarce);
}
