use city_game_core::geometry::{Coordinate, Geometry};
use city_game_core::model::{
    BuildingUse, CityScenario, CitySave, CityWorld, ExternalRevision, ScenarioBuilding, ScenarioProvenance,
    SAVE_SCHEMA_VERSION, SCENARIO_SCHEMA_VERSION,
};
use city_game_core::planning::{CityPlanningOverlay, PlanningCommand};
use city_game_core::population::{
    apply_basis_points, demand_pressure, PopulationCapacity, PopulationError, PopulationRules, PopulationState,
    RciDemand, MAX_DEMAND_PRESSURE,
};
use city_game_core::rules::CityRuleset;
use city_game_core::time::CityTimeConfig;

fn at(lon: f64, lat: f64) -> Coordinate {
    Coordinate { lon_bits: lon.to_bits(), lat_bits: lat.to_bits() }
}

fn building(id: &str, use_kind: BuildingUse, gross_floor_area_m2: u64) -> ScenarioBuilding {
    ScenarioBuilding {
        id: id.to_owned(),
        source_id: id.to_owned(),
        footprint: Geometry::Polygon {
            coordinates: vec![vec![at(8.0, 48.0), at(8.001, 48.0), at(8.001, 48.001), at(8.0, 48.0)]],
        },
        use_kind,
        name: None,
        levels: Some(1),
        height_m_bits: Some(3.0f32.to_bits()),
        gross_floor_area_m2,
    }
}

fn scenario() -> CityScenario {
    CityScenario {
        schema_version: SCENARIO_SCHEMA_VERSION,
        provenance: ScenarioProvenance {
            source_format: "fixture".to_owned(),
            source_name: "fixture".to_owned(),
            source_sha256: "fixture".to_owned(),
            parser: ExternalRevision { repository: "fixture".to_owned(), revision: "fixture".to_owned() },
        },
        roads: Vec::new(),
        buildings: vec![
            building("residential", BuildingUse::Residential, 9_000),
            building("commercial", BuildingUse::Commercial, 3_500),
            building("industrial", BuildingUse::Industrial, 6_000),
        ],
        water: Vec::new(),
        land_use_areas: Vec::new(),
        transit_anchors: Vec::new(),
    }
}

#[test]
fn canonical_building_stock_derives_stable_aggregate_baseline() {
    let rules = PopulationRules::default();
    let capacity = PopulationCapacity::from_scenario(&scenario(), rules).unwrap();
    let baseline = PopulationState::baseline_from_scenario(&scenario(), rules).unwrap();

    assert_eq!(capacity.households, 100);
    assert_eq!(capacity.commercial_jobs, 100);
    assert_eq!(capacity.industrial_jobs, 100);
    assert_eq!(baseline.households, 90);
    assert_eq!(baseline.commercial_jobs, 90);
    assert_eq!(baseline.industrial_jobs, 90);
    assert_eq!(baseline.demand(capacity, rules).unwrap(), RciDemand::default());
}

#[test]
fn redevelopment_reduces_capacity_without_deleting_occupants() {
    let rules = PopulationRules::default();
    let population = PopulationState::baseline_from_scenario(&scenario(), rules).unwrap();
    let mut save = CitySave {
        schema_version: SAVE_SCHEMA_VERSION,
        scenario: scenario(),
        time: CityTimeConfig::default(),
        ruleset: CityRuleset::default(),
        world: CityWorld { population, planning: CityPlanningOverlay::default(), ..CityWorld::default() },
    };

    save.apply_planning(PlanningCommand::SuppressScenarioEntity { id: "residential".to_owned() }).unwrap();

    assert_eq!(save.world.population, population);
    assert_eq!(save.developed_population_capacity().unwrap().households, 0);
    assert_eq!(save.rci_demand().unwrap().residential, MAX_DEMAND_PRESSURE);
}

#[test]
fn invalid_rules_fail_before_capacity_is_derived() {
    let rules = PopulationRules { residential_floor_area_m2_per_household: 0, ..PopulationRules::default() };

    assert!(matches!(PopulationCapacity::from_scenario(&scenario(), rules), Err(PopulationError::InvalidRule(_))));
}

#[test]
fn save_construction_returns_capacity_overflow() {
    let mut overflowing = scenario();
    overflowing.buildings = vec![
        building("residential/1", BuildingUse::Residential, u64::MAX),
        building("residential/2", BuildingUse::Residential, u64::MAX),
    ];
    let rules = PopulationRules { residential_floor_area_m2_per_household: 1, ..PopulationRules::default() };
    let population = PopulationState::baseline_from_scenario(&overflowing, rules);
    assert_eq!(population, Err(PopulationError::CapacityOverflow));

    overflowing.buildings = (0..100)
        .map(|index| building(&format!("residential/{index}"), BuildingUse::Residential, u64::MAX))
        .collect();
    assert_eq!(CitySave::new(overflowing), Err(PopulationError::CapacityOverflow));
}

#[test]
fn each_rule_is_checked_in_order_with_its_message() {
    let base = PopulationRules::default();
    assert_eq!(base.validate(), Ok(()));
    let cases = [
        (PopulationRules { residential_floor_area_m2_per_household: 0, ..base }, "residential floor area per household must be positive"),
        (PopulationRules { commercial_floor_area_m2_per_job: 0, ..base }, "commercial floor area per job must be positive"),
        (PopulationRules { industrial_floor_area_m2_per_job: 0, ..base }, "industrial floor area per job must be positive"),
        (
            PopulationRules { initial_occupancy_basis_points: 10_001, ..base },
            "initial occupancy must be between 0 and 10000 basis points",
        ),
        (
            PopulationRules { target_occupancy_basis_points: 10_001, ..base },
            "target occupancy must be between 0 and 10000 basis points",
        ),
    ];
    for (rules, text) in cases {
        assert_eq!(rules.validate(), Err(PopulationError::InvalidRule(text)));
        assert_eq!(PopulationError::InvalidRule(text).message(), text);
    }
    let both = PopulationRules { residential_floor_area_m2_per_household: 0, commercial_floor_area_m2_per_job: 0, ..base };
    assert_eq!(both.validate(), Err(PopulationError::InvalidRule("residential floor area per household must be positive")));
    assert_eq!(PopulationError::CapacityOverflow.message(), "aggregate population capacity overflow");
}

#[test]
fn basis_points_round_down_and_allow_shares_above_the_whole() {
    assert_eq!(apply_basis_points(100, 9_000), 90);
    assert_eq!(apply_basis_points(99, 5_000), 49);
    assert_eq!(apply_basis_points(u64::MAX, 10_000), u64::MAX);
    assert_eq!(apply_basis_points(7, 0), 0);
    assert_eq!(apply_basis_points(100, 20_000), 200);
}

#[test]
fn demand_pressure_is_relative_to_the_target_and_bounded() {
    assert_eq!(demand_pressure(0, 0, 9_000), 0);
    assert_eq!(demand_pressure(5, 0, 9_000), MAX_DEMAND_PRESSURE);
    assert_eq!(demand_pressure(90, 100, 9_000), 0);
    assert_eq!(demand_pressure(99, 100, 9_000), 1_000);
    assert_eq!(demand_pressure(45, 100, 9_000), -5_000);
    assert_eq!(demand_pressure(1_000, 100, 9_000), MAX_DEMAND_PRESSURE);
    assert_eq!(demand_pressure(0, 100, 9_000), -MAX_DEMAND_PRESSURE);
    assert_eq!(demand_pressure(0, 1, 0), -MAX_DEMAND_PRESSURE);
    assert_eq!(demand_pressure(1, 1, 0), 0);
    assert_eq!(demand_pressure(2, 1, 0), MAX_DEMAND_PRESSURE);
    assert_eq!(demand_pressure(89, 100, 9_000), -111);
}

#[test]
fn civic_and_other_buildings_hold_no_capacity() {
    let mut s = scenario();
    s.buildings.push(building("civic", BuildingUse::Civic, 1_000_000));
    s.buildings.push(building("farm", BuildingUse::Agricultural, 1_000_000));
    s.buildings.push(building("other", BuildingUse::Other, 1_000_000));
    let capacity = PopulationCapacity::from_scenario(&s, PopulationRules::default()).unwrap();
    assert_eq!(capacity, PopulationCapacity { households: 100, commercial_jobs: 100, industrial_jobs: 100 });
}

#[test]
fn save_reads_follow_the_ruleset_population_rules() {
    let save = CitySave::new(scenario()).unwrap();
    assert_eq!(save.validate_population_configuration(), Ok(()));
    assert_eq!(save.rci_demand(), Ok(RciDemand::default()));
    let mut broken = save.clone();
    broken.ruleset.population.config.industrial_floor_area_m2_per_job = 0;
    assert_eq!(
        broken.validate_population_configuration(),
        Err(PopulationError::InvalidRule("industrial floor area per job must be positive"))
    );
    assert!(broken.rci_demand().is_err());
}
