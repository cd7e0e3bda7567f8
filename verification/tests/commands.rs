use city_game_core::commands::{CityCommand, CityCommandError, CityCommandOutcome};
use city_game_core::geometry::{Coordinate, Geometry};
use city_game_core::model::{
    BuildingUse, CityScenario, CitySave, CityWorld, ExternalRevision, RoadClass, ScenarioBuilding, ScenarioProvenance,
    SCENARIO_SCHEMA_VERSION,
};
use city_game_core::planning::{PlannedRoad, PlanningCommand, PlanningError, PlanningOutcome};
use city_game_core::population::PopulationError;
use city_game_core::rules::{RuleStatus, RuleSystem, RulesetError, RULESET_SCHEMA_VERSION};
use city_game_core::progression::ProgressionRule;

fn at(lon: f64, lat: f64) -> Coordinate {
    Coordinate { lon_bits: lon.to_bits(), lat_bits: lat.to_bits() }
}

fn scenario() -> CityScenario {
    CityScenario {
        schema_version: SCENARIO_SCHEMA_VERSION,
        provenance: ScenarioProvenance {
            source_format: "fixture".to_owned(),
            source_name: "commands".to_owned(),
            source_sha256: "commands".to_owned(),
            parser: ExternalRevision { repository: "fixture".to_owned(), revision: "fixture".to_owned() },
        },
        roads: Vec::new(),
        buildings: Vec::new(),
        water: Vec::new(),
        land_use_areas: Vec::new(),
        transit_anchors: Vec::new(),
    }
}

#[test]
fn disabled_planning_rejects_write_without_mutation() {
    let mut save = CitySave::new(scenario()).unwrap();
    save.ruleset.set_status(RuleSystem::Planning, RuleStatus::Disabled);
    let before = save.clone();

    assert_eq!(
        save.execute(CityCommand::Planning { command: PlanningCommand::RemovePlayerRoad { id: "player/road/1".to_owned() } }),
        Err(CityCommandError::SystemDisabled(RuleSystem::Planning))
    );
    assert_eq!(save, before);
}

#[test]
fn restart_does_not_seed_population_when_population_is_disabled() {
    let mut save = CitySave::new(scenario()).unwrap();
    save.ruleset.set_status(RuleSystem::Population, RuleStatus::Disabled);
    save.ruleset.population.config.residential_floor_area_m2_per_household = 72;
    save.world.tick = 7;

    assert_eq!(save.execute(CityCommand::Restart).unwrap(), CityCommandOutcome::Restarted);
    assert_eq!(save.world, CityWorld::default());
    assert_eq!(save.ruleset.population.config.residential_floor_area_m2_per_household, 72);
}

#[test]
fn planning_command_goes_through_the_gateway() {
    let mut save = CitySave::new(scenario()).unwrap();
    let road = PlannedRoad {
        id: "player/road/1".to_owned(),
        geometry: Geometry::LineString { coordinates: vec![at(0.0, 0.0), at(1.0, 1.0)] },
        class: RoadClass::Residential,
        name: None,
    };
    let command = CityCommand::Planning { command: PlanningCommand::AddRoad { road } };
    assert_eq!(save.execute(command.clone()), Ok(CityCommandOutcome::Planning(PlanningOutcome::Applied)));
    assert_eq!(save.execute(command), Ok(CityCommandOutcome::Planning(PlanningOutcome::Unchanged)));
    let before = save.clone();
    assert_eq!(
        save.execute(CityCommand::Planning { command: PlanningCommand::RemoveZone { id: " ".to_owned() } }),
        Err(CityCommandError::Planning(PlanningError::InvalidId))
    );
    assert_eq!(save, before);
}

#[test]
fn invalid_population_rules_refuse_a_restart_while_population_runs() {
    let mut save = CitySave::new(scenario()).unwrap();
    save.ruleset.population.config.commercial_floor_area_m2_per_job = 0;
    let before = save.clone();
    assert_eq!(
        save.execute(CityCommand::Restart),
        Err(CityCommandError::Ruleset(RulesetError::Population(PopulationError::InvalidRule(
            "commercial floor area per job must be positive"
        ))))
    );
    assert_eq!(save, before);
}

#[test]
fn restart_with_population_enabled_seeds_the_baseline() {
    let mut s = scenario();
    s.buildings.push(ScenarioBuilding {
        id: "home".to_owned(),
        source_id: "home".to_owned(),
        footprint: Geometry::Point { coordinates: at(0.0, 0.0) },
        use_kind: BuildingUse::Residential,
        name: None,
        levels: None,
        height_m_bits: None,
        gross_floor_area_m2: 900,
    });
    let mut save = CitySave::new(s).unwrap();
    let baseline = save.world.population;
    assert_eq!(baseline.households, 9);
    save.world.tick = 40;
    save.world.population.households = 1;
    assert_eq!(save.execute(CityCommand::Restart), Ok(CityCommandOutcome::Restarted));
    assert_eq!(save.world.tick, 0);
    assert_eq!(save.world.population, baseline);
}

#[test]
fn command_errors_convert_and_describe_themselves() {
    assert_eq!(CityCommandError::from(PlanningError::InvalidId), CityCommandError::Planning(PlanningError::InvalidId));
    assert_eq!(
        CityCommandError::from(PopulationError::CapacityOverflow),
        CityCommandError::Population(PopulationError::CapacityOverflow)
    );
    assert_eq!(
        CityCommandError::from(RulesetError::InvalidProgressionRule),
        CityCommandError::Ruleset(RulesetError::InvalidProgressionRule)
    );
    assert_eq!(CityCommandError::SystemDisabled(RuleSystem::Planning).message(), "Planning rules are disabled");
    assert_eq!(
        CityCommandError::Planning(PlanningError::UnknownScenarioEntity("x".to_owned())).message(),
        "scenario entity x does not exist"
    );
}

#[test]
fn restart_reports_a_baseline_that_cannot_be_derived() {
    let mut save = CitySave::new(scenario()).unwrap();
    for index in 0..100 {
        save.scenario.buildings.push(ScenarioBuilding {
            id: format!("residential/{index}"),
            source_id: format!("residential/{index}"),
            footprint: Geometry::Point { coordinates: at(0.0, 0.0) },
            use_kind: BuildingUse::Residential,
            name: None,
            levels: None,
            height_m_bits: None,
            gross_floor_area_m2: u64::MAX,
        });
    }
    save.world.tick = 3;
    let before = save.clone();
    assert_eq!(
        save.execute(CityCommand::Restart),
        Err(CityCommandError::Population(PopulationError::CapacityOverflow))
    );
    assert_eq!(save, before);
}

#[test]
fn a_disabled_system_with_invalid_rules_does_not_block_planning() {
    let mut save = CitySave::new(scenario()).unwrap();
    save.ruleset.set_status(RuleSystem::Population, RuleStatus::Disabled);
    save.ruleset.population.config.residential_floor_area_m2_per_household = 0;
    save.ruleset.progression.config.rules = vec![ProgressionRule { id: " ".to_owned(), unlocks: "x".to_owned(), all: Vec::new() }];
    let before = save.clone();
    assert_eq!(
        save.execute(CityCommand::Planning { command: PlanningCommand::RemoveZone { id: "zone/1".to_owned() } }),
        Ok(CityCommandOutcome::Planning(PlanningOutcome::Unchanged))
    );
    assert_eq!(save, before);
    assert_eq!(save.execute(CityCommand::Restart), Ok(CityCommandOutcome::Restarted));
    assert_eq!(save.world, CityWorld::default());
}

#[test]
fn a_ruleset_of_another_schema_refuses_every_command() {
    let mut save = CitySave::new(scenario()).unwrap();
    save.ruleset.schema_version = RULESET_SCHEMA_VERSION + 1;
    let before = save.clone();
    assert_eq!(
        save.execute(CityCommand::Planning { command: PlanningCommand::RemoveZone { id: "zone/1".to_owned() } }),
        Err(CityCommandError::Ruleset(RulesetError::UnsupportedSchemaVersion(RULESET_SCHEMA_VERSION + 1)))
    );
    assert_eq!(save.execute(CityCommand::Restart).is_err(), true);
    assert_eq!(save, before);
}
