use city_game_core::model::{CityScenario, CitySave, ExternalRevision, ScenarioProvenance, SCENARIO_SCHEMA_VERSION};
use city_game_core::population::{PopulationError, RciDemand};
use city_game_core::queries::CityQueryError;
use city_game_core::rules::{RuleStatus, RuleSystem};

fn scenario() -> CityScenario {
    CityScenario {
        schema_version: SCENARIO_SCHEMA_VERSION,
        provenance: ScenarioProvenance {
            source_format: "fixture".to_owned(),
            source_name: "queries".to_owned(),
            source_sha256: "queries".to_owned(),
            parser: ExternalRevision { repository: "fixture".to_owned(), revision: "fixture".to_owned() },
        },
        roads: Vec::new(),
        buildings: Vec::new(),
        water: Vec::new(),
        land_use_areas: Vec::new(),
        transit_anchors: Vec::new(),
    }
}

#[test]
fn disabled_population_is_explicit_on_read_side() {
    let mut save = CitySave::new(scenario()).unwrap();
    save.ruleset.set_status(RuleSystem::Population, RuleStatus::Disabled);

    assert_eq!(save.queries().rci_demand(), Err(CityQueryError::SystemDisabled(RuleSystem::Population)));
    assert_eq!(save.queries().population_state(), Err(CityQueryError::SystemDisabled(RuleSystem::Population)));
    assert_eq!(save.queries().rule_status(RuleSystem::Population), RuleStatus::Disabled);
}

#[test]
fn immutable_configuration_and_unrelated_reads_remain_available() {
    let mut save = CitySave::new(scenario()).unwrap();
    save.ruleset.set_status(RuleSystem::Population, RuleStatus::Disabled);

    assert_eq!(save.queries().time_position().unwrap().tick, 0);
    assert!(save.queries().effective_roads().is_empty());
    assert_eq!(save.queries().scenario().provenance.source_name, "queries");
    assert_eq!(save.queries().ruleset().population.status, RuleStatus::Disabled);
    assert!(save.queries().planning().zones.is_empty());
    assert!(save.queries().metrics().is_empty());
}

#[test]
fn enabled_population_reads_come_from_the_world() {
    let mut save = CitySave::new(scenario()).unwrap();
    assert_eq!(save.queries().population_state(), Ok(save.world.population));
    assert_eq!(save.queries().rci_demand(), Ok(RciDemand::default()));
    assert_eq!(save.queries().developed_population_capacity().unwrap().households, 0);
    save.ruleset.population.config.residential_floor_area_m2_per_household = 0;
    assert!(matches!(save.queries().rci_demand(), Err(CityQueryError::Population(PopulationError::InvalidRule(_)))));
}

#[test]
fn unlocked_systems_are_visible_through_queries() {
    let mut save = CitySave::new(scenario()).unwrap();
    assert!(!save.queries().system_unlocked("basic-services"));
    save.world.progression.unlocked.insert("basic-services".to_owned());
    assert!(save.queries().system_unlocked("basic-services"));
}

#[test]
fn query_errors_convert_and_describe_themselves() {
    assert_eq!(
        CityQueryError::from(PopulationError::CapacityOverflow),
        CityQueryError::Population(PopulationError::CapacityOverflow)
    );
    assert_eq!(CityQueryError::SystemDisabled(RuleSystem::Progression).message(), "Progression rules are disabled");
    assert_eq!(
        CityQueryError::Population(PopulationError::CapacityOverflow).message(),
        "aggregate population capacity overflow"
    );
}
