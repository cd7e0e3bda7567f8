use city_game_core::geometry::{Coordinate, Geometry};
use city_game_core::model::{
    BuildingUse, CityScenario, CitySave, ExternalRevision, ScenarioBuilding, ScenarioProvenance, SCENARIO_SCHEMA_VERSION,
};
use city_game_core::population::{PopulationError, PopulationRules};
use city_game_core::rules::{CityRuleset, RuleStatus, RuleSystem};
use city_game_core::time::{CitySaveError, CityTimeConfig, CityTimeError, CityTimePosition, DEFAULT_MINUTES_PER_TICK};

fn at(lon: f64, lat: f64) -> Coordinate {
    Coordinate { lon_bits: lon.to_bits(), lat_bits: lat.to_bits() }
}

fn scenario() -> CityScenario {
    CityScenario {
        schema_version: SCENARIO_SCHEMA_VERSION,
        provenance: ScenarioProvenance {
            source_format: "fixture".to_owned(),
            source_name: "time".to_owned(),
            source_sha256: "time".to_owned(),
            parser: ExternalRevision { repository: "fixture".to_owned(), revision: "fixture".to_owned() },
        },
        roads: Vec::new(),
        buildings: Vec::new(),
        water: Vec::new(),
        land_use_areas: Vec::new(),
        transit_anchors: Vec::new(),
    }
}

fn residential_building(id: &str, gross_floor_area_m2: u64) -> ScenarioBuilding {
    ScenarioBuilding {
        id: id.to_owned(),
        source_id: id.to_owned(),
        footprint: Geometry::Polygon {
            coordinates: vec![vec![at(8.0, 48.0), at(8.001, 48.0), at(8.001, 48.001), at(8.0, 48.0)]],
        },
        use_kind: BuildingUse::Residential,
        name: None,
        levels: Some(1),
        height_m_bits: Some(3.0f32.to_bits()),
        gross_floor_area_m2,
    }
}

#[test]
fn calendar_position_is_derived_from_tick_without_elapsed_time_state() {
    let config = CityTimeConfig::new(30).unwrap();
    let position = config.position(50).unwrap();

    assert_eq!(position.tick, 50);
    assert_eq!(position.day, 1);
    assert_eq!(position.minute_of_day, 60);
}

#[test]
fn batch_steps_equal_repeated_single_steps() {
    let config = CityTimeConfig::new(15).unwrap();
    let mut batch = CitySave::new_with_time_config(scenario(), config).unwrap();
    let mut repeated = batch.clone();

    let batch_position = batch.advance_fixed_steps(100).unwrap();
    let mut repeated_position = repeated.time_position().unwrap();
    for _ in 0..100 {
        repeated_position = repeated.advance_fixed_steps(1).unwrap();
    }

    assert_eq!(batch, repeated);
    assert_eq!(batch_position, repeated_position);
}

#[test]
fn fixed_step_batch_commits_once_without_rescanning_buildings() {
    let mut large = scenario();
    large.buildings = (0..4_096).map(|index| residential_building(&format!("building/{index}"), 9_000)).collect();
    let mut save = CitySave::new(large).unwrap();
    let before = save.clone();

    let position = save.advance_fixed_steps(1_000_000).unwrap();

    assert_eq!(position.tick, 1_000_000);
    assert_eq!(save.time_position().unwrap(), position);
    assert_eq!(save.scenario, before.scenario);
    assert_eq!(save.world.population, before.world.population);

    let unchanged = save.advance_fixed_steps(0).unwrap();
    assert_eq!(unchanged, position);
}

#[test]
fn invalid_configuration_and_overflow_fail_without_mutation() {
    assert_eq!(CityTimeConfig::new(7), Err(CityTimeError::InvalidMinutesPerTick(7)));

    let invalid = CityTimeConfig::from_stored(7);
    let mut invalid_save = CitySave::new(scenario()).unwrap();
    invalid_save.time = invalid;
    let before_invalid = invalid_save.clone();
    assert_eq!(
        invalid_save.advance_fixed_steps(1),
        Err(CitySaveError::Time(CityTimeError::InvalidMinutesPerTick(7)))
    );
    assert_eq!(invalid_save, before_invalid);

    let mut overflow_save = CitySave::new(scenario()).unwrap();
    overflow_save.world.tick = u64::MAX - 1;
    let before_overflow = overflow_save.clone();
    assert_eq!(overflow_save.advance_fixed_steps(2), Err(CitySaveError::Time(CityTimeError::TickOverflow)));
    assert_eq!(overflow_save, before_overflow);
}

#[test]
fn invalid_population_capacity_is_rejected_at_save_boundary() {
    let mut invalid = scenario();
    invalid.buildings =
        vec![residential_building("residential/1", u64::MAX), residential_building("residential/2", u64::MAX)];
    let mut ruleset = CityRuleset::default();
    ruleset.population.config = PopulationRules { residential_floor_area_m2_per_household: 1, ..PopulationRules::default() };

    assert_eq!(
        CitySave::new_with_config(invalid, CityTimeConfig::default(), ruleset),
        Err(CitySaveError::Population(PopulationError::CapacityOverflow))
    );
}

#[test]
fn disabled_population_rules_remain_valid_without_tick_revalidation() {
    let mut ruleset = CityRuleset::default();
    ruleset.set_status(RuleSystem::Population, RuleStatus::Disabled);
    ruleset.population.config.residential_floor_area_m2_per_household = 0;
    let mut save = CitySave::new_with_config(scenario(), CityTimeConfig::default(), ruleset).unwrap();

    assert_eq!(save.advance_fixed_steps(10).unwrap().tick, 10);
}

#[test]
fn default_clock_is_fifteen_minutes_per_tick() {
    let config = CityTimeConfig::default();
    assert_eq!(config.minutes_per_tick(), DEFAULT_MINUTES_PER_TICK);
    assert_eq!(config.validate(), Ok(()));
    assert_eq!(
        config.position(96).unwrap(),
        CityTimePosition { tick: 96, day: 1, minute_of_day: 0 }
    );
    assert_eq!(
        config.position(97).unwrap(),
        CityTimePosition { tick: 97, day: 1, minute_of_day: 15 }
    );
}

#[test]
fn every_divisor_of_a_day_is_a_valid_tick_length_and_nothing_else_is() {
    for minutes in 0..=1_500u16 {
        let valid = minutes != 0 && 1_440 % minutes == 0;
        assert_eq!(CityTimeConfig::new(minutes).is_ok(), valid, "minutes {minutes}");
        assert_eq!(CityTimeConfig::from_stored(minutes).validate().is_ok(), valid);
    }
}

#[test]
fn a_large_tick_keeps_day_and_minute_exact() {
    let config = CityTimeConfig::new(1_440).unwrap();
    let position = config.position(u64::MAX).unwrap();
    assert_eq!(position.day, u64::MAX);
    assert_eq!(position.minute_of_day, 0);
    let config = CityTimeConfig::new(1).unwrap();
    let position = config.position(u64::MAX).unwrap();
    assert_eq!(position.day, u64::MAX / 1_440);
    assert_eq!(position.minute_of_day, (u64::MAX % 1_440) as u16);
}

#[test]
fn advance_tick_moves_the_clock_by_one() {
    let mut save = CitySave::new(scenario()).unwrap();
    let first = save.advance_tick().unwrap();
    assert_eq!(first.tick, 1);
    assert_eq!(save.world.tick, 1);
    save.world.tick = u64::MAX;
    let before = save.clone();
    assert_eq!(save.advance_tick(), Err(CitySaveError::Time(CityTimeError::TickOverflow)));
    assert_eq!(save, before);
}

#[test]
fn new_save_refuses_an_invalid_clock() {
    assert_eq!(
        CitySave::new_with_time_config(scenario(), CityTimeConfig::from_stored(0)),
        Err(CitySaveError::Time(CityTimeError::InvalidMinutesPerTick(0)))
    );
}

#[test]
fn time_error_messages() {
    assert_eq!(
        CityTimeError::InvalidMinutesPerTick(7).message(),
        "city minutes per tick must be a non-zero divisor of 1440, got 7"
    );
    assert_eq!(CityTimeError::TickOverflow.message(), "city simulation tick overflow");
}
