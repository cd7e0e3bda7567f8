use city_game_core::population::PopulationError;
use city_game_core::progression::ProgressionRule;
use city_game_core::rules::{CityRuleset, RuleStatus, RuleSystem, RulesetError, RULESET_SCHEMA_VERSION};

#[test]
fn toggling_a_system_preserves_its_typed_configuration() {
    let mut ruleset = CityRuleset::default();
    ruleset.population.config.residential_floor_area_m2_per_household = 72;

    ruleset.set_status(RuleSystem::Population, RuleStatus::Disabled);
    assert!(!ruleset.is_enabled(RuleSystem::Population));
    assert_eq!(ruleset.population.config.residential_floor_area_m2_per_household, 72);

    ruleset.set_status(RuleSystem::Population, RuleStatus::Enabled);
    assert!(ruleset.is_enabled(RuleSystem::Population));
    assert_eq!(ruleset.population.config.residential_floor_area_m2_per_household, 72);
    assert_eq!(ruleset.validate(), Ok(()));
}

#[test]
fn duplicate_progression_rule_ids_fail_closed() {
    let rule = ProgressionRule { id: "waste".to_owned(), unlocks: "waste-management".to_owned(), all: Vec::new() };
    let mut ruleset = CityRuleset::default();
    ruleset.progression.config.rules = vec![rule.clone(), rule];

    assert_eq!(ruleset.validate(), Err(RulesetError::DuplicateProgressionRuleId("waste".to_owned())));
}

#[test]
fn invalid_typed_configuration_fails_even_while_disabled() {
    let mut ruleset = CityRuleset::default();
    ruleset.population.status = RuleStatus::Disabled;
    ruleset.population.config.residential_floor_area_m2_per_household = 0;

    assert!(matches!(ruleset.validate(), Err(RulesetError::Population(PopulationError::InvalidRule(_)))));
}

#[test]
fn default_ruleset_enables_every_system() {
    let ruleset = CityRuleset::default();
    assert_eq!(ruleset.schema_version, RULESET_SCHEMA_VERSION);
    for system in [RuleSystem::Planning, RuleSystem::Population, RuleSystem::Progression] {
        assert!(ruleset.is_enabled(system));
        assert_eq!(ruleset.status(system), RuleStatus::Enabled);
    }
    assert_eq!(RuleStatus::default(), RuleStatus::Enabled);
}

#[test]
fn unsupported_ruleset_schema_is_refused_first() {
    let mut ruleset = CityRuleset::default();
    ruleset.schema_version = RULESET_SCHEMA_VERSION + 1;
    ruleset.population.config.residential_floor_area_m2_per_household = 0;
    assert_eq!(ruleset.validate(), Err(RulesetError::UnsupportedSchemaVersion(RULESET_SCHEMA_VERSION + 1)));
}

#[test]
fn blank_rule_id_or_target_is_invalid() {
    let mut ruleset = CityRuleset::default();
    ruleset.progression.config.rules =
        vec![ProgressionRule { id: "  ".to_owned(), unlocks: "x".to_owned(), all: Vec::new() }];
    assert_eq!(ruleset.validate(), Err(RulesetError::InvalidProgressionRule));
    ruleset.progression.config.rules =
        vec![ProgressionRule { id: "x".to_owned(), unlocks: "\t".to_owned(), all: Vec::new() }];
    assert_eq!(ruleset.validate(), Err(RulesetError::InvalidProgressionRule));
}

#[test]
fn set_status_touches_only_the_named_system() {
    let mut ruleset = CityRuleset::default();
    ruleset.set_status(RuleSystem::Planning, RuleStatus::Disabled);
    assert!(!ruleset.is_enabled(RuleSystem::Planning));
    assert!(ruleset.is_enabled(RuleSystem::Population));
    assert!(ruleset.is_enabled(RuleSystem::Progression));
    assert!(!ruleset.planning.is_enabled());
}

#[test]
fn ruleset_error_messages() {
    assert_eq!(
        RulesetError::UnsupportedSchemaVersion(17).message(),
        "unsupported city ruleset schema version 17"
    );
    assert_eq!(
        RulesetError::InvalidProgressionRule.message(),
        "progression rule id and unlock target must be non-empty"
    );
    assert_eq!(
        RulesetError::DuplicateProgressionRuleId("waste".to_owned()).message(),
        "duplicate progression rule id waste"
    );
    assert_eq!(
        RulesetError::Population(PopulationError::CapacityOverflow).message(),
        "aggregate population capacity overflow"
    );
    assert_eq!(RuleSystem::Population.disabled_message_text(), "Population rules are disabled");
}
