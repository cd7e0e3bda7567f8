use city_game_core::model::{CityScenario, CitySave, ExternalRevision, MetricTable, ScenarioProvenance, SCENARIO_SCHEMA_VERSION};
use city_game_core::progression::{ProgressionRule, ProgressionState, Requirement};
use city_game_core::rules::{RuleStatus, RuleSystem};

fn rule(id: &str, unlocks: &str, all: Vec<Requirement>) -> ProgressionRule {
    ProgressionRule { id: id.to_owned(), unlocks: unlocks.to_owned(), all }
}

fn metrics(pairs: &[(&str, i64)]) -> MetricTable {
    MetricTable::from_pairs(pairs.iter().map(|(k, v)| (k.to_string(), *v)).collect())
}

fn scenario() -> CityScenario {
    CityScenario {
        schema_version: SCENARIO_SCHEMA_VERSION,
        provenance: ScenarioProvenance {
            source_format: "fixture".to_owned(),
            source_name: "progression".to_owned(),
            source_sha256: "progression".to_owned(),
            parser: ExternalRevision { repository: "fixture".to_owned(), revision: "fixture".to_owned() },
        },
        roads: Vec::new(),
        buildings: Vec::new(),
        water: Vec::new(),
        land_use_areas: Vec::new(),
        transit_anchors: Vec::new(),
    }
}

#[test]
fn progression_is_order_independent_and_reaches_a_fixed_point() {
    let metrics = metrics(&[("population", 1_000)]);
    let rules = vec![
        rule("waste", "waste-management", vec![Requirement::SystemUnlocked { system: "basic-services".to_owned() }]),
        rule(
            "services",
            "basic-services",
            vec![Requirement::MetricAtLeast { metric: "population".to_owned(), value: 1_000 }],
        ),
    ];

    let mut forward = ProgressionState::default();
    let mut reverse = ProgressionState::default();
    forward.evaluate(&rules, &metrics);
    reverse.evaluate(&rules.iter().cloned().rev().collect::<Vec<_>>(), &metrics);

    assert_eq!(forward, reverse);
    assert!(forward.unlocked.contains_key("basic-services"));
    assert!(forward.unlocked.contains_key("waste-management"));
    assert!(forward.evaluate(&rules, &metrics).is_empty());
}

#[test]
fn unmet_metric_keeps_later_responsibility_locked() {
    let metrics = metrics(&[("population", 999)]);
    let rules = vec![rule(
        "waste",
        "waste-management",
        vec![Requirement::MetricAtLeast { metric: "population".to_owned(), value: 1_000 }],
    )];
    let mut state = ProgressionState::default();

    assert!(state.evaluate(&rules, &metrics).is_empty());
    assert!(!state.unlocked.contains_key("waste-management"));
}

#[test]
fn save_progression_evaluation_uses_ruleset_and_world_metrics() {
    let mut save = CitySave::new(scenario()).unwrap();
    save.world.metrics.insert_metric("population".to_owned(), 1_000);
    save.ruleset.progression.config.rules = vec![rule(
        "services",
        "basic-services",
        vec![Requirement::MetricAtLeast { metric: "population".to_owned(), value: 1_000 }],
    )];

    assert_eq!(save.evaluate_progression().unwrap(), vec!["basic-services".to_owned()]);
    assert!(save.world.progression.unlocked.contains_key("basic-services"));
    assert!(save.evaluate_progression().unwrap().is_empty());
}

#[test]
fn disabled_progression_is_a_simulation_noop() {
    let mut save = CitySave::new(scenario()).unwrap();
    save.ruleset.set_status(RuleSystem::Progression, RuleStatus::Disabled);
    save.ruleset.progression.config.rules = vec![rule("services", "basic-services", Vec::new())];
    let before = save.clone();

    assert!(save.evaluate_progression().unwrap().is_empty());
    assert_eq!(save, before);
}

#[test]
fn waves_unlock_in_name_order_and_chain_through_unlocked_systems() {
    let metrics = metrics(&[("population", 5), ("money", 10)]);
    let rules = vec![
        rule("c", "zeta", vec![Requirement::SystemUnlocked { system: "alpha".to_owned() }]),
        rule("b", "beta", vec![Requirement::MetricAtLeast { metric: "money".to_owned(), value: 10 }]),
        rule("a", "alpha", vec![Requirement::MetricAtLeast { metric: "population".to_owned(), value: 5 }]),
        rule("d", "never", vec![Requirement::MetricAtLeast { metric: "missing".to_owned(), value: 1 }]),
    ];
    let mut state = ProgressionState::new();
    let newly = state.evaluate(&rules, &metrics);
    assert_eq!(newly, vec!["alpha".to_owned(), "beta".to_owned(), "zeta".to_owned()]);
    assert_eq!(state.unlocked.len(), 3);
    assert!(!state.unlocked.contains_key("never"));
}

#[test]
fn a_missing_metric_counts_as_zero() {
    let metrics = metrics(&[]);
    let rules = vec![
        rule("zero", "free", vec![Requirement::MetricAtLeast { metric: "money".to_owned(), value: 0 }]),
        rule("neg", "negative", vec![Requirement::MetricAtLeast { metric: "money".to_owned(), value: -3 }]),
        rule("one", "paid", vec![Requirement::MetricAtLeast { metric: "money".to_owned(), value: 1 }]),
    ];
    let mut state = ProgressionState::new();
    let newly = state.evaluate(&rules, &metrics);
    assert_eq!(newly, vec!["free".to_owned(), "negative".to_owned()]);
}

#[test]
fn progression_in_a_save_rejects_an_invalid_ruleset() {
    let mut save = CitySave::new(scenario()).unwrap();
    save.ruleset.progression.config.rules = vec![rule("", "x", Vec::new())];
    let before = save.clone();
    assert!(save.evaluate_progression().is_err());
    assert_eq!(save, before);
}

#[test]
fn evaluation_keeps_what_was_unlocked_and_reports_only_new_systems() {
    let metrics = metrics(&[("population", 10)]);
    let rules = vec![
        rule("a", "alpha", Vec::new()),
        rule("b", "beta", vec![Requirement::MetricAtLeast { metric: "population".to_owned(), value: 10 }]),
    ];
    let mut state = ProgressionState::new();
    state.unlocked.insert("alpha".to_owned());
    state.unlocked.insert("legacy".to_owned());
    let newly = state.evaluate(&rules, &metrics);
    assert_eq!(newly, vec!["beta".to_owned()]);
    assert!(state.unlocked.contains_key("legacy"));
    assert!(state.unlocked.contains_key("alpha"));
    assert_eq!(state.unlocked.len(), 3);
}
