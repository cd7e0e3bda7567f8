//! The ruleset: which simulation systems are enabled, and their typed configuration.
use vstd::prelude::*;

use crate::population::{PopulationError, PopulationRules};
use crate::progression::ProgressionRule;
use crate::table::KeyedTable;
use crate::text::{decimal, decimal_text, is_blank, is_blank_text};

verus! {

pub const RULESET_SCHEMA_VERSION: u32 = 2;

#[derive(Debug, Clone, Copy, PartialEq, Eq, Hash, Structural)]
pub enum RuleSystem {
    Planning,
    Population,
    Progression,
}

impl RuleSystem {
    /// The system's name as `{:?}` writes it.
    pub open spec fn label(self) -> Seq<char> {
        match self {
            RuleSystem::Planning => "Planning"@,
            RuleSystem::Population => "Population"@,
            RuleSystem::Progression => "Progression"@,
        }
    }

    pub fn label_text(&self) -> (r: String)
        ensures
            r@ == self.label(),
    {
        match self {
            RuleSystem::Planning => String::from_str("Planning"),
            RuleSystem::Population => String::from_str("Population"),
            RuleSystem::Progression => String::from_str("Progression"),
        }
    }

    /// The message for a request that needs this system while it is disabled.
    pub open spec fn disabled_message(self) -> Seq<char> {
        self.label() + " rules are disabled"@
    }

    pub fn disabled_message_text(&self) -> (r: String)
        ensures
            r@ == self.disabled_message(),
    {
        let mut out = self.label_text();
        out.append(" rules are disabled");
        out
    }
}

#[derive(Debug, Clone, Copy, PartialEq, Eq, Hash, Structural)]
pub enum RuleStatus {
    Disabled,
    Enabled,
}

impl Default for RuleStatus {
    fn default() -> (r: Self)
        ensures
            r == RuleStatus::Enabled,
    {
        RuleStatus::Enabled
    }
}

/// A system's status together with its configuration, which survives toggling.
#[derive(Debug, Clone, PartialEq, Eq)]
pub struct RuleModule<T> {
    pub status: RuleStatus,
    pub config: T,
}

impl<T> RuleModule<T> {
    pub fn is_enabled(&self) -> (r: bool)
        ensures
            r == (self.status == RuleStatus::Enabled),
    {
        match self.status {
            RuleStatus::Enabled => true,
            RuleStatus::Disabled => false,
        }
    }
}

#[derive(Debug, Clone, Copy, PartialEq, Eq, Structural)]
pub struct PlanningRules {}

#[derive(Debug, Clone, PartialEq, Eq)]
pub struct ProgressionRules {
    pub rules: Vec<ProgressionRule>,
}

#[derive(Debug, Clone, PartialEq, Eq)]
pub struct CityRuleset {
    pub schema_version: u32,
    pub planning: RuleModule<PlanningRules>,
    pub population: RuleModule<PopulationRules>,
    pub progression: RuleModule<ProgressionRules>,
}

#[derive(Debug, Clone, PartialEq, Eq)]
pub enum RulesetError {
    UnsupportedSchemaVersion(u32),
    Population(PopulationError),
    InvalidProgressionRule,
    DuplicateProgressionRuleId(String),
}

impl RulesetError {
    /// The error's message.
    pub open spec fn spec_message(self) -> Seq<char> {
        match self {
            RulesetError::UnsupportedSchemaVersion(version) => "unsupported city ruleset schema version "@
                + decimal(version as nat),
            RulesetError::Population(error) => error.spec_message(),
            RulesetError::InvalidProgressionRule => "progression rule id and unlock target must be non-empty"@,
            RulesetError::DuplicateProgressionRuleId(id) => "duplicate progression rule id "@ + id@,
        }
    }

    pub fn message(&self) -> (r: String)
        ensures
            r@ == self.spec_message(),
    {
        match self {
            RulesetError::UnsupportedSchemaVersion(version) => {
                let mut out = String::from_str("unsupported city ruleset schema version ");
                let number = decimal_text(*version as u64);
                out.append(number.as_str());
                out
            },
            RulesetError::Population(error) => error.message(),
            RulesetError::InvalidProgressionRule => String::from_str(
                "progression rule id and unlock target must be non-empty",
            ),
            RulesetError::DuplicateProgressionRuleId(id) => {
                let mut out = String::from_str("duplicate progression rule id ");
                out.append(id.as_str());
                out
            },
        }
    }
}

/// Rule `i` has a blank id or unlock target, or repeats the id of an earlier rule.
pub open spec fn rule_fault(rules: Seq<ProgressionRule>, i: int) -> bool {
    ||| is_blank(rules[i].id@)
    ||| is_blank(rules[i].unlocks@)
    ||| exists|j: int| 0 <= j < i && #[trigger] rules[j].id@ == rules[i].id@
}

/// Rule `f` is the first rule at fault.
pub open spec fn first_fault(rules: Seq<ProgressionRule>, f: int) -> bool {
    &&& 0 <= f < rules.len()
    &&& rule_fault(rules, f)
    &&& forall|k: int| 0 <= k < f ==> !#[trigger] rule_fault(rules, k)
}

impl CityRuleset {
    pub open spec fn spec_status(&self, system: RuleSystem) -> RuleStatus {
        match system {
            RuleSystem::Planning => self.planning.status,
            RuleSystem::Population => self.population.status,
            RuleSystem::Progression => self.progression.status,
        }
    }

    /// This ruleset with `system`'s status set to `status`.
    pub open spec fn with_status(self, system: RuleSystem, status: RuleStatus) -> CityRuleset {
        match system {
            RuleSystem::Planning => CityRuleset {
                planning: RuleModule { status, ..self.planning },
                ..self
            },
            RuleSystem::Population => CityRuleset {
                population: RuleModule { status, ..self.population },
                ..self
            },
            RuleSystem::Progression => CityRuleset {
                progression: RuleModule { status, ..self.progression },
                ..self
            },
        }
    }

    pub open spec fn spec_enabled(&self, system: RuleSystem) -> bool {
        self.spec_status(system) == RuleStatus::Enabled
    }

    /// The ruleset that a new save starts from: every system enabled, default
    /// population rules, no progression rules.
    pub open spec fn is_default(&self) -> bool {
        &&& self.schema_version == RULESET_SCHEMA_VERSION
        &&& self.planning.status == RuleStatus::Enabled
        &&& self.population.status == RuleStatus::Enabled
        &&& self.population.config == PopulationRules::spec_default()
        &&& self.progression.status == RuleStatus::Enabled
        &&& self.progression.config.rules@.len() == 0
    }

    /// What validation answers: `Ok` exactly when the schema version is the
    /// supported one, the population rules are valid and no progression rule is
    /// at fault; otherwise the first problem met, checked in that order.
    pub open spec fn validation_outcome(&self, r: Result<(), RulesetError>) -> bool {
        let rules = self.progression.config.rules@;
        &&& (r is Ok <==> {
            &&& self.schema_version == RULESET_SCHEMA_VERSION
            &&& self.population.config.is_valid()
            &&& forall|i: int| 0 <= i < rules.len() ==> !#[trigger] rule_fault(rules, i)
        })
        &&& (self.schema_version != RULESET_SCHEMA_VERSION ==> r == Err::<(), _>(
            RulesetError::UnsupportedSchemaVersion(self.schema_version),
        ))
        &&& (self.schema_version == RULESET_SCHEMA_VERSION && !self.population.config.is_valid()
            ==> r == Err::<(), _>(
            RulesetError::Population(self.population.config.spec_validate()->Err_0),
        ))
        &&& (forall|f: int|
            self.schema_version == RULESET_SCHEMA_VERSION && self.population.config.is_valid()
                && #[trigger] first_fault(rules, f) ==> {
                if is_blank(rules[f].id@) || is_blank(rules[f].unlocks@) {
                    r == Err::<(), _>(RulesetError::InvalidProgressionRule)
                } else {
                    r matches Err(RulesetError::DuplicateProgressionRuleId(id)) && id@
                        == rules[f].id@
                }
            })
    }

    pub fn is_enabled(&self, system: RuleSystem) -> (r: bool)
        ensures
            r == self.spec_enabled(system),
    {
        match self.status(system) {
            RuleStatus::Enabled => true,
            RuleStatus::Disabled => false,
        }
    }

    pub fn status(&self, system: RuleSystem) -> (r: RuleStatus)
        ensures
            r == self.spec_status(system),
    {
        match system {
            RuleSystem::Planning => self.planning.status,
            RuleSystem::Population => self.population.status,
            RuleSystem::Progression => self.progression.status,
        }
    }

    /// Sets one system's status; configurations and the other statuses stay.
    pub fn set_status(&mut self, system: RuleSystem, status: RuleStatus)
        ensures
            final(self).schema_version == old(self).schema_version,
            final(self).planning.config == old(self).planning.config,
            final(self).population.config == old(self).population.config,
            final(self).progression.config == old(self).progression.config,
            final(self).spec_status(system) == status,
            forall|other: RuleSystem|
                other != system ==> #[trigger] final(self).spec_status(other) == old(self).spec_status(other),
            *final(self) == old(self).with_status(system, status),
    {
        match system {
            RuleSystem::Planning => self.planning.status = status,
            RuleSystem::Population => self.population.status = status,
            RuleSystem::Progression => self.progression.status = status,
        }
    }

    /// Validation, failing closed on the first problem met. Configurations are
    /// checked whether or not their system is enabled.
    pub fn validate(&self) -> (r: Result<(), RulesetError>)
        ensures
            self.validation_outcome(r),
    {
        if self.schema_version != RULESET_SCHEMA_VERSION {
            return Err(RulesetError::UnsupportedSchemaVersion(self.schema_version));
        }
        if let Err(e) = self.population.config.validate() {
            return Err(RulesetError::Population(e));
        }
        let rules = &self.progression.config.rules;
        let mut ids: KeyedTable<String> = KeyedTable::new();
        let mut i: usize = 0;
        while i < rules.len()
            invariant
                0 <= i <= rules@.len(),
                rules@ == self.progression.config.rules@,
                self.schema_version == RULESET_SCHEMA_VERSION,
                self.population.config.is_valid(),
                forall|k: int| 0 <= k < i ==> !#[trigger] rule_fault(rules@, k),
                forall|q: Seq<char>|
                    #[trigger] ids.spec_has(q) <==> exists|j: int| 0 <= j < i && rules@[j].id@ == q,
            decreases rules@.len() - i,
        {
            let rule = &rules[i];
            if is_blank_text(rule.id.as_str()) || is_blank_text(rule.unlocks.as_str()) {
                proof {
                    assert(rule_fault(rules@, i as int));
                    assert(first_fault(rules@, i as int));
                }
                return Err(RulesetError::InvalidProgressionRule);
            }
            if ids.contains_key(rule.id.as_str()) {
                proof {
                    let j = choose|j: int| 0 <= j < i && rules@[j].id@ == rule.id@;
                    assert(rules@[j].id@ == rules@[i as int].id@);
                    assert(rule_fault(rules@, i as int));
                    assert(first_fault(rules@, i as int));
                    assert forall|f: int|
                        first_fault(rules@, f) implies f == i && !is_blank(rules@[f].id@) && !is_blank(
                        rules@[f].unlocks@,
                    ) by {
                        if f < i {
                        } else if f > i {
                            assert(!rule_fault(rules@, i as int));
                        }
                    }
                }
                return Err(RulesetError::DuplicateProgressionRuleId(rule.id.clone()));
            }
            let ghost before = ids;
            ids.insert(rule.id.clone());
            proof {
                assert(!rule_fault(rules@, i as int)) by {
                    if exists|j: int| 0 <= j < i && #[trigger] rules@[j].id@ == rules@[i as int].id@ {
                        let j = choose|j: int|
                            0 <= j < i && #[trigger] rules@[j].id@ == rules@[i as int].id@;
                        assert(before.spec_has(rules@[j].id@));
                    }
                }
                assert forall|q: Seq<char>| #[trigger]
                    ids.spec_has(q) <==> exists|j: int| 0 <= j < i + 1 && rules@[j].id@ == q by {
                    assert(ids.spec_has(q) <==> ids.spec_lookup(q) is Some);
                    assert(before.spec_has(q) <==> before.spec_lookup(q) is Some);
                    if q == rules@[i as int].id@ {
                        assert(ids.spec_lookup(q) is Some);
                    } else {
                        assert(ids.spec_lookup(q) == before.spec_lookup(q));
                        if exists|j: int| 0 <= j < i + 1 && rules@[j].id@ == q {
                            let j = choose|j: int| 0 <= j < i + 1 && rules@[j].id@ == q;
                            assert(j < i);
                        }
                    }
                }
            }
            i = i + 1;
        }
        Ok(())
    }
}

impl Default for CityRuleset {
    fn default() -> (r: Self)
        ensures
            r.is_default(),
    {
        CityRuleset {
            schema_version: RULESET_SCHEMA_VERSION,
            planning: RuleModule { status: RuleStatus::Enabled, config: PlanningRules {  } },
            population: RuleModule {
                status: RuleStatus::Enabled,
                config: PopulationRules::default(),
            },
            progression: RuleModule {
                status: RuleStatus::Enabled,
                config: ProgressionRules { rules: Vec::new() },
            },
        }
    }
}

/// Disabling or enabling a system and then setting its status back gives the
/// ruleset it started from: a toggle keeps every typed configuration.
pub proof fn law_status_toggle_restores_ruleset(
    ruleset: CityRuleset,
    system: RuleSystem,
    status: RuleStatus,
)
    ensures
        ruleset.with_status(system, status).with_status(system, ruleset.spec_status(system))
            == ruleset,
        ruleset.with_status(system, status).spec_status(system) == status,
{
}

/// Progression rules with non-blank ids and targets and pairwise distinct ids
/// pass validation, however many of them unlock the same system.
pub proof fn law_distinct_rule_ids_validate(ruleset: CityRuleset, r: Result<(), RulesetError>)
    requires
        ruleset.validation_outcome(r),
        ruleset.schema_version == RULESET_SCHEMA_VERSION,
        ruleset.population.config.is_valid(),
        forall|i: int|
            0 <= i < ruleset.progression.config.rules@.len() ==> !is_blank(
                (#[trigger] ruleset.progression.config.rules@[i]).id@,
            ) && !is_blank(ruleset.progression.config.rules@[i].unlocks@),
        forall|i: int, j: int|
            0 <= i < j < ruleset.progression.config.rules@.len() ==> (#[trigger] ruleset.progression.config.rules@[i]).id@
                != (#[trigger] ruleset.progression.config.rules@[j]).id@,
    ensures
        r is Ok,
{
    let rules = ruleset.progression.config.rules@;
    assert forall|i: int| 0 <= i < rules.len() implies !#[trigger] rule_fault(rules, i) by {
        if exists|j: int| 0 <= j < i && #[trigger] rules[j].id@ == rules[i].id@ {
            let j = choose|j: int| 0 <= j < i && #[trigger] rules[j].id@ == rules[i].id@;
            assert(rules[j].id@ != rules[i].id@);
        }
    }
}

/// A rule id that repeats an earlier rule's id is refused.
pub proof fn law_repeated_rule_id_is_refused(
    ruleset: CityRuleset,
    r: Result<(), RulesetError>,
    i: int,
    j: int,
)
    requires
        ruleset.validation_outcome(r),
        0 <= i < j < ruleset.progression.config.rules@.len(),
        ruleset.progression.config.rules@[i].id@ == ruleset.progression.config.rules@[j].id@,
    ensures
        r is Err,
{
    assert(rule_fault(ruleset.progression.config.rules@, j));
}

} // verus!
