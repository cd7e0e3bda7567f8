//! The application command gateway: player intent, checked against the rules of the
//! system it uses.
use vstd::prelude::*;

use crate::model::{CitySave, CityWorld};
use crate::planning::{apply_post, PlanningCommand, PlanningError, PlanningOutcome};
use crate::population::{spec_scenario_baseline, PopulationError};
use crate::rules::{RuleSystem, RulesetError, RULESET_SCHEMA_VERSION};

verus! {

#[derive(Debug, Clone, PartialEq)]
pub enum CityCommand {
    Planning { command: PlanningCommand },
    Restart,
}

#[derive(Debug, Clone, Copy, PartialEq, Eq, Structural)]
pub enum CityCommandOutcome {
    Planning(PlanningOutcome),
    Restarted,
}

#[derive(Debug, Clone, PartialEq, Eq)]
pub enum CityCommandError {
    Ruleset(RulesetError),
    SystemDisabled(RuleSystem),
    Planning(PlanningError),
    Population(PopulationError),
}

impl CityCommandError {
    /// The error's message.
    pub open spec fn spec_message(self) -> Seq<char> {
        match self {
            CityCommandError::Ruleset(error) => error.spec_message(),
            CityCommandError::SystemDisabled(system) => system.disabled_message(),
            CityCommandError::Planning(error) => error.spec_message(),
            CityCommandError::Population(error) => error.spec_message(),
        }
    }

    pub fn message(&self) -> (r: String)
        ensures
            r@ == self.spec_message(),
    {
        match self {
            CityCommandError::Ruleset(error) => error.message(),
            CityCommandError::SystemDisabled(system) => system.disabled_message_text(),
            CityCommandError::Planning(error) => error.message(),
            CityCommandError::Population(error) => error.message(),
        }
    }
}

impl From<RulesetError> for CityCommandError {
    fn from(error: RulesetError) -> (r: Self) {
        CityCommandError::Ruleset(error)
    }
}

impl vstd::std_specs::convert::FromSpecImpl<RulesetError> for CityCommandError {
    open spec fn obeys_from_spec() -> bool {
        true
    }

    open spec fn from_spec(v: RulesetError) -> Self {
        CityCommandError::Ruleset(v)
    }
}

impl From<PlanningError> for CityCommandError {
    fn from(error: PlanningError) -> (r: Self) {
        CityCommandError::Planning(error)
    }
}

impl vstd::std_specs::convert::FromSpecImpl<PlanningError> for CityCommandError {
    open spec fn obeys_from_spec() -> bool {
        true
    }

    open spec fn from_spec(v: PlanningError) -> Self {
        CityCommandError::Planning(v)
    }
}

impl From<PopulationError> for CityCommandError {
    fn from(error: PopulationError) -> (r: Self) {
        CityCommandError::Population(error)
    }
}

impl vstd::std_specs::convert::FromSpecImpl<PopulationError> for CityCommandError {
    open spec fn obeys_from_spec() -> bool {
        true
    }

    open spec fn from_spec(v: PopulationError) -> Self {
        CityCommandError::Population(v)
    }
}

impl CitySave {
    /// Executes application or player intent. A ruleset of another schema version
    /// is refused; otherwise only the configuration of the system that the command
    /// uses is checked, so a disabled system's configuration never blocks another.
    /// A planning command needs planning enabled. A restart seeds the baseline
    /// population when population is enabled, after checking the population rules;
    /// otherwise it starts an empty world. Whatever fails changes nothing.
    pub fn execute(&mut self, command: CityCommand) -> (r: Result<CityCommandOutcome, CityCommandError>)
        ensures
            r is Err ==> *final(self) == *old(self),
            old(self).ruleset.schema_version != RULESET_SCHEMA_VERSION ==> r == Err::<
                CityCommandOutcome,
                _,
            >(CityCommandError::Ruleset(RulesetError::UnsupportedSchemaVersion(old(self).ruleset.schema_version))),
            old(self).ruleset.schema_version == RULESET_SCHEMA_VERSION ==> match command {
                CityCommand::Planning { command } => if !old(self).ruleset.spec_enabled(
                    RuleSystem::Planning,
                ) {
                    r == Err::<CityCommandOutcome, _>(
                        CityCommandError::SystemDisabled(RuleSystem::Planning),
                    )
                } else {
                    exists|p: Result<PlanningOutcome, PlanningError>|
                        apply_post(
                            old(self).world.planning,
                            final(self).world.planning,
                            old(self).scenario,
                            command,
                            p,
                        ) && r == match p {
                            Ok(o) => Ok::<_, CityCommandError>(CityCommandOutcome::Planning(o)),
                            Err(e) => Err(CityCommandError::Planning(e)),
                        } && *final(self) == (CitySave {
                            world: CityWorld { planning: final(self).world.planning, ..old(self).world },
                            ..*old(self)
                        })
                },
                CityCommand::Restart => if old(self).ruleset.spec_enabled(RuleSystem::Population) {
                    if !old(self).ruleset.population.config.is_valid() {
                        r == Err::<CityCommandOutcome, _>(
                            CityCommandError::Ruleset(
                                RulesetError::Population(
                                    old(self).ruleset.population.config.spec_validate()->Err_0,
                                ),
                            ),
                        )
                    } else {
                        match spec_scenario_baseline(
                            old(self).scenario,
                            old(self).ruleset.population.config,
                        ) {
                            Ok(population) => r == Ok::<_, CityCommandError>(
                                CityCommandOutcome::Restarted,
                            ) && final(self).schema_version == old(self).schema_version
                                && final(self).scenario == old(self).scenario && final(self).time
                                == old(self).time && final(self).ruleset == old(self).ruleset
                                && final(self).world.is_fresh(population),
                            Err(e) => r == Err::<CityCommandOutcome, _>(
                                CityCommandError::Population(e),
                            ),
                        }
                    }
                } else {
                    r == Ok::<_, CityCommandError>(CityCommandOutcome::Restarted)
                        && final(self).schema_version == old(self).schema_version
                        && final(self).scenario == old(self).scenario && final(self).time
                        == old(self).time && final(self).ruleset == old(self).ruleset
                        && final(self).world.is_initial()
                },
            },
    {
        if self.ruleset.schema_version != RULESET_SCHEMA_VERSION {
            return Err(
                CityCommandError::Ruleset(
                    RulesetError::UnsupportedSchemaVersion(self.ruleset.schema_version),
                ),
            );
        }
        match command {
            CityCommand::Planning { command } => {
                if !self.ruleset.is_enabled(RuleSystem::Planning) {
                    return Err(CityCommandError::SystemDisabled(RuleSystem::Planning));
                }
                match self.apply_planning(command) {
                    Ok(o) => Ok(CityCommandOutcome::Planning(o)),
                    Err(e) => Err(CityCommandError::Planning(e)),
                }
            },
            CityCommand::Restart => {
                if self.ruleset.is_enabled(RuleSystem::Population) {
                    if let Err(e) = self.ruleset.population.config.validate() {
                        return Err(CityCommandError::Ruleset(RulesetError::Population(e)));
                    }
                    match self.restart() {
                        Ok(()) => {},
                        Err(e) => return Err(CityCommandError::Population(e)),
                    }
                } else {
                    self.world = CityWorld::initial();
                }
                Ok(CityCommandOutcome::Restarted)
            },
        }
    }
}

} // verus!
