//! Read-only access to a save, with disabled systems reported explicitly.
use vstd::prelude::*;

use crate::model::{CitySave, CityScenario, MetricTable};
use crate::planning::{spec_effective_roads, CityPlanningOverlay, EffectiveRoad};
use crate::population::{
    spec_capacity, spec_demand, PopulationCapacity, PopulationError, PopulationState, RciDemand,
};
use crate::rules::{CityRuleset, RuleStatus, RuleSystem};
use crate::time::{position_of, CityTimeError, CityTimePosition};

verus! {

/// Queries over one save.
#[derive(Debug, Clone, Copy)]
pub struct CityQueries<'a> {
    save: &'a CitySave,
}

#[derive(Debug, Clone, PartialEq, Eq)]
pub enum CityQueryError {
    SystemDisabled(RuleSystem),
    Population(PopulationError),
}

impl CityQueryError {
    /// The error's message.
    pub open spec fn spec_message(self) -> Seq<char> {
        match self {
            CityQueryError::SystemDisabled(system) => system.disabled_message(),
            CityQueryError::Population(error) => error.spec_message(),
        }
    }

    pub fn message(&self) -> (r: String)
        ensures
            r@ == self.spec_message(),
    {
        match self {
            CityQueryError::SystemDisabled(system) => system.disabled_message_text(),
            CityQueryError::Population(error) => error.message(),
        }
    }
}

impl From<PopulationError> for CityQueryError {
    fn from(error: PopulationError) -> (r: Self) {
        CityQueryError::Population(error)
    }
}

impl vstd::std_specs::convert::FromSpecImpl<PopulationError> for CityQueryError {
    open spec fn obeys_from_spec() -> bool {
        true
    }

    open spec fn from_spec(v: PopulationError) -> Self {
        CityQueryError::Population(v)
    }
}

impl CitySave {
    pub fn queries(&self) -> (q: CityQueries<'_>)
        ensures
            q.target() == *self,
    {
        CityQueries { save: self }
    }
}

impl<'a> CityQueries<'a> {
    /// The save that is queried.
    pub closed spec fn target(&self) -> CitySave {
        *self.save
    }

    pub fn scenario(&self) -> (r: &CityScenario)
        ensures
            *r == self.target().scenario,
    {
        &self.save.scenario
    }

    pub fn ruleset(&self) -> (r: &CityRuleset)
        ensures
            *r == self.target().ruleset,
    {
        &self.save.ruleset
    }

    pub fn planning(&self) -> (r: &CityPlanningOverlay)
        ensures
            *r == self.target().world.planning,
    {
        &self.save.world.planning
    }

    pub fn metrics(&self) -> (r: &MetricTable)
        ensures
            *r == self.target().world.metrics,
    {
        &self.save.world.metrics
    }

    pub fn time_position(&self) -> (r: Result<CityTimePosition, CityTimeError>)
        ensures
            r == (match self.target().time.spec_validate() {
                Ok(()) => Ok(
                    position_of(self.target().time.spec_minutes_per_tick(), self.target().world.tick),
                ),
                Err(e) => Err(e),
            }),
    {
        self.save.time_position()
    }

    pub fn effective_roads(&self) -> (r: Vec<EffectiveRoad>)
        ensures
            r@.map_values(|e: EffectiveRoad| e@) == spec_effective_roads(
                self.target().scenario,
                self.target().world.planning,
            ),
    {
        self.save.effective_roads()
    }

    pub fn population_state(&self) -> (r: Result<PopulationState, CityQueryError>)
        ensures
            !self.target().ruleset.spec_enabled(RuleSystem::Population) ==> r == Err::<
                PopulationState,
                _,
            >(CityQueryError::SystemDisabled(RuleSystem::Population)),
            self.target().ruleset.spec_enabled(RuleSystem::Population) ==> r == Ok::<
                _,
                CityQueryError,
            >(self.target().world.population),
    {
        if let Err(e) = self.require_enabled(RuleSystem::Population) {
            return Err(e);
        }
        Ok(self.save.world.population)
    }

    pub fn developed_population_capacity(&self) -> (r: Result<PopulationCapacity, CityQueryError>)
        ensures
            !self.target().ruleset.spec_enabled(RuleSystem::Population) ==> r == Err::<
                PopulationCapacity,
                _,
            >(CityQueryError::SystemDisabled(RuleSystem::Population)),
            self.target().ruleset.spec_enabled(RuleSystem::Population) ==> r == (match spec_capacity(
                self.target().scenario.buildings@,
                self.target().world.planning.suppressed_scenario_entities.spec_keys(),
                self.target().ruleset.population.config,
            ) {
                Ok(c) => Ok(c),
                Err(e) => Err(CityQueryError::Population(e)),
            }),
    {
        if let Err(e) = self.require_enabled(RuleSystem::Population) {
            return Err(e);
        }
        match self.save.developed_population_capacity() {
            Ok(c) => Ok(c),
            Err(e) => Err(CityQueryError::Population(e)),
        }
    }

    pub fn rci_demand(&self) -> (r: Result<RciDemand, CityQueryError>)
        ensures
            !self.target().ruleset.spec_enabled(RuleSystem::Population) ==> r == Err::<RciDemand, _>(
                CityQueryError::SystemDisabled(RuleSystem::Population),
            ),
            self.target().ruleset.spec_enabled(RuleSystem::Population) ==> r == (match spec_capacity(
                self.target().scenario.buildings@,
                self.target().world.planning.suppressed_scenario_entities.spec_keys(),
                self.target().ruleset.population.config,
            ) {
                Ok(c) => Ok(
                    spec_demand(
                        self.target().world.population,
                        c,
                        self.target().ruleset.population.config,
                    ),
                ),
                Err(e) => Err(CityQueryError::Population(e)),
            }),
    {
        if let Err(e) = self.require_enabled(RuleSystem::Population) {
            return Err(e);
        }
        match self.save.rci_demand() {
            Ok(d) => Ok(d),
            Err(e) => Err(CityQueryError::Population(e)),
        }
    }

    pub fn rule_status(&self, system: RuleSystem) -> (r: RuleStatus)
        ensures
            r == self.target().ruleset.spec_status(system),
    {
        self.save.ruleset.status(system)
    }

    pub fn system_unlocked(&self, system: &str) -> (r: bool)
        ensures
            r == self.target().world.progression.unlocked.spec_has(system@),
    {
        self.save.world.progression.unlocked.contains_key(system)
    }

    fn require_enabled(&self, system: RuleSystem) -> (r: Result<(), CityQueryError>)
        ensures
            self.target().ruleset.spec_enabled(system) ==> r is Ok,
            !self.target().ruleset.spec_enabled(system) ==> r == Err::<(), _>(
                CityQueryError::SystemDisabled(system),
            ),
    {
        if self.save.ruleset.is_enabled(system) {
            Ok(())
        } else {
            Err(CityQueryError::SystemDisabled(system))
        }
    }
}

} // verus!
