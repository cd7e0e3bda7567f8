//! The canonical scenario schema and the save that pairs it with mutable world state.
use vstd::prelude::*;

use crate::geometry::{copy_geometry, Geometry, GeometryView};
use crate::planning::CityPlanningOverlay;
use crate::population::{spec_scenario_baseline, PopulationError, PopulationRules, PopulationState};
use crate::progression::ProgressionState;
use crate::rules::{CityRuleset, RuleSystem};
use crate::table::{has_key, KeyedTable, Keyed};
use crate::text::text_equals;
use crate::time::{CitySaveError, CityTimeConfig, DEFAULT_MINUTES_PER_TICK};

verus! {

pub const SCENARIO_SCHEMA_VERSION: u32 = 3;

pub const SAVE_SCHEMA_VERSION: u32 = 4;

#[derive(Debug, Clone, PartialEq, Eq)]
pub struct ExternalRevision {
    pub repository: String,
    pub revision: String,
}

#[derive(Debug, Clone, PartialEq, Eq)]
pub struct ScenarioProvenance {
    pub source_format: String,
    pub source_name: String,
    pub source_sha256: String,
    pub parser: ExternalRevision,
}

#[derive(Debug, Clone, Copy, PartialEq, Eq, PartialOrd, Ord, Hash, Structural)]
pub enum RoadClass {
    Motorway,
    Trunk,
    Primary,
    Secondary,
    Tertiary,
    Residential,
    Service,
    Track,
    Pedestrian,
    Cycleway,
    Footway,
    Other,
}

impl RoadClass {
    /// The class's name as `{:?}` writes it.
    pub open spec fn label(self) -> Seq<char> {
        match self {
            RoadClass::Motorway => "Motorway"@,
            RoadClass::Trunk => "Trunk"@,
            RoadClass::Primary => "Primary"@,
            RoadClass::Secondary => "Secondary"@,
            RoadClass::Tertiary => "Tertiary"@,
            RoadClass::Residential => "Residential"@,
            RoadClass::Service => "Service"@,
            RoadClass::Track => "Track"@,
            RoadClass::Pedestrian => "Pedestrian"@,
            RoadClass::Cycleway => "Cycleway"@,
            RoadClass::Footway => "Footway"@,
            RoadClass::Other => "Other"@,
        }
    }

    pub fn label_text(&self) -> (r: String)
        ensures
            r@ == self.label(),
    {
        match self {
            RoadClass::Motorway => String::from_str("Motorway"),
            RoadClass::Trunk => String::from_str("Trunk"),
            RoadClass::Primary => String::from_str("Primary"),
            RoadClass::Secondary => String::from_str("Secondary"),
            RoadClass::Tertiary => String::from_str("Tertiary"),
            RoadClass::Residential => String::from_str("Residential"),
            RoadClass::Service => String::from_str("Service"),
            RoadClass::Track => String::from_str("Track"),
            RoadClass::Pedestrian => String::from_str("Pedestrian"),
            RoadClass::Cycleway => String::from_str("Cycleway"),
            RoadClass::Footway => String::from_str("Footway"),
            RoadClass::Other => String::from_str("Other"),
        }
    }
}

#[derive(Debug, Clone, Copy, PartialEq, Eq, PartialOrd, Ord, Hash, Structural)]
pub enum BuildingUse {
    Residential,
    Commercial,
    Industrial,
    Civic,
    Agricultural,
    Other,
}

#[derive(Debug, Clone, Copy, PartialEq, Eq, PartialOrd, Ord, Hash, Structural)]
pub enum WaterKind {
    Body,
    River,
    Stream,
    Canal,
    Other,
}

#[derive(Debug, Clone, Copy, PartialEq, Eq, PartialOrd, Ord, Hash, Structural)]
pub enum LandUseKind {
    Residential,
    Commercial,
    Industrial,
    Retail,
    Forest,
    Farmland,
    Recreation,
    Cemetery,
    Other,
}

#[derive(Debug, Clone, Copy, PartialEq, Eq, PartialOrd, Ord, Hash, Structural)]
pub enum TransitKind {
    BusStop,
    Platform,
    Station,
    TramStop,
    StopPosition,
    Rail,
    Other,
}

#[derive(Debug, Clone, PartialEq)]
pub struct ScenarioRoad {
    pub id: String,
    pub source_id: String,
    pub geometry: Geometry,
    pub class: RoadClass,
    pub name: Option<String>,
    pub lanes: Option<u8>,
    pub max_speed_kph: Option<u16>,
}

/// A building of the imported stock. `height_m_bits` is the `f32::to_bits` image
/// of the imported height in metres; the library carries it and never reads it.
#[derive(Debug, Clone, PartialEq)]
pub struct ScenarioBuilding {
    pub id: String,
    pub source_id: String,
    pub footprint: Geometry,
    pub use_kind: BuildingUse,
    pub name: Option<String>,
    pub levels: Option<u16>,
    pub height_m_bits: Option<u32>,
    pub gross_floor_area_m2: u64,
}

#[derive(Debug, Clone, PartialEq)]
pub struct ScenarioWater {
    pub id: String,
    pub source_id: String,
    pub geometry: Geometry,
    pub kind: WaterKind,
}

#[derive(Debug, Clone, PartialEq)]
pub struct ScenarioLandUse {
    pub id: String,
    pub source_id: String,
    pub geometry: Geometry,
    pub kind: LandUseKind,
}

#[derive(Debug, Clone, PartialEq)]
pub struct ScenarioTransitAnchor {
    pub id: String,
    pub source_id: String,
    pub geometry: Geometry,
    pub kind: TransitKind,
    pub name: Option<String>,
}

/// The mathematical value of an imported road.
pub struct ScenarioRoadView {
    pub id: Seq<char>,
    pub source_id: Seq<char>,
    pub geometry: GeometryView,
    pub class: RoadClass,
    pub name: Option<Seq<char>>,
    pub lanes: Option<u8>,
    pub max_speed_kph: Option<u16>,
}

impl View for ScenarioRoad {
    type V = ScenarioRoadView;

    open spec fn view(&self) -> ScenarioRoadView {
        ScenarioRoadView {
            id: self.id@,
            source_id: self.source_id@,
            geometry: self.geometry@,
            class: self.class,
            name: text_option(self.name),
            lanes: self.lanes,
            max_speed_kph: self.max_speed_kph,
        }
    }
}

/// The mathematical value of an imported building.
pub struct ScenarioBuildingView {
    pub id: Seq<char>,
    pub source_id: Seq<char>,
    pub footprint: GeometryView,
    pub use_kind: BuildingUse,
    pub name: Option<Seq<char>>,
    pub levels: Option<u16>,
    pub height_m_bits: Option<u32>,
    pub gross_floor_area_m2: u64,
}

impl View for ScenarioBuilding {
    type V = ScenarioBuildingView;

    open spec fn view(&self) -> ScenarioBuildingView {
        ScenarioBuildingView {
            id: self.id@,
            source_id: self.source_id@,
            footprint: self.footprint@,
            use_kind: self.use_kind,
            name: text_option(self.name),
            levels: self.levels,
            height_m_bits: self.height_m_bits,
            gross_floor_area_m2: self.gross_floor_area_m2,
        }
    }
}

/// The mathematical value of an imported water feature.
pub struct ScenarioWaterView {
    pub id: Seq<char>,
    pub source_id: Seq<char>,
    pub geometry: GeometryView,
    pub kind: WaterKind,
}

impl View for ScenarioWater {
    type V = ScenarioWaterView;

    open spec fn view(&self) -> ScenarioWaterView {
        ScenarioWaterView {
            id: self.id@,
            source_id: self.source_id@,
            geometry: self.geometry@,
            kind: self.kind,
        }
    }
}

/// The mathematical value of an imported land-use area.
pub struct ScenarioLandUseView {
    pub id: Seq<char>,
    pub source_id: Seq<char>,
    pub geometry: GeometryView,
    pub kind: LandUseKind,
}

impl View for ScenarioLandUse {
    type V = ScenarioLandUseView;

    open spec fn view(&self) -> ScenarioLandUseView {
        ScenarioLandUseView {
            id: self.id@,
            source_id: self.source_id@,
            geometry: self.geometry@,
            kind: self.kind,
        }
    }
}

/// The mathematical value of an imported transit anchor.
pub struct ScenarioTransitAnchorView {
    pub id: Seq<char>,
    pub source_id: Seq<char>,
    pub geometry: GeometryView,
    pub kind: TransitKind,
    pub name: Option<Seq<char>>,
}

impl View for ScenarioTransitAnchor {
    type V = ScenarioTransitAnchorView;

    open spec fn view(&self) -> ScenarioTransitAnchorView {
        ScenarioTransitAnchorView {
            id: self.id@,
            source_id: self.source_id@,
            geometry: self.geometry@,
            kind: self.kind,
            name: text_option(self.name),
        }
    }
}

pub fn clone_text_option(o: &Option<String>) -> (r: Option<String>)
    ensures
        text_option(r) == text_option(*o),
{
    match o {
        Some(s) => Some(s.clone()),
        None => None,
    }
}

/// The text view of an optional string.
pub open spec fn text_option(o: Option<String>) -> Option<Seq<char>> {
    match o {
        Some(s) => Some(s@),
        None => None,
    }
}

impl Keyed for ScenarioRoad {
    open spec fn key(&self) -> Seq<char> {
        self.id@
    }

    fn key_text(&self) -> (k: &str) {
        self.id.as_str()
    }

    fn duplicate(&self) -> (r: Self) {
        ScenarioRoad {
            id: self.id.clone(),
            source_id: self.source_id.clone(),
            geometry: copy_geometry(&self.geometry),
            class: self.class,
            name: clone_text_option(&self.name),
            lanes: self.lanes,
            max_speed_kph: self.max_speed_kph,
        }
    }
}

impl Keyed for ScenarioBuilding {
    open spec fn key(&self) -> Seq<char> {
        self.id@
    }

    fn key_text(&self) -> (k: &str) {
        self.id.as_str()
    }

    fn duplicate(&self) -> (r: Self) {
        ScenarioBuilding {
            id: self.id.clone(),
            source_id: self.source_id.clone(),
            footprint: copy_geometry(&self.footprint),
            use_kind: self.use_kind,
            name: clone_text_option(&self.name),
            levels: self.levels,
            height_m_bits: self.height_m_bits,
            gross_floor_area_m2: self.gross_floor_area_m2,
        }
    }
}

impl Keyed for ScenarioWater {
    open spec fn key(&self) -> Seq<char> {
        self.id@
    }

    fn key_text(&self) -> (k: &str) {
        self.id.as_str()
    }

    fn duplicate(&self) -> (r: Self) {
        ScenarioWater {
            id: self.id.clone(),
            source_id: self.source_id.clone(),
            geometry: copy_geometry(&self.geometry),
            kind: self.kind,
        }
    }
}

impl Keyed for ScenarioLandUse {
    open spec fn key(&self) -> Seq<char> {
        self.id@
    }

    fn key_text(&self) -> (k: &str) {
        self.id.as_str()
    }

    fn duplicate(&self) -> (r: Self) {
        ScenarioLandUse {
            id: self.id.clone(),
            source_id: self.source_id.clone(),
            geometry: copy_geometry(&self.geometry),
            kind: self.kind,
        }
    }
}

impl Keyed for ScenarioTransitAnchor {
    open spec fn key(&self) -> Seq<char> {
        self.id@
    }

    fn key_text(&self) -> (k: &str) {
        self.id.as_str()
    }

    fn duplicate(&self) -> (r: Self) {
        ScenarioTransitAnchor {
            id: self.id.clone(),
            source_id: self.source_id.clone(),
            geometry: copy_geometry(&self.geometry),
            kind: self.kind,
            name: clone_text_option(&self.name),
        }
    }
}

/// Whether some entry of `v` has the key `k`.
pub fn vec_has_key<T: Keyed>(v: &Vec<T>, k: &str) -> (r: bool)
    ensures
        r == has_key(v@, k@),
{
    let mut i: usize = 0;
    while i < v.len()
        invariant
            0 <= i <= v@.len(),
            forall|j: int| 0 <= j < i ==> (#[trigger] v@[j]).key() != k@,
        decreases v@.len() - i,
    {
        if text_equals(v[i].key_text(), k) {
            assert(v@[i as int].key() == k@);
            return true;
        }
        i = i + 1;
    }
    false
}

#[derive(Debug, Clone, PartialEq)]
pub struct CityScenario {
    pub schema_version: u32,
    pub provenance: ScenarioProvenance,
    pub roads: Vec<ScenarioRoad>,
    pub buildings: Vec<ScenarioBuilding>,
    pub water: Vec<ScenarioWater>,
    pub land_use_areas: Vec<ScenarioLandUse>,
    pub transit_anchors: Vec<ScenarioTransitAnchor>,
}

impl CityScenario {
    /// Some imported entity of any kind carries the id `id`.
    pub open spec fn spec_contains_entity(&self, id: Seq<char>) -> bool {
        ||| has_key(self.roads@, id)
        ||| has_key(self.buildings@, id)
        ||| has_key(self.water@, id)
        ||| has_key(self.land_use_areas@, id)
        ||| has_key(self.transit_anchors@, id)
    }

    pub fn contains_entity(&self, id: &str) -> (r: bool)
        ensures
            r == self.spec_contains_entity(id@),
    {
        vec_has_key(&self.roads, id) || vec_has_key(&self.buildings, id) || vec_has_key(
            &self.water,
            id,
        ) || vec_has_key(&self.land_use_areas, id) || vec_has_key(&self.transit_anchors, id)
    }
}

/// A named simulation metric.
#[derive(Debug, Clone, PartialEq, Eq)]
pub struct Metric {
    pub name: String,
    pub value: i64,
}

impl Keyed for Metric {
    open spec fn key(&self) -> Seq<char> {
        self.name@
    }

    fn key_text(&self) -> (k: &str) {
        self.name.as_str()
    }

    fn duplicate(&self) -> (r: Self) {
        Metric { name: self.name.clone(), value: self.value }
    }
}

/// Simulation metrics by name, in name order.
pub type MetricTable = KeyedTable<Metric>;

impl KeyedTable<Metric> {
    /// The value of metric `name`, if recorded.
    pub open spec fn metric(self, name: Seq<char>) -> Option<i64> {
        match self.spec_lookup(name) {
            Some(m) => Some(m.value),
            None => None,
        }
    }

    /// Records `value` under `name` and gives back the value it replaced.
    pub fn insert_metric(&mut self, name: String, value: i64) -> (replaced: Option<i64>)
        ensures
            replaced == old(self).metric(name@),
            forall|k: Seq<char>| #[trigger]
                final(self).metric(k) == if k == name@ {
                    Some(value)
                } else {
                    old(self).metric(k)
                },
    {
        let ghost key = name@;
        let r = self.insert(Metric { name, value });
        proof {
            assert forall|k: Seq<char>| #[trigger]
                self.metric(k) == if k == key {
                    Some(value)
                } else {
                    old(self).metric(k)
                } by {
                assert(self.spec_lookup(k) == if k == key {
                    Some(Metric { name, value })
                } else {
                    old(self).spec_lookup(k)
                });
            }
        }
        match r {
            Some(m) => Some(m.value),
            None => None,
        }
    }

    /// The value of metric `name`.
    pub fn metric_value(&self, name: &str) -> (r: Option<i64>)
        ensures
            r == self.metric(name@),
    {
        match self.get(name) {
            Some(m) => Some(m.value),
            None => None,
        }
    }

    /// A table holding the given metrics; a later pair wins over an earlier one.
    pub fn from_pairs(pairs: Vec<(String, i64)>) -> (t: Self)
        ensures
            forall|k: Seq<char>| #[trigger]
                t.metric(k) == last_pair_value(pairs@, k, pairs@.len() as int),
    {
        let mut t = KeyedTable::new();
        let mut i: usize = 0;
        let ghost g = pairs@;
        let n = pairs.len();
        let mut rest = pairs;
        assert(rest@ =~= g.skip(0));
        while i < n
            invariant
                0 <= i <= g.len(),
                n == g.len(),
                rest@ == g.skip(i as int),
                forall|k: Seq<char>| #[trigger] t.metric(k) == last_pair_value(g, k, i as int),
            decreases g.len() - i,
        {
            let (name, value) = rest.remove(0);
            proof {
                assert(g[i as int] == (name, value));
            }
            t.insert_metric(name, value);
            proof {
                assert(rest@ =~= g.skip(i + 1));
            }
            i = i + 1;
        }
        t
    }
}

/// The value given to `k` by the last of the first `n` pairs that names it.
pub open spec fn last_pair_value(pairs: Seq<(String, i64)>, k: Seq<char>, n: int) -> Option<i64>
    decreases n,
{
    if n <= 0 {
        None
    } else if pairs[n - 1].0@ == k {
        Some(pairs[n - 1].1)
    } else {
        last_pair_value(pairs, k, n - 1)
    }
}

/// The mutable simulation state that sits beside an immutable scenario.
#[derive(Debug, Clone, PartialEq)]
pub struct CityWorld {
    pub tick: u64,
    pub metrics: MetricTable,
    pub progression: ProgressionState,
    pub planning: CityPlanningOverlay,
    pub population: PopulationState,
}

impl CityWorld {
    /// A world at tick zero with no metrics, nothing unlocked, no planning and
    /// the given population.
    pub open spec fn is_fresh(self, population: PopulationState) -> bool {
        &&& self.tick == 0
        &&& self.metrics.entries().len() == 0
        &&& self.progression.unlocked.entries().len() == 0
        &&& self.planning.is_empty_overlay()
        &&& self.population == population
    }

    /// The world of a fresh scenario: tick zero, no metrics, nothing unlocked,
    /// no planning, no population.
    pub open spec fn is_initial(self) -> bool {
        self.is_fresh(PopulationState::zero())
    }

    pub fn initial() -> (w: Self)
        ensures
            w.is_initial(),
    {
        CityWorld {
            tick: 0,
            metrics: KeyedTable::new(),
            progression: ProgressionState::new(),
            planning: CityPlanningOverlay::new(),
            population: PopulationState::empty(),
        }
    }

    /// A fresh world whose population is `population`.
    pub fn with_population(population: PopulationState) -> (w: Self)
        ensures
            w.is_fresh(population),
    {
        CityWorld {
            tick: 0,
            metrics: KeyedTable::new(),
            progression: ProgressionState::new(),
            planning: CityPlanningOverlay::new(),
            population,
        }
    }
}

impl Default for CityWorld {
    fn default() -> (w: Self)
        ensures
            w.is_initial(),
    {
        CityWorld::initial()
    }
}

/// A persisted game: the immutable scenario, the clock configuration, the rules
/// and the mutable world.
#[derive(Debug, Clone, PartialEq)]
pub struct CitySave {
    pub schema_version: u32,
    pub scenario: CityScenario,
    pub time: CityTimeConfig,
    pub ruleset: CityRuleset,
    pub world: CityWorld,
}

/// The population a new save starts with, or the error that refuses the save:
/// an invalid clock, or (when population is enabled) a scenario whose capacity
/// cannot be derived.
pub open spec fn spec_start(
    scenario: CityScenario,
    time: CityTimeConfig,
    population_enabled: bool,
    rules: PopulationRules,
) -> Result<PopulationState, CitySaveError> {
    match time.spec_validate() {
        Err(e) => Err(CitySaveError::Time(e)),
        Ok(()) => if population_enabled {
            match spec_scenario_baseline(scenario, rules) {
                Ok(p) => Ok(p),
                Err(e) => Err(CitySaveError::Population(e)),
            }
        } else {
            Ok(PopulationState::zero())
        },
    }
}

impl CitySave {
    /// A save of `scenario` at tick zero with a fresh world whose population is
    /// `population`.
    pub open spec fn is_fresh_save(
        self,
        scenario: CityScenario,
        time: CityTimeConfig,
        population: PopulationState,
    ) -> bool {
        &&& self.schema_version == SAVE_SCHEMA_VERSION
        &&& self.scenario == scenario
        &&& self.time == time
        &&& self.world.is_fresh(population)
    }

    /// A save with the default clock and ruleset. Only the population capacity
    /// of the scenario can refuse it.
    pub fn new(scenario: CityScenario) -> (r: Result<Self, PopulationError>)
        ensures
            match spec_scenario_baseline(scenario, PopulationRules::spec_default()) {
                Ok(population) => r is Ok && r->Ok_0.ruleset.is_default()
                    && r->Ok_0.time.spec_minutes_per_tick() == DEFAULT_MINUTES_PER_TICK
                    && r->Ok_0.is_fresh_save(scenario, r->Ok_0.time, population),
                Err(e) => r == Err::<CitySave, _>(e),
            },
    {
        let ruleset = CityRuleset::default();
        let population = match PopulationState::baseline_from_scenario(
            &scenario,
            ruleset.population.config,
        ) {
            Ok(p) => p,
            Err(e) => return Err(e),
        };
        Ok(
            CitySave {
                schema_version: SAVE_SCHEMA_VERSION,
                scenario,
                time: CityTimeConfig::default(),
                ruleset,
                world: CityWorld::with_population(population),
            },
        )
    }

    /// A save with the given clock and ruleset. The clock must be valid, and when
    /// population is enabled the scenario's baseline population must be derivable.
    pub fn new_with_config(scenario: CityScenario, time: CityTimeConfig, ruleset: CityRuleset) -> (r:
        Result<Self, CitySaveError>)
        ensures
            match spec_start(
                scenario,
                time,
                ruleset.spec_enabled(RuleSystem::Population),
                ruleset.population.config,
            ) {
                Ok(population) => r is Ok && r->Ok_0.ruleset == ruleset
                    && r->Ok_0.is_fresh_save(scenario, time, population),
                Err(e) => r == Err::<CitySave, _>(e),
            },
    {
        if let Err(e) = time.validate() {
            return Err(CitySaveError::Time(e));
        }
        let population = if ruleset.is_enabled(RuleSystem::Population) {
            match PopulationState::baseline_from_scenario(&scenario, ruleset.population.config) {
                Ok(p) => p,
                Err(e) => return Err(CitySaveError::Population(e)),
            }
        } else {
            PopulationState::empty()
        };
        Ok(
            CitySave {
                schema_version: SAVE_SCHEMA_VERSION,
                scenario,
                time,
                ruleset,
                world: CityWorld::with_population(population),
            },
        )
    }
}

} // verus!
