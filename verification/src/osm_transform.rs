//! Configurable reshaping of an imported scenario: which feature kinds to keep and
//! how to collapse the imported road taxonomy into game road classes.
use vstd::prelude::*;

use crate::model::{CityScenario, RoadClass, ScenarioRoad};
use crate::text::{decimal, decimal_text};

verus! {

pub const OSM_SCENARIO_TRANSFORM_SCHEMA_VERSION: u32 = 1;

#[derive(Debug, Clone, Copy, PartialEq, Eq, Hash, Structural)]
pub enum OsmFeatureTransformPolicy {
    Preserve,
    Ignore,
}

#[derive(Debug, Clone, Copy, PartialEq, Eq, Hash, Structural)]
pub enum OsmUnmappedRoadPolicy {
    Preserve,
    Ignore,
}

#[derive(Debug, Clone, PartialEq, Eq)]
pub struct OsmRoadClassMapping {
    pub sources: Vec<RoadClass>,
    pub target: RoadClass,
}

#[derive(Debug, Clone, PartialEq, Eq)]
pub struct OsmRoadTransformConfig {
    pub mappings: Vec<OsmRoadClassMapping>,
    pub unmapped: OsmUnmappedRoadPolicy,
    pub preserve_names: bool,
    pub preserve_lanes: bool,
    pub preserve_max_speed: bool,
}

#[derive(Debug, Clone, PartialEq, Eq)]
pub struct OsmScenarioTransformConfig {
    pub schema_version: u32,
    pub roads: OsmRoadTransformConfig,
    pub buildings: OsmFeatureTransformPolicy,
    pub water: OsmFeatureTransformPolicy,
    pub land_use: OsmFeatureTransformPolicy,
    pub transit: OsmFeatureTransformPolicy,
}

#[derive(Debug, Clone, Copy, PartialEq, Eq, Structural)]
pub enum OsmScenarioTransformError {
    UnsupportedSchemaVersion(u32),
    EmptyRoadMapping(usize),
    DuplicateRoadSource(RoadClass),
}

impl OsmScenarioTransformError {
    /// The error's message.
    pub open spec fn spec_message(self) -> Seq<char> {
        match self {
            OsmScenarioTransformError::UnsupportedSchemaVersion(version) => "unsupported OSM scenario transform schema version "@
                + decimal(version as nat) + "; expected "@ + decimal(
                OSM_SCENARIO_TRANSFORM_SCHEMA_VERSION as nat,
            ),
            OsmScenarioTransformError::EmptyRoadMapping(index) => "OSM road mapping "@ + decimal(
                index as nat,
            ) + " has no source road classes"@,
            OsmScenarioTransformError::DuplicateRoadSource(source) => "OSM road class "@
                + source.label() + " is mapped more than once"@,
        }
    }

    pub fn message(&self) -> (r: String)
        ensures
            r@ == self.spec_message(),
    {
        match self {
            OsmScenarioTransformError::UnsupportedSchemaVersion(version) => {
                let mut out = String::from_str(
                    "unsupported OSM scenario transform schema version ",
                );
                let got = decimal_text(*version as u64);
                out.append(got.as_str());
                out.append("; expected ");
                let expected = decimal_text(OSM_SCENARIO_TRANSFORM_SCHEMA_VERSION as u64);
                out.append(expected.as_str());
                out
            },
            OsmScenarioTransformError::EmptyRoadMapping(index) => {
                let mut out = String::from_str("OSM road mapping ");
                let number = decimal_text(*index as u64);
                out.append(number.as_str());
                out.append(" has no source road classes");
                out
            },
            OsmScenarioTransformError::DuplicateRoadSource(source) => {
                let mut out = String::from_str("OSM road class ");
                let name = source.label_text();
                out.append(name.as_str());
                out.append(" is mapped more than once");
                out
            },
        }
    }
}

/// Source `k` of mapping `m` already occurs earlier: in an earlier mapping, or
/// earlier in the same one.
pub open spec fn source_seen_before(maps: Seq<OsmRoadClassMapping>, m: int, k: int) -> bool {
    exists|m2: int, k2: int|
        #![trigger maps[m2].sources@[k2]]
        ((0 <= m2 < m && 0 <= k2 < maps[m2].sources@.len()) || (m2 == m && 0 <= k2 < k))
            && maps[m2].sources@[k2] == maps[m].sources@[k]
}

/// Mapping `m` has no sources or repeats a source.
pub open spec fn mapping_fault(maps: Seq<OsmRoadClassMapping>, m: int) -> bool {
    maps[m].sources@.len() == 0 || exists|k: int|
        0 <= k < maps[m].sources@.len() && #[trigger] source_seen_before(maps, m, k)
}

/// What validation answers: the schema version first, then the mappings in order,
/// each refused when it is empty or when one of its sources was mapped before.
pub open spec fn transform_validation_outcome(
    config: OsmScenarioTransformConfig,
    r: Result<(), OsmScenarioTransformError>,
) -> bool {
    let maps = config.roads.mappings@;
    &&& (config.schema_version != OSM_SCENARIO_TRANSFORM_SCHEMA_VERSION ==> r == Err::<(), _>(
        OsmScenarioTransformError::UnsupportedSchemaVersion(config.schema_version),
    ))
    &&& (r is Ok <==> config.schema_version == OSM_SCENARIO_TRANSFORM_SCHEMA_VERSION && forall|
        m: int,
    | 0 <= m < maps.len() ==> !#[trigger] mapping_fault(maps, m))
    &&& (forall|m: int|
        config.schema_version == OSM_SCENARIO_TRANSFORM_SCHEMA_VERSION && 0 <= m < maps.len()
            && #[trigger] mapping_fault(maps, m) && (forall|e: int|
            0 <= e < m ==> !#[trigger] mapping_fault(maps, e)) ==> {
            if maps[m].sources@.len() == 0 {
                r == Err::<(), _>(OsmScenarioTransformError::EmptyRoadMapping(m as usize))
            } else {
                exists|k: int|
                    0 <= k < maps[m].sources@.len() && #[trigger] source_seen_before(maps, m, k)
                        && (forall|e: int|
                        0 <= e < k ==> !#[trigger] source_seen_before(maps, m, e)) && r == Err::<
                        (),
                        _,
                    >(OsmScenarioTransformError::DuplicateRoadSource(maps[m].sources@[k]))
            }
        })
}

/// The target of the first mapping that lists `class` among its sources,
/// looking from mapping `i` on.
pub open spec fn mapped_target(maps: Seq<OsmRoadClassMapping>, class: RoadClass, i: int) -> Option<
    RoadClass,
>
    decreases maps.len() - i,
{
    if i < 0 || i >= maps.len() {
        None
    } else if maps[i].sources@.contains(class) {
        Some(maps[i].target)
    } else {
        mapped_target(maps, class, i + 1)
    }
}

/// A kept road with the attributes the configuration drops removed.
pub open spec fn stripped_road(config: OsmRoadTransformConfig, road: ScenarioRoad) -> ScenarioRoad {
    ScenarioRoad {
        name: if config.preserve_names {
            road.name
        } else {
            None
        },
        lanes: if config.preserve_lanes {
            road.lanes
        } else {
            None
        },
        max_speed_kph: if config.preserve_max_speed {
            road.max_speed_kph
        } else {
            None
        },
        ..road
    }
}

/// What becomes of one road: mapped to its target class, kept as it is when
/// unmapped roads are preserved, or dropped.
pub open spec fn transformed_road(config: OsmRoadTransformConfig, road: ScenarioRoad) -> Option<
    ScenarioRoad,
> {
    match mapped_target(config.mappings@, road.class, 0) {
        Some(target) => Some(stripped_road(config, ScenarioRoad { class: target, ..road })),
        None => if config.unmapped == OsmUnmappedRoadPolicy::Preserve {
            Some(stripped_road(config, road))
        } else {
            None
        },
    }
}

/// The first `n` roads transformed, dropped roads left out, order kept.
pub open spec fn transformed_roads(
    config: OsmRoadTransformConfig,
    roads: Seq<ScenarioRoad>,
    n: int,
) -> Seq<ScenarioRoad>
    decreases n,
{
    if n <= 0 {
        Seq::empty()
    } else {
        match transformed_road(config, roads[n - 1]) {
            Some(r) => transformed_roads(config, roads, n - 1).push(r),
            None => transformed_roads(config, roads, n - 1),
        }
    }
}

impl OsmScenarioTransformConfig {
    /// The identity profile: every feature kept as imported.
    pub open spec fn is_preserve_all(&self) -> bool {
        &&& self.schema_version == OSM_SCENARIO_TRANSFORM_SCHEMA_VERSION
        &&& self.roads.mappings@.len() == 0
        &&& self.roads.unmapped == OsmUnmappedRoadPolicy::Preserve
        &&& self.roads.preserve_names
        &&& self.roads.preserve_lanes
        &&& self.roads.preserve_max_speed
        &&& self.buildings == OsmFeatureTransformPolicy::Preserve
        &&& self.water == OsmFeatureTransformPolicy::Preserve
        &&& self.land_use == OsmFeatureTransformPolicy::Preserve
        &&& self.transit == OsmFeatureTransformPolicy::Preserve
    }

    /// The street-layout profile: three game road classes, nothing else kept.
    pub open spec fn is_road_layout_only(&self) -> bool {
        let maps = self.roads.mappings@;
        &&& self.schema_version == OSM_SCENARIO_TRANSFORM_SCHEMA_VERSION
        &&& maps.len() == 3
        &&& maps[0].sources@ == seq![RoadClass::Motorway, RoadClass::Trunk, RoadClass::Primary]
        &&& maps[0].target == RoadClass::Primary
        &&& maps[1].sources@ == seq![RoadClass::Secondary, RoadClass::Tertiary]
        &&& maps[1].target == RoadClass::Secondary
        &&& maps[2].sources@ == seq![RoadClass::Residential, RoadClass::Service]
        &&& maps[2].target == RoadClass::Residential
        &&& self.roads.unmapped == OsmUnmappedRoadPolicy::Ignore
        &&& !self.roads.preserve_names
        &&& !self.roads.preserve_lanes
        &&& !self.roads.preserve_max_speed
        &&& self.buildings == OsmFeatureTransformPolicy::Ignore
        &&& self.water == OsmFeatureTransformPolicy::Ignore
        &&& self.land_use == OsmFeatureTransformPolicy::Ignore
        &&& self.transit == OsmFeatureTransformPolicy::Ignore
    }

    pub fn preserve_all() -> (r: Self)
        ensures
            r.is_preserve_all(),
    {
        OsmScenarioTransformConfig {
            schema_version: OSM_SCENARIO_TRANSFORM_SCHEMA_VERSION,
            roads: OsmRoadTransformConfig {
                mappings: Vec::new(),
                unmapped: OsmUnmappedRoadPolicy::Preserve,
                preserve_names: true,
                preserve_lanes: true,
                preserve_max_speed: true,
            },
            buildings: OsmFeatureTransformPolicy::Preserve,
            water: OsmFeatureTransformPolicy::Preserve,
            land_use: OsmFeatureTransformPolicy::Preserve,
            transit: OsmFeatureTransformPolicy::Preserve,
        }
    }

    /// The initial game-oriented import profile: keep only the street layout and
    /// collapse the imported road taxonomy into three game road classes.
    pub fn road_layout_only() -> (r: Self)
        ensures
            r.is_road_layout_only(),
    {
        let mut major: Vec<RoadClass> = Vec::new();
        major.push(RoadClass::Motorway);
        major.push(RoadClass::Trunk);
        major.push(RoadClass::Primary);
        let mut middle: Vec<RoadClass> = Vec::new();
        middle.push(RoadClass::Secondary);
        middle.push(RoadClass::Tertiary);
        let mut local: Vec<RoadClass> = Vec::new();
        local.push(RoadClass::Residential);
        local.push(RoadClass::Service);
        let mut mappings: Vec<OsmRoadClassMapping> = Vec::new();
        mappings.push(OsmRoadClassMapping { sources: major, target: RoadClass::Primary });
        mappings.push(OsmRoadClassMapping { sources: middle, target: RoadClass::Secondary });
        mappings.push(OsmRoadClassMapping { sources: local, target: RoadClass::Residential });
        let r = OsmScenarioTransformConfig {
            schema_version: OSM_SCENARIO_TRANSFORM_SCHEMA_VERSION,
            roads: OsmRoadTransformConfig {
                mappings,
                unmapped: OsmUnmappedRoadPolicy::Ignore,
                preserve_names: false,
                preserve_lanes: false,
                preserve_max_speed: false,
            },
            buildings: OsmFeatureTransformPolicy::Ignore,
            water: OsmFeatureTransformPolicy::Ignore,
            land_use: OsmFeatureTransformPolicy::Ignore,
            transit: OsmFeatureTransformPolicy::Ignore,
        };
        proof {
            assert(r.roads.mappings@[0].sources@ =~= seq![
                RoadClass::Motorway,
                RoadClass::Trunk,
                RoadClass::Primary,
            ]);
            assert(r.roads.mappings@[1].sources@ =~= seq![RoadClass::Secondary, RoadClass::Tertiary]);
            assert(r.roads.mappings@[2].sources@ =~= seq![RoadClass::Residential, RoadClass::Service]);
        }
        r
    }

    /// Refuses an unsupported schema version, an empty road mapping, or a road
    /// class mapped more than once.
    pub fn validate(&self) -> (r: Result<(), OsmScenarioTransformError>)
        ensures
            transform_validation_outcome(*self, r),
    {
        if self.schema_version != OSM_SCENARIO_TRANSFORM_SCHEMA_VERSION {
            return Err(OsmScenarioTransformError::UnsupportedSchemaVersion(self.schema_version));
        }
        let maps = &self.roads.mappings;
        let mut mapped: Vec<RoadClass> = Vec::new();
        let mut m: usize = 0;
        while m < maps.len()
            invariant
                0 <= m <= maps@.len(),
                maps@ == self.roads.mappings@,
                self.schema_version == OSM_SCENARIO_TRANSFORM_SCHEMA_VERSION,
                forall|e: int| 0 <= e < m ==> !#[trigger] mapping_fault(maps@, e),
                forall|c: RoadClass|
                    #[trigger] mapped@.contains(c) <==> exists|m2: int, k2: int|
                        #![trigger maps@[m2].sources@[k2]]
                        0 <= m2 < m && 0 <= k2 < maps@[m2].sources@.len() && maps@[m2].sources@[k2]
                            == c,
            decreases maps@.len() - m,
        {
            let sources = &maps[m].sources;
            if sources.len() == 0 {
                proof {
                    assert(mapping_fault(maps@, m as int));
                }
                return Err(OsmScenarioTransformError::EmptyRoadMapping(m));
            }
            let mut k: usize = 0;
            while k < sources.len()
                invariant
                    0 <= k <= sources@.len(),
                    0 <= m < maps@.len(),
                    sources@ == maps@[m as int].sources@,
                    maps@ == self.roads.mappings@,
                    self.schema_version == OSM_SCENARIO_TRANSFORM_SCHEMA_VERSION,
                    forall|e: int| 0 <= e < m ==> !#[trigger] mapping_fault(maps@, e),
                    forall|e: int| 0 <= e < k ==> !#[trigger] source_seen_before(maps@, m as int, e),
                    forall|c: RoadClass|
                        #[trigger] mapped@.contains(c) <==> exists|m2: int, k2: int|
                            #![trigger maps@[m2].sources@[k2]]
                            ((0 <= m2 < m && 0 <= k2 < maps@[m2].sources@.len()) || (m2 == m && 0
                                <= k2 < k)) && maps@[m2].sources@[k2] == c,
                decreases sources@.len() - k,
            {
                let class = sources[k];
                if class_listed(&mapped, class) {
                    proof {
                        assert(source_seen_before(maps@, m as int, k as int));
                        assert(mapping_fault(maps@, m as int));
                    }
                    return Err(OsmScenarioTransformError::DuplicateRoadSource(class));
                }
                proof {
                    assert(!source_seen_before(maps@, m as int, k as int));
                }
                let ghost before = mapped@;
                mapped.push(class);
                proof {
                    assert forall|c: RoadClass|
                        #[trigger] mapped@.contains(c) <==> exists|m2: int, k2: int|
                            #![trigger maps@[m2].sources@[k2]]
                            ((0 <= m2 < m && 0 <= k2 < maps@[m2].sources@.len()) || (m2 == m && 0
                                <= k2 < k + 1)) && maps@[m2].sources@[k2] == c by {
                        assert(mapped@ == before.push(class));
                        if mapped@.contains(c) {
                            let i = choose|i: int| 0 <= i < mapped@.len() && mapped@[i] == c;
                            if i < before.len() {
                                assert(before[i] == c);
                                assert(before.contains(c));
                            } else {
                                assert(c == class);
                                assert(maps@[m as int].sources@[k as int] == c);
                            }
                        }
                        if exists|m2: int, k2: int|
                            #![trigger maps@[m2].sources@[k2]]
                            ((0 <= m2 < m && 0 <= k2 < maps@[m2].sources@.len()) || (m2 == m && 0
                                <= k2 < k + 1)) && maps@[m2].sources@[k2] == c {
                            let (m2, k2) = choose|m2: int, k2: int|
                                #![trigger maps@[m2].sources@[k2]]
                                ((0 <= m2 < m && 0 <= k2 < maps@[m2].sources@.len()) || (m2 == m
                                    && 0 <= k2 < k + 1)) && maps@[m2].sources@[k2] == c;
                            if m2 == m && k2 == k {
                                assert(mapped@[before.len() as int] == c);
                            } else {
                                assert(before.contains(c));
                                let i = choose|i: int| 0 <= i < before.len() && before[i] == c;
                                assert(mapped@[i] == c);
                            }
                        }
                    }
                }
                k = k + 1;
            }
            proof {
                assert(!mapping_fault(maps@, m as int));
            }
            m = m + 1;
        }
        Ok(())
    }

    /// Applies the profile to an imported scenario after validating it. Mapped
    /// roads take their target class, unmapped roads are kept or dropped as
    /// configured, dropped attributes are cleared, and ignored feature kinds are
    /// emptied. Provenance and schema version stay.
    pub fn transform(&self, scenario: CityScenario) -> (r: Result<
        CityScenario,
        OsmScenarioTransformError,
    >)
        ensures
            transform_validation_outcome(
                *self,
                match r {
                    Ok(_) => Ok(()),
                    Err(e) => Err(e),
                },
            ),
            r matches Ok(t) ==> transformed_as(*self, scenario, t),
    {
        match self.validate() {
            Ok(()) => {},
            Err(e) => return Err(e),
        }
        let mut scenario = scenario;
        let ghost original = scenario;
        let mut roads: Vec<ScenarioRoad> = Vec::new();
        std::mem::swap(&mut roads, &mut scenario.roads);
        let ghost input = roads@;
        let n = roads.len();
        let mut kept: Vec<ScenarioRoad> = Vec::new();
        let mut i: usize = 0;
        assert(roads@ =~= input.skip(0));
        while i < n
            invariant
                0 <= i <= n,
                n == input.len(),
                roads@ == input.skip(i as int),
                kept@ == transformed_roads(self.roads, input, i as int),
            decreases n - i,
        {
            let road = roads.remove(0);
            proof {
                assert(road == input[i as int]);
                assert(roads@ =~= input.skip(i + 1));
            }
            match self.transform_road(road) {
                Some(r) => kept.push(r),
                None => {},
            }
            i = i + 1;
        }
        scenario.roads = kept;
        if self.buildings == OsmFeatureTransformPolicy::Ignore {
            scenario.buildings.clear();
        }
        if self.water == OsmFeatureTransformPolicy::Ignore {
            scenario.water.clear();
        }
        if self.land_use == OsmFeatureTransformPolicy::Ignore {
            scenario.land_use_areas.clear();
        }
        if self.transit == OsmFeatureTransformPolicy::Ignore {
            scenario.transit_anchors.clear();
        }
        Ok(scenario)
    }

    fn transform_road(&self, road: ScenarioRoad) -> (r: Option<ScenarioRoad>)
        ensures
            r == transformed_road(self.roads, road),
    {
        let target = first_target(&self.roads.mappings, road.class);
        let mut road = road;
        match target {
            Some(t) => road.class = t,
            None => {
                if self.roads.unmapped == OsmUnmappedRoadPolicy::Ignore {
                    return None;
                }
            },
        }
        if !self.roads.preserve_names {
            road.name = None;
        }
        if !self.roads.preserve_lanes {
            road.lanes = None;
        }
        if !self.roads.preserve_max_speed {
            road.max_speed_kph = None;
        }
        Some(road)
    }
}

/// The target of the first mapping that lists `class`.
fn first_target(maps: &Vec<OsmRoadClassMapping>, class: RoadClass) -> (r: Option<RoadClass>)
    ensures
        r == mapped_target(maps@, class, 0),
{
    let mut i: usize = 0;
    while i < maps.len()
        invariant
            0 <= i <= maps@.len(),
            mapped_target(maps@, class, 0) == mapped_target(maps@, class, i as int),
        decreases maps@.len() - i,
    {
        if class_listed(&maps[i].sources, class) {
            return Some(maps[i].target);
        }
        i = i + 1;
    }
    None
}

/// Whether `class` occurs in `classes`.
pub fn class_listed(classes: &Vec<RoadClass>, class: RoadClass) -> (r: bool)
    ensures
        r == classes@.contains(class),
{
    let mut i: usize = 0;
    while i < classes.len()
        invariant
            0 <= i <= classes@.len(),
            forall|j: int| 0 <= j < i ==> classes@[j] != class,
        decreases classes@.len() - i,
    {
        if classes[i] == class {
            return true;
        }
        i = i + 1;
    }
    false
}

/// `t` is what the profile `config` makes of `scenario` when it is valid.
pub open spec fn transformed_as(
    config: OsmScenarioTransformConfig,
    scenario: CityScenario,
    t: CityScenario,
) -> bool {
    &&& t.schema_version == scenario.schema_version
    &&& t.provenance == scenario.provenance
    &&& t.roads@ == transformed_roads(
        config.roads,
        scenario.roads@,
        scenario.roads@.len() as int,
    )
    &&& if config.buildings == OsmFeatureTransformPolicy::Ignore {
        t.buildings@.len() == 0
    } else {
        t.buildings == scenario.buildings
    }
    &&& if config.water == OsmFeatureTransformPolicy::Ignore {
        t.water@.len() == 0
    } else {
        t.water == scenario.water
    }
    &&& if config.land_use == OsmFeatureTransformPolicy::Ignore {
        t.land_use_areas@.len() == 0
    } else {
        t.land_use_areas == scenario.land_use_areas
    }
    &&& if config.transit == OsmFeatureTransformPolicy::Ignore {
        t.transit_anchors@.len() == 0
    } else {
        t.transit_anchors == scenario.transit_anchors
    }
}

impl Default for OsmScenarioTransformConfig {
    fn default() -> (r: Self)
        ensures
            r.is_preserve_all(),
    {
        OsmScenarioTransformConfig::preserve_all()
    }
}

/// The identity profile keeps every road exactly as imported.
pub proof fn law_preserve_all_keeps_roads(config: OsmScenarioTransformConfig, roads: Seq<ScenarioRoad>, n: int)
    requires
        config.is_preserve_all(),
        0 <= n <= roads.len(),
    ensures
        transformed_roads(config.roads, roads, n) == roads.take(n),
    decreases n,
{
    if n > 0 {
        law_preserve_all_keeps_roads(config, roads, n - 1);
        assert(mapped_target(config.roads.mappings@, roads[n - 1].class, 0) is None);
        assert(roads.take(n) =~= roads.take(n - 1).push(roads[n - 1]));
    } else {
        assert(roads.take(0) =~= Seq::<ScenarioRoad>::empty());
    }
}

/// The street-layout profile keeps only primary, secondary and residential roads,
/// without names, lane counts or speed limits.
pub proof fn law_road_layout_emits_three_classes(
    config: OsmScenarioTransformConfig,
    roads: Seq<ScenarioRoad>,
    n: int,
)
    requires
        config.is_road_layout_only(),
        0 <= n <= roads.len(),
    ensures
        forall|i: int|
            0 <= i < transformed_roads(config.roads, roads, n).len() ==> {
                let r = #[trigger] transformed_roads(config.roads, roads, n)[i];
                &&& (r.class == RoadClass::Primary || r.class == RoadClass::Secondary || r.class
                    == RoadClass::Residential)
                &&& r.name is None
                &&& r.lanes is None
                &&& r.max_speed_kph is None
            },
    decreases n,
{
    if n > 0 {
        law_road_layout_emits_three_classes(config, roads, n - 1);
        let maps = config.roads.mappings@;
        let c = roads[n - 1].class;
        reveal_with_fuel(mapped_target, 4);
        assert(mapped_target(maps, c, 3) is None);
        assert(mapped_target(maps, c, 0) is None || mapped_target(maps, c, 0) == Some(
            RoadClass::Primary,
        ) || mapped_target(maps, c, 0) == Some(RoadClass::Secondary) || mapped_target(maps, c, 0)
            == Some(RoadClass::Residential));
    }
}

/// Both built-in profiles pass validation.
pub proof fn law_builtin_profiles_are_valid(config: OsmScenarioTransformConfig)
    requires
        config.is_preserve_all() || config.is_road_layout_only(),
    ensures
        forall|m: int|
            0 <= m < config.roads.mappings@.len() ==> !#[trigger] mapping_fault(
                config.roads.mappings@,
                m,
            ),
{
    let maps = config.roads.mappings@;
    if config.is_road_layout_only() {
        assert forall|m: int| 0 <= m < maps.len() implies !#[trigger] mapping_fault(maps, m) by {
            assert forall|k: int| 0 <= k < maps[m].sources@.len() implies !#[trigger] source_seen_before(
                maps,
                m,
                k,
            ) by {
                if source_seen_before(maps, m, k) {
                    let (m2, k2) = choose|m2: int, k2: int|
                        #![trigger maps[m2].sources@[k2]]
                        ((0 <= m2 < m && 0 <= k2 < maps[m2].sources@.len()) || (m2 == m && 0 <= k2
                            < k)) && maps[m2].sources@[k2] == maps[m].sources@[k];
                    assert(false);
                }
            }
        }
    }
}

/// The identity profile succeeds on every scenario and gives it back unchanged.
pub proof fn law_preserve_all_is_identity(
    config: OsmScenarioTransformConfig,
    scenario: CityScenario,
    r: Result<CityScenario, OsmScenarioTransformError>,
)
    requires
        config.is_preserve_all(),
        transform_validation_outcome(
            config,
            match r {
                Ok(_) => Ok(()),
                Err(e) => Err(e),
            },
        ),
        r matches Ok(t) ==> transformed_as(config, scenario, t),
    ensures
        r is Ok,
        r matches Ok(t) ==> {
            &&& t.schema_version == scenario.schema_version
            &&& t.provenance == scenario.provenance
            &&& t.roads@ == scenario.roads@
            &&& t.buildings == scenario.buildings
            &&& t.water == scenario.water
            &&& t.land_use_areas == scenario.land_use_areas
            &&& t.transit_anchors == scenario.transit_anchors
        },
{
    law_builtin_profiles_are_valid(config);
    law_preserve_all_keeps_roads(config, scenario.roads@, scenario.roads@.len() as int);
    assert(scenario.roads@.take(scenario.roads@.len() as int) =~= scenario.roads@);
}

} // verus!
