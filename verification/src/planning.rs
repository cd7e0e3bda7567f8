//! The player's planning overlay on top of the immutable imported scenario.
use vstd::prelude::*;

use crate::geometry::{
    copy_geometry, geometry_equals, has_no_nan, is_road_shape, is_zone_shape,
    lemma_same_geometry_reflexive, same_geometry,
    valid_road_geometry, valid_zone_geometry, Geometry, GeometryView,
};
use crate::model::{
    clone_text_option, text_option, CitySave, CityScenario, CityWorld, RoadClass, ScenarioRoad,
};
use crate::population::{spec_scenario_baseline, PopulationError};
use crate::table::{
    ascending_by, has_key, index_of_key, key_fn, lemma_canonical, lemma_lookup_at, lemma_canonical_keys, lookup, lemma_sort_by_ascending, lemma_sort_by_map, lemma_sort_by_multiset,
    sort_by, sort_by_key, KeyedTable, Keyed,
};
use crate::text::{is_blank, is_blank_text, text_equals};

verus! {

#[derive(Debug, Clone, Copy, PartialEq, Eq, PartialOrd, Ord, Hash, Structural)]
pub enum ZoneKind {
    Residential,
    Commercial,
    Industrial,
    MixedUse,
}

#[derive(Debug, Clone, PartialEq)]
pub struct PlannedRoad {
    pub id: String,
    pub geometry: Geometry,
    pub class: RoadClass,
    pub name: Option<String>,
}

#[derive(Debug, Clone, PartialEq)]
pub struct PlannedZone {
    pub id: String,
    pub geometry: Geometry,
    pub kind: ZoneKind,
}

impl Keyed for PlannedRoad {
    open spec fn key(&self) -> Seq<char> {
        self.id@
    }

    fn key_text(&self) -> (k: &str) {
        self.id.as_str()
    }

    fn duplicate(&self) -> (r: Self) {
        PlannedRoad {
            id: self.id.clone(),
            geometry: copy_geometry(&self.geometry),
            class: self.class,
            name: clone_text_option(&self.name),
        }
    }
}

impl Keyed for PlannedZone {
    open spec fn key(&self) -> Seq<char> {
        self.id@
    }

    fn key_text(&self) -> (k: &str) {
        self.id.as_str()
    }

    fn duplicate(&self) -> (r: Self) {
        PlannedZone { id: self.id.clone(), geometry: copy_geometry(&self.geometry), kind: self.kind }
    }
}

/// Player roads and zones by id, and the imported entities the player suppressed.
#[derive(Debug, Clone, PartialEq)]
pub struct CityPlanningOverlay {
    pub player_roads: KeyedTable<PlannedRoad>,
    pub zones: KeyedTable<PlannedZone>,
    pub suppressed_scenario_entities: KeyedTable<String>,
}

impl CityPlanningOverlay {
    pub open spec fn is_empty_overlay(self) -> bool {
        &&& self.player_roads.entries().len() == 0
        &&& self.zones.entries().len() == 0
        &&& self.suppressed_scenario_entities.entries().len() == 0
    }

    pub fn new() -> (o: Self)
        ensures
            o.is_empty_overlay(),
    {
        CityPlanningOverlay {
            player_roads: KeyedTable::new(),
            zones: KeyedTable::new(),
            suppressed_scenario_entities: KeyedTable::new(),
        }
    }
}

#[derive(Debug, Clone, PartialEq)]
pub enum PlanningCommand {
    AddRoad { road: PlannedRoad },
    RemovePlayerRoad { id: String },
    SuppressScenarioEntity { id: String },
    RestoreScenarioEntity { id: String },
    ZoneArea { zone: PlannedZone },
    RemoveZone { id: String },
}

#[derive(Debug, Clone, Copy, PartialEq, Eq, Structural)]
pub enum PlanningOutcome {
    Applied,
    Unchanged,
}

#[derive(Debug, Clone, PartialEq, Eq)]
pub enum PlanningError {
    InvalidId,
    InvalidRoadGeometry,
    InvalidZoneGeometry,
    ConflictingPlayerEntityId(String),
    ScenarioEntityIdReserved(String),
    UnknownScenarioEntity(String),
}

impl PlanningError {
    /// The error's message.
    pub open spec fn spec_message(self) -> Seq<char> {
        match self {
            PlanningError::InvalidId => "planning entity id must be non-empty"@,
            PlanningError::InvalidRoadGeometry => "player road geometry must contain at least one line segment"@,
            PlanningError::InvalidZoneGeometry => "zone geometry must be a polygon or multipolygon"@,
            PlanningError::ConflictingPlayerEntityId(id) => "player entity id "@ + id@
                + " is already used by different state"@,
            PlanningError::ScenarioEntityIdReserved(id) => "player entity id "@ + id@
                + " is reserved by the imported scenario"@,
            PlanningError::UnknownScenarioEntity(id) => "scenario entity "@ + id@
                + " does not exist"@,
        }
    }

    pub fn message(&self) -> (r: String)
        ensures
            r@ == self.spec_message(),
    {
        match self {
            PlanningError::InvalidId => String::from_str("planning entity id must be non-empty"),
            PlanningError::InvalidRoadGeometry => String::from_str(
                "player road geometry must contain at least one line segment",
            ),
            PlanningError::InvalidZoneGeometry => String::from_str(
                "zone geometry must be a polygon or multipolygon",
            ),
            PlanningError::ConflictingPlayerEntityId(id) => {
                let mut out = String::from_str("player entity id ");
                out.append(id.as_str());
                out.append(" is already used by different state");
                out
            },
            PlanningError::ScenarioEntityIdReserved(id) => {
                let mut out = String::from_str("player entity id ");
                out.append(id.as_str());
                out.append(" is reserved by the imported scenario");
                out
            },
            PlanningError::UnknownScenarioEntity(id) => {
                let mut out = String::from_str("scenario entity ");
                out.append(id.as_str());
                out.append(" does not exist");
                out
            },
        }
    }
}

/// Equality of planned roads field by field, geometry as `same_geometry` has it.
pub open spec fn same_planned_road(a: PlannedRoad, b: PlannedRoad) -> bool {
    &&& a.id@ == b.id@
    &&& same_geometry(a.geometry@, b.geometry@)
    &&& a.class == b.class
    &&& text_option(a.name) == text_option(b.name)
}

/// Equality of planned zones field by field, geometry as `same_geometry` has it.
pub open spec fn same_planned_zone(a: PlannedZone, b: PlannedZone) -> bool {
    &&& a.id@ == b.id@
    &&& same_geometry(a.geometry@, b.geometry@)
    &&& a.kind == b.kind
}

fn text_options_equal(a: &Option<String>, b: &Option<String>) -> (r: bool)
    ensures
        r == (text_option(*a) == text_option(*b)),
{
    match (a, b) {
        (Some(x), Some(y)) => text_equals(x.as_str(), y.as_str()),
        (None, None) => true,
        _ => false,
    }
}

pub fn planned_roads_equal(a: &PlannedRoad, b: &PlannedRoad) -> (r: bool)
    ensures
        r == same_planned_road(*a, *b),
{
    text_equals(a.id.as_str(), b.id.as_str()) && geometry_equals(&a.geometry, &b.geometry)
        && a.class == b.class && text_options_equal(&a.name, &b.name)
}

pub fn planned_zones_equal(a: &PlannedZone, b: &PlannedZone) -> (r: bool)
    ensures
        r == same_planned_zone(*a, *b),
{
    text_equals(a.id.as_str(), b.id.as_str()) && geometry_equals(&a.geometry, &b.geometry)
        && a.kind == b.kind
}

/// The error is `variant` carrying the text `id`.
pub open spec fn is_conflict(r: Result<PlanningOutcome, PlanningError>, id: Seq<char>) -> bool {
    r matches Err(PlanningError::ConflictingPlayerEntityId(s)) && s@ == id
}

pub open spec fn is_reserved(r: Result<PlanningOutcome, PlanningError>, id: Seq<char>) -> bool {
    r matches Err(PlanningError::ScenarioEntityIdReserved(s)) && s@ == id
}

pub open spec fn is_unknown(r: Result<PlanningOutcome, PlanningError>, id: Seq<char>) -> bool {
    r matches Err(PlanningError::UnknownScenarioEntity(s)) && s@ == id
}

/// `n` is `o` with `road` stored under its id among the player roads.
pub open spec fn road_inserted(o: CityPlanningOverlay, n: CityPlanningOverlay, road: PlannedRoad) -> bool {
    &&& n.zones == o.zones
    &&& n.suppressed_scenario_entities == o.suppressed_scenario_entities
    &&& forall|k: Seq<char>| #[trigger]
        n.player_roads.spec_lookup(k) == if k == road.id@ {
            Some(road)
        } else {
            o.player_roads.spec_lookup(k)
        }
}

/// `n` is `o` with `zone` stored under its id among the zones.
pub open spec fn zone_inserted(o: CityPlanningOverlay, n: CityPlanningOverlay, zone: PlannedZone) -> bool {
    &&& n.player_roads == o.player_roads
    &&& n.suppressed_scenario_entities == o.suppressed_scenario_entities
    &&& forall|k: Seq<char>| #[trigger]
        n.zones.spec_lookup(k) == if k == zone.id@ {
            Some(zone)
        } else {
            o.zones.spec_lookup(k)
        }
}

/// `n` is `o` without a player road under `id`.
pub open spec fn road_removed(o: CityPlanningOverlay, n: CityPlanningOverlay, id: Seq<char>) -> bool {
    &&& n.zones == o.zones
    &&& n.suppressed_scenario_entities == o.suppressed_scenario_entities
    &&& forall|k: Seq<char>| #[trigger]
        n.player_roads.spec_lookup(k) == if k == id {
            None
        } else {
            o.player_roads.spec_lookup(k)
        }
}

/// `n` is `o` without a zone under `id`.
pub open spec fn zone_removed(o: CityPlanningOverlay, n: CityPlanningOverlay, id: Seq<char>) -> bool {
    &&& n.player_roads == o.player_roads
    &&& n.suppressed_scenario_entities == o.suppressed_scenario_entities
    &&& forall|k: Seq<char>| #[trigger]
        n.zones.spec_lookup(k) == if k == id {
            None
        } else {
            o.zones.spec_lookup(k)
        }
}

/// `n` is `o` with `id` marked suppressed (`on`) or no longer suppressed.
pub open spec fn suppression_set(
    o: CityPlanningOverlay,
    n: CityPlanningOverlay,
    id: Seq<char>,
    on: bool,
) -> bool {
    &&& n.player_roads == o.player_roads
    &&& n.zones == o.zones
    &&& forall|k: Seq<char>| #[trigger]
        n.suppressed_scenario_entities.spec_has(k) == if k == id {
            on
        } else {
            o.suppressed_scenario_entities.spec_has(k)
        }
}

/// What adding a player road does.
pub open spec fn add_road_post(
    o: CityPlanningOverlay,
    n: CityPlanningOverlay,
    scenario: CityScenario,
    road: PlannedRoad,
    r: Result<PlanningOutcome, PlanningError>,
) -> bool {
    let id = road.id@;
    if is_blank(id) {
        r == Err::<PlanningOutcome, _>(PlanningError::InvalidId) && n == o
    } else if !is_road_shape(road.geometry@) {
        r == Err::<PlanningOutcome, _>(PlanningError::InvalidRoadGeometry) && n == o
    } else if scenario.spec_contains_entity(id) {
        is_reserved(r, id) && n == o
    } else if o.zones.spec_has(id) {
        is_conflict(r, id) && n == o
    } else {
        match o.player_roads.spec_lookup(id) {
            Some(existing) => if same_planned_road(existing, road) {
                r == Ok::<_, PlanningError>(PlanningOutcome::Unchanged) && n == o
            } else {
                is_conflict(r, id) && n == o
            },
            None => r == Ok::<_, PlanningError>(PlanningOutcome::Applied) && road_inserted(
                o,
                n,
                road,
            ),
        }
    }
}

/// What zoning an area does.
pub open spec fn zone_area_post(
    o: CityPlanningOverlay,
    n: CityPlanningOverlay,
    scenario: CityScenario,
    zone: PlannedZone,
    r: Result<PlanningOutcome, PlanningError>,
) -> bool {
    let id = zone.id@;
    if is_blank(id) {
        r == Err::<PlanningOutcome, _>(PlanningError::InvalidId) && n == o
    } else if !is_zone_shape(zone.geometry@) {
        r == Err::<PlanningOutcome, _>(PlanningError::InvalidZoneGeometry) && n == o
    } else if scenario.spec_contains_entity(id) {
        is_reserved(r, id) && n == o
    } else if o.player_roads.spec_has(id) {
        is_conflict(r, id) && n == o
    } else {
        match o.zones.spec_lookup(id) {
            Some(existing) => if same_planned_zone(existing, zone) {
                r == Ok::<_, PlanningError>(PlanningOutcome::Unchanged) && n == o
            } else {
                is_conflict(r, id) && n == o
            },
            None => r == Ok::<_, PlanningError>(PlanningOutcome::Applied) && zone_inserted(
                o,
                n,
                zone,
            ),
        }
    }
}

/// `Applied` when the state changed, `Unchanged` when it already held.
pub open spec fn outcome_of(changed: bool) -> PlanningOutcome {
    if changed {
        PlanningOutcome::Applied
    } else {
        PlanningOutcome::Unchanged
    }
}

/// What a planning command does to the overlay and what it answers.
pub open spec fn apply_post(
    o: CityPlanningOverlay,
    n: CityPlanningOverlay,
    scenario: CityScenario,
    command: PlanningCommand,
    r: Result<PlanningOutcome, PlanningError>,
) -> bool {
    match command {
        PlanningCommand::AddRoad { road } => add_road_post(o, n, scenario, road, r),
        PlanningCommand::ZoneArea { zone } => zone_area_post(o, n, scenario, zone, r),
        PlanningCommand::RemovePlayerRoad { id } => if is_blank(id@) {
            r == Err::<PlanningOutcome, _>(PlanningError::InvalidId) && n == o
        } else {
            r == Ok::<_, PlanningError>(outcome_of(o.player_roads.spec_has(id@))) && road_removed(
                o,
                n,
                id@,
            )
        },
        PlanningCommand::RemoveZone { id } => if is_blank(id@) {
            r == Err::<PlanningOutcome, _>(PlanningError::InvalidId) && n == o
        } else {
            r == Ok::<_, PlanningError>(outcome_of(o.zones.spec_has(id@))) && zone_removed(
                o,
                n,
                id@,
            )
        },
        PlanningCommand::SuppressScenarioEntity { id } => if is_blank(id@) {
            r == Err::<PlanningOutcome, _>(PlanningError::InvalidId) && n == o
        } else if !scenario.spec_contains_entity(id@) {
            is_unknown(r, id@) && n == o
        } else {
            r == Ok::<_, PlanningError>(
                outcome_of(!o.suppressed_scenario_entities.spec_has(id@)),
            ) && suppression_set(o, n, id@, true)
        },
        PlanningCommand::RestoreScenarioEntity { id } => if is_blank(id@) {
            r == Err::<PlanningOutcome, _>(PlanningError::InvalidId) && n == o
        } else if !scenario.spec_contains_entity(id@) {
            is_unknown(r, id@) && n == o
        } else {
            r == Ok::<_, PlanningError>(outcome_of(o.suppressed_scenario_entities.spec_has(id@)))
                && suppression_set(o, n, id@, false)
        },
    }
}

pub fn validate_id(id: &String) -> (r: Result<(), PlanningError>)
    ensures
        is_blank(id@) ==> r == Err::<(), _>(PlanningError::InvalidId),
        !is_blank(id@) ==> r is Ok,
{
    if is_blank_text(id.as_str()) {
        Err(PlanningError::InvalidId)
    } else {
        Ok(())
    }
}

impl CityPlanningOverlay {
    /// Applies a planning command. Repeating a command that succeeded answers
    /// `Unchanged`; a command that fails leaves the overlay as it was.
    pub fn apply(&mut self, scenario: &CityScenario, command: PlanningCommand) -> (r: Result<
        PlanningOutcome,
        PlanningError,
    >)
        ensures
            apply_post(*old(self), *final(self), *scenario, command, r),
    {
        match command {
            PlanningCommand::AddRoad { road } => self.add_road(scenario, road),
            PlanningCommand::RemovePlayerRoad { id } => {
                if let Err(e) = validate_id(&id) {
                    return Err(e);
                }
                let removed = self.player_roads.remove(id.as_str());
                proof {
                    assert(old(self).player_roads.spec_has(id@) == (old(self).player_roads.spec_lookup(id@) is Some));
                }
                Ok(
                    if removed.is_some() {
                        PlanningOutcome::Applied
                    } else {
                        PlanningOutcome::Unchanged
                    },
                )
            },
            PlanningCommand::SuppressScenarioEntity { id } => {
                if let Err(e) = validate_id(&id) {
                    return Err(e);
                }
                if !scenario.contains_entity(id.as_str()) {
                    return Err(PlanningError::UnknownScenarioEntity(id));
                }
                let ghost key = id@;
                let replaced = self.suppressed_scenario_entities.insert(id);
                proof {
                    assert(old(self).suppressed_scenario_entities.spec_has(key) == (old(self).suppressed_scenario_entities.spec_lookup(key) is Some));
                    assert forall|k: Seq<char>| #[trigger]
                        self.suppressed_scenario_entities.spec_has(k) == if k == key {
                            true
                        } else {
                            old(self).suppressed_scenario_entities.spec_has(k)
                        } by {
                        assert(self.suppressed_scenario_entities.spec_has(k) == (
                        self.suppressed_scenario_entities.spec_lookup(k) is Some));
                        assert(old(self).suppressed_scenario_entities.spec_has(k) == (old(self).suppressed_scenario_entities.spec_lookup(k) is Some));
                    }
                }
                Ok(
                    if replaced.is_none() {
                        PlanningOutcome::Applied
                    } else {
                        PlanningOutcome::Unchanged
                    },
                )
            },
            PlanningCommand::RestoreScenarioEntity { id } => {
                if let Err(e) = validate_id(&id) {
                    return Err(e);
                }
                if !scenario.contains_entity(id.as_str()) {
                    return Err(PlanningError::UnknownScenarioEntity(id));
                }
                let removed = self.suppressed_scenario_entities.remove(id.as_str());
                proof {
                    assert(old(self).suppressed_scenario_entities.spec_has(id@) == (old(self).suppressed_scenario_entities.spec_lookup(id@) is Some));
                    assert forall|k: Seq<char>| #[trigger]
                        self.suppressed_scenario_entities.spec_has(k) == if k == id@ {
                            false
                        } else {
                            old(self).suppressed_scenario_entities.spec_has(k)
                        } by {
                        assert(self.suppressed_scenario_entities.spec_has(k) == (
                        self.suppressed_scenario_entities.spec_lookup(k) is Some));
                        assert(old(self).suppressed_scenario_entities.spec_has(k) == (old(self).suppressed_scenario_entities.spec_lookup(k) is Some));
                    }
                }
                Ok(
                    if removed.is_some() {
                        PlanningOutcome::Applied
                    } else {
                        PlanningOutcome::Unchanged
                    },
                )
            },
            PlanningCommand::ZoneArea { zone } => self.zone_area(scenario, zone),
            PlanningCommand::RemoveZone { id } => {
                if let Err(e) = validate_id(&id) {
                    return Err(e);
                }
                let removed = self.zones.remove(id.as_str());
                proof {
                    assert(old(self).zones.spec_has(id@) == (old(self).zones.spec_lookup(id@) is Some));
                }
                Ok(
                    if removed.is_some() {
                        PlanningOutcome::Applied
                    } else {
                        PlanningOutcome::Unchanged
                    },
                )
            },
        }
    }

    /// Whether the imported entity `scenario_entity_id` is suppressed.
    pub fn is_suppressed(&self, scenario_entity_id: &str) -> (r: bool)
        ensures
            r == self.suppressed_scenario_entities.spec_has(scenario_entity_id@),
    {
        self.suppressed_scenario_entities.contains_key(scenario_entity_id)
    }

    fn add_road(&mut self, scenario: &CityScenario, road: PlannedRoad) -> (r: Result<
        PlanningOutcome,
        PlanningError,
    >)
        ensures
            add_road_post(*old(self), *final(self), *scenario, road, r),
    {
        if let Err(e) = validate_id(&road.id) {
            return Err(e);
        }
        if !valid_road_geometry(&road.geometry) {
            return Err(PlanningError::InvalidRoadGeometry);
        }
        let used = self.zones.contains_key(road.id.as_str());
        if let Err(e) = self.ensure_player_id_available(scenario, &road.id, used) {
            return Err(e);
        }
        match self.player_roads.get(road.id.as_str()) {
            Some(existing) => {
                if planned_roads_equal(existing, &road) {
                    return Ok(PlanningOutcome::Unchanged);
                } else {
                    return Err(PlanningError::ConflictingPlayerEntityId(road.id));
                }
            },
            None => {},
        }
        self.player_roads.insert(road);
        Ok(PlanningOutcome::Applied)
    }

    fn zone_area(&mut self, scenario: &CityScenario, zone: PlannedZone) -> (r: Result<
        PlanningOutcome,
        PlanningError,
    >)
        ensures
            zone_area_post(*old(self), *final(self), *scenario, zone, r),
    {
        if let Err(e) = validate_id(&zone.id) {
            return Err(e);
        }
        if !valid_zone_geometry(&zone.geometry) {
            return Err(PlanningError::InvalidZoneGeometry);
        }
        let used = self.player_roads.contains_key(zone.id.as_str());
        if let Err(e) = self.ensure_player_id_available(scenario, &zone.id, used) {
            return Err(e);
        }
        match self.zones.get(zone.id.as_str()) {
            Some(existing) => {
                if planned_zones_equal(existing, &zone) {
                    return Ok(PlanningOutcome::Unchanged);
                } else {
                    return Err(PlanningError::ConflictingPlayerEntityId(zone.id));
                }
            },
            None => {},
        }
        self.zones.insert(zone);
        Ok(PlanningOutcome::Applied)
    }

    fn ensure_player_id_available(
        &self,
        scenario: &CityScenario,
        id: &String,
        used_by_other_player_entity: bool,
    ) -> (r: Result<(), PlanningError>)
        ensures
            scenario.spec_contains_entity(id@) ==> (r matches Err(
                PlanningError::ScenarioEntityIdReserved(s),
            ) && s@ == id@),
            !scenario.spec_contains_entity(id@) && used_by_other_player_entity ==> (r matches Err(
                PlanningError::ConflictingPlayerEntityId(s),
            ) && s@ == id@),
            !scenario.spec_contains_entity(id@) && !used_by_other_player_entity ==> r is Ok,
    {
        if scenario.contains_entity(id.as_str()) {
            return Err(PlanningError::ScenarioEntityIdReserved(id.clone()));
        }
        if used_by_other_player_entity {
            return Err(PlanningError::ConflictingPlayerEntityId(id.clone()));
        }
        Ok(())
    }
}

#[derive(Debug, Clone, Copy, PartialEq, Eq, Hash, Structural)]
pub enum EffectiveRoadOrigin {
    Scenario,
    Player,
}

/// A road as the simulation sees it: an imported road that is not suppressed,
/// or a player road.
#[derive(Debug, Clone, PartialEq)]
pub struct EffectiveRoad {
    pub id: String,
    pub geometry: Geometry,
    pub class: RoadClass,
    pub name: Option<String>,
    pub origin: EffectiveRoadOrigin,
    pub source_id: Option<String>,
}

pub struct EffectiveRoadView {
    pub id: Seq<char>,
    pub geometry: GeometryView,
    pub class: RoadClass,
    pub name: Option<Seq<char>>,
    pub origin: EffectiveRoadOrigin,
    pub source_id: Option<Seq<char>>,
}

impl View for EffectiveRoad {
    type V = EffectiveRoadView;

    open spec fn view(&self) -> EffectiveRoadView {
        EffectiveRoadView {
            id: self.id@,
            geometry: self.geometry@,
            class: self.class,
            name: text_option(self.name),
            origin: self.origin,
            source_id: text_option(self.source_id),
        }
    }
}

impl Keyed for EffectiveRoad {
    open spec fn key(&self) -> Seq<char> {
        self.id@
    }

    fn key_text(&self) -> (k: &str) {
        self.id.as_str()
    }

    fn duplicate(&self) -> (r: Self) {
        EffectiveRoad {
            id: self.id.clone(),
            geometry: copy_geometry(&self.geometry),
            class: self.class,
            name: clone_text_option(&self.name),
            origin: self.origin,
            source_id: clone_text_option(&self.source_id),
        }
    }
}

pub open spec fn scenario_road_view(r: ScenarioRoad) -> EffectiveRoadView {
    EffectiveRoadView {
        id: r.id@,
        geometry: r.geometry@,
        class: r.class,
        name: text_option(r.name),
        origin: EffectiveRoadOrigin::Scenario,
        source_id: Some(r.source_id@),
    }
}

pub open spec fn player_road_view(r: PlannedRoad) -> EffectiveRoadView {
    EffectiveRoadView {
        id: r.id@,
        geometry: r.geometry@,
        class: r.class,
        name: text_option(r.name),
        origin: EffectiveRoadOrigin::Player,
        source_id: None,
    }
}

/// The first `n` imported roads, in order, leaving out the suppressed ones.
pub open spec fn visible_scenario_roads(
    roads: Seq<ScenarioRoad>,
    suppressed: Set<Seq<char>>,
    n: int,
) -> Seq<EffectiveRoadView>
    decreases n,
{
    if n <= 0 {
        Seq::empty()
    } else if suppressed.contains(roads[n - 1].id@) {
        visible_scenario_roads(roads, suppressed, n - 1)
    } else {
        visible_scenario_roads(roads, suppressed, n - 1).push(scenario_road_view(roads[n - 1]))
    }
}

pub open spec fn road_id(v: EffectiveRoadView) -> Seq<char> {
    v.id
}

/// Visible imported roads followed by player roads in id order: the roads before
/// sorting.
pub open spec fn effective_road_candidates(
    scenario: CityScenario,
    overlay: CityPlanningOverlay,
) -> Seq<EffectiveRoadView> {
    visible_scenario_roads(
        scenario.roads@,
        overlay.suppressed_scenario_entities.spec_keys(),
        scenario.roads@.len() as int,
    ) + overlay.player_roads.entries().map_values(|p: PlannedRoad| player_road_view(p))
}

/// The effective roads, stably sorted by id.
pub open spec fn spec_effective_roads(
    scenario: CityScenario,
    overlay: CityPlanningOverlay,
) -> Seq<EffectiveRoadView> {
    sort_by(effective_road_candidates(scenario, overlay), |v: EffectiveRoadView| road_id(v))
}

/// The effective roads are ordered by id and are exactly the visible imported
/// roads and the player roads, each once.
pub proof fn law_effective_roads_ordered_merge(scenario: CityScenario, overlay: CityPlanningOverlay)
    ensures
        ascending_by(spec_effective_roads(scenario, overlay), |v: EffectiveRoadView| road_id(v)),
        spec_effective_roads(scenario, overlay).to_multiset() == effective_road_candidates(
            scenario,
            overlay,
        ).to_multiset(),
{
    lemma_sort_by_ascending(
        effective_road_candidates(scenario, overlay),
        |v: EffectiveRoadView| road_id(v),
    );
    lemma_sort_by_multiset(
        effective_road_candidates(scenario, overlay),
        |v: EffectiveRoadView| road_id(v),
    );
}

impl CityPlanningOverlay {
    /// The roads the simulation sees: imported roads that are not suppressed and
    /// the player's roads, stably sorted by id.
    pub fn effective_roads(&self, scenario: &CityScenario) -> (r: Vec<EffectiveRoad>)
        ensures
            r@.map_values(|e: EffectiveRoad| e@) == spec_effective_roads(*scenario, *self),
    {
        let ghost sup = self.suppressed_scenario_entities.spec_keys();
        let mut roads: Vec<EffectiveRoad> = Vec::new();
        let mut i: usize = 0;
        while i < scenario.roads.len()
            invariant
                0 <= i <= scenario.roads@.len(),
                sup == self.suppressed_scenario_entities.spec_keys(),
                roads@.map_values(|e: EffectiveRoad| e@) == visible_scenario_roads(
                    scenario.roads@,
                    sup,
                    i as int,
                ),
            decreases scenario.roads@.len() - i,
        {
            let road = &scenario.roads[i];
            let hidden = self.is_suppressed(road.id.as_str());
            assert(sup.contains(road.id@) == self.suppressed_scenario_entities.spec_has(road.id@));
            if !hidden {
                let e = EffectiveRoad {
                    id: road.id.clone(),
                    geometry: copy_geometry(&road.geometry),
                    class: road.class,
                    name: clone_text_option(&road.name),
                    origin: EffectiveRoadOrigin::Scenario,
                    source_id: Some(road.source_id.clone()),
                };
                let ghost before = roads@;
                roads.push(e);
                proof {
                    assert(roads@.map_values(|e: EffectiveRoad| e@) =~= before.map_values(
                        |e: EffectiveRoad| e@,
                    ).push(scenario_road_view(*road)));
                }
            }
            i = i + 1;
        }
        let ghost scenario_part = roads@.map_values(|e: EffectiveRoad| e@);
        let player = self.player_roads.as_vec();
        let ghost pv = player@.map_values(|p: PlannedRoad| player_road_view(p));
        let ghost start = roads@.len();
        let mut j: usize = 0;
        while j < player.len()
            invariant
                0 <= j <= player@.len(),
                player@ == self.player_roads.entries(),
                pv == player@.map_values(|p: PlannedRoad| player_road_view(p)),
                roads@.len() == start + j,
                roads@.map_values(|e: EffectiveRoad| e@) == scenario_part + pv.take(j as int),
            decreases player@.len() - j,
        {
            let p = &player[j];
            let e = EffectiveRoad {
                id: p.id.clone(),
                geometry: copy_geometry(&p.geometry),
                class: p.class,
                name: clone_text_option(&p.name),
                origin: EffectiveRoadOrigin::Player,
                source_id: None,
            };
            let ghost before = roads@;
            roads.push(e);
            proof {
                assert(pv.len() == player@.len());
                assert(pv[j as int] == player_road_view(player@[j as int]));
                assert(pv.take(j + 1) =~= pv.take(j as int).push(player_road_view(*p)));
                assert(roads@.map_values(|e: EffectiveRoad| e@) =~= before.map_values(
                    |e: EffectiveRoad| e@,
                ).push(player_road_view(*p)));
            }
            j = j + 1;
        }
        proof {
            assert(pv.take(player@.len() as int) =~= pv);
        }
        let ghost unsorted = roads@;
        let sorted = sort_by_key(roads);
        proof {
            lemma_sort_by_map(
                unsorted,
                |e: EffectiveRoad| e@,
                key_fn::<EffectiveRoad>(),
                |v: EffectiveRoadView| road_id(v),
            );
        }
        sorted
    }
}

impl CityPlanningOverlay {
    /// Every table of the overlay is ordered by key, as its type guarantees.
    pub open spec fn well_formed(self) -> bool {
        &&& self.player_roads.sorted()
        &&& self.zones.sorted()
        &&& self.suppressed_scenario_entities.sorted()
    }
}

/// The two overlays hold the same player roads and zones, in the same order,
/// and suppress the same ids.
pub open spec fn same_overlay(a: CityPlanningOverlay, b: CityPlanningOverlay) -> bool {
    &&& a.player_roads.entries() == b.player_roads.entries()
    &&& a.zones.entries() == b.zones.entries()
    &&& a.suppressed_scenario_entities.entries().map_values(|t: String| t.key())
        == b.suppressed_scenario_entities.entries().map_values(|t: String| t.key())
}

/// The command carries no geometry with a NaN coordinate.
pub open spec fn command_has_no_nan(command: PlanningCommand) -> bool {
    match command {
        PlanningCommand::AddRoad { road } => has_no_nan(road.geometry@),
        PlanningCommand::ZoneArea { zone } => has_no_nan(zone.geometry@),
        _ => true,
    }
}

proof fn lemma_same_roads(o: CityPlanningOverlay, n: CityPlanningOverlay)
    requires
        o.well_formed(),
        n.well_formed(),
        forall|k: Seq<char>| #[trigger] n.player_roads.spec_lookup(k) == o.player_roads.spec_lookup(k),
    ensures
        n.player_roads.entries() == o.player_roads.entries(),
{
    o.player_roads.lemma_sorted();
    n.player_roads.lemma_sorted();
    assert forall|k: Seq<char>| #[trigger]
        lookup(n.player_roads.entries(), k) == lookup(o.player_roads.entries(), k) by {
        assert(n.player_roads.spec_lookup(k) == o.player_roads.spec_lookup(k));
    }
    lemma_canonical(n.player_roads.entries(), o.player_roads.entries());
}

proof fn lemma_same_zones(o: CityPlanningOverlay, n: CityPlanningOverlay)
    requires
        o.well_formed(),
        n.well_formed(),
        forall|k: Seq<char>| #[trigger] n.zones.spec_lookup(k) == o.zones.spec_lookup(k),
    ensures
        n.zones.entries() == o.zones.entries(),
{
    o.zones.lemma_sorted();
    n.zones.lemma_sorted();
    assert forall|k: Seq<char>| #[trigger]
        lookup(n.zones.entries(), k) == lookup(o.zones.entries(), k) by {
        assert(n.zones.spec_lookup(k) == o.zones.spec_lookup(k));
    }
    lemma_canonical(n.zones.entries(), o.zones.entries());
}

proof fn lemma_same_suppressed(o: CityPlanningOverlay, n: CityPlanningOverlay)
    requires
        o.well_formed(),
        n.well_formed(),
        forall|k: Seq<char>| #[trigger]
            n.suppressed_scenario_entities.spec_has(k) == o.suppressed_scenario_entities.spec_has(k),
    ensures
        n.suppressed_scenario_entities.entries().map_values(|t: String| t.key())
            == o.suppressed_scenario_entities.entries().map_values(|t: String| t.key()),
{
    o.suppressed_scenario_entities.lemma_sorted();
    n.suppressed_scenario_entities.lemma_sorted();
    assert forall|k: Seq<char>| #[trigger]
        has_key(n.suppressed_scenario_entities.entries(), k) == has_key(
            o.suppressed_scenario_entities.entries(),
            k,
        ) by {
        assert(n.suppressed_scenario_entities.spec_has(k)
            == o.suppressed_scenario_entities.spec_has(k));
    }
    lemma_canonical_keys(
        n.suppressed_scenario_entities.entries(),
        o.suppressed_scenario_entities.entries(),
    );
}

/// Repeating a planning command that succeeded answers `Unchanged` and leaves the
/// overlay as it was. (A road or zone whose geometry holds a NaN coordinate is not
/// equal to itself, so a repeat of its addition conflicts; such commands are left
/// out.)
pub proof fn law_repeated_command_is_unchanged(
    o0: CityPlanningOverlay,
    o1: CityPlanningOverlay,
    o2: CityPlanningOverlay,
    scenario: CityScenario,
    command: PlanningCommand,
    r1: Result<PlanningOutcome, PlanningError>,
    r2: Result<PlanningOutcome, PlanningError>,
)
    requires
        o1.well_formed(),
        o2.well_formed(),
        command_has_no_nan(command),
        apply_post(o0, o1, scenario, command, r1),
        r1 is Ok,
        apply_post(o1, o2, scenario, command, r2),
    ensures
        r2 == Ok::<_, PlanningError>(PlanningOutcome::Unchanged),
        same_overlay(o1, o2),
{
    match command {
        PlanningCommand::AddRoad { road } => {
            lemma_same_geometry_reflexive(road.geometry@);
            assert(o1.player_roads.spec_lookup(road.id@) is Some);
        },
        PlanningCommand::ZoneArea { zone } => {
            lemma_same_geometry_reflexive(zone.geometry@);
            assert(o1.zones.spec_lookup(zone.id@) is Some);
        },
        PlanningCommand::RemovePlayerRoad { id } => {
            assert(o1.player_roads.spec_lookup(id@) is None);
            lemma_same_roads(o1, o2);
        },
        PlanningCommand::RemoveZone { id } => {
            assert(o1.zones.spec_lookup(id@) is None);
            lemma_same_zones(o1, o2);
        },
        PlanningCommand::SuppressScenarioEntity { id } => {
            assert(o1.suppressed_scenario_entities.spec_has(id@));
            lemma_same_suppressed(o1, o2);
        },
        PlanningCommand::RestoreScenarioEntity { id } => {
            assert(!o1.suppressed_scenario_entities.spec_has(id@));
            lemma_same_suppressed(o1, o2);
        },
    }
}

/// Restoring an imported entity undoes its suppression.
pub proof fn law_restore_undoes_suppress(
    o0: CityPlanningOverlay,
    o1: CityPlanningOverlay,
    o2: CityPlanningOverlay,
    scenario: CityScenario,
    id: String,
    restore_id: String,
    r1: Result<PlanningOutcome, PlanningError>,
    r2: Result<PlanningOutcome, PlanningError>,
)
    requires
        o0.well_formed(),
        o2.well_formed(),
        !o0.suppressed_scenario_entities.spec_has(id@),
        apply_post(o0, o1, scenario, PlanningCommand::SuppressScenarioEntity { id }, r1),
        r1 is Ok,
        restore_id@ == id@,
        apply_post(o1, o2, scenario, PlanningCommand::RestoreScenarioEntity { id: restore_id }, r2),
    ensures
        r1 == Ok::<_, PlanningError>(PlanningOutcome::Applied),
        r2 == Ok::<_, PlanningError>(PlanningOutcome::Applied),
        same_overlay(o0, o2),
{
    assert(o1.suppressed_scenario_entities.spec_has(id@));
    lemma_same_suppressed(o0, o2);
}

/// Removing a player road undoes its addition.
pub proof fn law_remove_undoes_add_road(
    o0: CityPlanningOverlay,
    o1: CityPlanningOverlay,
    o2: CityPlanningOverlay,
    scenario: CityScenario,
    road: PlannedRoad,
    remove_id: String,
    r1: Result<PlanningOutcome, PlanningError>,
    r2: Result<PlanningOutcome, PlanningError>,
)
    requires
        o0.well_formed(),
        o2.well_formed(),
        apply_post(o0, o1, scenario, PlanningCommand::AddRoad { road }, r1),
        r1 == Ok::<_, PlanningError>(PlanningOutcome::Applied),
        remove_id@ == road.id@,
        apply_post(o1, o2, scenario, PlanningCommand::RemovePlayerRoad { id: remove_id }, r2),
    ensures
        r2 == Ok::<_, PlanningError>(PlanningOutcome::Applied),
        same_overlay(o0, o2),
{
    assert(o1.player_roads.spec_lookup(road.id@) is Some);
    lemma_same_roads(o0, o2);
}

/// Removing a zone undoes zoning it.
pub proof fn law_remove_undoes_zone_area(
    o0: CityPlanningOverlay,
    o1: CityPlanningOverlay,
    o2: CityPlanningOverlay,
    scenario: CityScenario,
    zone: PlannedZone,
    remove_id: String,
    r1: Result<PlanningOutcome, PlanningError>,
    r2: Result<PlanningOutcome, PlanningError>,
)
    requires
        o0.well_formed(),
        o2.well_formed(),
        apply_post(o0, o1, scenario, PlanningCommand::ZoneArea { zone }, r1),
        r1 == Ok::<_, PlanningError>(PlanningOutcome::Applied),
        remove_id@ == zone.id@,
        apply_post(o1, o2, scenario, PlanningCommand::RemoveZone { id: remove_id }, r2),
    ensures
        r2 == Ok::<_, PlanningError>(PlanningOutcome::Applied),
        same_overlay(o0, o2),
{
    assert(o1.zones.spec_lookup(zone.id@) is Some);
    lemma_same_zones(o0, o2);
}

/// A failed planning command leaves the overlay exactly as it was.
pub proof fn law_failed_command_changes_nothing(
    o0: CityPlanningOverlay,
    o1: CityPlanningOverlay,
    scenario: CityScenario,
    command: PlanningCommand,
    r: Result<PlanningOutcome, PlanningError>,
)
    requires
        apply_post(o0, o1, scenario, command, r),
        r is Err,
    ensures
        o1 == o0,
{
}

impl CitySave {
    /// Applies a planning command to the world's overlay. The imported scenario,
    /// the clock, the rules and the rest of the world are left as they were.
    pub fn apply_planning(&mut self, command: PlanningCommand) -> (r: Result<
        PlanningOutcome,
        PlanningError,
    >)
        ensures
            apply_post(old(self).world.planning, final(self).world.planning, old(self).scenario, command, r),
            *final(self) == (CitySave {
                world: CityWorld { planning: final(self).world.planning, ..old(self).world },
                ..*old(self)
            }),
    {
        self.world.planning.apply(&self.scenario, command)
    }

    pub fn effective_roads(&self) -> (r: Vec<EffectiveRoad>)
        ensures
            r@.map_values(|e: EffectiveRoad| e@) == spec_effective_roads(
                self.scenario,
                self.world.planning,
            ),
    {
        self.world.planning.effective_roads(&self.scenario)
    }

    /// Restarts the scenario: a fresh world seeded with the scenario's baseline
    /// population; scenario, clock and rules stay. Nothing changes when the
    /// baseline cannot be derived.
    pub fn restart(&mut self) -> (r: Result<(), PopulationError>)
        ensures
            match spec_scenario_baseline(old(self).scenario, old(self).ruleset.population.config) {
                Ok(population) => r is Ok && final(self).schema_version == old(self).schema_version
                    && final(self).ruleset == old(self).ruleset && final(self).scenario == old(self).scenario && final(self).time == old(self).time && final(self).world.is_fresh(
                    population,
                ),
                Err(e) => r == Err::<(), _>(e) && *final(self) == *old(self),
            },
    {
        let population = match self.scenario_population_baseline() {
            Ok(p) => p,
            Err(e) => return Err(e),
        };
        self.world = CityWorld::with_population(population);
        Ok(())
    }
}

/// What is wrong with a persisted planning entry.
#[derive(Debug, Clone, Copy, PartialEq, Eq, Structural)]
pub enum OverlayFault {
    InvalidId,
    InvalidRoadGeometry,
    InvalidZoneGeometry,
    Reserved,
    Conflicting,
    Unknown,
}

/// The first problem with a stored player road, checked in this order: a blank
/// id, a shape without a line segment, an id that the scenario reserves, an id
/// that a zone uses.
pub open spec fn road_fault(o: CityPlanningOverlay, scenario: CityScenario, road: PlannedRoad) -> Option<OverlayFault> {
    let id = road.id@;
    if is_blank(id) {
        Some(OverlayFault::InvalidId)
    } else if !is_road_shape(road.geometry@) {
        Some(OverlayFault::InvalidRoadGeometry)
    } else if scenario.spec_contains_entity(id) {
        Some(OverlayFault::Reserved)
    } else if o.zones.spec_has(id) {
        Some(OverlayFault::Conflicting)
    } else {
        None
    }
}

/// The first problem with a stored zone: a blank id, a shape that is not a
/// polygon or multipolygon, an id that the scenario reserves, an id that a
/// player road uses.
pub open spec fn zone_fault(o: CityPlanningOverlay, scenario: CityScenario, zone: PlannedZone) -> Option<OverlayFault> {
    let id = zone.id@;
    if is_blank(id) {
        Some(OverlayFault::InvalidId)
    } else if !is_zone_shape(zone.geometry@) {
        Some(OverlayFault::InvalidZoneGeometry)
    } else if scenario.spec_contains_entity(id) {
        Some(OverlayFault::Reserved)
    } else if o.player_roads.spec_has(id) {
        Some(OverlayFault::Conflicting)
    } else {
        None
    }
}

/// Player ids never collide with imported ids or with each other, stored roads
/// and zones have valid ids and shapes, and every suppressed id names an
/// imported entity.
pub open spec fn consistent_with(o: CityPlanningOverlay, scenario: CityScenario) -> bool {
    &&& forall|k: Seq<char>| #[trigger]
        o.player_roads.spec_lookup(k) is Some ==> road_fault(
            o,
            scenario,
            o.player_roads.spec_lookup(k)->Some_0,
        ) is None
    &&& forall|k: Seq<char>| #[trigger]
        o.zones.spec_lookup(k) is Some ==> zone_fault(o, scenario, o.zones.spec_lookup(k)->Some_0)
            is None
    &&& forall|k: Seq<char>| #[trigger]
        o.suppressed_scenario_entities.spec_has(k) ==> scenario.spec_contains_entity(k)
}

/// The first faulty player road from entry `i` on, with its id.
pub open spec fn first_road_fault(o: CityPlanningOverlay, scenario: CityScenario, i: int) -> Option<
    (OverlayFault, Seq<char>),
>
    decreases o.player_roads.entries().len() - i,
{
    let roads = o.player_roads.entries();
    if i < 0 || i >= roads.len() {
        None
    } else {
        match road_fault(o, scenario, roads[i]) {
            Some(f) => Some((f, roads[i].id@)),
            None => first_road_fault(o, scenario, i + 1),
        }
    }
}

/// The first faulty zone from entry `i` on, with its id.
pub open spec fn first_zone_fault(o: CityPlanningOverlay, scenario: CityScenario, i: int) -> Option<
    (OverlayFault, Seq<char>),
>
    decreases o.zones.entries().len() - i,
{
    let zones = o.zones.entries();
    if i < 0 || i >= zones.len() {
        None
    } else {
        match zone_fault(o, scenario, zones[i]) {
            Some(f) => Some((f, zones[i].id@)),
            None => first_zone_fault(o, scenario, i + 1),
        }
    }
}

/// The first suppressed id from entry `i` on that names no imported entity.
pub open spec fn first_unknown_suppressed(o: CityPlanningOverlay, scenario: CityScenario, i: int) -> Option<
    (OverlayFault, Seq<char>),
>
    decreases o.suppressed_scenario_entities.entries().len() - i,
{
    let ids = o.suppressed_scenario_entities.entries();
    if i < 0 || i >= ids.len() {
        None
    } else if !scenario.spec_contains_entity(ids[i]@) {
        Some((OverlayFault::Unknown, ids[i]@))
    } else {
        first_unknown_suppressed(o, scenario, i + 1)
    }
}

/// The first problem validation meets: player roads in id order, then zones in
/// id order, then suppressed ids in order.
pub open spec fn overlay_fault(o: CityPlanningOverlay, scenario: CityScenario) -> Option<
    (OverlayFault, Seq<char>),
> {
    match first_road_fault(o, scenario, 0) {
        Some(f) => Some(f),
        None => match first_zone_fault(o, scenario, 0) {
            Some(f) => Some(f),
            None => first_unknown_suppressed(o, scenario, 0),
        },
    }
}

/// `e` is the planning error that reports `fault` at `id`.
pub open spec fn reports(e: PlanningError, fault: OverlayFault, id: Seq<char>) -> bool {
    match fault {
        OverlayFault::InvalidId => e == PlanningError::InvalidId,
        OverlayFault::InvalidRoadGeometry => e == PlanningError::InvalidRoadGeometry,
        OverlayFault::InvalidZoneGeometry => e == PlanningError::InvalidZoneGeometry,
        OverlayFault::Reserved => e matches PlanningError::ScenarioEntityIdReserved(x) && x@ == id,
        OverlayFault::Conflicting => e matches PlanningError::ConflictingPlayerEntityId(x) && x@ == id,
        OverlayFault::Unknown => e matches PlanningError::UnknownScenarioEntity(x) && x@ == id,
    }
}

proof fn lemma_first_road_fault_none(o: CityPlanningOverlay, scenario: CityScenario, i: int)
    requires
        0 <= i <= o.player_roads.entries().len(),
    ensures
        first_road_fault(o, scenario, i) is None <==> forall|j: int|
            i <= j < o.player_roads.entries().len() ==> road_fault(
                o,
                scenario,
                #[trigger] o.player_roads.entries()[j],
            ) is None,
    decreases o.player_roads.entries().len() - i,
{
    if i < o.player_roads.entries().len() {
        lemma_first_road_fault_none(o, scenario, i + 1);
    }
}

proof fn lemma_first_zone_fault_none(o: CityPlanningOverlay, scenario: CityScenario, i: int)
    requires
        0 <= i <= o.zones.entries().len(),
    ensures
        first_zone_fault(o, scenario, i) is None <==> forall|j: int|
            i <= j < o.zones.entries().len() ==> zone_fault(
                o,
                scenario,
                #[trigger] o.zones.entries()[j],
            ) is None,
    decreases o.zones.entries().len() - i,
{
    if i < o.zones.entries().len() {
        lemma_first_zone_fault_none(o, scenario, i + 1);
    }
}

proof fn lemma_first_unknown_none(o: CityPlanningOverlay, scenario: CityScenario, i: int)
    requires
        0 <= i <= o.suppressed_scenario_entities.entries().len(),
    ensures
        first_unknown_suppressed(o, scenario, i) is None <==> forall|j: int|
            i <= j < o.suppressed_scenario_entities.entries().len()
                ==> scenario.spec_contains_entity(
                (#[trigger] o.suppressed_scenario_entities.entries()[j])@,
            ),
    decreases o.suppressed_scenario_entities.entries().len() - i,
{
    if i < o.suppressed_scenario_entities.entries().len() {
        lemma_first_unknown_none(o, scenario, i + 1);
    }
}

/// For a well-formed overlay, validation finds nothing exactly when the overlay
/// is consistent with the scenario.
pub proof fn lemma_no_fault_iff_consistent(o: CityPlanningOverlay, scenario: CityScenario)
    requires
        o.well_formed(),
    ensures
        overlay_fault(o, scenario) is None <==> consistent_with(o, scenario),
{
    o.player_roads.lemma_sorted();
    o.zones.lemma_sorted();
    o.suppressed_scenario_entities.lemma_sorted();
    let roads = o.player_roads.entries();
    let zones = o.zones.entries();
    let ids = o.suppressed_scenario_entities.entries();
    lemma_first_road_fault_none(o, scenario, 0);
    lemma_first_zone_fault_none(o, scenario, 0);
    lemma_first_unknown_none(o, scenario, 0);
    if overlay_fault(o, scenario) is None {
        assert forall|k: Seq<char>| #[trigger] o.player_roads.spec_lookup(k) is Some implies road_fault(
            o,
            scenario,
            o.player_roads.spec_lookup(k)->Some_0,
        ) is None by {
            let j = index_of_key(roads, k);
            assert(roads[j] == o.player_roads.spec_lookup(k)->Some_0);
        }
        assert forall|k: Seq<char>| #[trigger] o.zones.spec_lookup(k) is Some implies zone_fault(
            o,
            scenario,
            o.zones.spec_lookup(k)->Some_0,
        ) is None by {
            let j = index_of_key(zones, k);
            assert(zones[j] == o.zones.spec_lookup(k)->Some_0);
        }
        assert forall|k: Seq<char>| #[trigger] o.suppressed_scenario_entities.spec_has(k) implies scenario.spec_contains_entity(k) by {
            let j = index_of_key(ids, k);
            assert(ids[j].key() == k);
        }
    }
    if consistent_with(o, scenario) {
        assert forall|j: int| 0 <= j < roads.len() implies road_fault(o, scenario, #[trigger] roads[j])
            is None by {
            lemma_lookup_at(roads, j);
            assert(o.player_roads.spec_lookup(roads[j].key()) == Some(roads[j]));
        }
        assert forall|j: int| 0 <= j < zones.len() implies zone_fault(o, scenario, #[trigger] zones[j])
            is None by {
            lemma_lookup_at(zones, j);
            assert(o.zones.spec_lookup(zones[j].key()) == Some(zones[j]));
        }
        assert forall|j: int| 0 <= j < ids.len() implies scenario.spec_contains_entity(
            (#[trigger] ids[j])@,
        ) by {
            lemma_lookup_at(ids, j);
            assert(o.suppressed_scenario_entities.spec_has(ids[j].key()));
        }
    }
}

/// An empty overlay is consistent with every scenario.
pub proof fn law_empty_overlay_is_consistent(o: CityPlanningOverlay, scenario: CityScenario)
    requires
        o.is_empty_overlay(),
    ensures
        consistent_with(o, scenario),
{
}

/// Every planning command keeps an overlay consistent with its scenario:
/// whatever `apply` builds never needs to be refused when a save is loaded.
pub proof fn law_apply_keeps_overlay_consistent(
    o0: CityPlanningOverlay,
    o1: CityPlanningOverlay,
    scenario: CityScenario,
    command: PlanningCommand,
    r: Result<PlanningOutcome, PlanningError>,
)
    requires
        consistent_with(o0, scenario),
        apply_post(o0, o1, scenario, command, r),
    ensures
        consistent_with(o1, scenario),
{
    assert forall|k: Seq<char>| #[trigger] o1.player_roads.spec_lookup(k) is Some implies road_fault(
        o1,
        scenario,
        o1.player_roads.spec_lookup(k)->Some_0,
    ) is None by {
        let x = o1.player_roads.spec_lookup(k)->Some_0;
        assert(x.id@ == k);
        assert(o1.zones.spec_has(k) == (o1.zones.spec_lookup(k) is Some));
        assert(o0.zones.spec_has(k) == (o0.zones.spec_lookup(k) is Some));
        assert(o0.player_roads.spec_has(k) == (o0.player_roads.spec_lookup(k) is Some));
        if o0.player_roads.spec_lookup(k) is Some {
            assert(road_fault(o0, scenario, o0.player_roads.spec_lookup(k)->Some_0) is None);
        }
        if o0.zones.spec_lookup(k) is Some {
            assert(zone_fault(o0, scenario, o0.zones.spec_lookup(k)->Some_0) is None);
        }
    }
    assert forall|k: Seq<char>| #[trigger] o1.zones.spec_lookup(k) is Some implies zone_fault(
        o1,
        scenario,
        o1.zones.spec_lookup(k)->Some_0,
    ) is None by {
        let x = o1.zones.spec_lookup(k)->Some_0;
        assert(x.id@ == k);
        assert(o1.player_roads.spec_has(k) == (o1.player_roads.spec_lookup(k) is Some));
        assert(o0.player_roads.spec_has(k) == (o0.player_roads.spec_lookup(k) is Some));
        assert(o0.zones.spec_has(k) == (o0.zones.spec_lookup(k) is Some));
        if o0.zones.spec_lookup(k) is Some {
            assert(zone_fault(o0, scenario, o0.zones.spec_lookup(k)->Some_0) is None);
        }
        if o0.player_roads.spec_lookup(k) is Some {
            assert(road_fault(o0, scenario, o0.player_roads.spec_lookup(k)->Some_0) is None);
        }
    }
    assert forall|k: Seq<char>| #[trigger] o1.suppressed_scenario_entities.spec_has(k) implies scenario.spec_contains_entity(k) by {}
}

impl CityPlanningOverlay {
    /// Checks a persisted overlay against its scenario: every player road, then
    /// every zone, then every suppressed id, each in id order, refusing the first
    /// entry that `apply` would not have admitted.
    pub fn validate_against_scenario(&self, scenario: &CityScenario) -> (r: Result<(), PlanningError>)
        ensures
            (r is Ok) <==> consistent_with(*self, *scenario),
            match overlay_fault(*self, *scenario) {
                None => r is Ok,
                Some((fault, id)) => r matches Err(e) && reports(e, fault, id),
            },
    {
        proof {
            use_type_invariant(&self.player_roads);
            use_type_invariant(&self.zones);
            use_type_invariant(&self.suppressed_scenario_entities);
            lemma_no_fault_iff_consistent(*self, *scenario);
        }
        let roads = self.player_roads.as_vec();
        let mut i: usize = 0;
        while i < roads.len()
            invariant
                0 <= i <= roads@.len(),
                roads@ == self.player_roads.entries(),
                overlay_fault(*self, *scenario) is None <==> consistent_with(*self, *scenario),
                first_road_fault(*self, *scenario, 0) == first_road_fault(*self, *scenario, i as int),
            decreases roads@.len() - i,
        {
            let road = &roads[i];
            if validate_id(&road.id).is_err() {
                return Err(PlanningError::InvalidId);
            }
            if !valid_road_geometry(&road.geometry) {
                return Err(PlanningError::InvalidRoadGeometry);
            }
            if scenario.contains_entity(road.id.as_str()) {
                return Err(PlanningError::ScenarioEntityIdReserved(road.id.clone()));
            }
            if self.zones.contains_key(road.id.as_str()) {
                return Err(PlanningError::ConflictingPlayerEntityId(road.id.clone()));
            }
            i = i + 1;
        }
        let zones = self.zones.as_vec();
        let mut i: usize = 0;
        while i < zones.len()
            invariant
                0 <= i <= zones@.len(),
                zones@ == self.zones.entries(),
                first_road_fault(*self, *scenario, 0) is None,
                overlay_fault(*self, *scenario) is None <==> consistent_with(*self, *scenario),
                first_zone_fault(*self, *scenario, 0) == first_zone_fault(*self, *scenario, i as int),
            decreases zones@.len() - i,
        {
            let zone = &zones[i];
            if validate_id(&zone.id).is_err() {
                return Err(PlanningError::InvalidId);
            }
            if !valid_zone_geometry(&zone.geometry) {
                return Err(PlanningError::InvalidZoneGeometry);
            }
            if scenario.contains_entity(zone.id.as_str()) {
                return Err(PlanningError::ScenarioEntityIdReserved(zone.id.clone()));
            }
            if self.player_roads.contains_key(zone.id.as_str()) {
                return Err(PlanningError::ConflictingPlayerEntityId(zone.id.clone()));
            }
            i = i + 1;
        }
        let ids = self.suppressed_scenario_entities.as_vec();
        let mut i: usize = 0;
        while i < ids.len()
            invariant
                0 <= i <= ids@.len(),
                ids@ == self.suppressed_scenario_entities.entries(),
                first_road_fault(*self, *scenario, 0) is None,
                first_zone_fault(*self, *scenario, 0) is None,
                overlay_fault(*self, *scenario) is None <==> consistent_with(*self, *scenario),
                first_unknown_suppressed(*self, *scenario, 0) == first_unknown_suppressed(
                    *self,
                    *scenario,
                    i as int,
                ),
            decreases ids@.len() - i,
        {
            let id = &ids[i];
            if !scenario.contains_entity(id.as_str()) {
                return Err(PlanningError::UnknownScenarioEntity(id.clone()));
            }
            i = i + 1;
        }
        Ok(())
    }
}

/// Zoning an id that already names a zone answers `Unchanged` only when the
/// stored zone has the same kind and the same shape; then nothing changes.
pub proof fn law_rezoning_is_unchanged_only_for_the_same_zone(
    o0: CityPlanningOverlay,
    o1: CityPlanningOverlay,
    scenario: CityScenario,
    zone: PlannedZone,
    r: Result<PlanningOutcome, PlanningError>,
)
    requires
        apply_post(o0, o1, scenario, PlanningCommand::ZoneArea { zone }, r),
        r == Ok::<_, PlanningError>(PlanningOutcome::Unchanged),
    ensures
        o0.zones.spec_lookup(zone.id@) is Some,
        o0.zones.spec_lookup(zone.id@)->Some_0.kind == zone.kind,
        same_geometry(o0.zones.spec_lookup(zone.id@)->Some_0.geometry@, zone.geometry@),
        o1 == o0,
{
}

/// Zoning an id that names a zone of another kind fails closed: the id is
/// reported as already used by different state and the overlay stays as it was.
pub proof fn law_rezoning_with_another_kind_conflicts(
    o0: CityPlanningOverlay,
    o1: CityPlanningOverlay,
    scenario: CityScenario,
    zone: PlannedZone,
    r: Result<PlanningOutcome, PlanningError>,
)
    requires
        apply_post(o0, o1, scenario, PlanningCommand::ZoneArea { zone }, r),
        !is_blank(zone.id@),
        is_zone_shape(zone.geometry@),
        !scenario.spec_contains_entity(zone.id@),
        !o0.player_roads.spec_has(zone.id@),
        o0.zones.spec_lookup(zone.id@) is Some,
        o0.zones.spec_lookup(zone.id@)->Some_0.kind != zone.kind,
    ensures
        r matches Err(PlanningError::ConflictingPlayerEntityId(id)) && id@ == zone.id@,
        o1 == o0,
{
}

/// Adding a road whose id already names a player road answers `Unchanged` only
/// when the stored road has the same class, name and shape; then nothing changes.
pub proof fn law_readding_a_road_is_unchanged_only_for_the_same_road(
    o0: CityPlanningOverlay,
    o1: CityPlanningOverlay,
    scenario: CityScenario,
    road: PlannedRoad,
    r: Result<PlanningOutcome, PlanningError>,
)
    requires
        apply_post(o0, o1, scenario, PlanningCommand::AddRoad { road }, r),
        r == Ok::<_, PlanningError>(PlanningOutcome::Unchanged),
    ensures
        o0.player_roads.spec_lookup(road.id@) is Some,
        o0.player_roads.spec_lookup(road.id@)->Some_0.class == road.class,
        text_option(o0.player_roads.spec_lookup(road.id@)->Some_0.name) == text_option(road.name),
        same_geometry(o0.player_roads.spec_lookup(road.id@)->Some_0.geometry@, road.geometry@),
        o1 == o0,
{
}

impl Default for CityPlanningOverlay {
    fn default() -> (o: Self)
        ensures
            o.is_empty_overlay(),
    {
        CityPlanningOverlay::new()
    }
}

} // verus!
