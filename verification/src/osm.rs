//! Game semantics of imported OpenStreetMap features: which tags make a road, a
//! building, water, land use or a transit anchor, and what their attributes mean.
use sha2::Digest;
use vstd::prelude::*;

use crate::geometry::{canonical_building_footprint, canonical_footprint, Geometry};
use crate::model::{
    text_option, BuildingUse, CityScenario, ScenarioBuildingView, ScenarioLandUseView,
    ScenarioRoadView, ScenarioTransitAnchorView, ScenarioWaterView, ExternalRevision, ScenarioProvenance,
    SCENARIO_SCHEMA_VERSION, LandUseKind, RoadClass, ScenarioBuilding, ScenarioLandUse, ScenarioRoad,
    ScenarioTransitAnchor, ScenarioWater, TransitKind, WaterKind,
};
use crate::table::{
    ascending_by, key_fn, lemma_sort_by_ascending, lemma_sort_by_map, lemma_sort_by_multiset, sort_by,
    sort_by_key,
    KeyedTable, Keyed,
};
use crate::text::{
    chars_of, ends_with, ends_with_chars, first_segment, first_segment_chars, parse_unsigned,
    parse_unsigned_chars, text_equals, trim, trim_chars,
};

verus! {

/// One OSM tag.
#[derive(Debug, Clone, PartialEq, Eq)]
pub struct OsmTag {
    pub key: String,
    pub value: String,
}

impl Keyed for OsmTag {
    open spec fn key(&self) -> Seq<char> {
        self.key@
    }

    fn key_text(&self) -> (k: &str) {
        self.key.as_str()
    }

    fn duplicate(&self) -> (r: Self) {
        OsmTag { key: self.key.clone(), value: self.value.clone() }
    }
}

/// A feature's tags by key.
pub type OsmTags = KeyedTable<OsmTag>;

impl KeyedTable<OsmTag> {
    /// The value of tag `key`, if the feature carries it.
    pub open spec fn tag(self, key: Seq<char>) -> Option<Seq<char>> {
        match self.spec_lookup(key) {
            Some(t) => Some(t.value@),
            None => None,
        }
    }

    /// Sets tag `key` to `value`.
    pub fn insert_tag(&mut self, key: String, value: String)
        ensures
            forall|k: Seq<char>| #[trigger]
                final(self).tag(k) == if k == key@ {
                    Some(value@)
                } else {
                    old(self).tag(k)
                },
    {
        let ghost kv = key@;
        let ghost vv = value@;
        let t = OsmTag { key, value };
        self.insert(t);
        proof {
            assert forall|k: Seq<char>| #[trigger]
                self.tag(k) == if k == kv {
                    Some(vv)
                } else {
                    old(self).tag(k)
                } by {
                assert(self.spec_lookup(k) == if k == kv {
                    Some(t)
                } else {
                    old(self).spec_lookup(k)
                });
            }
        }
    }

    /// The value of tag `key`.
    pub fn tag_value(&self, key: &str) -> (r: Option<&String>)
        ensures
            r matches Some(v) ==> self.tag(key@) == Some(v@),
            r is None ==> self.tag(key@) is None,
    {
        match self.get(key) {
            Some(t) => Some(&t.value),
            None => None,
        }
    }

    pub fn has_tag(&self, key: &str) -> (r: bool)
        ensures
            r == (self.tag(key@) is Some),
    {
        self.contains_key(key)
    }
}

/// The tag is present with the value `value`.
pub open spec fn tag_is(tags: OsmTags, key: Seq<char>, value: Seq<char>) -> bool {
    tags.tag(key) == Some(value)
}

/// Whether tag `key` is present with value `value`.
fn tag_equals(tags: &OsmTags, key: &str, value: &str) -> (r: bool)
    ensures
        r == tag_is(*tags, key@, value@),
{
    match tags.tag_value(key) {
        Some(v) => text_equals(v.as_str(), value),
        None => false,
    }
}

/// What an imported feature becomes in the game.
#[derive(Debug, Clone, Copy, PartialEq, Eq, Structural)]
pub enum ImportedKind {
    Road,
    Building,
    Water,
    LandUse,
    Transit,
    Ignore,
}

pub open spec fn spec_is_transit_feature(tags: OsmTags) -> bool {
    ||| tags.tag("railway"@) is Some
    ||| tags.tag("public_transport"@) is Some
    ||| tag_is(tags, "highway"@, "bus_stop"@)
    ||| tag_is(tags, "highway"@, "platform"@)
}

pub fn is_transit_feature(tags: &OsmTags) -> (r: bool)
    ensures
        r == spec_is_transit_feature(*tags),
{
    tags.has_tag("railway") || tags.has_tag("public_transport") || tag_equals(
        tags,
        "highway",
        "bus_stop",
    ) || tag_equals(tags, "highway", "platform")
}

/// `highway` values that mark points and places along a road rather than roads.
pub open spec fn spec_is_road_highway(value: Seq<char>) -> bool {
    !{
        ||| value == "bus_stop"@
        ||| value == "platform"@
        ||| value == "traffic_signals"@
        ||| value == "crossing"@
        ||| value == "stop"@
        ||| value == "give_way"@
        ||| value == "street_lamp"@
        ||| value == "speed_camera"@
        ||| value == "motorway_junction"@
        ||| value == "services"@
        ||| value == "rest_area"@
        ||| value == "turning_circle"@
        ||| value == "turning_loop"@
        ||| value == "passing_place"@
        ||| value == "milestone"@
        ||| value == "emergency_bay"@
        ||| value == "elevator"@
    }
}

pub fn is_road_highway(value: &str) -> (r: bool)
    ensures
        r == spec_is_road_highway(value@),
{
    !(text_equals(value, "bus_stop") || text_equals(value, "platform") || text_equals(
        value,
        "traffic_signals",
    ) || text_equals(value, "crossing") || text_equals(value, "stop") || text_equals(
        value,
        "give_way",
    ) || text_equals(value, "street_lamp") || text_equals(value, "speed_camera") || text_equals(
        value,
        "motorway_junction",
    ) || text_equals(value, "services") || text_equals(value, "rest_area") || text_equals(
        value,
        "turning_circle",
    ) || text_equals(value, "turning_loop") || text_equals(value, "passing_place")
        || text_equals(value, "milestone") || text_equals(value, "emergency_bay")
        || text_equals(value, "elevator"))
}

/// Classification, first match wins: transit tags, then a road `highway` value,
/// then `building`, then water tags, then `landuse`.
pub open spec fn spec_classify(tags: OsmTags) -> ImportedKind {
    if spec_is_transit_feature(tags) {
        ImportedKind::Transit
    } else if tags.tag("highway"@) matches Some(v) && spec_is_road_highway(v) {
        ImportedKind::Road
    } else if tags.tag("building"@) is Some {
        ImportedKind::Building
    } else if tag_is(tags, "natural"@, "water"@) || tags.tag("water"@) is Some || tags.tag(
        "waterway"@,
    ) is Some {
        ImportedKind::Water
    } else if tags.tag("landuse"@) is Some {
        ImportedKind::LandUse
    } else {
        ImportedKind::Ignore
    }
}

pub fn classify(tags: &OsmTags) -> (r: ImportedKind)
    ensures
        r == spec_classify(*tags),
{
    if is_transit_feature(tags) {
        return ImportedKind::Transit;
    }
    let road = match tags.tag_value("highway") {
        Some(v) => is_road_highway(v.as_str()),
        None => false,
    };
    if road {
        ImportedKind::Road
    } else if tags.has_tag("building") {
        ImportedKind::Building
    } else if tag_equals(tags, "natural", "water") || tags.has_tag("water") || tags.has_tag(
        "waterway",
    ) {
        ImportedKind::Water
    } else if tags.has_tag("landuse") {
        ImportedKind::LandUse
    } else {
        ImportedKind::Ignore
    }
}

pub open spec fn spec_road_class(tags: OsmTags) -> RoadClass {
    match tags.tag("highway"@) {
        Some(v) => if v == "motorway"@ || v == "motorway_link"@ {
            RoadClass::Motorway
        } else if v == "trunk"@ || v == "trunk_link"@ {
            RoadClass::Trunk
        } else if v == "primary"@ || v == "primary_link"@ {
            RoadClass::Primary
        } else if v == "secondary"@ || v == "secondary_link"@ {
            RoadClass::Secondary
        } else if v == "tertiary"@ || v == "tertiary_link"@ {
            RoadClass::Tertiary
        } else if v == "residential"@ || v == "living_street"@ || v == "unclassified"@ {
            RoadClass::Residential
        } else if v == "service"@ {
            RoadClass::Service
        } else if v == "track"@ {
            RoadClass::Track
        } else if v == "pedestrian"@ {
            RoadClass::Pedestrian
        } else if v == "cycleway"@ {
            RoadClass::Cycleway
        } else if v == "footway"@ || v == "path"@ || v == "steps"@ {
            RoadClass::Footway
        } else {
            RoadClass::Other
        },
        None => RoadClass::Other,
    }
}

pub fn road_class(tags: &OsmTags) -> (r: RoadClass)
    ensures
        r == spec_road_class(*tags),
{
    let v = match tags.tag_value("highway") {
        Some(v) => v.as_str(),
        None => return RoadClass::Other,
    };
    if text_equals(v, "motorway") || text_equals(v, "motorway_link") {
        RoadClass::Motorway
    } else if text_equals(v, "trunk") || text_equals(v, "trunk_link") {
        RoadClass::Trunk
    } else if text_equals(v, "primary") || text_equals(v, "primary_link") {
        RoadClass::Primary
    } else if text_equals(v, "secondary") || text_equals(v, "secondary_link") {
        RoadClass::Secondary
    } else if text_equals(v, "tertiary") || text_equals(v, "tertiary_link") {
        RoadClass::Tertiary
    } else if text_equals(v, "residential") || text_equals(v, "living_street") || text_equals(
        v,
        "unclassified",
    ) {
        RoadClass::Residential
    } else if text_equals(v, "service") {
        RoadClass::Service
    } else if text_equals(v, "track") {
        RoadClass::Track
    } else if text_equals(v, "pedestrian") {
        RoadClass::Pedestrian
    } else if text_equals(v, "cycleway") {
        RoadClass::Cycleway
    } else if text_equals(v, "footway") || text_equals(v, "path") || text_equals(v, "steps") {
        RoadClass::Footway
    } else {
        RoadClass::Other
    }
}

pub open spec fn spec_building_use(tags: OsmTags) -> BuildingUse {
    match tags.tag("building"@) {
        Some(v) => if v == "apartments"@ || v == "house"@ || v == "residential"@ || v
            == "detached"@ || v == "semidetached_house"@ || v == "terrace"@ || v == "dormitory"@ {
            BuildingUse::Residential
        } else if v == "commercial"@ || v == "retail"@ || v == "office"@ || v == "hotel"@ {
            BuildingUse::Commercial
        } else if v == "industrial"@ || v == "warehouse"@ || v == "manufacture"@ {
            BuildingUse::Industrial
        } else if v == "school"@ || v == "hospital"@ || v == "civic"@ || v == "government"@ || v
            == "public"@ || v == "church"@ || v == "cathedral"@ || v == "chapel"@ {
            BuildingUse::Civic
        } else if v == "farm"@ || v == "farm_auxiliary"@ || v == "barn"@ || v == "stable"@ || v
            == "greenhouse"@ {
            BuildingUse::Agricultural
        } else {
            BuildingUse::Other
        },
        None => BuildingUse::Other,
    }
}

pub fn building_use(tags: &OsmTags) -> (r: BuildingUse)
    ensures
        r == spec_building_use(*tags),
{
    let v = match tags.tag_value("building") {
        Some(v) => v.as_str(),
        None => return BuildingUse::Other,
    };
    if text_equals(v, "apartments") || text_equals(v, "house") || text_equals(v, "residential")
        || text_equals(v, "detached") || text_equals(v, "semidetached_house") || text_equals(
        v,
        "terrace",
    ) || text_equals(v, "dormitory") {
        BuildingUse::Residential
    } else if text_equals(v, "commercial") || text_equals(v, "retail") || text_equals(v, "office")
        || text_equals(v, "hotel") {
        BuildingUse::Commercial
    } else if text_equals(v, "industrial") || text_equals(v, "warehouse") || text_equals(
        v,
        "manufacture",
    ) {
        BuildingUse::Industrial
    } else if text_equals(v, "school") || text_equals(v, "hospital") || text_equals(v, "civic")
        || text_equals(v, "government") || text_equals(v, "public") || text_equals(v, "church")
        || text_equals(v, "cathedral") || text_equals(v, "chapel") {
        BuildingUse::Civic
    } else if text_equals(v, "farm") || text_equals(v, "farm_auxiliary") || text_equals(v, "barn")
        || text_equals(v, "stable") || text_equals(v, "greenhouse") {
        BuildingUse::Agricultural
    } else {
        BuildingUse::Other
    }
}

pub open spec fn spec_water_kind(tags: OsmTags) -> WaterKind {
    match tags.tag("waterway"@) {
        Some(v) => if v == "river"@ {
            WaterKind::River
        } else if v == "stream"@ {
            WaterKind::Stream
        } else if v == "canal"@ {
            WaterKind::Canal
        } else {
            WaterKind::Other
        },
        None => if tag_is(tags, "natural"@, "water"@) || tags.tag("water"@) is Some {
            WaterKind::Body
        } else {
            WaterKind::Other
        },
    }
}

pub fn water_kind(tags: &OsmTags) -> (r: WaterKind)
    ensures
        r == spec_water_kind(*tags),
{
    match tags.tag_value("waterway") {
        Some(v) => {
            let v = v.as_str();
            if text_equals(v, "river") {
                WaterKind::River
            } else if text_equals(v, "stream") {
                WaterKind::Stream
            } else if text_equals(v, "canal") {
                WaterKind::Canal
            } else {
                WaterKind::Other
            }
        },
        None => {
            if tag_equals(tags, "natural", "water") || tags.has_tag("water") {
                WaterKind::Body
            } else {
                WaterKind::Other
            }
        },
    }
}

pub open spec fn spec_land_use_kind(tags: OsmTags) -> LandUseKind {
    match tags.tag("landuse"@) {
        Some(v) => if v == "residential"@ {
            LandUseKind::Residential
        } else if v == "commercial"@ {
            LandUseKind::Commercial
        } else if v == "industrial"@ {
            LandUseKind::Industrial
        } else if v == "retail"@ {
            LandUseKind::Retail
        } else if v == "forest"@ {
            LandUseKind::Forest
        } else if v == "farmland"@ || v == "farmyard"@ || v == "orchard"@ || v == "vineyard"@ {
            LandUseKind::Farmland
        } else if v == "recreation_ground"@ || v == "village_green"@ || v == "grass"@ {
            LandUseKind::Recreation
        } else if v == "cemetery"@ {
            LandUseKind::Cemetery
        } else {
            LandUseKind::Other
        },
        None => LandUseKind::Other,
    }
}

pub fn land_use_kind(tags: &OsmTags) -> (r: LandUseKind)
    ensures
        r == spec_land_use_kind(*tags),
{
    let v = match tags.tag_value("landuse") {
        Some(v) => v.as_str(),
        None => return LandUseKind::Other,
    };
    if text_equals(v, "residential") {
        LandUseKind::Residential
    } else if text_equals(v, "commercial") {
        LandUseKind::Commercial
    } else if text_equals(v, "industrial") {
        LandUseKind::Industrial
    } else if text_equals(v, "retail") {
        LandUseKind::Retail
    } else if text_equals(v, "forest") {
        LandUseKind::Forest
    } else if text_equals(v, "farmland") || text_equals(v, "farmyard") || text_equals(v, "orchard")
        || text_equals(v, "vineyard") {
        LandUseKind::Farmland
    } else if text_equals(v, "recreation_ground") || text_equals(v, "village_green")
        || text_equals(v, "grass") {
        LandUseKind::Recreation
    } else if text_equals(v, "cemetery") {
        LandUseKind::Cemetery
    } else {
        LandUseKind::Other
    }
}

/// Transit kind from `highway`, `public_transport` and `railway`, first match
/// wins: a bus stop, a platform, a station or halt, a tram stop, a stop position,
/// any other railway feature.
pub open spec fn spec_transit_kind(tags: OsmTags) -> TransitKind {
    let railway = tags.tag("railway"@);
    if tag_is(tags, "highway"@, "bus_stop"@) {
        TransitKind::BusStop
    } else if tag_is(tags, "public_transport"@, "platform"@) || tag_is(
        tags,
        "highway"@,
        "platform"@,
    ) {
        TransitKind::Platform
    } else if railway == Some("station"@) || railway == Some("halt"@) {
        TransitKind::Station
    } else if railway == Some("tram_stop"@) {
        TransitKind::TramStop
    } else if tag_is(tags, "public_transport"@, "stop_position"@) {
        TransitKind::StopPosition
    } else if railway is Some {
        TransitKind::Rail
    } else {
        TransitKind::Other
    }
}

pub fn transit_kind(tags: &OsmTags) -> (r: TransitKind)
    ensures
        r == spec_transit_kind(*tags),
{
    if tag_equals(tags, "highway", "bus_stop") {
        TransitKind::BusStop
    } else if tag_equals(tags, "public_transport", "platform") || tag_equals(
        tags,
        "highway",
        "platform",
    ) {
        TransitKind::Platform
    } else if tag_equals(tags, "railway", "station") || tag_equals(tags, "railway", "halt") {
        TransitKind::Station
    } else if tag_equals(tags, "railway", "tram_stop") {
        TransitKind::TramStop
    } else if tag_equals(tags, "public_transport", "stop_position") {
        TransitKind::StopPosition
    } else if tags.has_tag("railway") {
        TransitKind::Rail
    } else {
        TransitKind::Other
    }
}

/// `s` without its suffix `suffix`, if it ends with it.
pub open spec fn strip_suffix(s: Seq<char>, suffix: Seq<char>) -> Seq<char> {
    if ends_with(s, suffix) {
        s.take(s.len() - suffix.len())
    } else {
        s
    }
}

/// Lane count of a `lanes` tag: the first of several `;` or `|` separated
/// values, trimmed, read as a `u8`, and kept only from 1 to 32.
pub open spec fn spec_parse_lanes(value: Seq<char>) -> Option<u8> {
    match parse_unsigned(trim(first_segment(value)), 255) {
        Some(n) => if 1 <= n <= 32 {
            Some(n as u8)
        } else {
            None
        },
        None => None,
    }
}

pub fn parse_lanes(value: &str) -> (r: Option<u8>)
    ensures
        r == spec_parse_lanes(value@),
{
    let chars = chars_of(value);
    let segment = first_segment_chars(&chars);
    let trimmed = trim_chars(&segment);
    match parse_unsigned_chars(&trimmed, 255) {
        Some(n) => if 1 <= n && n <= 32 {
            Some(n as u8)
        } else {
            None
        },
        None => None,
    }
}

/// Speed limit of a `maxspeed` tag in km/h: the trimmed value without a trailing
/// ` km/h`; values in mph are refused; the rest, trimmed again, read as a `u16`
/// and kept only from 1 to 300.
pub open spec fn spec_parse_max_speed_kph(value: Seq<char>) -> Option<u16> {
    let normalized = strip_suffix(trim(value), " km/h"@);
    if ends_with(normalized, "mph"@) {
        None
    } else {
        match parse_unsigned(trim(normalized), 65535) {
            Some(n) => if 1 <= n <= 300 {
                Some(n as u16)
            } else {
                None
            },
            None => None,
        }
    }
}

pub fn parse_max_speed_kph(value: &str) -> (r: Option<u16>)
    ensures
        r == spec_parse_max_speed_kph(value@),
{
    let chars = chars_of(value);
    let trimmed = trim_chars(&chars);
    let unit = chars_of(" km/h");
    let normalized = if ends_with_chars(&trimmed, &unit) {
        let keep = trimmed.len() - unit.len();
        let mut shortened = trimmed;
        shortened.truncate(keep);
        shortened
    } else {
        trimmed
    };
    let mph = chars_of("mph");
    if ends_with_chars(&normalized, &mph) {
        return None;
    }
    let number = trim_chars(&normalized);
    match parse_unsigned_chars(&number, 65535) {
        Some(n) => if 1 <= n && n <= 300 {
            Some(n as u16)
        } else {
            None
        },
        None => None,
    }
}

/// A positive `u16` such as a `building:levels` value, after trimming.
pub open spec fn spec_parse_positive_u16(value: Seq<char>) -> Option<u16> {
    match parse_unsigned(trim(value), 65535) {
        Some(n) => if n > 0 {
            Some(n as u16)
        } else {
            None
        },
        None => None,
    }
}

pub fn parse_positive_u16(value: &str) -> (r: Option<u16>)
    ensures
        r == spec_parse_positive_u16(value@),
{
    let chars = chars_of(value);
    let trimmed = trim_chars(&chars);
    match parse_unsigned_chars(&trimmed, 65535) {
        Some(n) => if n > 0 {
            Some(n as u16)
        } else {
            None
        },
        None => None,
    }
}

/// Revision of the OSM reader whose output the importer interprets.
pub const GEO_ANALYSIS_REVISION: &'static str = "c4df63a023f2183d700a9a28071d732d345e7c25";

/// Repository of that OSM reader.
pub const OSM_PARSER_REPOSITORY: &'static str = "https://github.com/moritzbrantner/geo-analysis";

/// One feature as the OSM reader hands it over. The reader gives the stable
/// source id, the tags and the geometry; the three measured fields are what only
/// floating point can compute, and the importer reads them for buildings alone.
pub struct OsmFeatureRecord {
    /// The reader's stable id, such as `way/10`.
    pub source_id: String,
    pub tags: OsmTags,
    pub geometry: Geometry,
    /// `f32::to_bits` of the `height` tag in metres, when it reads as a finite
    /// positive height (clamped to 0.5 ..= 1000).
    pub height_m_bits: Option<u32>,
    /// That height divided by three and rounded, as a storey count.
    pub height_storeys: Option<u16>,
    /// The rounded area in square metres of the feature's canonical building
    /// footprint (`canonical_building_footprint` of its geometry).
    pub footprint_area_m2: u64,
}

/// What one imported feature becomes.
pub enum NormalizedFeature {
    Road(ScenarioRoad),
    Building(ScenarioBuilding),
    Water(ScenarioWater),
    LandUse(ScenarioLandUse),
    Transit(ScenarioTransitAnchor),
    Ignore,
}

/// The scenario id of an imported feature.
pub open spec fn imported_id(source_id: Seq<char>) -> Seq<char> {
    "imported/"@ + source_id
}

pub open spec fn tag_lanes(tags: OsmTags) -> Option<u8> {
    match tags.tag("lanes"@) {
        Some(v) => spec_parse_lanes(v),
        None => None,
    }
}

pub open spec fn tag_max_speed_kph(tags: OsmTags) -> Option<u16> {
    match tags.tag("maxspeed"@) {
        Some(v) => spec_parse_max_speed_kph(v),
        None => None,
    }
}

pub open spec fn tag_levels(tags: OsmTags) -> Option<u16> {
    match tags.tag("building:levels"@) {
        Some(v) => spec_parse_positive_u16(v),
        None => None,
    }
}

/// Storeys for the floor area: the `building:levels` tag, else the storeys the
/// height implies (at least one), else one.
pub open spec fn storeys(levels: Option<u16>, height_storeys: Option<u16>) -> int {
    match levels {
        Some(l) => l as int,
        None => match height_storeys {
            Some(h) => if h < 1 {
                1
            } else {
                h as int
            },
            None => 1,
        },
    }
}

/// Gross floor area: footprint area times storeys, saturating at `u64::MAX`.
pub open spec fn spec_gross_floor_area(
    footprint_area_m2: u64,
    levels: Option<u16>,
    height_storeys: Option<u16>,
) -> u64 {
    let total = footprint_area_m2 * storeys(levels, height_storeys);
    if total > u64::MAX {
        u64::MAX
    } else {
        total as u64
    }
}

pub fn gross_floor_area_m2(
    footprint_area_m2: u64,
    levels: Option<u16>,
    height_storeys: Option<u16>,
) -> (r: u64)
    ensures
        r == spec_gross_floor_area(footprint_area_m2, levels, height_storeys),
{
    let count: u16 = match levels {
        Some(l) => l,
        None => match height_storeys {
            Some(h) => if h < 1 {
                1
            } else {
                h
            },
            None => 1,
        },
    };
    match footprint_area_m2.checked_mul(count as u64) {
        Some(v) => v,
        None => u64::MAX,
    }
}

/// `r` is what `f` becomes: its kind decides the variant; ids, names, attributes
/// and geometry come from the feature as the tag rules above say.
pub open spec fn normalized_as(f: OsmFeatureRecord, r: NormalizedFeature) -> bool {
    let id = imported_id(f.source_id@);
    let name = f.tags.tag("name"@);
    match spec_classify(f.tags) {
        ImportedKind::Road => r matches NormalizedFeature::Road(v) && {
            &&& v.id@ == id
            &&& v.source_id@ == f.source_id@
            &&& v.class == spec_road_class(f.tags)
            &&& text_option(v.name) == name
            &&& v.lanes == tag_lanes(f.tags)
            &&& v.max_speed_kph == tag_max_speed_kph(f.tags)
            &&& v.geometry@ == f.geometry@
        },
        ImportedKind::Building => r matches NormalizedFeature::Building(v) && {
            &&& v.id@ == id
            &&& v.source_id@ == f.source_id@
            &&& v.use_kind == spec_building_use(f.tags)
            &&& text_option(v.name) == name
            &&& v.levels == tag_levels(f.tags)
            &&& v.height_m_bits == f.height_m_bits
            &&& v.gross_floor_area_m2 == spec_gross_floor_area(
                f.footprint_area_m2,
                tag_levels(f.tags),
                f.height_storeys,
            )
            &&& v.footprint@ == canonical_footprint(f.geometry@)
        },
        ImportedKind::Water => r matches NormalizedFeature::Water(v) && {
            &&& v.id@ == id
            &&& v.source_id@ == f.source_id@
            &&& v.kind == spec_water_kind(f.tags)
            &&& v.geometry@ == f.geometry@
        },
        ImportedKind::LandUse => r matches NormalizedFeature::LandUse(v) && {
            &&& v.id@ == id
            &&& v.source_id@ == f.source_id@
            &&& v.kind == spec_land_use_kind(f.tags)
            &&& v.geometry@ == f.geometry@
        },
        ImportedKind::Transit => r matches NormalizedFeature::Transit(v) && {
            &&& v.id@ == id
            &&& v.source_id@ == f.source_id@
            &&& v.kind == spec_transit_kind(f.tags)
            &&& text_option(v.name) == name
            &&& v.geometry@ == f.geometry@
        },
        ImportedKind::Ignore => r is Ignore,
    }
}

fn parsed_tag_lanes(tags: &OsmTags) -> (r: Option<u8>)
    ensures
        r == tag_lanes(*tags),
{
    match tags.tag_value("lanes") {
        Some(v) => parse_lanes(v.as_str()),
        None => None,
    }
}

fn parsed_tag_max_speed_kph(tags: &OsmTags) -> (r: Option<u16>)
    ensures
        r == tag_max_speed_kph(*tags),
{
    match tags.tag_value("maxspeed") {
        Some(v) => parse_max_speed_kph(v.as_str()),
        None => None,
    }
}

fn parsed_tag_levels(tags: &OsmTags) -> (r: Option<u16>)
    ensures
        r == tag_levels(*tags),
{
    match tags.tag_value("building:levels") {
        Some(v) => parse_positive_u16(v.as_str()),
        None => None,
    }
}

/// Turns one feature into the scenario entity it stands for, or `Ignore`.
pub fn normalize_feature(feature: OsmFeatureRecord) -> (r: NormalizedFeature)
    ensures
        normalized_as(feature, r),
{
    let OsmFeatureRecord {
        source_id,
        tags,
        geometry,
        height_m_bits,
        height_storeys,
        footprint_area_m2,
    } = feature;
    let mut id = String::from_str("imported/");
    id.append(source_id.as_str());
    let kind = classify(&tags);
    let name = match tags.tag_value("name") {
        Some(v) => Some(v.clone()),
        None => None,
    };
    match kind {
        ImportedKind::Road => {
            let class = road_class(&tags);
            let lanes = parsed_tag_lanes(&tags);
            let max_speed_kph = parsed_tag_max_speed_kph(&tags);
            NormalizedFeature::Road(
                ScenarioRoad { id, source_id, geometry, class, name, lanes, max_speed_kph },
            )
        },
        ImportedKind::Building => {
            let use_kind = building_use(&tags);
            let levels = parsed_tag_levels(&tags);
            let gross = gross_floor_area_m2(footprint_area_m2, levels, height_storeys);
            let footprint = canonical_building_footprint(geometry);
            NormalizedFeature::Building(
                ScenarioBuilding {
                    id,
                    source_id,
                    footprint,
                    use_kind,
                    name,
                    levels,
                    height_m_bits,
                    gross_floor_area_m2: gross,
                },
            )
        },
        ImportedKind::Water => {
            let kind = water_kind(&tags);
            NormalizedFeature::Water(ScenarioWater { id, source_id, geometry, kind })
        },
        ImportedKind::LandUse => {
            let kind = land_use_kind(&tags);
            NormalizedFeature::LandUse(ScenarioLandUse { id, source_id, geometry, kind })
        },
        ImportedKind::Transit => {
            let kind = transit_kind(&tags);
            NormalizedFeature::Transit(ScenarioTransitAnchor { id, source_id, geometry, kind, name })
        },
        ImportedKind::Ignore => NormalizedFeature::Ignore,
    }
}

/// The SHA-256 digest of `input`, as `sha2` computes it.
pub uninterp spec fn sha256_digest_of(input: Seq<u8>) -> Seq<u8>;

/// Calls `sha2::Sha256::digest` (the `Digest` trait's one-shot hash) on `input`.
/// Claimed of it: the result depends on the bytes of `input` alone and is the
/// 32-byte digest that `Sha256` declares as its output size.
#[verifier::external_body]
fn sha256_digest(input: &[u8]) -> (digest: Vec<u8>)
    ensures
        digest@ == sha256_digest_of(input@),
        digest@.len() == 32,
{
    sha2::Sha256::digest(input).to_vec()
}

/// The lowercase hexadecimal digits.
pub open spec fn hex_digits() -> Seq<char> {
    "0123456789abcdef"@
}

/// Two lowercase hexadecimal digits per byte, high nibble first.
pub open spec fn hex_text(bytes: Seq<u8>) -> Seq<char>
    decreases bytes.len(),
{
    if bytes.len() == 0 {
        Seq::empty()
    } else {
        hex_text(bytes.drop_last()) + seq![
            hex_digits()[(bytes.last() / 16) as int],
            hex_digits()[(bytes.last() % 16) as int],
        ]
    }
}

pub proof fn lemma_hex_text_len(bytes: Seq<u8>)
    ensures
        hex_text(bytes).len() == 2 * bytes.len(),
    decreases bytes.len(),
{
    if bytes.len() > 0 {
        lemma_hex_text_len(bytes.drop_last());
    }
}

/// The SHA-256 digest of `input` in lowercase hexadecimal.
pub fn sha256_hex(input: &[u8]) -> (r: String)
    ensures
        r@ == hex_text(sha256_digest_of(input@)),
        r@.len() == 64,
{
    let digest = sha256_digest(input);
    let digits = "0123456789abcdef";
    proof {
        reveal_strlit("0123456789abcdef");
    }
    let mut out = String::new();
    let mut i: usize = 0;
    assert(digest@.take(0) =~= Seq::<u8>::empty());
    while i < digest.len()
        invariant
            0 <= i <= digest@.len(),
            digits@ == hex_digits(),
            hex_digits().len() == 16,
            out@ == hex_text(digest@.take(i as int)),
        decreases digest@.len() - i,
    {
        let b = digest[i];
        let high = (b / 16) as usize;
        let low = (b % 16) as usize;
        out.append(digits.substring_char(high, high + 1));
        out.append(digits.substring_char(low, low + 1));
        proof {
            let t = digest@.take(i + 1);
            assert(t.drop_last() =~= digest@.take(i as int));
            assert(t.last() == b);
            assert(digits@.subrange(high as int, high + 1) =~= seq![hex_digits()[high as int]]);
            assert(digits@.subrange(low as int, low + 1) =~= seq![hex_digits()[low as int]]);
        }
        i = i + 1;
    }
    proof {
        assert(digest@.take(digest@.len() as int) =~= digest@);
        lemma_hex_text_len(digest@);
    }
    out
}

/// The roads among `n`, in order.
pub open spec fn roads_of(n: Seq<NormalizedFeature>) -> Seq<ScenarioRoad>
    decreases n.len(),
{
    if n.len() == 0 {
        Seq::empty()
    } else {
        match n.last() {
            NormalizedFeature::Road(v) => roads_of(n.drop_last()).push(v),
            _ => roads_of(n.drop_last()),
        }
    }
}

/// The buildings among `n`, in order.
pub open spec fn buildings_of(n: Seq<NormalizedFeature>) -> Seq<ScenarioBuilding>
    decreases n.len(),
{
    if n.len() == 0 {
        Seq::empty()
    } else {
        match n.last() {
            NormalizedFeature::Building(v) => buildings_of(n.drop_last()).push(v),
            _ => buildings_of(n.drop_last()),
        }
    }
}

/// The water features among `n`, in order.
pub open spec fn water_of(n: Seq<NormalizedFeature>) -> Seq<ScenarioWater>
    decreases n.len(),
{
    if n.len() == 0 {
        Seq::empty()
    } else {
        match n.last() {
            NormalizedFeature::Water(v) => water_of(n.drop_last()).push(v),
            _ => water_of(n.drop_last()),
        }
    }
}

/// The land-use areas among `n`, in order.
pub open spec fn land_use_of(n: Seq<NormalizedFeature>) -> Seq<ScenarioLandUse>
    decreases n.len(),
{
    if n.len() == 0 {
        Seq::empty()
    } else {
        match n.last() {
            NormalizedFeature::LandUse(v) => land_use_of(n.drop_last()).push(v),
            _ => land_use_of(n.drop_last()),
        }
    }
}

/// The transit anchors among `n`, in order.
pub open spec fn transit_of(n: Seq<NormalizedFeature>) -> Seq<ScenarioTransitAnchor>
    decreases n.len(),
{
    if n.len() == 0 {
        Seq::empty()
    } else {
        match n.last() {
            NormalizedFeature::Transit(v) => transit_of(n.drop_last()).push(v),
            _ => transit_of(n.drop_last()),
        }
    }
}

/// `n` is what `features` become, feature by feature.
pub open spec fn normalized_all(features: Seq<OsmFeatureRecord>, n: Seq<NormalizedFeature>) -> bool {
    &&& n.len() == features.len()
    &&& forall|i: int| 0 <= i < n.len() ==> normalized_as(#[trigger] features[i], n[i])
}

/// `s` is the scenario imported from `input`, named `source_name`, whose
/// features became `n`: each kind of entity stably sorted by id.
pub open spec fn imported_scenario(
    s: CityScenario,
    source_name: Seq<char>,
    input: Seq<u8>,
    n: Seq<NormalizedFeature>,
) -> bool {
    &&& s.schema_version == SCENARIO_SCHEMA_VERSION
    &&& s.provenance.source_format@ == "osm-pbf"@
    &&& s.provenance.source_name@ == source_name
    &&& s.provenance.source_sha256@ == hex_text(sha256_digest_of(input))
    &&& s.provenance.source_sha256@.len() == 64
    &&& s.provenance.parser.repository@ == OSM_PARSER_REPOSITORY@
    &&& s.provenance.parser.revision@ == GEO_ANALYSIS_REVISION@
    &&& s.roads@ == sort_by(roads_of(n), key_fn::<ScenarioRoad>())
    &&& s.buildings@ == sort_by(buildings_of(n), key_fn::<ScenarioBuilding>())
    &&& s.water@ == sort_by(water_of(n), key_fn::<ScenarioWater>())
    &&& s.land_use_areas@ == sort_by(land_use_of(n), key_fn::<ScenarioLandUse>())
    &&& s.transit_anchors@ == sort_by(transit_of(n), key_fn::<ScenarioTransitAnchor>())
}

/// The scenario that the features the OSM reader collected from `input` make:
/// each feature normalized, each kind of entity sorted by id, and the source's
/// name and SHA-256 recorded with the reader's revision.
pub fn scenario_from_features(
    source_name: String,
    input: &[u8],
    features: Vec<OsmFeatureRecord>,
) -> (s: CityScenario)
    ensures
        exists|n: Seq<NormalizedFeature>|
            normalized_all(features@, n) && imported_scenario(s, source_name@, input@, n),
        s.provenance.source_sha256@.len() == 64,
{
    let ghost g = features@;
    let total = features.len();
    let mut rest = features;
    let mut roads: Vec<ScenarioRoad> = Vec::new();
    let mut buildings: Vec<ScenarioBuilding> = Vec::new();
    let mut water: Vec<ScenarioWater> = Vec::new();
    let mut land_use_areas: Vec<ScenarioLandUse> = Vec::new();
    let mut transit_anchors: Vec<ScenarioTransitAnchor> = Vec::new();
    let ghost mut done: Seq<NormalizedFeature> = Seq::empty();
    let mut i: usize = 0;
    assert(rest@ =~= g.skip(0));
    while i < total
        invariant
            0 <= i <= total,
            total == g.len(),
            rest@ == g.skip(i as int),
            done.len() == i,
            forall|j: int| 0 <= j < i ==> normalized_as(#[trigger] g[j], done[j]),
            roads@ == roads_of(done),
            buildings@ == buildings_of(done),
            water@ == water_of(done),
            land_use_areas@ == land_use_of(done),
            transit_anchors@ == transit_of(done),
        decreases total - i,
    {
        let feature = rest.remove(0);
        let normalized = normalize_feature(feature);
        let ghost before = done;
        proof {
            done = done.push(normalized);
            assert(done.drop_last() =~= before);
            assert(rest@ =~= g.skip(i + 1));
        }
        match normalized {
            NormalizedFeature::Road(v) => roads.push(v),
            NormalizedFeature::Building(v) => buildings.push(v),
            NormalizedFeature::Water(v) => water.push(v),
            NormalizedFeature::LandUse(v) => land_use_areas.push(v),
            NormalizedFeature::Transit(v) => transit_anchors.push(v),
            NormalizedFeature::Ignore => {},
        }
        i = i + 1;
    }
    let scenario = CityScenario {
        schema_version: SCENARIO_SCHEMA_VERSION,
        provenance: ScenarioProvenance {
            source_format: String::from_str("osm-pbf"),
            source_name,
            source_sha256: sha256_hex(input),
            parser: ExternalRevision {
                repository: String::from_str(OSM_PARSER_REPOSITORY),
                revision: String::from_str(GEO_ANALYSIS_REVISION),
            },
        },
        roads: sort_by_key(roads),
        buildings: sort_by_key(buildings),
        water: sort_by_key(water),
        land_use_areas: sort_by_key(land_use_areas),
        transit_anchors: sort_by_key(transit_anchors),
    };
    assert(normalized_all(g, done));
    assert(imported_scenario(scenario, source_name@, input@, done));
    scenario
}

/// An import keeps every normalized entity, once each, and orders each kind of
/// entity by id.
pub proof fn law_imported_entities_are_ordered(
    s: CityScenario,
    source_name: Seq<char>,
    input: Seq<u8>,
    n: Seq<NormalizedFeature>,
)
    requires
        imported_scenario(s, source_name, input, n),
    ensures
        ascending_by(s.roads@, key_fn::<ScenarioRoad>()),
        ascending_by(s.buildings@, key_fn::<ScenarioBuilding>()),
        ascending_by(s.water@, key_fn::<ScenarioWater>()),
        ascending_by(s.land_use_areas@, key_fn::<ScenarioLandUse>()),
        ascending_by(s.transit_anchors@, key_fn::<ScenarioTransitAnchor>()),
        s.roads@.to_multiset() == roads_of(n).to_multiset(),
        s.buildings@.to_multiset() == buildings_of(n).to_multiset(),
        s.water@.to_multiset() == water_of(n).to_multiset(),
        s.land_use_areas@.to_multiset() == land_use_of(n).to_multiset(),
        s.transit_anchors@.to_multiset() == transit_of(n).to_multiset(),
{
    lemma_sort_by_ascending(roads_of(n), key_fn::<ScenarioRoad>());
    lemma_sort_by_ascending(buildings_of(n), key_fn::<ScenarioBuilding>());
    lemma_sort_by_ascending(water_of(n), key_fn::<ScenarioWater>());
    lemma_sort_by_ascending(land_use_of(n), key_fn::<ScenarioLandUse>());
    lemma_sort_by_ascending(transit_of(n), key_fn::<ScenarioTransitAnchor>());
    lemma_sort_by_multiset(roads_of(n), key_fn::<ScenarioRoad>());
    lemma_sort_by_multiset(buildings_of(n), key_fn::<ScenarioBuilding>());
    lemma_sort_by_multiset(water_of(n), key_fn::<ScenarioWater>());
    lemma_sort_by_multiset(land_use_of(n), key_fn::<ScenarioLandUse>());
    lemma_sort_by_multiset(transit_of(n), key_fn::<ScenarioTransitAnchor>());
}

/// The mathematical value of a normalized feature.
pub enum NormalizedFeatureView {
    Road(ScenarioRoadView),
    Building(ScenarioBuildingView),
    Water(ScenarioWaterView),
    LandUse(ScenarioLandUseView),
    Transit(ScenarioTransitAnchorView),
    Ignore,
}

impl View for NormalizedFeature {
    type V = NormalizedFeatureView;

    open spec fn view(&self) -> NormalizedFeatureView {
        match self {
            NormalizedFeature::Road(v) => NormalizedFeatureView::Road(v@),
            NormalizedFeature::Building(v) => NormalizedFeatureView::Building(v@),
            NormalizedFeature::Water(v) => NormalizedFeatureView::Water(v@),
            NormalizedFeature::LandUse(v) => NormalizedFeatureView::LandUse(v@),
            NormalizedFeature::Transit(v) => NormalizedFeatureView::Transit(v@),
            NormalizedFeature::Ignore => NormalizedFeatureView::Ignore,
        }
    }
}

/// What a feature becomes is fixed by the feature: two normalizations of one
/// feature have the same value.
pub proof fn lemma_normalized_as_determined(f: OsmFeatureRecord, a: NormalizedFeature, b: NormalizedFeature)
    requires
        normalized_as(f, a),
        normalized_as(f, b),
    ensures
        a@ == b@,
{
}

pub open spec fn road_views(s: Seq<ScenarioRoad>) -> Seq<ScenarioRoadView> {
    s.map_values(|r: ScenarioRoad| r@)
}

pub open spec fn building_views(s: Seq<ScenarioBuilding>) -> Seq<ScenarioBuildingView> {
    s.map_values(|b: ScenarioBuilding| b@)
}

pub open spec fn water_views(s: Seq<ScenarioWater>) -> Seq<ScenarioWaterView> {
    s.map_values(|w: ScenarioWater| w@)
}

pub open spec fn land_use_views(s: Seq<ScenarioLandUse>) -> Seq<ScenarioLandUseView> {
    s.map_values(|l: ScenarioLandUse| l@)
}

pub open spec fn transit_views(s: Seq<ScenarioTransitAnchor>) -> Seq<ScenarioTransitAnchorView> {
    s.map_values(|t: ScenarioTransitAnchor| t@)
}

/// Two scenarios that hold the same values: schema, provenance texts and every
/// entity, in order.
pub open spec fn same_scenario(a: CityScenario, b: CityScenario) -> bool {
    &&& a.schema_version == b.schema_version
    &&& a.provenance.source_format@ == b.provenance.source_format@
    &&& a.provenance.source_name@ == b.provenance.source_name@
    &&& a.provenance.source_sha256@ == b.provenance.source_sha256@
    &&& a.provenance.parser.repository@ == b.provenance.parser.repository@
    &&& a.provenance.parser.revision@ == b.provenance.parser.revision@
    &&& road_views(a.roads@) == road_views(b.roads@)
    &&& building_views(a.buildings@) == building_views(b.buildings@)
    &&& water_views(a.water@) == water_views(b.water@)
    &&& land_use_views(a.land_use_areas@) == land_use_views(b.land_use_areas@)
    &&& transit_views(a.transit_anchors@) == transit_views(b.transit_anchors@)
}

proof fn lemma_kinds_of_same_values(n1: Seq<NormalizedFeature>, n2: Seq<NormalizedFeature>)
    requires
        n1.len() == n2.len(),
        forall|i: int| 0 <= i < n1.len() ==> (#[trigger] n1[i])@ == n2[i]@,
    ensures
        road_views(roads_of(n1)) == road_views(roads_of(n2)),
        building_views(buildings_of(n1)) == building_views(buildings_of(n2)),
        water_views(water_of(n1)) == water_views(water_of(n2)),
        land_use_views(land_use_of(n1)) == land_use_views(land_use_of(n2)),
        transit_views(transit_of(n1)) == transit_views(transit_of(n2)),
    decreases n1.len(),
{
    if n1.len() > 0 {
        let p1 = n1.drop_last();
        let p2 = n2.drop_last();
        assert forall|i: int| 0 <= i < p1.len() implies (#[trigger] p1[i])@ == p2[i]@ by {
            assert(p1[i] == n1[i]);
            assert(p2[i] == n2[i]);
        }
        lemma_kinds_of_same_values(p1, p2);
        assert(n1.last()@ == n2.last()@);
        match (n1.last(), n2.last()) {
            (NormalizedFeature::Road(v1), NormalizedFeature::Road(v2)) => {
                assert(road_views(roads_of(p1).push(v1)) =~= road_views(roads_of(p1)).push(v1@));
                assert(road_views(roads_of(p2).push(v2)) =~= road_views(roads_of(p2)).push(v2@));
            },
            (NormalizedFeature::Building(v1), NormalizedFeature::Building(v2)) => {
                assert(building_views(buildings_of(p1).push(v1)) =~= building_views(
                    buildings_of(p1),
                ).push(v1@));
                assert(building_views(buildings_of(p2).push(v2)) =~= building_views(
                    buildings_of(p2),
                ).push(v2@));
            },
            (NormalizedFeature::Water(v1), NormalizedFeature::Water(v2)) => {
                assert(water_views(water_of(p1).push(v1)) =~= water_views(water_of(p1)).push(v1@));
                assert(water_views(water_of(p2).push(v2)) =~= water_views(water_of(p2)).push(v2@));
            },
            (NormalizedFeature::LandUse(v1), NormalizedFeature::LandUse(v2)) => {
                assert(land_use_views(land_use_of(p1).push(v1)) =~= land_use_views(
                    land_use_of(p1),
                ).push(v1@));
                assert(land_use_views(land_use_of(p2).push(v2)) =~= land_use_views(
                    land_use_of(p2),
                ).push(v2@));
            },
            (NormalizedFeature::Transit(v1), NormalizedFeature::Transit(v2)) => {
                assert(transit_views(transit_of(p1).push(v1)) =~= transit_views(
                    transit_of(p1),
                ).push(v1@));
                assert(transit_views(transit_of(p2).push(v2)) =~= transit_views(
                    transit_of(p2),
                ).push(v2@));
            },
            _ => {},
        }
    } else {
        assert(road_views(roads_of(n1)) =~= road_views(roads_of(n2)));
        assert(building_views(buildings_of(n1)) =~= building_views(buildings_of(n2)));
        assert(water_views(water_of(n1)) =~= water_views(water_of(n2)));
        assert(land_use_views(land_use_of(n1)) =~= land_use_views(land_use_of(n2)));
        assert(transit_views(transit_of(n1)) =~= transit_views(transit_of(n2)));
    }
}

/// Importing the same features from the same bytes under the same name twice
/// gives the same scenario, with a 64-character digest.
pub proof fn law_import_is_deterministic(
    features: Seq<OsmFeatureRecord>,
    source_name: Seq<char>,
    input: Seq<u8>,
    s1: CityScenario,
    n1: Seq<NormalizedFeature>,
    s2: CityScenario,
    n2: Seq<NormalizedFeature>,
)
    requires
        normalized_all(features, n1),
        imported_scenario(s1, source_name, input, n1),
        normalized_all(features, n2),
        imported_scenario(s2, source_name, input, n2),
    ensures
        same_scenario(s1, s2),
        s1.provenance.source_sha256@.len() == 64,
{
    assert forall|i: int| 0 <= i < n1.len() implies (#[trigger] n1[i])@ == n2[i]@ by {
        lemma_normalized_as_determined(features[i], n1[i], n2[i]);
    }
    lemma_kinds_of_same_values(n1, n2);
    lemma_sort_by_map(roads_of(n1), |r: ScenarioRoad| r@, key_fn::<ScenarioRoad>(), |v: ScenarioRoadView| v.id);
    lemma_sort_by_map(roads_of(n2), |r: ScenarioRoad| r@, key_fn::<ScenarioRoad>(), |v: ScenarioRoadView| v.id);
    lemma_sort_by_map(
        buildings_of(n1),
        |b: ScenarioBuilding| b@,
        key_fn::<ScenarioBuilding>(),
        |v: ScenarioBuildingView| v.id,
    );
    lemma_sort_by_map(
        buildings_of(n2),
        |b: ScenarioBuilding| b@,
        key_fn::<ScenarioBuilding>(),
        |v: ScenarioBuildingView| v.id,
    );
    lemma_sort_by_map(water_of(n1), |w: ScenarioWater| w@, key_fn::<ScenarioWater>(), |v: ScenarioWaterView| v.id);
    lemma_sort_by_map(water_of(n2), |w: ScenarioWater| w@, key_fn::<ScenarioWater>(), |v: ScenarioWaterView| v.id);
    lemma_sort_by_map(
        land_use_of(n1),
        |l: ScenarioLandUse| l@,
        key_fn::<ScenarioLandUse>(),
        |v: ScenarioLandUseView| v.id,
    );
    lemma_sort_by_map(
        land_use_of(n2),
        |l: ScenarioLandUse| l@,
        key_fn::<ScenarioLandUse>(),
        |v: ScenarioLandUseView| v.id,
    );
    lemma_sort_by_map(
        transit_of(n1),
        |t: ScenarioTransitAnchor| t@,
        key_fn::<ScenarioTransitAnchor>(),
        |v: ScenarioTransitAnchorView| v.id,
    );
    lemma_sort_by_map(
        transit_of(n2),
        |t: ScenarioTransitAnchor| t@,
        key_fn::<ScenarioTransitAnchor>(),
        |v: ScenarioTransitAnchorView| v.id,
    );
}

/// A road's class is decided by its `highway` tag alone, each class by its own
/// values: `motorway`/`motorway_link`, `trunk`/`trunk_link`,
/// `primary`/`primary_link`, `secondary`/`secondary_link`,
/// `tertiary`/`tertiary_link`, `residential`/`living_street`/`unclassified`,
/// `service`, `track`, `pedestrian`, `cycleway`, `footway`/`path`/`steps`;
/// anything else, or no `highway` tag, is `Other`.
pub proof fn law_road_class_follows_the_highway_tag(tags: OsmTags)
    ensures
        spec_road_class(tags) == RoadClass::Motorway <==> (tag_is(tags, "highway"@, "motorway"@) || tag_is(tags, "highway"@, "motorway_link"@)),
        spec_road_class(tags) == RoadClass::Trunk <==> (tag_is(tags, "highway"@, "trunk"@) || tag_is(tags, "highway"@, "trunk_link"@)),
        spec_road_class(tags) == RoadClass::Primary <==> (tag_is(tags, "highway"@, "primary"@) || tag_is(tags, "highway"@, "primary_link"@)),
        spec_road_class(tags) == RoadClass::Secondary <==> (tag_is(tags, "highway"@, "secondary"@) || tag_is(tags, "highway"@, "secondary_link"@)),
        spec_road_class(tags) == RoadClass::Tertiary <==> (tag_is(tags, "highway"@, "tertiary"@) || tag_is(tags, "highway"@, "tertiary_link"@)),
        spec_road_class(tags) == RoadClass::Residential <==> (tag_is(tags, "highway"@, "residential"@) || tag_is(tags, "highway"@, "living_street"@) || tag_is(tags, "highway"@, "unclassified"@)),
        spec_road_class(tags) == RoadClass::Service <==> (tag_is(tags, "highway"@, "service"@)),
        spec_road_class(tags) == RoadClass::Track <==> (tag_is(tags, "highway"@, "track"@)),
        spec_road_class(tags) == RoadClass::Pedestrian <==> (tag_is(tags, "highway"@, "pedestrian"@)),
        spec_road_class(tags) == RoadClass::Cycleway <==> (tag_is(tags, "highway"@, "cycleway"@)),
        spec_road_class(tags) == RoadClass::Footway <==> (tag_is(tags, "highway"@, "footway"@) || tag_is(tags, "highway"@, "path"@) || tag_is(tags, "highway"@, "steps"@)),
{
    reveal_strlit("motorway");
    reveal_strlit("motorway_link");
    reveal_strlit("trunk");
    reveal_strlit("trunk_link");
    reveal_strlit("primary");
    reveal_strlit("primary_link");
    reveal_strlit("secondary");
    reveal_strlit("secondary_link");
    reveal_strlit("tertiary");
    reveal_strlit("tertiary_link");
    reveal_strlit("residential");
    reveal_strlit("living_street");
    reveal_strlit("unclassified");
    reveal_strlit("service");
    reveal_strlit("track");
    reveal_strlit("pedestrian");
    reveal_strlit("cycleway");
    reveal_strlit("footway");
    reveal_strlit("path");
    reveal_strlit("steps");
    assert("motorway"@.len() != "motorway_link"@.len());
    assert("motorway"@.len() != "trunk"@.len());
    assert("motorway"@.len() != "trunk_link"@.len());
    assert("motorway"@.len() != "primary"@.len());
    assert("motorway"@.len() != "primary_link"@.len());
    assert("motorway"@.len() != "secondary"@.len());
    assert("motorway"@.len() != "secondary_link"@.len());
    assert("motorway"@[0] != "tertiary"@[0]);
    assert("motorway"@.len() != "tertiary_link"@.len());
    assert("motorway"@.len() != "residential"@.len());
    assert("motorway"@.len() != "living_street"@.len());
    assert("motorway"@.len() != "unclassified"@.len());
    assert("motorway"@.len() != "service"@.len());
    assert("motorway"@.len() != "track"@.len());
    assert("motorway"@.len() != "pedestrian"@.len());
    assert("motorway"@[0] != "cycleway"@[0]);
    assert("motorway"@.len() != "footway"@.len());
    assert("motorway"@.len() != "path"@.len());
    assert("motorway"@.len() != "steps"@.len());
    assert("motorway_link"@.len() != "trunk"@.len());
    assert("motorway_link"@.len() != "trunk_link"@.len());
    assert("motorway_link"@.len() != "primary"@.len());
    assert("motorway_link"@.len() != "primary_link"@.len());
    assert("motorway_link"@.len() != "secondary"@.len());
    assert("motorway_link"@.len() != "secondary_link"@.len());
    assert("motorway_link"@.len() != "tertiary"@.len());
    assert("motorway_link"@[0] != "tertiary_link"@[0]);
    assert("motorway_link"@.len() != "residential"@.len());
    assert("motorway_link"@[0] != "living_street"@[0]);
    assert("motorway_link"@.len() != "unclassified"@.len());
    assert("motorway_link"@.len() != "service"@.len());
    assert("motorway_link"@.len() != "track"@.len());
    assert("motorway_link"@.len() != "pedestrian"@.len());
    assert("motorway_link"@.len() != "cycleway"@.len());
    assert("motorway_link"@.len() != "footway"@.len());
    assert("motorway_link"@.len() != "path"@.len());
    assert("motorway_link"@.len() != "steps"@.len());
    assert("trunk"@.len() != "trunk_link"@.len());
    assert("trunk"@.len() != "primary"@.len());
    assert("trunk"@.len() != "primary_link"@.len());
    assert("trunk"@.len() != "secondary"@.len());
    assert("trunk"@.len() != "secondary_link"@.len());
    assert("trunk"@.len() != "tertiary"@.len());
    assert("trunk"@.len() != "tertiary_link"@.len());
    assert("trunk"@.len() != "residential"@.len());
    assert("trunk"@.len() != "living_street"@.len());
    assert("trunk"@.len() != "unclassified"@.len());
    assert("trunk"@.len() != "service"@.len());
    assert("trunk"@[2] != "track"@[2]);
    assert("trunk"@.len() != "pedestrian"@.len());
    assert("trunk"@.len() != "cycleway"@.len());
    assert("trunk"@.len() != "footway"@.len());
    assert("trunk"@.len() != "path"@.len());
    assert("trunk"@[0] != "steps"@[0]);
    assert("trunk_link"@.len() != "primary"@.len());
    assert("trunk_link"@.len() != "primary_link"@.len());
    assert("trunk_link"@.len() != "secondary"@.len());
    assert("trunk_link"@.len() != "secondary_link"@.len());
    assert("trunk_link"@.len() != "tertiary"@.len());
    assert("trunk_link"@.len() != "tertiary_link"@.len());
    assert("trunk_link"@.len() != "residential"@.len());
    assert("trunk_link"@.len() != "living_street"@.len());
    assert("trunk_link"@.len() != "unclassified"@.len());
    assert("trunk_link"@.len() != "service"@.len());
    assert("trunk_link"@.len() != "track"@.len());
    assert("trunk_link"@[0] != "pedestrian"@[0]);
    assert("trunk_link"@.len() != "cycleway"@.len());
    assert("trunk_link"@.len() != "footway"@.len());
    assert("trunk_link"@.len() != "path"@.len());
    assert("trunk_link"@.len() != "steps"@.len());
    assert("primary"@.len() != "primary_link"@.len());
    assert("primary"@.len() != "secondary"@.len());
    assert("primary"@.len() != "secondary_link"@.len());
    assert("primary"@.len() != "tertiary"@.len());
    assert("primary"@.len() != "tertiary_link"@.len());
    assert("primary"@.len() != "residential"@.len());
    assert("primary"@.len() != "living_street"@.len());
    assert("primary"@.len() != "unclassified"@.len());
    assert("primary"@[0] != "service"@[0]);
    assert("primary"@.len() != "track"@.len());
    assert("primary"@.len() != "pedestrian"@.len());
    assert("primary"@.len() != "cycleway"@.len());
    assert("primary"@[0] != "footway"@[0]);
    assert("primary"@.len() != "path"@.len());
    assert("primary"@.len() != "steps"@.len());
    assert("primary_link"@.len() != "secondary"@.len());
    assert("primary_link"@.len() != "secondary_link"@.len());
    assert("primary_link"@.len() != "tertiary"@.len());
    assert("primary_link"@.len() != "tertiary_link"@.len());
    assert("primary_link"@.len() != "residential"@.len());
    assert("primary_link"@.len() != "living_street"@.len());
    assert("primary_link"@[0] != "unclassified"@[0]);
    assert("primary_link"@.len() != "service"@.len());
    assert("primary_link"@.len() != "track"@.len());
    assert("primary_link"@.len() != "pedestrian"@.len());
    assert("primary_link"@.len() != "cycleway"@.len());
    assert("primary_link"@.len() != "footway"@.len());
    assert("primary_link"@.len() != "path"@.len());
    assert("primary_link"@.len() != "steps"@.len());
    assert("secondary"@.len() != "secondary_link"@.len());
    assert("secondary"@.len() != "tertiary"@.len());
    assert("secondary"@.len() != "tertiary_link"@.len());
    assert("secondary"@.len() != "residential"@.len());
    assert("secondary"@.len() != "living_street"@.len());
    assert("secondary"@.len() != "unclassified"@.len());
    assert("secondary"@.len() != "service"@.len());
    assert("secondary"@.len() != "track"@.len());
    assert("secondary"@.len() != "pedestrian"@.len());
    assert("secondary"@.len() != "cycleway"@.len());
    assert("secondary"@.len() != "footway"@.len());
    assert("secondary"@.len() != "path"@.len());
    assert("secondary"@.len() != "steps"@.len());
    assert("secondary_link"@.len() != "tertiary"@.len());
    assert("secondary_link"@.len() != "tertiary_link"@.len());
    assert("secondary_link"@.len() != "residential"@.len());
    assert("secondary_link"@.len() != "living_street"@.len());
    assert("secondary_link"@.len() != "unclassified"@.len());
    assert("secondary_link"@.len() != "service"@.len());
    assert("secondary_link"@.len() != "track"@.len());
    assert("secondary_link"@.len() != "pedestrian"@.len());
    assert("secondary_link"@.len() != "cycleway"@.len());
    assert("secondary_link"@.len() != "footway"@.len());
    assert("secondary_link"@.len() != "path"@.len());
    assert("secondary_link"@.len() != "steps"@.len());
    assert("tertiary"@.len() != "tertiary_link"@.len());
    assert("tertiary"@.len() != "residential"@.len());
    assert("tertiary"@.len() != "living_street"@.len());
    assert("tertiary"@.len() != "unclassified"@.len());
    assert("tertiary"@.len() != "service"@.len());
    assert("tertiary"@.len() != "track"@.len());
    assert("tertiary"@.len() != "pedestrian"@.len());
    assert("tertiary"@[0] != "cycleway"@[0]);
    assert("tertiary"@.len() != "footway"@.len());
    assert("tertiary"@.len() != "path"@.len());
    assert("tertiary"@.len() != "steps"@.len());
    assert("tertiary_link"@.len() != "residential"@.len());
    assert("tertiary_link"@[0] != "living_street"@[0]);
    assert("tertiary_link"@.len() != "unclassified"@.len());
    assert("tertiary_link"@.len() != "service"@.len());
    assert("tertiary_link"@.len() != "track"@.len());
    assert("tertiary_link"@.len() != "pedestrian"@.len());
    assert("tertiary_link"@.len() != "cycleway"@.len());
    assert("tertiary_link"@.len() != "footway"@.len());
    assert("tertiary_link"@.len() != "path"@.len());
    assert("tertiary_link"@.len() != "steps"@.len());
    assert("residential"@.len() != "living_street"@.len());
    assert("residential"@.len() != "unclassified"@.len());
    assert("residential"@.len() != "service"@.len());
    assert("residential"@.len() != "track"@.len());
    assert("residential"@.len() != "pedestrian"@.len());
    assert("residential"@.len() != "cycleway"@.len());
    assert("residential"@.len() != "footway"@.len());
    assert("residential"@.len() != "path"@.len());
    assert("residential"@.len() != "steps"@.len());
    assert("living_street"@.len() != "unclassified"@.len());
    assert("living_street"@.len() != "service"@.len());
    assert("living_street"@.len() != "track"@.len());
    assert("living_street"@.len() != "pedestrian"@.len());
    assert("living_street"@.len() != "cycleway"@.len());
    assert("living_street"@.len() != "footway"@.len());
    assert("living_street"@.len() != "path"@.len());
    assert("living_street"@.len() != "steps"@.len());
    assert("unclassified"@.len() != "service"@.len());
    assert("unclassified"@.len() != "track"@.len());
    assert("unclassified"@.len() != "pedestrian"@.len());
    assert("unclassified"@.len() != "cycleway"@.len());
    assert("unclassified"@.len() != "footway"@.len());
    assert("unclassified"@.len() != "path"@.len());
    assert("unclassified"@.len() != "steps"@.len());
    assert("service"@.len() != "track"@.len());
    assert("service"@.len() != "pedestrian"@.len());
    assert("service"@.len() != "cycleway"@.len());
    assert("service"@[0] != "footway"@[0]);
    assert("service"@.len() != "path"@.len());
    assert("service"@.len() != "steps"@.len());
    assert("track"@.len() != "pedestrian"@.len());
    assert("track"@.len() != "cycleway"@.len());
    assert("track"@.len() != "footway"@.len());
    assert("track"@.len() != "path"@.len());
    assert("track"@[0] != "steps"@[0]);
    assert("pedestrian"@.len() != "cycleway"@.len());
    assert("pedestrian"@.len() != "footway"@.len());
    assert("pedestrian"@.len() != "path"@.len());
    assert("pedestrian"@.len() != "steps"@.len());
    assert("cycleway"@.len() != "footway"@.len());
    assert("cycleway"@.len() != "path"@.len());
    assert("cycleway"@.len() != "steps"@.len());
    assert("footway"@.len() != "path"@.len());
    assert("footway"@.len() != "steps"@.len());
    assert("path"@.len() != "steps"@.len());
}

/// A building's use is decided by its `building` tag alone, each use by its own
/// values: residential for `apartments`, `house`, `residential`, `detached`,
/// `semidetached_house`, `terrace`, `dormitory`; commercial for `commercial`,
/// `retail`, `office`, `hotel`; industrial for `industrial`, `warehouse`,
/// `manufacture`; civic for `school`, `hospital`, `civic`, `government`,
/// `public`, `church`, `cathedral`, `chapel`; agricultural for `farm`,
/// `farm_auxiliary`, `barn`, `stable`, `greenhouse`; anything else, or no
/// `building` tag, is `Other`.
pub proof fn law_building_use_follows_the_building_tag(tags: OsmTags)
    ensures
        spec_building_use(tags) == BuildingUse::Residential <==> (tag_is(tags, "building"@, "apartments"@) || tag_is(tags, "building"@, "house"@) || tag_is(tags, "building"@, "residential"@) || tag_is(tags, "building"@, "detached"@) || tag_is(tags, "building"@, "semidetached_house"@) || tag_is(tags, "building"@, "terrace"@) || tag_is(tags, "building"@, "dormitory"@)),
        spec_building_use(tags) == BuildingUse::Commercial <==> (tag_is(tags, "building"@, "commercial"@) || tag_is(tags, "building"@, "retail"@) || tag_is(tags, "building"@, "office"@) || tag_is(tags, "building"@, "hotel"@)),
        spec_building_use(tags) == BuildingUse::Industrial <==> (tag_is(tags, "building"@, "industrial"@) || tag_is(tags, "building"@, "warehouse"@) || tag_is(tags, "building"@, "manufacture"@)),
        spec_building_use(tags) == BuildingUse::Civic <==> (tag_is(tags, "building"@, "school"@) || tag_is(tags, "building"@, "hospital"@) || tag_is(tags, "building"@, "civic"@) || tag_is(tags, "building"@, "government"@) || tag_is(tags, "building"@, "public"@) || tag_is(tags, "building"@, "church"@) || tag_is(tags, "building"@, "cathedral"@) || tag_is(tags, "building"@, "chapel"@)),
        spec_building_use(tags) == BuildingUse::Agricultural <==> (tag_is(tags, "building"@, "farm"@) || tag_is(tags, "building"@, "farm_auxiliary"@) || tag_is(tags, "building"@, "barn"@) || tag_is(tags, "building"@, "stable"@) || tag_is(tags, "building"@, "greenhouse"@)),
{
    reveal_strlit("apartments");
    reveal_strlit("house");
    reveal_strlit("residential");
    reveal_strlit("detached");
    reveal_strlit("semidetached_house");
    reveal_strlit("terrace");
    reveal_strlit("dormitory");
    reveal_strlit("commercial");
    reveal_strlit("retail");
    reveal_strlit("office");
    reveal_strlit("hotel");
    reveal_strlit("industrial");
    reveal_strlit("warehouse");
    reveal_strlit("manufacture");
    reveal_strlit("school");
    reveal_strlit("hospital");
    reveal_strlit("civic");
    reveal_strlit("government");
    reveal_strlit("public");
    reveal_strlit("church");
    reveal_strlit("cathedral");
    reveal_strlit("chapel");
    reveal_strlit("farm");
    reveal_strlit("farm_auxiliary");
    reveal_strlit("barn");
    reveal_strlit("stable");
    reveal_strlit("greenhouse");
    assert("apartments"@[0] != "commercial"@[0]);
    assert("apartments"@.len() != "retail"@.len());
    assert("apartments"@.len() != "office"@.len());
    assert("apartments"@.len() != "hotel"@.len());
    assert("house"@.len() != "commercial"@.len());
    assert("house"@.len() != "retail"@.len());
    assert("house"@.len() != "office"@.len());
    assert("house"@[2] != "hotel"@[2]);
    assert("residential"@.len() != "commercial"@.len());
    assert("residential"@.len() != "retail"@.len());
    assert("residential"@.len() != "office"@.len());
    assert("residential"@.len() != "hotel"@.len());
    assert("detached"@.len() != "commercial"@.len());
    assert("detached"@.len() != "retail"@.len());
    assert("detached"@.len() != "office"@.len());
    assert("detached"@.len() != "hotel"@.len());
    assert("semidetached_house"@.len() != "commercial"@.len());
    assert("semidetached_house"@.len() != "retail"@.len());
    assert("semidetached_house"@.len() != "office"@.len());
    assert("semidetached_house"@.len() != "hotel"@.len());
    assert("terrace"@.len() != "commercial"@.len());
    assert("terrace"@.len() != "retail"@.len());
    assert("terrace"@.len() != "office"@.len());
    assert("terrace"@.len() != "hotel"@.len());
    assert("dormitory"@.len() != "commercial"@.len());
    assert("dormitory"@.len() != "retail"@.len());
    assert("dormitory"@.len() != "office"@.len());
    assert("dormitory"@.len() != "hotel"@.len());
    assert("apartments"@[0] != "industrial"@[0]);
    assert("apartments"@.len() != "warehouse"@.len());
    assert("apartments"@.len() != "manufacture"@.len());
    assert("house"@.len() != "industrial"@.len());
    assert("house"@.len() != "warehouse"@.len());
    assert("house"@.len() != "manufacture"@.len());
    assert("residential"@.len() != "industrial"@.len());
    assert("residential"@.len() != "warehouse"@.len());
    assert("residential"@[0] != "manufacture"@[0]);
    assert("detached"@.len() != "industrial"@.len());
    assert("detached"@.len() != "warehouse"@.len());
    assert("detached"@.len() != "manufacture"@.len());
    assert("semidetached_house"@.len() != "industrial"@.len());
    assert("semidetached_house"@.len() != "warehouse"@.len());
    assert("semidetached_house"@.len() != "manufacture"@.len());
    assert("terrace"@.len() != "industrial"@.len());
    assert("terrace"@.len() != "warehouse"@.len());
    assert("terrace"@.len() != "manufacture"@.len());
    assert("dormitory"@.len() != "industrial"@.len());
    assert("dormitory"@[0] != "warehouse"@[0]);
    assert("dormitory"@.len() != "manufacture"@.len());
    assert("apartments"@.len() != "school"@.len());
    assert("apartments"@.len() != "hospital"@.len());
    assert("apartments"@.len() != "civic"@.len());
    assert("apartments"@[0] != "government"@[0]);
    assert("apartments"@.len() != "public"@.len());
    assert("apartments"@.len() != "church"@.len());
    assert("apartments"@.len() != "cathedral"@.len());
    assert("apartments"@.len() != "chapel"@.len());
    assert("house"@.len() != "school"@.len());
    assert("house"@.len() != "hospital"@.len());
    assert("house"@[0] != "civic"@[0]);
    assert("house"@.len() != "government"@.len());
    assert("house"@.len() != "public"@.len());
    assert("house"@.len() != "church"@.len());
    assert("house"@.len() != "cathedral"@.len());
    assert("house"@.len() != "chapel"@.len());
    assert("residential"@.len() != "school"@.len());
    assert("residential"@.len() != "hospital"@.len());
    assert("residential"@.len() != "civic"@.len());
    assert("residential"@.len() != "government"@.len());
    assert("residential"@.len() != "public"@.len());
    assert("residential"@.len() != "church"@.len());
    assert("residential"@.len() != "cathedral"@.len());
    assert("residential"@.len() != "chapel"@.len());
    assert("detached"@.len() != "school"@.len());
    assert("detached"@[0] != "hospital"@[0]);
    assert("detached"@.len() != "civic"@.len());
    assert("detached"@.len() != "government"@.len());
    assert("detached"@.len() != "public"@.len());
    assert("detached"@.len() != "church"@.len());
    assert("detached"@.len() != "cathedral"@.len());
    assert("detached"@.len() != "chapel"@.len());
    assert("semidetached_house"@.len() != "school"@.len());
    assert("semidetached_house"@.len() != "hospital"@.len());
    assert("semidetached_house"@.len() != "civic"@.len());
    assert("semidetached_house"@.len() != "government"@.len());
    assert("semidetached_house"@.len() != "public"@.len());
    assert("semidetached_house"@.len() != "church"@.len());
    assert("semidetached_house"@.len() != "cathedral"@.len());
    assert("semidetached_house"@.len() != "chapel"@.len());
    assert("terrace"@.len() != "school"@.len());
    assert("terrace"@.len() != "hospital"@.len());
    assert("terrace"@.len() != "civic"@.len());
    assert("terrace"@.len() != "government"@.len());
    assert("terrace"@.len() != "public"@.len());
    assert("terrace"@.len() != "church"@.len());
    assert("terrace"@.len() != "cathedral"@.len());
    assert("terrace"@.len() != "chapel"@.len());
    assert("dormitory"@.len() != "school"@.len());
    assert("dormitory"@.len() != "hospital"@.len());
    assert("dormitory"@.len() != "civic"@.len());
    assert("dormitory"@.len() != "government"@.len());
    assert("dormitory"@.len() != "public"@.len());
    assert("dormitory"@.len() != "church"@.len());
    assert("dormitory"@[0] != "cathedral"@[0]);
    assert("dormitory"@.len() != "chapel"@.len());
    assert("apartments"@.len() != "farm"@.len());
    assert("apartments"@.len() != "farm_auxiliary"@.len());
    assert("apartments"@.len() != "barn"@.len());
    assert("apartments"@.len() != "stable"@.len());
    assert("apartments"@[0] != "greenhouse"@[0]);
    assert("house"@.len() != "farm"@.len());
    assert("house"@.len() != "farm_auxiliary"@.len());
    assert("house"@.len() != "barn"@.len());
    assert("house"@.len() != "stable"@.len());
    assert("house"@.len() != "greenhouse"@.len());
    assert("residential"@.len() != "farm"@.len());
    assert("residential"@.len() != "farm_auxiliary"@.len());
    assert("residential"@.len() != "barn"@.len());
    assert("residential"@.len() != "stable"@.len());
    assert("residential"@.len() != "greenhouse"@.len());
    assert("detached"@.len() != "farm"@.len());
    assert("detached"@.len() != "farm_auxiliary"@.len());
    assert("detached"@.len() != "barn"@.len());
    assert("detached"@.len() != "stable"@.len());
    assert("detached"@.len() != "greenhouse"@.len());
    assert("semidetached_house"@.len() != "farm"@.len());
    assert("semidetached_house"@.len() != "farm_auxiliary"@.len());
    assert("semidetached_house"@.len() != "barn"@.len());
    assert("semidetached_house"@.len() != "stable"@.len());
    assert("semidetached_house"@.len() != "greenhouse"@.len());
    assert("terrace"@.len() != "farm"@.len());
    assert("terrace"@.len() != "farm_auxiliary"@.len());
    assert("terrace"@.len() != "barn"@.len());
    assert("terrace"@.len() != "stable"@.len());
    assert("terrace"@.len() != "greenhouse"@.len());
    assert("dormitory"@.len() != "farm"@.len());
    assert("dormitory"@.len() != "farm_auxiliary"@.len());
    assert("dormitory"@.len() != "barn"@.len());
    assert("dormitory"@.len() != "stable"@.len());
    assert("dormitory"@.len() != "greenhouse"@.len());
    assert("commercial"@[0] != "industrial"@[0]);
    assert("commercial"@.len() != "warehouse"@.len());
    assert("commercial"@.len() != "manufacture"@.len());
    assert("retail"@.len() != "industrial"@.len());
    assert("retail"@.len() != "warehouse"@.len());
    assert("retail"@.len() != "manufacture"@.len());
    assert("office"@.len() != "industrial"@.len());
    assert("office"@.len() != "warehouse"@.len());
    assert("office"@.len() != "manufacture"@.len());
    assert("hotel"@.len() != "industrial"@.len());
    assert("hotel"@.len() != "warehouse"@.len());
    assert("hotel"@.len() != "manufacture"@.len());
    assert("commercial"@.len() != "school"@.len());
    assert("commercial"@.len() != "hospital"@.len());
    assert("commercial"@.len() != "civic"@.len());
    assert("commercial"@[0] != "government"@[0]);
    assert("commercial"@.len() != "public"@.len());
    assert("commercial"@.len() != "church"@.len());
    assert("commercial"@.len() != "cathedral"@.len());
    assert("commercial"@.len() != "chapel"@.len());
    assert("retail"@[0] != "school"@[0]);
    assert("retail"@.len() != "hospital"@.len());
    assert("retail"@.len() != "civic"@.len());
    assert("retail"@.len() != "government"@.len());
    assert("retail"@[0] != "public"@[0]);
    assert("retail"@[0] != "church"@[0]);
    assert("retail"@.len() != "cathedral"@.len());
    assert("retail"@[0] != "chapel"@[0]);
    assert("office"@[0] != "school"@[0]);
    assert("office"@.len() != "hospital"@.len());
    assert("office"@.len() != "civic"@.len());
    assert("office"@.len() != "government"@.len());
    assert("office"@[0] != "public"@[0]);
    assert("office"@[0] != "church"@[0]);
    assert("office"@.len() != "cathedral"@.len());
    assert("office"@[0] != "chapel"@[0]);
    assert("hotel"@.len() != "school"@.len());
    assert("hotel"@.len() != "hospital"@.len());
    assert("hotel"@[0] != "civic"@[0]);
    assert("hotel"@.len() != "government"@.len());
    assert("hotel"@.len() != "public"@.len());
    assert("hotel"@.len() != "church"@.len());
    assert("hotel"@.len() != "cathedral"@.len());
    assert("hotel"@.len() != "chapel"@.len());
    assert("commercial"@.len() != "farm"@.len());
    assert("commercial"@.len() != "farm_auxiliary"@.len());
    assert("commercial"@.len() != "barn"@.len());
    assert("commercial"@.len() != "stable"@.len());
    assert("commercial"@[0] != "greenhouse"@[0]);
    assert("retail"@.len() != "farm"@.len());
    assert("retail"@.len() != "farm_auxiliary"@.len());
    assert("retail"@.len() != "barn"@.len());
    assert("retail"@[0] != "stable"@[0]);
    assert("retail"@.len() != "greenhouse"@.len());
    assert("office"@.len() != "farm"@.len());
    assert("office"@.len() != "farm_auxiliary"@.len());
    assert("office"@.len() != "barn"@.len());
    assert("office"@[0] != "stable"@[0]);
    assert("office"@.len() != "greenhouse"@.len());
    assert("hotel"@.len() != "farm"@.len());
    assert("hotel"@.len() != "farm_auxiliary"@.len());
    assert("hotel"@.len() != "barn"@.len());
    assert("hotel"@.len() != "stable"@.len());
    assert("hotel"@.len() != "greenhouse"@.len());
    assert("industrial"@.len() != "school"@.len());
    assert("industrial"@.len() != "hospital"@.len());
    assert("industrial"@.len() != "civic"@.len());
    assert("industrial"@[0] != "government"@[0]);
    assert("industrial"@.len() != "public"@.len());
    assert("industrial"@.len() != "church"@.len());
    assert("industrial"@.len() != "cathedral"@.len());
    assert("industrial"@.len() != "chapel"@.len());
    assert("warehouse"@.len() != "school"@.len());
    assert("warehouse"@.len() != "hospital"@.len());
    assert("warehouse"@.len() != "civic"@.len());
    assert("warehouse"@.len() != "government"@.len());
    assert("warehouse"@.len() != "public"@.len());
    assert("warehouse"@.len() != "church"@.len());
    assert("warehouse"@[0] != "cathedral"@[0]);
    assert("warehouse"@.len() != "chapel"@.len());
    assert("manufacture"@.len() != "school"@.len());
    assert("manufacture"@.len() != "hospital"@.len());
    assert("manufacture"@.len() != "civic"@.len());
    assert("manufacture"@.len() != "government"@.len());
    assert("manufacture"@.len() != "public"@.len());
    assert("manufacture"@.len() != "church"@.len());
    assert("manufacture"@.len() != "cathedral"@.len());
    assert("manufacture"@.len() != "chapel"@.len());
    assert("industrial"@.len() != "farm"@.len());
    assert("industrial"@.len() != "farm_auxiliary"@.len());
    assert("industrial"@.len() != "barn"@.len());
    assert("industrial"@.len() != "stable"@.len());
    assert("industrial"@[0] != "greenhouse"@[0]);
    assert("warehouse"@.len() != "farm"@.len());
    assert("warehouse"@.len() != "farm_auxiliary"@.len());
    assert("warehouse"@.len() != "barn"@.len());
    assert("warehouse"@.len() != "stable"@.len());
    assert("warehouse"@.len() != "greenhouse"@.len());
    assert("manufacture"@.len() != "farm"@.len());
    assert("manufacture"@.len() != "farm_auxiliary"@.len());
    assert("manufacture"@.len() != "barn"@.len());
    assert("manufacture"@.len() != "stable"@.len());
    assert("manufacture"@.len() != "greenhouse"@.len());
    assert("school"@.len() != "farm"@.len());
    assert("school"@.len() != "farm_auxiliary"@.len());
    assert("school"@.len() != "barn"@.len());
    assert("school"@[1] != "stable"@[1]);
    assert("school"@.len() != "greenhouse"@.len());
    assert("hospital"@.len() != "farm"@.len());
    assert("hospital"@.len() != "farm_auxiliary"@.len());
    assert("hospital"@.len() != "barn"@.len());
    assert("hospital"@.len() != "stable"@.len());
    assert("hospital"@.len() != "greenhouse"@.len());
    assert("civic"@.len() != "farm"@.len());
    assert("civic"@.len() != "farm_auxiliary"@.len());
    assert("civic"@.len() != "barn"@.len());
    assert("civic"@.len() != "stable"@.len());
    assert("civic"@.len() != "greenhouse"@.len());
    assert("government"@.len() != "farm"@.len());
    assert("government"@.len() != "farm_auxiliary"@.len());
    assert("government"@.len() != "barn"@.len());
    assert("government"@.len() != "stable"@.len());
    assert("government"@[1] != "greenhouse"@[1]);
    assert("public"@.len() != "farm"@.len());
    assert("public"@.len() != "farm_auxiliary"@.len());
    assert("public"@.len() != "barn"@.len());
    assert("public"@[0] != "stable"@[0]);
    assert("public"@.len() != "greenhouse"@.len());
    assert("church"@.len() != "farm"@.len());
    assert("church"@.len() != "farm_auxiliary"@.len());
    assert("church"@.len() != "barn"@.len());
    assert("church"@[0] != "stable"@[0]);
    assert("church"@.len() != "greenhouse"@.len());
    assert("cathedral"@.len() != "farm"@.len());
    assert("cathedral"@.len() != "farm_auxiliary"@.len());
    assert("cathedral"@.len() != "barn"@.len());
    assert("cathedral"@.len() != "stable"@.len());
    assert("cathedral"@.len() != "greenhouse"@.len());
    assert("chapel"@.len() != "farm"@.len());
    assert("chapel"@.len() != "farm_auxiliary"@.len());
    assert("chapel"@.len() != "barn"@.len());
    assert("chapel"@[0] != "stable"@[0]);
    assert("chapel"@.len() != "greenhouse"@.len());
}

/// A land-use area's kind is decided by its `landuse` tag alone: `residential`,
/// `commercial`, `industrial`, `retail`, `forest` and `cemetery` each give their
/// own kind; `farmland`, `farmyard`, `orchard`, `vineyard` give farmland;
/// `recreation_ground`, `village_green`, `grass` give recreation; anything else,
/// or no `landuse` tag, is `Other`.
pub proof fn law_land_use_follows_the_landuse_tag(tags: OsmTags)
    ensures
        spec_land_use_kind(tags) == LandUseKind::Residential <==> (tag_is(tags, "landuse"@, "residential"@)),
        spec_land_use_kind(tags) == LandUseKind::Commercial <==> (tag_is(tags, "landuse"@, "commercial"@)),
        spec_land_use_kind(tags) == LandUseKind::Industrial <==> (tag_is(tags, "landuse"@, "industrial"@)),
        spec_land_use_kind(tags) == LandUseKind::Retail <==> (tag_is(tags, "landuse"@, "retail"@)),
        spec_land_use_kind(tags) == LandUseKind::Forest <==> (tag_is(tags, "landuse"@, "forest"@)),
        spec_land_use_kind(tags) == LandUseKind::Farmland <==> (tag_is(tags, "landuse"@, "farmland"@) || tag_is(tags, "landuse"@, "farmyard"@) || tag_is(tags, "landuse"@, "orchard"@) || tag_is(tags, "landuse"@, "vineyard"@)),
        spec_land_use_kind(tags) == LandUseKind::Recreation <==> (tag_is(tags, "landuse"@, "recreation_ground"@) || tag_is(tags, "landuse"@, "village_green"@) || tag_is(tags, "landuse"@, "grass"@)),
        spec_land_use_kind(tags) == LandUseKind::Cemetery <==> (tag_is(tags, "landuse"@, "cemetery"@)),
{
    reveal_strlit("residential");
    reveal_strlit("commercial");
    reveal_strlit("industrial");
    reveal_strlit("retail");
    reveal_strlit("forest");
    reveal_strlit("farmland");
    reveal_strlit("farmyard");
    reveal_strlit("orchard");
    reveal_strlit("vineyard");
    reveal_strlit("recreation_ground");
    reveal_strlit("village_green");
    reveal_strlit("grass");
    reveal_strlit("cemetery");
    assert("residential"@.len() != "commercial"@.len());
    assert("residential"@.len() != "industrial"@.len());
    assert("residential"@.len() != "retail"@.len());
    assert("residential"@.len() != "forest"@.len());
    assert("residential"@.len() != "farmland"@.len());
    assert("residential"@.len() != "farmyard"@.len());
    assert("residential"@.len() != "orchard"@.len());
    assert("residential"@.len() != "vineyard"@.len());
    assert("residential"@.len() != "recreation_ground"@.len());
    assert("residential"@.len() != "village_green"@.len());
    assert("residential"@.len() != "grass"@.len());
    assert("residential"@.len() != "cemetery"@.len());
    assert("commercial"@[0] != "industrial"@[0]);
    assert("commercial"@.len() != "retail"@.len());
    assert("commercial"@.len() != "forest"@.len());
    assert("commercial"@.len() != "farmland"@.len());
    assert("commercial"@.len() != "farmyard"@.len());
    assert("commercial"@.len() != "orchard"@.len());
    assert("commercial"@.len() != "vineyard"@.len());
    assert("commercial"@.len() != "recreation_ground"@.len());
    assert("commercial"@.len() != "village_green"@.len());
    assert("commercial"@.len() != "grass"@.len());
    assert("commercial"@.len() != "cemetery"@.len());
    assert("industrial"@.len() != "retail"@.len());
    assert("industrial"@.len() != "forest"@.len());
    assert("industrial"@.len() != "farmland"@.len());
    assert("industrial"@.len() != "farmyard"@.len());
    assert("industrial"@.len() != "orchard"@.len());
    assert("industrial"@.len() != "vineyard"@.len());
    assert("industrial"@.len() != "recreation_ground"@.len());
    assert("industrial"@.len() != "village_green"@.len());
    assert("industrial"@.len() != "grass"@.len());
    assert("industrial"@.len() != "cemetery"@.len());
    assert("retail"@[0] != "forest"@[0]);
    assert("retail"@.len() != "farmland"@.len());
    assert("retail"@.len() != "farmyard"@.len());
    assert("retail"@.len() != "orchard"@.len());
    assert("retail"@.len() != "vineyard"@.len());
    assert("retail"@.len() != "recreation_ground"@.len());
    assert("retail"@.len() != "village_green"@.len());
    assert("retail"@.len() != "grass"@.len());
    assert("retail"@.len() != "cemetery"@.len());
    assert("forest"@.len() != "farmland"@.len());
    assert("forest"@.len() != "farmyard"@.len());
    assert("forest"@.len() != "orchard"@.len());
    assert("forest"@.len() != "vineyard"@.len());
    assert("forest"@.len() != "recreation_ground"@.len());
    assert("forest"@.len() != "village_green"@.len());
    assert("forest"@.len() != "grass"@.len());
    assert("forest"@.len() != "cemetery"@.len());
    assert("farmland"@.len() != "recreation_ground"@.len());
    assert("farmland"@.len() != "village_green"@.len());
    assert("farmland"@.len() != "grass"@.len());
    assert("farmyard"@.len() != "recreation_ground"@.len());
    assert("farmyard"@.len() != "village_green"@.len());
    assert("farmyard"@.len() != "grass"@.len());
    assert("orchard"@.len() != "recreation_ground"@.len());
    assert("orchard"@.len() != "village_green"@.len());
    assert("orchard"@.len() != "grass"@.len());
    assert("vineyard"@.len() != "recreation_ground"@.len());
    assert("vineyard"@.len() != "village_green"@.len());
    assert("vineyard"@.len() != "grass"@.len());
    assert("farmland"@[0] != "cemetery"@[0]);
    assert("farmyard"@[0] != "cemetery"@[0]);
    assert("orchard"@.len() != "cemetery"@.len());
    assert("vineyard"@[0] != "cemetery"@[0]);
    assert("recreation_ground"@.len() != "cemetery"@.len());
    assert("village_green"@.len() != "cemetery"@.len());
    assert("grass"@.len() != "cemetery"@.len());
}

/// A water feature's kind is decided by its `waterway` tag first: `river`,
/// `stream` and `canal` each give their own kind and any other value gives
/// `Other`; without a `waterway` tag it is a body of water exactly when it is
/// tagged `natural=water` or carries a `water` tag.
pub proof fn law_water_kind_follows_the_waterway_tag(tags: OsmTags)
    ensures
        spec_water_kind(tags) == WaterKind::River <==> (tag_is(tags, "waterway"@, "river"@)),
        spec_water_kind(tags) == WaterKind::Stream <==> (tag_is(tags, "waterway"@, "stream"@)),
        spec_water_kind(tags) == WaterKind::Canal <==> (tag_is(tags, "waterway"@, "canal"@)),
        spec_water_kind(tags) == WaterKind::Body <==> (tags.tag("waterway"@) is None && (tag_is(tags, "natural"@, "water"@) || tags.tag("water"@) is Some)),
{
    reveal_strlit("river");
    reveal_strlit("stream");
    reveal_strlit("canal");
    assert("river"@.len() != "stream"@.len());
    assert("river"@[0] != "canal"@[0]);
    assert("stream"@.len() != "canal"@.len());
}

} // verus!
