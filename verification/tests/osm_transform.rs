use city_game_core::geometry::{Coordinate, Geometry};
use city_game_core::model::{
    BuildingUse, CityScenario, ExternalRevision, LandUseKind, RoadClass, ScenarioBuilding, ScenarioLandUse,
    ScenarioProvenance, ScenarioRoad, ScenarioTransitAnchor, ScenarioWater, TransitKind, WaterKind,
    SCENARIO_SCHEMA_VERSION,
};
use city_game_core::osm_transform::{
    OsmFeatureTransformPolicy, OsmRoadClassMapping, OsmScenarioTransformConfig, OsmScenarioTransformError,
    OsmUnmappedRoadPolicy, OSM_SCENARIO_TRANSFORM_SCHEMA_VERSION,
};

fn at(lon: f64, lat: f64) -> Coordinate {
    Coordinate { lon_bits: lon.to_bits(), lat_bits: lat.to_bits() }
}

fn line(offset: f64) -> Geometry {
    Geometry::LineString { coordinates: vec![at(8.0 + offset, 48.0), at(8.001 + offset, 48.001)] }
}

fn road(id: &str, class: RoadClass) -> ScenarioRoad {
    ScenarioRoad {
        id: id.to_owned(),
        source_id: id.to_owned(),
        geometry: line(0.0),
        class,
        name: Some("source name".to_owned()),
        lanes: Some(4),
        max_speed_kph: Some(70),
    }
}

fn scenario() -> CityScenario {
    CityScenario {
        schema_version: SCENARIO_SCHEMA_VERSION,
        provenance: ScenarioProvenance {
            source_format: "osm-pbf".to_owned(),
            source_name: "transform-fixture.osm.pbf".to_owned(),
            source_sha256: "fixture".to_owned(),
            parser: ExternalRevision { repository: "fixture".to_owned(), revision: "fixture".to_owned() },
        },
        roads: vec![
            road("motorway", RoadClass::Motorway),
            road("secondary", RoadClass::Secondary),
            road("local", RoadClass::Residential),
            road("footway", RoadClass::Footway),
        ],
        buildings: vec![ScenarioBuilding {
            id: "building".to_owned(),
            source_id: "building".to_owned(),
            footprint: Geometry::Polygon {
                coordinates: vec![vec![at(8.0, 48.0), at(8.001, 48.0), at(8.001, 48.001), at(8.0, 48.0)]],
            },
            use_kind: BuildingUse::Residential,
            name: None,
            levels: Some(1),
            height_m_bits: None,
            gross_floor_area_m2: 1,
        }],
        water: vec![ScenarioWater {
            id: "water".to_owned(),
            source_id: "water".to_owned(),
            geometry: line(0.0),
            kind: WaterKind::River,
        }],
        land_use_areas: vec![ScenarioLandUse {
            id: "land".to_owned(),
            source_id: "land".to_owned(),
            geometry: line(0.0),
            kind: LandUseKind::Residential,
        }],
        transit_anchors: vec![ScenarioTransitAnchor {
            id: "transit".to_owned(),
            source_id: "transit".to_owned(),
            geometry: line(0.0),
            kind: TransitKind::BusStop,
            name: None,
        }],
    }
}

#[test]
fn road_layout_profile_emits_only_three_game_road_classes_and_ignores_other_features() {
    let transformed = OsmScenarioTransformConfig::road_layout_only().transform(scenario()).unwrap();

    assert_eq!(transformed.roads.len(), 3);
    assert_eq!(transformed.roads[0].class, RoadClass::Primary);
    assert_eq!(transformed.roads[1].class, RoadClass::Secondary);
    assert_eq!(transformed.roads[2].class, RoadClass::Residential);
    assert!(transformed.roads.iter().all(|road| road.name.is_none()));
    assert!(transformed.roads.iter().all(|road| road.lanes.is_none()));
    assert!(transformed.roads.iter().all(|road| road.max_speed_kph.is_none()));
    assert!(transformed.buildings.is_empty());
    assert!(transformed.water.is_empty());
    assert!(transformed.land_use_areas.is_empty());
    assert!(transformed.transit_anchors.is_empty());
}

#[test]
fn preserve_all_profile_is_identity() {
    let original = scenario();
    let transformed = OsmScenarioTransformConfig::preserve_all().transform(original.clone()).unwrap();

    assert_eq!(transformed, original);
}

#[test]
fn duplicate_source_road_mapping_fails_closed() {
    let mut config = OsmScenarioTransformConfig::road_layout_only();
    config.roads.mappings.push(OsmRoadClassMapping { sources: vec![RoadClass::Primary], target: RoadClass::Residential });

    assert_eq!(config.validate(), Err(OsmScenarioTransformError::DuplicateRoadSource(RoadClass::Primary)));
}

#[test]
fn built_in_profiles_are_valid_and_default_preserves_everything() {
    assert_eq!(OsmScenarioTransformConfig::road_layout_only().validate(), Ok(()));
    assert_eq!(OsmScenarioTransformConfig::preserve_all().validate(), Ok(()));
    assert_eq!(OsmScenarioTransformConfig::default(), OsmScenarioTransformConfig::preserve_all());
}

#[test]
fn empty_mapping_and_unsupported_schema_fail_closed() {
    let mut config = OsmScenarioTransformConfig::preserve_all();
    config.roads.mappings.push(OsmRoadClassMapping { sources: vec![RoadClass::Track], target: RoadClass::Service });
    config.roads.mappings.push(OsmRoadClassMapping { sources: Vec::new(), target: RoadClass::Service });
    assert_eq!(config.validate(), Err(OsmScenarioTransformError::EmptyRoadMapping(1)));
    assert_eq!(config.transform(scenario()), Err(OsmScenarioTransformError::EmptyRoadMapping(1)));

    let mut config = OsmScenarioTransformConfig::preserve_all();
    config.schema_version = OSM_SCENARIO_TRANSFORM_SCHEMA_VERSION + 1;
    assert_eq!(
        config.validate(),
        Err(OsmScenarioTransformError::UnsupportedSchemaVersion(OSM_SCENARIO_TRANSFORM_SCHEMA_VERSION + 1))
    );
}

#[test]
fn a_source_repeated_inside_one_mapping_is_a_duplicate() {
    let mut config = OsmScenarioTransformConfig::preserve_all();
    config.roads.mappings.push(OsmRoadClassMapping {
        sources: vec![RoadClass::Track, RoadClass::Track],
        target: RoadClass::Service,
    });
    assert_eq!(config.validate(), Err(OsmScenarioTransformError::DuplicateRoadSource(RoadClass::Track)));
}

#[test]
fn first_listed_mapping_wins_and_unmapped_roads_are_kept_when_asked() {
    let mut config = OsmScenarioTransformConfig::preserve_all();
    config.roads.mappings.push(OsmRoadClassMapping { sources: vec![RoadClass::Motorway], target: RoadClass::Trunk });
    config.roads.unmapped = OsmUnmappedRoadPolicy::Preserve;
    config.roads.preserve_lanes = false;
    config.water = OsmFeatureTransformPolicy::Ignore;
    let transformed = config.transform(scenario()).unwrap();
    assert_eq!(transformed.roads.len(), 4);
    assert_eq!(transformed.roads[0].class, RoadClass::Trunk);
    assert_eq!(transformed.roads[3].class, RoadClass::Footway);
    assert!(transformed.roads.iter().all(|road| road.lanes.is_none()));
    assert!(transformed.roads.iter().all(|road| road.name.as_deref() == Some("source name")));
    assert!(transformed.roads.iter().all(|road| road.max_speed_kph == Some(70)));
    assert!(transformed.water.is_empty());
    assert_eq!(transformed.buildings.len(), 1);
}

#[test]
fn transform_error_messages() {
    assert_eq!(
        OsmScenarioTransformError::UnsupportedSchemaVersion(9).message(),
        "unsupported OSM scenario transform schema version 9; expected 1"
    );
    assert_eq!(
        OsmScenarioTransformError::EmptyRoadMapping(3).message(),
        "OSM road mapping 3 has no source road classes"
    );
    assert_eq!(
        OsmScenarioTransformError::DuplicateRoadSource(RoadClass::Primary).message(),
        "OSM road class Primary is mapped more than once"
    );
}
