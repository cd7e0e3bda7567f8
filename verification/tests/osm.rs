use city_game_core::geometry::{Coordinate, Geometry};
use city_game_core::model::{BuildingUse, LandUseKind, RoadClass, TransitKind, WaterKind, SCENARIO_SCHEMA_VERSION};
use city_game_core::osm::{
    building_use, classify, gross_floor_area_m2, is_road_highway, is_transit_feature, land_use_kind,
    normalize_feature, parse_lanes, parse_max_speed_kph, parse_positive_u16, road_class, scenario_from_features,
    sha256_hex, transit_kind, water_kind, ImportedKind, NormalizedFeature, OsmFeatureRecord, OsmTags,
    GEO_ANALYSIS_REVISION, OSM_PARSER_REPOSITORY,
};

fn tags(pairs: &[(&str, &str)]) -> OsmTags {
    let mut t = OsmTags::new();
    for (k, v) in pairs {
        t.insert_tag(k.to_string(), v.to_string());
    }
    t
}

fn at(lon: f64, lat: f64) -> Coordinate {
    Coordinate { lon_bits: lon.to_bits(), lat_bits: lat.to_bits() }
}

fn record(source_id: &str, pairs: &[(&str, &str)], geometry: Geometry) -> OsmFeatureRecord {
    OsmFeatureRecord {
        source_id: source_id.to_owned(),
        tags: tags(pairs),
        geometry,
        height_m_bits: None,
        height_storeys: None,
        footprint_area_m2: 0,
    }
}

#[test]
fn transit_tags_take_priority_over_highway_fallback() {
    let tagged_platform = tags(&[("highway", "bus_stop"), ("public_transport", "platform")]);
    assert_eq!(classify(&tagged_platform), ImportedKind::Transit);
    assert_eq!(transit_kind(&tagged_platform), TransitKind::BusStop);

    let legacy_bus_stop = tags(&[("highway", "bus_stop")]);
    assert_eq!(classify(&legacy_bus_stop), ImportedKind::Transit);
}

#[test]
fn highway_point_controls_are_not_imported_as_roads() {
    let traffic_signal = tags(&[("highway", "traffic_signals")]);
    assert_eq!(classify(&traffic_signal), ImportedKind::Ignore);

    let residential = tags(&[("highway", "residential")]);
    assert_eq!(classify(&residential), ImportedKind::Road);
    assert_eq!(road_class(&residential), RoadClass::Residential);
}

#[test]
fn real_parser_boundary_produces_canonical_game_semantics_and_provenance() {
    let bytes = b"synthetic pbf bytes".to_vec();
    let features = || {
        vec![
            record(
                "way/20",
                &[("building", "apartments"), ("name", "Synthetic Building"), ("building:levels", "4")],
                Geometry::LineString {
                    coordinates: vec![at(8.002, 48.002), at(8.0, 48.0), at(8.0, 48.0), at(8.002, 48.002)],
                },
            ),
            record(
                "way/10",
                &[("highway", "residential"), ("name", "Synthetic Road"), ("lanes", "2"), ("maxspeed", "50")],
                Geometry::LineString { coordinates: vec![at(8.0, 48.0), at(8.0, 48.0), at(8.0, 48.0)] },
            ),
        ]
    };
    let mut with_area = features();
    with_area[0].footprint_area_m2 = 123;
    let first = scenario_from_features("synthetic.osm.pbf".to_owned(), &bytes, with_area);
    let mut with_area = features();
    with_area[0].footprint_area_m2 = 123;
    let second = scenario_from_features("synthetic.osm.pbf".to_owned(), &bytes, with_area);

    assert_eq!(first, second);
    assert_eq!(first.schema_version, SCENARIO_SCHEMA_VERSION);
    assert_eq!(first.provenance.parser.revision, GEO_ANALYSIS_REVISION);
    assert_eq!(first.provenance.parser.repository, OSM_PARSER_REPOSITORY);
    assert_eq!(first.provenance.source_format, "osm-pbf");
    assert_eq!(first.provenance.source_name, "synthetic.osm.pbf");
    assert_eq!(first.provenance.source_sha256.len(), 64);
    assert_eq!(first.roads.len(), 1);
    assert_eq!(first.roads[0].id, "imported/way/10");
    assert_eq!(first.roads[0].source_id, "way/10");
    assert_eq!(first.roads[0].class, RoadClass::Residential);
    assert_eq!(first.roads[0].lanes, Some(2));
    assert_eq!(first.roads[0].max_speed_kph, Some(50));
    assert_eq!(first.roads[0].name.as_deref(), Some("Synthetic Road"));
    assert_eq!(first.buildings.len(), 1);
    assert_eq!(first.buildings[0].use_kind, BuildingUse::Residential);
    assert_eq!(first.buildings[0].levels, Some(4));
    assert!(matches!(first.buildings[0].footprint, Geometry::Polygon { .. }));
    assert!(first.buildings[0].gross_floor_area_m2 > 0);
    assert_eq!(first.buildings[0].gross_floor_area_m2, 492);
}

#[test]
fn sha256_is_the_lowercase_hex_digest_of_the_input() {
    assert_eq!(sha256_hex(b""), "e3b0c44298fc1c149afbf4c8996fb92427ae41e4649b934ca495991b7852b855");
    assert_eq!(sha256_hex(b"abc"), "ba7816bf8f01cfea414140de5dae2223b00361a396177a9cb410ff61f20015ad");
}

#[test]
fn imported_entities_are_sorted_by_id_and_ignored_features_dropped() {
    let features = vec![
        record("way/3", &[("highway", "primary")], Geometry::Point { coordinates: at(0.0, 0.0) }),
        record("node/9", &[("amenity", "bench")], Geometry::Point { coordinates: at(0.0, 0.0) }),
        record("way/1", &[("highway", "motorway_link")], Geometry::Point { coordinates: at(0.0, 0.0) }),
        record("way/2", &[("waterway", "river")], Geometry::Point { coordinates: at(0.0, 0.0) }),
        record("way/4", &[("landuse", "forest")], Geometry::Point { coordinates: at(0.0, 0.0) }),
        record("node/5", &[("railway", "station"), ("name", "Central")], Geometry::Point { coordinates: at(0.0, 0.0) }),
        record("way/0", &[("natural", "water")], Geometry::Point { coordinates: at(0.0, 0.0) }),
    ];
    let scenario = scenario_from_features("x".to_owned(), b"x", features);
    let road_ids: Vec<&str> = scenario.roads.iter().map(|r| r.id.as_str()).collect();
    assert_eq!(road_ids, vec!["imported/way/1", "imported/way/3"]);
    assert_eq!(scenario.roads[0].class, RoadClass::Motorway);
    assert_eq!(scenario.roads[1].class, RoadClass::Primary);
    let water_ids: Vec<&str> = scenario.water.iter().map(|r| r.id.as_str()).collect();
    assert_eq!(water_ids, vec!["imported/way/0", "imported/way/2"]);
    assert_eq!(scenario.water[0].kind, WaterKind::Body);
    assert_eq!(scenario.water[1].kind, WaterKind::River);
    assert_eq!(scenario.land_use_areas.len(), 1);
    assert_eq!(scenario.land_use_areas[0].kind, LandUseKind::Forest);
    assert_eq!(scenario.transit_anchors.len(), 1);
    assert_eq!(scenario.transit_anchors[0].kind, TransitKind::Station);
    assert_eq!(scenario.transit_anchors[0].name.as_deref(), Some("Central"));
    assert!(scenario.buildings.is_empty());
}

#[test]
fn lane_values_take_the_first_item_and_stay_in_range() {
    assert_eq!(parse_lanes("2"), Some(2));
    assert_eq!(parse_lanes(" 3 ;2"), Some(3));
    assert_eq!(parse_lanes("4|1"), Some(4));
    assert_eq!(parse_lanes("+5"), Some(5));
    assert_eq!(parse_lanes("32"), Some(32));
    assert_eq!(parse_lanes("33"), None);
    assert_eq!(parse_lanes("0"), None);
    assert_eq!(parse_lanes("256"), None);
    assert_eq!(parse_lanes(""), None);
    assert_eq!(parse_lanes("two"), None);
    assert_eq!(parse_lanes("-1"), None);
    assert_eq!(parse_lanes("2.5"), None);
}

#[test]
fn speed_limits_in_kmh_are_kept_and_mph_refused() {
    assert_eq!(parse_max_speed_kph("50"), Some(50));
    assert_eq!(parse_max_speed_kph(" 80 km/h "), Some(80));
    assert_eq!(parse_max_speed_kph("30 mph"), None);
    assert_eq!(parse_max_speed_kph("300"), Some(300));
    assert_eq!(parse_max_speed_kph("301"), None);
    assert_eq!(parse_max_speed_kph("0"), None);
    assert_eq!(parse_max_speed_kph("none"), None);
    assert_eq!(parse_max_speed_kph("70000"), None);
    assert_eq!(parse_max_speed_kph("50km/h"), None);
}

#[test]
fn positive_counts_are_trimmed_and_nonzero() {
    assert_eq!(parse_positive_u16(" 4 "), Some(4));
    assert_eq!(parse_positive_u16("0"), None);
    assert_eq!(parse_positive_u16("65535"), Some(65535));
    assert_eq!(parse_positive_u16("65536"), None);
    assert_eq!(parse_positive_u16("4 levels"), None);
}

#[test]
fn gross_floor_area_prefers_levels_then_height_and_saturates() {
    assert_eq!(gross_floor_area_m2(100, Some(4), Some(9)), 400);
    assert_eq!(gross_floor_area_m2(100, None, Some(9)), 900);
    assert_eq!(gross_floor_area_m2(100, None, Some(0)), 100);
    assert_eq!(gross_floor_area_m2(100, None, None), 100);
    assert_eq!(gross_floor_area_m2(u64::MAX, Some(2), None), u64::MAX);
}

#[test]
fn building_normalization_uses_the_measured_footprint() {
    let mut feature = record(
        "way/7",
        &[("building", "warehouse"), ("height", "12")],
        Geometry::Polygon { coordinates: vec![vec![at(0.0, 0.0), at(1.0, 0.0), at(1.0, 1.0), at(0.0, 0.0)]] },
    );
    feature.height_m_bits = Some(12.0f32.to_bits());
    feature.height_storeys = Some(4);
    feature.footprint_area_m2 = 50;
    match normalize_feature(feature) {
        NormalizedFeature::Building(b) => {
            assert_eq!(b.id, "imported/way/7");
            assert_eq!(b.use_kind, BuildingUse::Industrial);
            assert_eq!(b.levels, None);
            assert_eq!(b.height_m_bits, Some(12.0f32.to_bits()));
            assert_eq!(b.gross_floor_area_m2, 200);
            assert!(b.name.is_none());
        }
        _ => panic!("expected a building"),
    }
}

#[test]
fn an_open_or_short_line_stays_a_line_footprint() {
    let open = record(
        "way/8",
        &[("building", "yes")],
        Geometry::LineString { coordinates: vec![at(0.0, 0.0), at(1.0, 0.0), at(1.0, 1.0), at(0.0, 1.0)] },
    );
    match normalize_feature(open) {
        NormalizedFeature::Building(b) => {
            assert!(matches!(b.footprint, Geometry::LineString { .. }));
            assert_eq!(b.use_kind, BuildingUse::Other);
        }
        _ => panic!("expected a building"),
    }
}

#[test]
fn tag_tables_follow_the_documented_precedence() {
    assert!(is_transit_feature(&tags(&[("railway", "rail")])));
    assert!(!is_transit_feature(&tags(&[("highway", "primary")])));
    assert!(is_road_highway("primary"));
    assert!(!is_road_highway("elevator"));
    assert_eq!(classify(&tags(&[("highway", "service"), ("building", "yes")])), ImportedKind::Road);
    assert_eq!(classify(&tags(&[("highway", "crossing"), ("building", "yes")])), ImportedKind::Building);
    assert_eq!(classify(&tags(&[("water", "pond"), ("landuse", "forest")])), ImportedKind::Water);
    assert_eq!(classify(&tags(&[("landuse", "forest")])), ImportedKind::LandUse);
    assert_eq!(road_class(&tags(&[("highway", "steps")])), RoadClass::Footway);
    assert_eq!(road_class(&tags(&[("highway", "busway")])), RoadClass::Other);
    assert_eq!(building_use(&tags(&[("building", "chapel")])), BuildingUse::Civic);
    assert_eq!(building_use(&tags(&[("building", "barn")])), BuildingUse::Agricultural);
    assert_eq!(building_use(&tags(&[("building", "hotel")])), BuildingUse::Commercial);
    assert_eq!(water_kind(&tags(&[("waterway", "ditch")])), WaterKind::Other);
    assert_eq!(water_kind(&tags(&[("waterway", "canal"), ("natural", "water")])), WaterKind::Canal);
    assert_eq!(water_kind(&tags(&[("natural", "wood")])), WaterKind::Other);
    assert_eq!(land_use_kind(&tags(&[("landuse", "vineyard")])), LandUseKind::Farmland);
    assert_eq!(land_use_kind(&tags(&[("landuse", "grass")])), LandUseKind::Recreation);
    assert_eq!(transit_kind(&tags(&[("railway", "halt")])), TransitKind::Station);
    assert_eq!(transit_kind(&tags(&[("railway", "tram_stop")])), TransitKind::TramStop);
    assert_eq!(transit_kind(&tags(&[("public_transport", "stop_position")])), TransitKind::StopPosition);
    assert_eq!(transit_kind(&tags(&[("railway", "rail")])), TransitKind::Rail);
    assert_eq!(transit_kind(&tags(&[("public_transport", "station")])), TransitKind::Other);
    assert_eq!(transit_kind(&tags(&[("highway", "platform")])), TransitKind::Platform);
}

#[test]
fn tags_are_looked_up_by_key_and_replaced_on_reinsert() {
    let mut t = tags(&[("b", "1"), ("a", "2")]);
    assert_eq!(t.tag_value("a").map(|v| v.as_str()), Some("2"));
    t.insert_tag("a".to_owned(), "3".to_owned());
    assert_eq!(t.tag_value("a").map(|v| v.as_str()), Some("3"));
    assert!(t.has_tag("b"));
    assert!(!t.has_tag("c"));
    assert_eq!(t.len(), 2);
}
