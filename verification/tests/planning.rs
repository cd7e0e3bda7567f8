use city_game_core::geometry::{Coordinate, Geometry};
use city_game_core::model::{
    BuildingUse, CityScenario, CitySave, CityWorld, ExternalRevision, RoadClass, ScenarioBuilding,
    ScenarioProvenance, ScenarioRoad, SCENARIO_SCHEMA_VERSION,
};
use city_game_core::planning::{
    CityPlanningOverlay, EffectiveRoadOrigin, PlannedRoad, PlannedZone, PlanningCommand, PlanningError,
    PlanningOutcome, ZoneKind,
};

fn at(lon: f64, lat: f64) -> Coordinate {
    Coordinate { lon_bits: lon.to_bits(), lat_bits: lat.to_bits() }
}

fn line(lon: f64) -> Geometry {
    Geometry::LineString { coordinates: vec![at(lon, 48.0), at(lon + 0.001, 48.001)] }
}

fn polygon(lon: f64) -> Geometry {
    Geometry::Polygon {
        coordinates: vec![vec![at(lon, 48.0), at(lon + 0.001, 48.0), at(lon + 0.001, 48.001), at(lon, 48.0)]],
    }
}

fn scenario() -> CityScenario {
    CityScenario {
        schema_version: SCENARIO_SCHEMA_VERSION,
        provenance: ScenarioProvenance {
            source_format: "osm-pbf".to_owned(),
            source_name: "fixture.osm.pbf".to_owned(),
            source_sha256: "source-hash".to_owned(),
            parser: ExternalRevision { repository: "geo-analysis".to_owned(), revision: "parser-revision".to_owned() },
        },
        roads: vec![ScenarioRoad {
            id: "imported/way/10".to_owned(),
            source_id: "way/10".to_owned(),
            geometry: line(8.0),
            class: RoadClass::Residential,
            name: Some("Imported Street".to_owned()),
            lanes: Some(2),
            max_speed_kph: Some(50),
        }],
        buildings: vec![ScenarioBuilding {
            id: "imported/way/20".to_owned(),
            source_id: "way/20".to_owned(),
            footprint: polygon(8.001),
            use_kind: BuildingUse::Residential,
            name: None,
            levels: Some(3),
            height_m_bits: Some(9.0f32.to_bits()),
            gross_floor_area_m2: 900,
        }],
        water: Vec::new(),
        land_use_areas: Vec::new(),
        transit_anchors: Vec::new(),
    }
}

#[test]
fn repeated_commands_are_idempotent_but_conflicting_reuse_fails_closed() {
    let mut save = CitySave::new(scenario()).unwrap();
    let road = PlannedRoad {
        id: "player/road/1".to_owned(),
        geometry: line(8.01),
        class: RoadClass::Residential,
        name: Some("New Street".to_owned()),
    };
    let command = PlanningCommand::AddRoad { road: road.clone() };

    assert_eq!(save.apply_planning(command.clone()).unwrap(), PlanningOutcome::Applied);
    assert_eq!(save.apply_planning(command).unwrap(), PlanningOutcome::Unchanged);

    let conflicting = PlannedRoad { geometry: line(8.02), ..road };
    assert_eq!(
        save.apply_planning(PlanningCommand::AddRoad { road: conflicting }),
        Err(PlanningError::ConflictingPlayerEntityId("player/road/1".to_owned()))
    );
}

#[test]
fn planning_never_mutates_imported_scenario() {
    let mut save = CitySave::new(scenario()).unwrap();
    let original = save.scenario.clone();

    save.apply_planning(PlanningCommand::SuppressScenarioEntity { id: "imported/way/10".to_owned() }).unwrap();
    save.apply_planning(PlanningCommand::ZoneArea {
        zone: PlannedZone { id: "player/zone/1".to_owned(), geometry: polygon(8.03), kind: ZoneKind::Residential },
    })
    .unwrap();

    assert_eq!(save.scenario, original);
    assert!(save.world.planning.is_suppressed("imported/way/10"));
}

#[test]
fn effective_roads_merge_scenario_and_player_state_deterministically() {
    let mut save = CitySave::new(scenario()).unwrap();
    save.apply_planning(PlanningCommand::AddRoad {
        road: PlannedRoad { id: "player/road/1".to_owned(), geometry: line(8.01), class: RoadClass::Secondary, name: None },
    })
    .unwrap();

    let roads = save.effective_roads();
    assert_eq!(roads.len(), 2);
    assert_eq!(roads[0].id, "imported/way/10");
    assert_eq!(roads[0].origin, EffectiveRoadOrigin::Scenario);
    assert_eq!(roads[1].id, "player/road/1");
    assert_eq!(roads[1].origin, EffectiveRoadOrigin::Player);

    save.apply_planning(PlanningCommand::SuppressScenarioEntity { id: "imported/way/10".to_owned() }).unwrap();
    let roads = save.effective_roads();
    assert_eq!(roads.len(), 1);
    assert_eq!(roads[0].id, "player/road/1");
}

#[test]
fn restart_preserves_scenario_and_clock_and_resets_the_world() {
    let mut save = CitySave::new(scenario()).unwrap();
    save.advance_tick().unwrap();
    save.apply_planning(PlanningCommand::ZoneArea {
        zone: PlannedZone { id: "player/zone/1".to_owned(), geometry: polygon(8.03), kind: ZoneKind::MixedUse },
    })
    .unwrap();

    let scenario = save.scenario.clone();
    let time = save.time;
    let ruleset = save.ruleset.clone();
    let population = save.world.population;
    save.restart().unwrap();
    assert_eq!(save.scenario, scenario);
    assert_eq!(save.time, time);
    assert_eq!(save.ruleset, ruleset);
    assert_eq!(save.world.population, population);
    assert_eq!(save.world.planning, CityPlanningOverlay::default());
    assert_eq!(save.world.tick, 0);
}

#[test]
fn effective_roads_carry_attributes_and_sort_by_id() {
    let mut save = CitySave::new(scenario()).unwrap();
    save.apply_planning(PlanningCommand::AddRoad {
        road: PlannedRoad { id: "a/first".to_owned(), geometry: line(9.0), class: RoadClass::Track, name: Some("A".to_owned()) },
    })
    .unwrap();
    let roads = save.effective_roads();
    assert_eq!(roads.len(), 2);
    assert_eq!(roads[0].id, "a/first");
    assert_eq!(roads[0].source_id, None);
    assert_eq!(roads[0].name.as_deref(), Some("A"));
    assert_eq!(roads[0].class, RoadClass::Track);
    assert_eq!(roads[0].geometry, line(9.0));
    assert_eq!(roads[1].id, "imported/way/10");
    assert_eq!(roads[1].source_id.as_deref(), Some("way/10"));
    assert_eq!(roads[1].name.as_deref(), Some("Imported Street"));
}

#[test]
fn removing_an_added_road_restores_the_overlay() {
    let mut save = CitySave::new(scenario()).unwrap();
    let before = save.world.planning.clone();
    let road = PlannedRoad { id: "player/road/9".to_owned(), geometry: line(8.5), class: RoadClass::Service, name: None };
    assert_eq!(save.apply_planning(PlanningCommand::AddRoad { road }), Ok(PlanningOutcome::Applied));
    assert_eq!(
        save.apply_planning(PlanningCommand::RemovePlayerRoad { id: "player/road/9".to_owned() }),
        Ok(PlanningOutcome::Applied)
    );
    assert_eq!(save.world.planning, before);
    assert_eq!(
        save.apply_planning(PlanningCommand::RemovePlayerRoad { id: "player/road/9".to_owned() }),
        Ok(PlanningOutcome::Unchanged)
    );
}

#[test]
fn restoring_a_suppressed_entity_restores_the_overlay() {
    let mut save = CitySave::new(scenario()).unwrap();
    let before = save.world.planning.clone();
    let id = "imported/way/20".to_owned();
    assert_eq!(save.apply_planning(PlanningCommand::SuppressScenarioEntity { id: id.clone() }), Ok(PlanningOutcome::Applied));
    assert_eq!(save.apply_planning(PlanningCommand::SuppressScenarioEntity { id: id.clone() }), Ok(PlanningOutcome::Unchanged));
    assert_eq!(save.apply_planning(PlanningCommand::RestoreScenarioEntity { id: id.clone() }), Ok(PlanningOutcome::Applied));
    assert_eq!(save.world.planning, before);
    assert_eq!(save.apply_planning(PlanningCommand::RestoreScenarioEntity { id }), Ok(PlanningOutcome::Unchanged));
}

#[test]
fn removing_a_zone_restores_the_overlay() {
    let mut save = CitySave::new(scenario()).unwrap();
    let before = save.world.planning.clone();
    let zone = PlannedZone { id: "player/zone/2".to_owned(), geometry: polygon(8.2), kind: ZoneKind::Commercial };
    assert_eq!(save.apply_planning(PlanningCommand::ZoneArea { zone: zone.clone() }), Ok(PlanningOutcome::Applied));
    assert_eq!(save.apply_planning(PlanningCommand::ZoneArea { zone }), Ok(PlanningOutcome::Unchanged));
    assert_eq!(
        save.apply_planning(PlanningCommand::RemoveZone { id: "player/zone/2".to_owned() }),
        Ok(PlanningOutcome::Applied)
    );
    assert_eq!(save.world.planning, before);
}

#[test]
fn each_planning_error_and_no_change_on_failure() {
    let mut save = CitySave::new(scenario()).unwrap();
    save.apply_planning(PlanningCommand::ZoneArea {
        zone: PlannedZone { id: "player/zone/1".to_owned(), geometry: polygon(8.3), kind: ZoneKind::Industrial },
    })
    .unwrap();
    let before = save.clone();

    let cases = vec![
        (
            PlanningCommand::AddRoad {
                road: PlannedRoad { id: "   ".to_owned(), geometry: line(8.0), class: RoadClass::Other, name: None },
            },
            PlanningError::InvalidId,
        ),
        (
            PlanningCommand::AddRoad {
                road: PlannedRoad { id: "p/1".to_owned(), geometry: polygon(8.0), class: RoadClass::Other, name: None },
            },
            PlanningError::InvalidRoadGeometry,
        ),
        (
            PlanningCommand::AddRoad {
                road: PlannedRoad {
                    id: "p/2".to_owned(),
                    geometry: Geometry::LineString { coordinates: vec![at(1.0, 2.0)] },
                    class: RoadClass::Other,
                    name: None,
                },
            },
            PlanningError::InvalidRoadGeometry,
        ),
        (
            PlanningCommand::ZoneArea {
                zone: PlannedZone { id: "p/3".to_owned(), geometry: line(8.0), kind: ZoneKind::Residential },
            },
            PlanningError::InvalidZoneGeometry,
        ),
        (
            PlanningCommand::AddRoad {
                road: PlannedRoad { id: "imported/way/10".to_owned(), geometry: line(8.0), class: RoadClass::Other, name: None },
            },
            PlanningError::ScenarioEntityIdReserved("imported/way/10".to_owned()),
        ),
        (
            PlanningCommand::AddRoad {
                road: PlannedRoad { id: "player/zone/1".to_owned(), geometry: line(8.0), class: RoadClass::Other, name: None },
            },
            PlanningError::ConflictingPlayerEntityId("player/zone/1".to_owned()),
        ),
        (
            PlanningCommand::SuppressScenarioEntity { id: "imported/way/99".to_owned() },
            PlanningError::UnknownScenarioEntity("imported/way/99".to_owned()),
        ),
        (
            PlanningCommand::RestoreScenarioEntity { id: "nowhere".to_owned() },
            PlanningError::UnknownScenarioEntity("nowhere".to_owned()),
        ),
        (PlanningCommand::RemoveZone { id: "".to_owned() }, PlanningError::InvalidId),
        (PlanningCommand::RemovePlayerRoad { id: "\n".to_owned() }, PlanningError::InvalidId),
    ];
    for (command, error) in cases {
        assert_eq!(save.apply_planning(command), Err(error));
        assert_eq!(save, before);
    }
}

#[test]
fn a_road_in_a_collection_or_multiline_is_valid() {
    let mut save = CitySave::new(scenario()).unwrap();
    let collection = Geometry::GeometryCollection {
        geometries: vec![Geometry::Point { coordinates: at(0.0, 0.0) }, line(3.0)],
    };
    let multi = Geometry::MultiLineString { coordinates: vec![vec![at(0.0, 0.0)], vec![at(0.0, 0.0), at(1.0, 1.0)]] };
    for (id, geometry) in [("p/c", collection), ("p/m", multi)] {
        let road = PlannedRoad { id: id.to_owned(), geometry, class: RoadClass::Other, name: None };
        assert_eq!(save.apply_planning(PlanningCommand::AddRoad { road }), Ok(PlanningOutcome::Applied));
    }
}

#[test]
fn planning_error_messages() {
    assert_eq!(PlanningError::InvalidId.message(), "planning entity id must be non-empty");
    assert_eq!(
        PlanningError::InvalidRoadGeometry.message(),
        "player road geometry must contain at least one line segment"
    );
    assert_eq!(PlanningError::InvalidZoneGeometry.message(), "zone geometry must be a polygon or multipolygon");
    assert_eq!(
        PlanningError::ConflictingPlayerEntityId("p/1".to_owned()).message(),
        "player entity id p/1 is already used by different state"
    );
    assert_eq!(
        PlanningError::ScenarioEntityIdReserved("s/1".to_owned()).message(),
        "player entity id s/1 is reserved by the imported scenario"
    );
    assert_eq!(PlanningError::UnknownScenarioEntity("x".to_owned()).message(), "scenario entity x does not exist");
}

#[test]
fn restart_of_an_initial_world_is_a_fresh_world() {
    let mut save = CitySave::new(scenario()).unwrap();
    save.restart().unwrap();
    assert_eq!(save.world, CityWorld { population: save.world.population, ..CityWorld::default() });
}

#[test]
fn overlays_built_by_commands_pass_save_load_validation() {
    let mut save = CitySave::new(scenario()).unwrap();
    assert_eq!(save.world.planning.validate_against_scenario(&save.scenario), Ok(()));
    save.apply_planning(PlanningCommand::AddRoad {
        road: PlannedRoad { id: "player/road/1".to_owned(), geometry: line(8.01), class: RoadClass::Secondary, name: None },
    })
    .unwrap();
    save.apply_planning(PlanningCommand::ZoneArea {
        zone: PlannedZone { id: "player/zone/1".to_owned(), geometry: polygon(8.03), kind: ZoneKind::Residential },
    })
    .unwrap();
    save.apply_planning(PlanningCommand::SuppressScenarioEntity { id: "imported/way/10".to_owned() }).unwrap();
    assert_eq!(save.world.planning.validate_against_scenario(&save.scenario), Ok(()));
}

#[test]
fn save_load_validation_refuses_each_kind_of_inconsistency() {
    let scenario = scenario();
    let road = |id: &str, geometry: Geometry| PlannedRoad { id: id.to_owned(), geometry, class: RoadClass::Other, name: None };
    let zone = |id: &str, geometry: Geometry| PlannedZone { id: id.to_owned(), geometry, kind: ZoneKind::Residential };

    let mut reserved = CityPlanningOverlay::new();
    reserved.player_roads.insert(road("imported/way/20", line(8.0)));
    assert_eq!(
        reserved.validate_against_scenario(&scenario),
        Err(PlanningError::ScenarioEntityIdReserved("imported/way/20".to_owned()))
    );

    let mut reserved_zone = CityPlanningOverlay::new();
    reserved_zone.zones.insert(zone("imported/way/10", polygon(8.0)));
    assert_eq!(
        reserved_zone.validate_against_scenario(&scenario),
        Err(PlanningError::ScenarioEntityIdReserved("imported/way/10".to_owned()))
    );

    let mut unknown = CityPlanningOverlay::new();
    unknown.suppressed_scenario_entities.insert("imported/way/99".to_owned());
    assert_eq!(
        unknown.validate_against_scenario(&scenario),
        Err(PlanningError::UnknownScenarioEntity("imported/way/99".to_owned()))
    );

    let mut shared = CityPlanningOverlay::new();
    shared.player_roads.insert(road("p/1", line(8.0)));
    shared.zones.insert(zone("p/1", polygon(8.0)));
    assert_eq!(shared.validate_against_scenario(&scenario), Err(PlanningError::ConflictingPlayerEntityId("p/1".to_owned())));

    let mut bad_road = CityPlanningOverlay::new();
    bad_road.player_roads.insert(road("p/2", polygon(8.0)));
    assert_eq!(bad_road.validate_against_scenario(&scenario), Err(PlanningError::InvalidRoadGeometry));

    let mut bad_zone = CityPlanningOverlay::new();
    bad_zone.zones.insert(zone("p/3", line(8.0)));
    assert_eq!(bad_zone.validate_against_scenario(&scenario), Err(PlanningError::InvalidZoneGeometry));

    let mut blank = CityPlanningOverlay::new();
    blank.zones.insert(zone(" ", polygon(8.0)));
    assert_eq!(blank.validate_against_scenario(&scenario), Err(PlanningError::InvalidId));

    let mut first = CityPlanningOverlay::new();
    first.player_roads.insert(road("b", polygon(8.0)));
    first.player_roads.insert(road("a", Geometry::Point { coordinates: at(0.0, 0.0) }));
    first.suppressed_scenario_entities.insert("nowhere".to_owned());
    assert_eq!(first.validate_against_scenario(&scenario), Err(PlanningError::InvalidRoadGeometry));
}
