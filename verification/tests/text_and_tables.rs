use city_game_core::geometry::{
    canonical_building_footprint, f64_bits_equal, geometry_equals, valid_road_geometry, valid_zone_geometry, Coordinate,
    Geometry,
};
use city_game_core::model::{Metric, MetricTable};
use city_game_core::table::{sort_by_key, KeyedTable};
use city_game_core::text::{
    chars_of, compare_text, decimal_text, ends_with_chars, first_segment_chars, is_blank_text, parse_unsigned_chars,
    text_equals, trim_chars,
};

fn at(lon: f64, lat: f64) -> Coordinate {
    Coordinate { lon_bits: lon.to_bits(), lat_bits: lat.to_bits() }
}

#[test]
fn text_order_matches_string_order() {
    let words = ["", "a", "ab", "b", "B", "é", "z", "ζ", "aé"];
    for x in words {
        for y in words {
            let c = compare_text(x, y);
            assert_eq!(c < 0, x < y, "{x} {y}");
            assert_eq!(c == 0, x == y);
            assert_eq!(text_equals(x, y), x == y);
        }
    }
}

#[test]
fn trimming_follows_unicode_white_space() {
    let t = trim_chars(&chars_of("\u{3000}\t x y \u{85}\n"));
    assert_eq!(t.iter().collect::<String>(), "x y");
    assert!(is_blank_text(" \u{2003}\r\n"));
    assert!(!is_blank_text(" . "));
    assert!(is_blank_text(""));
}

#[test]
fn unsigned_parsing_accepts_a_plus_and_digits_within_the_bound() {
    let p = |s: &str, max: u32| parse_unsigned_chars(&chars_of(s), max);
    assert_eq!(p("0", 255), Some(0));
    assert_eq!(p("+7", 255), Some(7));
    assert_eq!(p("007", 255), Some(7));
    assert_eq!(p("255", 255), Some(255));
    assert_eq!(p("256", 255), None);
    assert_eq!(p("+", 255), None);
    assert_eq!(p("", 255), None);
    assert_eq!(p("1 2", 255), None);
    assert_eq!(p("99999999999999999999", 65535), None);
    for n in [0u32, 1, 9, 10, 99, 100, 65535] {
        assert_eq!(p(&n.to_string(), 65535), Some(n));
        assert_eq!(p(&n.to_string(), 65535).map(|v| v as u16), n.to_string().parse::<u16>().ok());
    }
}

#[test]
fn segments_and_suffixes() {
    let s = |x: &str| first_segment_chars(&chars_of(x)).iter().collect::<String>();
    assert_eq!(s("a;b"), "a");
    assert_eq!(s("a|b;c"), "a");
    assert_eq!(s(";"), "");
    assert_eq!(s("abc"), "abc");
    assert!(ends_with_chars(&chars_of("30 mph"), &chars_of("mph")));
    assert!(!ends_with_chars(&chars_of("ph"), &chars_of("mph")));
    assert!(ends_with_chars(&chars_of("x"), &chars_of("")));
}

#[test]
fn decimal_text_matches_display() {
    for n in [0u64, 5, 10, 1440, 65535, 1_000_000, u64::MAX] {
        assert_eq!(decimal_text(n), n.to_string());
    }
}

#[test]
fn keyed_tables_stay_sorted_and_replace_by_key() {
    let mut table: KeyedTable<String> = KeyedTable::new();
    assert!(table.is_empty());
    assert_eq!(table.insert("b".to_owned()), None);
    assert_eq!(table.insert("a".to_owned()), None);
    assert_eq!(table.insert("c".to_owned()), None);
    assert_eq!(table.insert("a".to_owned()), Some("a".to_owned()));
    assert_eq!(table.len(), 3);
    assert_eq!(table.as_vec(), &vec!["a".to_owned(), "b".to_owned(), "c".to_owned()]);
    assert_eq!(table.remove("b"), Some("b".to_owned()));
    assert_eq!(table.remove("b"), None);
    assert!(table.contains_key("c"));
    assert_eq!(table.get("a"), Some(&"a".to_owned()));
    let copy = table.clone();
    assert_eq!(copy, table);
}

#[test]
fn metric_tables_keep_the_last_value_per_name() {
    let mut m = MetricTable::from_pairs(vec![("x".to_owned(), 1), ("y".to_owned(), 2), ("x".to_owned(), 3)]);
    assert_eq!(m.metric_value("x"), Some(3));
    assert_eq!(m.metric_value("y"), Some(2));
    assert_eq!(m.metric_value("z"), None);
    assert_eq!(m.insert_metric("y".to_owned(), -4), Some(2));
    assert_eq!(m.insert_metric("z".to_owned(), 0), None);
    assert_eq!(m.metric_value("y"), Some(-4));
    assert_eq!(m.len(), 3);
    let names: Vec<&str> = m.as_vec().iter().map(|metric: &Metric| metric.name.as_str()).collect();
    assert_eq!(names, vec!["x", "y", "z"]);
}

#[test]
fn stable_sort_by_key_keeps_equal_keys_in_order() {
    let sorted = sort_by_key(vec!["b".to_owned(), "a".to_owned(), "c".to_owned(), "a".to_owned()]);
    assert_eq!(sorted, vec!["a".to_owned(), "a".to_owned(), "b".to_owned(), "c".to_owned()]);
}

#[test]
fn coordinate_equality_is_numeric_equality() {
    assert!(f64_bits_equal(0.0f64.to_bits(), (-0.0f64).to_bits()));
    assert!(!f64_bits_equal(f64::NAN.to_bits(), f64::NAN.to_bits()));
    assert!(f64_bits_equal(1.5f64.to_bits(), 1.5f64.to_bits()));
    assert!(!f64_bits_equal(1.5f64.to_bits(), 2.5f64.to_bits()));
    let a = Geometry::Point { coordinates: at(0.0, 1.0) };
    let b = Geometry::Point { coordinates: at(-0.0, 1.0) };
    assert!(geometry_equals(&a, &b));
    let n = Geometry::Point { coordinates: at(f64::NAN, 1.0) };
    assert!(!geometry_equals(&n, &n));
    assert_ne!(a, Geometry::MultiPoint { coordinates: vec![at(0.0, 1.0)] });
}

#[test]
fn road_and_zone_shapes() {
    assert!(valid_road_geometry(&Geometry::LineString { coordinates: vec![at(0.0, 0.0), at(0.0, 0.0)] }));
    assert!(!valid_road_geometry(&Geometry::MultiLineString { coordinates: vec![vec![at(0.0, 0.0)]] }));
    assert!(!valid_road_geometry(&Geometry::GeometryCollection { geometries: Vec::new() }));
    assert!(valid_zone_geometry(&Geometry::MultiPolygon { coordinates: Vec::new() }));
    assert!(!valid_zone_geometry(&Geometry::Point { coordinates: at(0.0, 0.0) }));
}

#[test]
fn closed_rings_become_polygons() {
    let ring = vec![at(0.0, 0.0), at(1.0, 0.0), at(1.0, 1.0), at(0.0, 0.0)];
    let footprint = canonical_building_footprint(Geometry::LineString { coordinates: ring.clone() });
    assert_eq!(footprint, Geometry::Polygon { coordinates: vec![ring] });
    let short = vec![at(0.0, 0.0), at(1.0, 0.0), at(0.0, 0.0)];
    let footprint = canonical_building_footprint(Geometry::LineString { coordinates: short.clone() });
    assert_eq!(footprint, Geometry::LineString { coordinates: short });
}

#[test]
fn unsigned_parsing_reaches_the_full_u32_range() {
    let p = |s: &str| parse_unsigned_chars(&chars_of(s), u32::MAX);
    assert_eq!(p("4294967295"), Some(u32::MAX));
    assert_eq!(p("4294967296"), None);
    assert_eq!(p("+100000"), Some(100_000));
}
