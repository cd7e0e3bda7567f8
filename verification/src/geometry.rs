//! GeoJSON-shaped geometry whose coordinates are held as IEEE-754 bit patterns.
//!
//! The library never computes with coordinates; it carries them, copies them and
//! compares them. Each coordinate is the `f64::to_bits` image of a longitude or a
//! latitude, and equality follows IEEE-754 (`NaN` equals nothing, `-0.0 == 0.0`).
use vstd::prelude::*;

verus! {

/// A longitude/latitude pair, each the bit pattern of an `f64`.
#[derive(Debug, Clone, Copy, PartialEq, Eq)]
pub struct Coordinate {
    pub lon_bits: u64,
    pub lat_bits: u64,
}

#[derive(Debug)]
#[allow(inconsistent_fields)]
pub enum Geometry {
    Point { coordinates: Coordinate },
    MultiPoint { coordinates: Vec<Coordinate> },
    LineString { coordinates: Vec<Coordinate> },
    MultiLineString { coordinates: Vec<Vec<Coordinate>> },
    Polygon { coordinates: Vec<Vec<Coordinate>> },
    MultiPolygon { coordinates: Vec<Vec<Vec<Coordinate>>> },
    GeometryCollection { geometries: Vec<Geometry> },
}

/// The mathematical value of a geometry: its nested coordinate sequences.
pub enum GeometryView {
    Point(Coordinate),
    MultiPoint(Seq<Coordinate>),
    LineString(Seq<Coordinate>),
    MultiLineString(Seq<Seq<Coordinate>>),
    Polygon(Seq<Seq<Coordinate>>),
    MultiPolygon(Seq<Seq<Seq<Coordinate>>>),
    GeometryCollection(Seq<GeometryView>),
}

pub open spec fn lines_view(s: Seq<Vec<Coordinate>>) -> Seq<Seq<Coordinate>> {
    s.map_values(|v: Vec<Coordinate>| v@)
}

pub open spec fn polygons_view(s: Seq<Vec<Vec<Coordinate>>>) -> Seq<Seq<Seq<Coordinate>>> {
    s.map_values(|v: Vec<Vec<Coordinate>>| lines_view(v@))
}

pub open spec fn geometry_view(g: Geometry) -> GeometryView
    decreases g, 0int,
{
    match g {
        Geometry::Point { coordinates } => GeometryView::Point(coordinates),
        Geometry::MultiPoint { coordinates } => GeometryView::MultiPoint(coordinates@),
        Geometry::LineString { coordinates } => GeometryView::LineString(coordinates@),
        Geometry::MultiLineString { coordinates } => GeometryView::MultiLineString(
            lines_view(coordinates@),
        ),
        Geometry::Polygon { coordinates } => GeometryView::Polygon(lines_view(coordinates@)),
        Geometry::MultiPolygon { coordinates } => GeometryView::MultiPolygon(
            polygons_view(coordinates@),
        ),
        Geometry::GeometryCollection { geometries } => GeometryView::GeometryCollection(
            collection_view(geometries@, geometries@.len() as int),
        ),
    }
}

/// The views of the first `n` geometries of `gs`.
pub open spec fn collection_view(gs: Seq<Geometry>, n: int) -> Seq<GeometryView>
    decreases gs, n,
{
    if n <= 0 || n > gs.len() {
        Seq::empty()
    } else {
        collection_view(gs, n - 1).push(geometry_view(gs[n - 1]))
    }
}

impl View for Geometry {
    type V = GeometryView;

    open spec fn view(&self) -> GeometryView {
        geometry_view(*self)
    }
}

pub proof fn lemma_collection_view_len(gs: Seq<Geometry>, n: int)
    requires
        0 <= n <= gs.len(),
    ensures
        collection_view(gs, n).len() == n,
        forall|i: int| 0 <= i < n ==> #[trigger] collection_view(gs, n)[i] == geometry_view(gs[i]),
    decreases n,
{
    if n > 0 {
        lemma_collection_view_len(gs, n - 1);
    }
}

/// An `f64` bit pattern that encodes a NaN.
pub open spec fn f64_bits_is_nan(b: u64) -> bool {
    (b & 0x7ff0_0000_0000_0000u64) == 0x7ff0_0000_0000_0000u64 && (b & 0x000f_ffff_ffff_ffffu64)
        != 0
}

/// IEEE-754 equality of the two `f64` values with these bit patterns.
pub open spec fn f64_bits_eq(a: u64, b: u64) -> bool {
    !f64_bits_is_nan(a) && !f64_bits_is_nan(b) && (a == b || (a | b) & 0x7fff_ffff_ffff_ffffu64
        == 0)
}

pub fn f64_bits_equal(a: u64, b: u64) -> (r: bool)
    ensures
        r == f64_bits_eq(a, b),
{
    let a_nan = (a & 0x7ff0_0000_0000_0000u64) == 0x7ff0_0000_0000_0000u64 && (a
        & 0x000f_ffff_ffff_ffffu64) != 0;
    let b_nan = (b & 0x7ff0_0000_0000_0000u64) == 0x7ff0_0000_0000_0000u64 && (b
        & 0x000f_ffff_ffff_ffffu64) != 0;
    !a_nan && !b_nan && (a == b || (a | b) & 0x7fff_ffff_ffff_ffffu64 == 0)
}

pub open spec fn same_coordinate(a: Coordinate, b: Coordinate) -> bool {
    f64_bits_eq(a.lon_bits, b.lon_bits) && f64_bits_eq(a.lat_bits, b.lat_bits)
}

pub open spec fn same_coordinates(a: Seq<Coordinate>, b: Seq<Coordinate>) -> bool {
    a.len() == b.len() && forall|i: int| 0 <= i < a.len() ==> same_coordinate(#[trigger] a[i], b[i])
}

pub open spec fn same_lines(a: Seq<Seq<Coordinate>>, b: Seq<Seq<Coordinate>>) -> bool {
    a.len() == b.len() && forall|i: int|
        0 <= i < a.len() ==> same_coordinates(#[trigger] a[i], b[i])
}

pub open spec fn same_polygons(a: Seq<Seq<Seq<Coordinate>>>, b: Seq<Seq<Seq<Coordinate>>>) -> bool {
    a.len() == b.len() && forall|i: int| 0 <= i < a.len() ==> same_lines(#[trigger] a[i], b[i])
}

/// Equality of geometries as `PartialEq` on `f64` coordinates decides it: same
/// shape, same lengths, and IEEE-equal coordinates throughout.
pub open spec fn same_geometry(a: GeometryView, b: GeometryView) -> bool
    decreases a, 0int,
{
    match a {
        GeometryView::Point(x) => match b {
            GeometryView::Point(y) => same_coordinate(x, y),
            _ => false,
        },
        GeometryView::MultiPoint(x) => match b {
            GeometryView::MultiPoint(y) => same_coordinates(x, y),
            _ => false,
        },
        GeometryView::LineString(x) => match b {
            GeometryView::LineString(y) => same_coordinates(x, y),
            _ => false,
        },
        GeometryView::MultiLineString(x) => match b {
            GeometryView::MultiLineString(y) => same_lines(x, y),
            _ => false,
        },
        GeometryView::Polygon(x) => match b {
            GeometryView::Polygon(y) => same_lines(x, y),
            _ => false,
        },
        GeometryView::MultiPolygon(x) => match b {
            GeometryView::MultiPolygon(y) => same_polygons(x, y),
            _ => false,
        },
        GeometryView::GeometryCollection(x) => match b {
            GeometryView::GeometryCollection(y) => x.len() == y.len() && same_members(
                x,
                y,
                x.len() as int,
            ),
            _ => false,
        },
    }
}

/// The first `n` members of two collections are pairwise the same geometry.
pub open spec fn same_members(x: Seq<GeometryView>, y: Seq<GeometryView>, n: int) -> bool
    decreases x, n,
{
    if n <= 0 || n > x.len() {
        true
    } else {
        same_members(x, y, n - 1) && same_geometry(x[n - 1], y[n - 1])
    }
}

pub open spec fn coordinate_is_number(c: Coordinate) -> bool {
    !f64_bits_is_nan(c.lon_bits) && !f64_bits_is_nan(c.lat_bits)
}

pub open spec fn coordinates_are_numbers(s: Seq<Coordinate>) -> bool {
    forall|i: int| 0 <= i < s.len() ==> coordinate_is_number(#[trigger] s[i])
}

pub open spec fn lines_are_numbers(s: Seq<Seq<Coordinate>>) -> bool {
    forall|i: int| 0 <= i < s.len() ==> coordinates_are_numbers(#[trigger] s[i])
}

pub open spec fn polygons_are_numbers(s: Seq<Seq<Seq<Coordinate>>>) -> bool {
    forall|i: int| 0 <= i < s.len() ==> lines_are_numbers(#[trigger] s[i])
}

/// No coordinate of the geometry is a NaN.
pub open spec fn has_no_nan(g: GeometryView) -> bool
    decreases g, 0int,
{
    match g {
        GeometryView::Point(c) => coordinate_is_number(c),
        GeometryView::MultiPoint(c) => coordinates_are_numbers(c),
        GeometryView::LineString(c) => coordinates_are_numbers(c),
        GeometryView::MultiLineString(c) => lines_are_numbers(c),
        GeometryView::Polygon(c) => lines_are_numbers(c),
        GeometryView::MultiPolygon(c) => polygons_are_numbers(c),
        GeometryView::GeometryCollection(m) => members_have_no_nan(m, m.len() as int),
    }
}

/// None of the first `n` members has a NaN coordinate.
pub open spec fn members_have_no_nan(m: Seq<GeometryView>, n: int) -> bool
    decreases m, n,
{
    if n <= 0 || n > m.len() {
        true
    } else {
        members_have_no_nan(m, n - 1) && has_no_nan(m[n - 1])
    }
}

/// A geometry without NaN coordinates is the same geometry as itself.
pub proof fn lemma_same_geometry_reflexive(g: GeometryView)
    requires
        has_no_nan(g),
    ensures
        same_geometry(g, g),
    decreases g, 0int,
{
    match g {
        GeometryView::MultiLineString(c) => {
            assert forall|i: int| 0 <= i < c.len() implies same_coordinates(#[trigger] c[i], c[i]) by {
                assert(coordinates_are_numbers(c[i]));
            }
        },
        GeometryView::Polygon(c) => {
            assert forall|i: int| 0 <= i < c.len() implies same_coordinates(#[trigger] c[i], c[i]) by {
                assert(coordinates_are_numbers(c[i]));
            }
        },
        GeometryView::MultiPolygon(c) => {
            assert forall|i: int| 0 <= i < c.len() implies same_lines(#[trigger] c[i], c[i]) by {
                assert(lines_are_numbers(c[i]));
                assert forall|j: int| 0 <= j < c[i].len() implies same_coordinates(
                    #[trigger] c[i][j],
                    c[i][j],
                ) by {
                    assert(coordinates_are_numbers(c[i][j]));
                }
            }
        },
        GeometryView::GeometryCollection(m) => {
            lemma_same_members_reflexive(m, m.len() as int);
        },
        _ => {},
    }
}

proof fn lemma_same_members_reflexive(m: Seq<GeometryView>, n: int)
    requires
        members_have_no_nan(m, n),
    ensures
        same_members(m, m, n),
    decreases m, n,
{
    if 0 < n <= m.len() {
        lemma_same_members_reflexive(m, n - 1);
        lemma_same_geometry_reflexive(m[n - 1]);
    }
}

fn coordinates_equal(a: &Vec<Coordinate>, b: &Vec<Coordinate>) -> (r: bool)
    ensures
        r == same_coordinates(a@, b@),
{
    if a.len() != b.len() {
        return false;
    }
    let mut i: usize = 0;
    while i < a.len()
        invariant
            0 <= i <= a@.len(),
            a@.len() == b@.len(),
            forall|j: int| 0 <= j < i ==> same_coordinate(#[trigger] a@[j], b@[j]),
        decreases a@.len() - i,
    {
        let x = a[i];
        let y = b[i];
        if !(f64_bits_equal(x.lon_bits, y.lon_bits) && f64_bits_equal(x.lat_bits, y.lat_bits)) {
            return false;
        }
        i = i + 1;
    }
    true
}

fn lines_equal(a: &Vec<Vec<Coordinate>>, b: &Vec<Vec<Coordinate>>) -> (r: bool)
    ensures
        r == same_lines(lines_view(a@), lines_view(b@)),
{
    if a.len() != b.len() {
        return false;
    }
    let mut i: usize = 0;
    while i < a.len()
        invariant
            0 <= i <= a@.len(),
            a@.len() == b@.len(),
            forall|j: int| 0 <= j < i ==> same_coordinates(#[trigger] a@[j]@, b@[j]@),
        decreases a@.len() - i,
    {
        if !coordinates_equal(&a[i], &b[i]) {
            assert(lines_view(a@)[i as int] == a@[i as int]@);
            assert(lines_view(b@)[i as int] == b@[i as int]@);
            return false;
        }
        i = i + 1;
    }
    assert forall|j: int| 0 <= j < a@.len() implies same_coordinates(
        #[trigger] lines_view(a@)[j],
        lines_view(b@)[j],
    ) by {
        assert(same_coordinates(a@[j]@, b@[j]@));
    }
    true
}

fn polygons_equal(a: &Vec<Vec<Vec<Coordinate>>>, b: &Vec<Vec<Vec<Coordinate>>>) -> (r: bool)
    ensures
        r == same_polygons(polygons_view(a@), polygons_view(b@)),
{
    if a.len() != b.len() {
        return false;
    }
    let mut i: usize = 0;
    while i < a.len()
        invariant
            0 <= i <= a@.len(),
            a@.len() == b@.len(),
            forall|j: int|
                0 <= j < i ==> same_lines(lines_view(#[trigger] a@[j]@), lines_view(b@[j]@)),
        decreases a@.len() - i,
    {
        if !lines_equal(&a[i], &b[i]) {
            assert(polygons_view(a@)[i as int] == lines_view(a@[i as int]@));
            assert(polygons_view(b@)[i as int] == lines_view(b@[i as int]@));
            return false;
        }
        i = i + 1;
    }
    assert forall|j: int| 0 <= j < a@.len() implies same_lines(
        #[trigger] polygons_view(a@)[j],
        polygons_view(b@)[j],
    ) by {
        assert(same_lines(lines_view(a@[j]@), lines_view(b@[j]@)));
    }
    true
}

proof fn lemma_same_members_prefix(x: Seq<GeometryView>, y: Seq<GeometryView>, n: int, m: int)
    requires
        0 <= m <= n <= x.len(),
        same_members(x, y, n),
    ensures
        same_members(x, y, m),
    decreases n - m,
{
    if m < n {
        lemma_same_members_prefix(x, y, n - 1, m);
    }
}

/// Whether two geometries are equal in the sense of `same_geometry`.
#[verifier::loop_isolation(false)]
pub fn geometry_equals(a: &Geometry, b: &Geometry) -> (r: bool)
    ensures
        r == same_geometry(a@, b@),
    decreases a,
{
    match (a, b) {
        (Geometry::Point { coordinates: x }, Geometry::Point { coordinates: y }) => {
            f64_bits_equal(x.lon_bits, y.lon_bits) && f64_bits_equal(x.lat_bits, y.lat_bits)
        },
        (Geometry::MultiPoint { coordinates: x }, Geometry::MultiPoint { coordinates: y }) => {
            coordinates_equal(x, y)
        },
        (Geometry::LineString { coordinates: x }, Geometry::LineString { coordinates: y }) => {
            coordinates_equal(x, y)
        },
        (
            Geometry::MultiLineString { coordinates: x },
            Geometry::MultiLineString { coordinates: y },
        ) => lines_equal(x, y),
        (Geometry::Polygon { coordinates: x }, Geometry::Polygon { coordinates: y }) => {
            lines_equal(x, y)
        },
        (Geometry::MultiPolygon { coordinates: x }, Geometry::MultiPolygon { coordinates: y }) => {
            polygons_equal(x, y)
        },
        (
            Geometry::GeometryCollection { geometries: x },
            Geometry::GeometryCollection { geometries: y },
        ) => {
            let ghost xv = collection_view(x@, x@.len() as int);
            let ghost yv = collection_view(y@, y@.len() as int);
            proof {
                lemma_collection_view_len(x@, x@.len() as int);
                lemma_collection_view_len(y@, y@.len() as int);
            }
            if x.len() != y.len() {
                return false;
            }
            let mut i: usize = 0;
            while i < x.len()
                invariant
                    0 <= i <= x@.len(),
                    x@.len() == y@.len(),
                    same_members(xv, yv, i as int),
                decreases x@.len() - i,
            {
                proof {
                    broadcast use vstd::std_specs::vec::axiom_vec_index_decreases;

                    assert(decreases_to!(*a => x@[i as int]));
                }
                if !geometry_equals(&x[i], &y[i]) {
                    proof {
                        if same_members(xv, yv, xv.len() as int) {
                            lemma_same_members_prefix(xv, yv, xv.len() as int, i + 1);
                        }
                    }
                    return false;
                }
                i = i + 1;
            }
            true
        },
        _ => false,
    }
}

/// The line strings that a road geometry offers.
pub open spec fn is_road_shape(g: GeometryView) -> bool
    decreases g, 0int,
{
    match g {
        GeometryView::LineString(c) => c.len() >= 2,
        GeometryView::MultiLineString(lines) => has_segment(lines),
        GeometryView::GeometryCollection(members) => any_road_shape(
            members,
            members.len() as int,
        ),
        _ => false,
    }
}

/// One of the lines has two or more positions.
pub open spec fn has_segment(lines: Seq<Seq<Coordinate>>) -> bool {
    exists|i: int| 0 <= i < lines.len() && #[trigger] lines[i].len() >= 2
}

/// One of the first `n` members is a road shape.
pub open spec fn any_road_shape(gs: Seq<GeometryView>, n: int) -> bool
    decreases gs, n,
{
    if n <= 0 || n > gs.len() {
        false
    } else {
        any_road_shape(gs, n - 1) || is_road_shape(gs[n - 1])
    }
}

proof fn lemma_any_road_shape_grows(gs: Seq<GeometryView>, n: int, m: int)
    requires
        0 <= n <= m <= gs.len(),
        any_road_shape(gs, n),
    ensures
        any_road_shape(gs, m),
    decreases m - n,
{
    if n < m {
        lemma_any_road_shape_grows(gs, n, m - 1);
    }
}

/// A road needs at least one line segment: a line string of two or more
/// positions, directly or inside a multi-line string or a collection.
#[verifier::loop_isolation(false)]
pub fn valid_road_geometry(g: &Geometry) -> (r: bool)
    ensures
        r == is_road_shape(g@),
    decreases g,
{
    match g {
        Geometry::LineString { coordinates } => coordinates.len() >= 2,
        Geometry::MultiLineString { coordinates } => {
            let mut i: usize = 0;
            while i < coordinates.len()
                invariant
                    0 <= i <= coordinates@.len(),
                    forall|j: int| 0 <= j < i ==> coordinates@[j]@.len() < 2,
                decreases coordinates@.len() - i,
            {
                if coordinates[i].len() >= 2 {
                    assert(g@ == GeometryView::MultiLineString(lines_view(coordinates@)));
                    assert(lines_view(coordinates@).len() == coordinates@.len());
                    assert(lines_view(coordinates@)[i as int].len() >= 2);
                    return true;
                }
                i = i + 1;
            }
            assert forall|j: int| 0 <= j < coordinates@.len() implies !(#[trigger] lines_view(
                coordinates@,
            )[j].len() >= 2) by {
                assert(lines_view(coordinates@)[j] == coordinates@[j]@);
            }
            false
        },
        Geometry::GeometryCollection { geometries } => {
            let ghost members = collection_view(geometries@, geometries@.len() as int);
            proof {
                lemma_collection_view_len(geometries@, geometries@.len() as int);
            }
            let mut i: usize = 0;
            while i < geometries.len()
                invariant
                    0 <= i <= geometries@.len(),
                    !any_road_shape(members, i as int),
                decreases geometries@.len() - i,
            {
                proof {
                    broadcast use vstd::std_specs::vec::axiom_vec_index_decreases;

                    assert(decreases_to!(*g => geometries@[i as int]));
                }
                if valid_road_geometry(&geometries[i]) {
                    proof {
                        assert(any_road_shape(members, i + 1));
                        lemma_any_road_shape_grows(members, i + 1, members.len() as int);
                    }
                    return true;
                }
                i = i + 1;
            }
            false
        },
        _ => false,
    }
}

/// A zone covers an area: a polygon or a multi-polygon.
pub open spec fn is_zone_shape(g: GeometryView) -> bool {
    g is Polygon || g is MultiPolygon
}

pub fn valid_zone_geometry(g: &Geometry) -> (r: bool)
    ensures
        r == is_zone_shape(g@),
{
    match g {
        Geometry::Polygon { .. } => true,
        Geometry::MultiPolygon { .. } => true,
        _ => false,
    }
}

fn copy_coordinates(v: &Vec<Coordinate>) -> (r: Vec<Coordinate>)
    ensures
        r@ == v@,
{
    let mut r: Vec<Coordinate> = Vec::new();
    let mut i: usize = 0;
    while i < v.len()
        invariant
            0 <= i <= v@.len(),
            r@ == v@.subrange(0, i as int),
        decreases v@.len() - i,
    {
        r.push(v[i]);
        proof {
            assert(v@.subrange(0, i + 1) =~= v@.subrange(0, i as int).push(v@[i as int]));
        }
        i = i + 1;
    }
    r
}

fn copy_lines(v: &Vec<Vec<Coordinate>>) -> (r: Vec<Vec<Coordinate>>)
    ensures
        lines_view(r@) == lines_view(v@),
{
    let mut r: Vec<Vec<Coordinate>> = Vec::new();
    let mut i: usize = 0;
    while i < v.len()
        invariant
            0 <= i <= v@.len(),
            r@.len() == i,
            forall|j: int| 0 <= j < i ==> (#[trigger] r@[j])@ == v@[j]@,
        decreases v@.len() - i,
    {
        r.push(copy_coordinates(&v[i]));
        i = i + 1;
    }
    assert(lines_view(r@) =~= lines_view(v@));
    r
}

fn copy_polygons(v: &Vec<Vec<Vec<Coordinate>>>) -> (r: Vec<Vec<Vec<Coordinate>>>)
    ensures
        polygons_view(r@) == polygons_view(v@),
{
    let mut r: Vec<Vec<Vec<Coordinate>>> = Vec::new();
    let mut i: usize = 0;
    while i < v.len()
        invariant
            0 <= i <= v@.len(),
            r@.len() == i,
            forall|j: int| 0 <= j < i ==> lines_view((#[trigger] r@[j])@) == lines_view(v@[j]@),
        decreases v@.len() - i,
    {
        r.push(copy_lines(&v[i]));
        i = i + 1;
    }
    assert(polygons_view(r@) =~= polygons_view(v@));
    r
}

/// A copy of `g` with the same view.
#[verifier::loop_isolation(false)]
pub fn copy_geometry(g: &Geometry) -> (r: Geometry)
    ensures
        r@ == g@,
    decreases g,
{
    match g {
        Geometry::Point { coordinates } => Geometry::Point { coordinates: *coordinates },
        Geometry::MultiPoint { coordinates } => Geometry::MultiPoint {
            coordinates: copy_coordinates(coordinates),
        },
        Geometry::LineString { coordinates } => Geometry::LineString {
            coordinates: copy_coordinates(coordinates),
        },
        Geometry::MultiLineString { coordinates } => Geometry::MultiLineString {
            coordinates: copy_lines(coordinates),
        },
        Geometry::Polygon { coordinates } => Geometry::Polygon { coordinates: copy_lines(coordinates) },
        Geometry::MultiPolygon { coordinates } => Geometry::MultiPolygon {
            coordinates: copy_polygons(coordinates),
        },
        Geometry::GeometryCollection { geometries } => {
            let mut r: Vec<Geometry> = Vec::new();
            let mut i: usize = 0;
            while i < geometries.len()
                invariant
                    0 <= i <= geometries@.len(),
                    r@.len() == i,
                    forall|j: int| 0 <= j < i ==> (#[trigger] r@[j])@ == geometries@[j]@,
                decreases geometries@.len() - i,
            {
                proof {
                    broadcast use vstd::std_specs::vec::axiom_vec_index_decreases;

                    assert(decreases_to!(*g => geometries@[i as int]));
                }
                r.push(copy_geometry(&geometries[i]));
                i = i + 1;
            }
            let out = Geometry::GeometryCollection { geometries: r };
            proof {
                lemma_collection_view_len(r@, r@.len() as int);
                lemma_collection_view_len(geometries@, geometries@.len() as int);
                assert(collection_view(r@, r@.len() as int) =~= collection_view(
                    geometries@,
                    geometries@.len() as int,
                ));
            }
            out
        },
    }
}

impl Clone for Geometry {
    fn clone(&self) -> (r: Self)
        ensures
            r@ == self@,
    {
        copy_geometry(self)
    }
}

impl PartialEq for Geometry {
    fn eq(&self, other: &Self) -> (r: bool) {
        geometry_equals(self, other)
    }
}

impl vstd::std_specs::cmp::PartialEqSpecImpl for Geometry {
    open spec fn obeys_eq_spec() -> bool {
        true
    }

    open spec fn eq_spec(&self, other: &Self) -> bool {
        same_geometry(self@, other@)
    }
}

/// The footprint that a building keeps: a closed line string of four or more
/// positions becomes the outer ring of a polygon; anything else stays as it is.
pub open spec fn canonical_footprint(g: GeometryView) -> GeometryView {
    match g {
        GeometryView::LineString(c) => if c.len() >= 4 && same_coordinate(c[0], c.last()) {
            GeometryView::Polygon(seq![c])
        } else {
            g
        },
        _ => g,
    }
}

pub fn canonical_building_footprint(geometry: Geometry) -> (r: Geometry)
    ensures
        r@ == canonical_footprint(geometry@),
{
    match geometry {
        Geometry::LineString { coordinates } => {
            let n = coordinates.len();
            if n >= 4 && f64_bits_equal(coordinates[0].lon_bits, coordinates[n - 1].lon_bits)
                && f64_bits_equal(coordinates[0].lat_bits, coordinates[n - 1].lat_bits) {
                let mut rings: Vec<Vec<Coordinate>> = Vec::new();
                rings.push(coordinates);
                let r = Geometry::Polygon { coordinates: rings };
                proof {
                    assert(lines_view(rings@) =~= seq![coordinates@]);
                }
                r
            } else {
                Geometry::LineString { coordinates }
            }
        },
        other => other,
    }
}

} // verus!
