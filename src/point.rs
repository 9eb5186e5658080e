//! Fixed-point positions, integer lattice cells and the two distance metrics.

use vstd::prelude::*;

verus! {

/// Number of position steps in one lattice unit.
pub const UNIT: i64 = 65536;

/// A distance of one lattice unit, in distance steps (`UNIT * UNIT`).
pub const DIST_ONE: u64 = 4294967296;

/// Largest magnitude of a position coordinate (2^47 steps, 2^31 lattice units).
pub const MAX_COORD: i64 = 140737488355328;

/// Largest difference (exclusive) between two coordinates that a metric accepts.
pub const SPAN: i64 = 2147483648;

/// A point of the plane, in `1 / UNIT` steps.
#[derive(Clone, Copy, Debug, PartialEq, Eq, Structural)]
pub struct Point2 {
    pub x: i64,
    pub y: i64,
}

/// A point of 3-space, in `1 / UNIT` steps.
#[derive(Clone, Copy, Debug, PartialEq, Eq, Structural)]
pub struct Point3 {
    pub x: i64,
    pub y: i64,
    pub z: i64,
}

/// A point of 4-space, in `1 / UNIT` steps.
#[derive(Clone, Copy, Debug, PartialEq, Eq, Structural)]
pub struct Point4 {
    pub x: i64,
    pub y: i64,
    pub z: i64,
    pub w: i64,
}

/// An integer lattice cell of the plane.
#[derive(Clone, Copy, Debug, PartialEq, Eq, Structural)]
pub struct Cell2 {
    pub x: i64,
    pub y: i64,
}

/// An integer lattice cell of 3-space.
#[derive(Clone, Copy, Debug, PartialEq, Eq, Structural)]
pub struct Cell3 {
    pub x: i64,
    pub y: i64,
    pub z: i64,
}

/// An integer lattice cell of 4-space.
#[derive(Clone, Copy, Debug, PartialEq, Eq, Structural)]
pub struct Cell4 {
    pub x: i64,
    pub y: i64,
    pub z: i64,
    pub w: i64,
}

/// The distance used to rank feature points.
#[derive(Clone, Copy, Debug, PartialEq, Eq, Structural)]
pub enum Metric {
    /// Sum of squared coordinate differences.
    SqrEuclidean,
    /// Sum of absolute coordinate differences.
    Manhattan,
}

/// A coordinate inside the supported range.
pub open spec fn coord_ok(x: i64) -> bool {
    -MAX_COORD <= x <= MAX_COORD
}

pub open spec fn point2_ok(p: Point2) -> bool {
    coord_ok(p.x) && coord_ok(p.y)
}

pub open spec fn point3_ok(p: Point3) -> bool {
    coord_ok(p.x) && coord_ok(p.y) && coord_ok(p.z)
}

pub open spec fn point4_ok(p: Point4) -> bool {
    coord_ok(p.x) && coord_ok(p.y) && coord_ok(p.z) && coord_ok(p.w)
}

/// Two coordinates close enough for a metric to fit in a `u64`.
pub open spec fn close(a: i64, b: i64) -> bool {
    -SPAN < a - b < SPAN
}

pub open spec fn abs(a: int) -> int {
    if a < 0 {
        -a
    } else {
        a
    }
}

/// The lattice coordinate whose unit interval holds `x` (the floor of `x / UNIT`).
pub open spec fn floor_unit(x: int) -> int {
    x / (UNIT as int)
}

/// Distance of a coordinate difference `d` under `m`, in distance steps:
/// `d * d` for the squared Euclidean metric, `|d| * UNIT` for Manhattan.
pub open spec fn axis_dist(m: Metric, d: int) -> int {
    match m {
        Metric::SqrEuclidean => d * d,
        Metric::Manhattan => abs(d) * UNIT,
    }
}

pub open spec fn dist2(m: Metric, a: Point2, b: Point2) -> int {
    axis_dist(m, a.x - b.x) + axis_dist(m, a.y - b.y)
}

pub open spec fn dist3(m: Metric, a: Point3, b: Point3) -> int {
    axis_dist(m, a.x - b.x) + axis_dist(m, a.y - b.y) + axis_dist(m, a.z - b.z)
}

pub open spec fn dist4(m: Metric, a: Point4, b: Point4) -> int {
    axis_dist(m, a.x - b.x) + axis_dist(m, a.y - b.y) + axis_dist(m, a.z - b.z) + axis_dist(
        m,
        a.w - b.w,
    )
}

pub open spec fn close2(a: Point2, b: Point2) -> bool {
    close(a.x, b.x) && close(a.y, b.y)
}

pub open spec fn close3(a: Point3, b: Point3) -> bool {
    close(a.x, b.x) && close(a.y, b.y) && close(a.z, b.z)
}

pub open spec fn close4(a: Point4, b: Point4) -> bool {
    close(a.x, b.x) && close(a.y, b.y) && close(a.z, b.z) && close(a.w, b.w)
}

/// Every metric distance is non-negative, and zero for equal coordinates.
pub proof fn lemma_axis_dist_bounds(m: Metric, d: int)
    requires
        -SPAN < d < SPAN,
    ensures
        0 <= axis_dist(m, d) < 0x4000_0000_0000_0000,
        d == 0 ==> axis_dist(m, d) == 0,
        axis_dist(m, d) == axis_dist(m, -d),
{
    match m {
        Metric::SqrEuclidean => {
            assert(0 <= d * d < 0x4000_0000_0000_0000) by (nonlinear_arith)
                requires
                    -0x8000_0000 < d < 0x8000_0000,
            ;
            assert(d * d == (-d) * (-d)) by (nonlinear_arith);
        },
        Metric::Manhattan => {
            assert(0 <= abs(d) * 65536 < 0x4000_0000_0000_0000) by (nonlinear_arith)
                requires
                    0 <= abs(d) < 0x8000_0000,
            ;
        },
    }
}

/// Distance of one coordinate difference, computed.
fn axis_distance(m: Metric, a: i64, b: i64) -> (r: u64)
    requires
        close(a, b),
    ensures
        r == axis_dist(m, a - b),
        r < 0x4000_0000_0000_0000,
{
    proof {
        lemma_axis_dist_bounds(m, a - b);
    }
    let d: i64 = a - b;
    match m {
        Metric::SqrEuclidean => (d * d) as u64,
        Metric::Manhattan => {
            if d < 0 {
                (-d * UNIT) as u64
            } else {
                (d * UNIT) as u64
            }
        },
    }
}

/// The lattice coordinate of `x` bounds it from below within one unit.
pub proof fn lemma_floor_unit(x: i64)
    requires
        coord_ok(x),
    ensures
        floor_unit(x as int) * UNIT <= x < floor_unit(x as int) * UNIT + UNIT,
        -2147483648 <= floor_unit(x as int) <= 2147483648,
{
    vstd::arithmetic::div_mod::lemma_fundamental_div_mod(x as int, UNIT as int);
    vstd::arithmetic::div_mod::lemma_mod_bound(x as int, UNIT as int);
    vstd::arithmetic::div_mod::lemma_div_is_ordered(-MAX_COORD as int, x as int, 65536);
    vstd::arithmetic::div_mod::lemma_div_is_ordered(x as int, MAX_COORD as int, 65536);
}

/// The lattice cell coordinate whose unit interval holds the coordinate `x`.
pub fn lattice_cell(x: i64) -> (c: i64)
    requires
        coord_ok(x),
    ensures
        c == floor_unit(x as int),
        c * UNIT <= x < c * UNIT + UNIT,
        -2147483648 <= c <= 2147483648,
{
    let q = x.checked_div_euclid(UNIT);
    proof {
        lemma_floor_unit(x);
    }
    match q {
        Some(c) => c,
        None => 0,
    }
}

/// Squared Euclidean distance between two points of the plane.
pub fn range_sqr_euclidian2(p1: Point2, p2: Point2) -> (r: u64)
    requires
        close2(p1, p2),
    ensures
        r == dist2(Metric::SqrEuclidean, p1, p2),
{
    distance2(Metric::SqrEuclidean, p1, p2)
}

/// Squared Euclidean distance between two points of 3-space.
pub fn range_sqr_euclidian3(p1: Point3, p2: Point3) -> (r: u64)
    requires
        close3(p1, p2),
    ensures
        r == dist3(Metric::SqrEuclidean, p1, p2),
{
    distance3(Metric::SqrEuclidean, p1, p2)
}

/// Squared Euclidean distance between two points of 4-space.
pub fn range_sqr_euclidian4(p1: Point4, p2: Point4) -> (r: u64)
    requires
        close4(p1, p2),
    ensures
        r == dist4(Metric::SqrEuclidean, p1, p2),
{
    distance4(Metric::SqrEuclidean, p1, p2)
}

/// Manhattan distance between two points of the plane, in distance steps.
pub fn range_manhattan2(p1: Point2, p2: Point2) -> (r: u64)
    requires
        close2(p1, p2),
    ensures
        r == dist2(Metric::Manhattan, p1, p2),
{
    distance2(Metric::Manhattan, p1, p2)
}

/// Manhattan distance between two points of 3-space, in distance steps.
pub fn range_manhattan3(p1: Point3, p2: Point3) -> (r: u64)
    requires
        close3(p1, p2),
    ensures
        r == dist3(Metric::Manhattan, p1, p2),
{
    distance3(Metric::Manhattan, p1, p2)
}

/// Manhattan distance between two points of 4-space, in distance steps.
pub fn range_manhattan4(p1: Point4, p2: Point4) -> (r: u64)
    requires
        close4(p1, p2),
    ensures
        r == dist4(Metric::Manhattan, p1, p2),
{
    distance4(Metric::Manhattan, p1, p2)
}

/// Distance between two points of the plane under `m`.
pub fn distance2(m: Metric, p1: Point2, p2: Point2) -> (r: u64)
    requires
        close2(p1, p2),
    ensures
        r == dist2(m, p1, p2),
{
    axis_distance(m, p1.x, p2.x) + axis_distance(m, p1.y, p2.y)
}

/// Distance between two points of 3-space under `m`.
pub fn distance3(m: Metric, p1: Point3, p2: Point3) -> (r: u64)
    requires
        close3(p1, p2),
    ensures
        r == dist3(m, p1, p2),
{
    axis_distance(m, p1.x, p2.x) + axis_distance(m, p1.y, p2.y) + axis_distance(m, p1.z, p2.z)
}

/// Distance between two points of 4-space under `m`.
pub fn distance4(m: Metric, p1: Point4, p2: Point4) -> (r: u64)
    requires
        close4(p1, p2),
    ensures
        r == dist4(m, p1, p2),
{
    let a = axis_distance(m, p1.x, p2.x);
    let b = axis_distance(m, p1.y, p2.y);
    let c = axis_distance(m, p1.z, p2.z);
    let d = axis_distance(m, p1.w, p2.w);
    proof {
        assert(a + b + c + d <= u64::MAX) by (nonlinear_arith)
            requires
                a < 0x4000_0000_0000_0000,
                b < 0x4000_0000_0000_0000,
                c < 0x4000_0000_0000_0000,
                d < 0x4000_0000_0000_0000,
        ;
    }
    a + b + c + d
}

} // verus!
