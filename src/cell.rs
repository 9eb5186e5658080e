//! Neighbour searches and the cellular noise functions built on them.

use vstd::prelude::*;
use crate::point::{
    Cell2, Cell3, Cell4, Metric, Point2, Point3, Point4, DIST_ONE, UNIT, axis_dist, dist2, dist3,
    dist4, distance2, distance3, distance4, floor_unit, lattice_cell, lemma_axis_dist_bounds,
    lemma_floor_unit, point2_ok, point3_ok, point4_ok,
};
use crate::gradient::{
    corner_point2, corner_point3, corner_point4, gradient_point2, gradient_point3, gradient_point4,
    grad2, lemma_grad_bounds,
};
use crate::jitter::{
    cell_ok, cell_point2, cell_point3, cell_point4, get_cell_point2, get_cell_point3,
    get_cell_point4, high_nibble, lemma_jitter_bounds, low_nibble, shifted3, shifted4,
};
use crate::search::{
    as_ints, first_min_index, is_first_min, lemma_first_min_unique, lemma_runner_up_unique,
    nearest_index,
    runner_up_index, two_nearest_indices,
};
use crate::seed::SeedHash;

verus! {

// ---------------------------------------------------------------------------
// Jittered neighbourhoods: the 3^n cells around the point's own cell.
// ---------------------------------------------------------------------------

/// The cell holding `p`.
pub open spec fn home_cell2(p: Point2) -> Cell2 {
    Cell2 { x: floor_unit(p.x as int) as i64, y: floor_unit(p.y as int) as i64 }
}

/// Neighbour `k` (0..9) of `c`: offsets -1..=1 per axis, x varying slowest.
pub open spec fn neighbor2(c: Cell2, k: int) -> Cell2 {
    Cell2 { x: (c.x + k / 3 - 1) as i64, y: (c.y + k % 3 - 1) as i64 }
}

/// Distances from `p` to the feature points of the nine cells around it.
pub open spec fn jitter_dists2<H: SeedHash>(seed: &H, p: Point2, m: Metric) -> Seq<int> {
    Seq::new(9, |k: int| dist2(m, p, cell_point2(seed, neighbor2(home_cell2(p), k))))
}

/// Nearest and second-nearest jittered feature points of `p`, with their distances.
pub open spec fn two_nearest2<H: SeedHash>(seed: &H, p: Point2, m: Metric) -> (
    Point2,
    int,
    Point2,
    int,
) {
    let s = jitter_dists2(seed, p, m);
    let c = home_cell2(p);
    (
        cell_point2(seed, neighbor2(c, first_min_index(s))),
        s[first_min_index(s)],
        cell_point2(seed, neighbor2(c, runner_up_index(s))),
        s[runner_up_index(s)],
    )
}

/// The cell whose jittered feature point is nearest to `p`.
pub open spec fn owning_cell2<H: SeedHash>(seed: &H, p: Point2, m: Metric) -> Cell2 {
    neighbor2(home_cell2(p), first_min_index(jitter_dists2(seed, p, m)))
}

/// A hashed byte as a value in `[0, 1]`: `h / 255` of `DIST_ONE`, rounded down.
pub open spec fn byte_value(h: u8) -> int {
    h as int * DIST_ONE as int / 255
}

fn home_of2(p: Point2) -> (c: Cell2)
    requires
        point2_ok(p),
    ensures
        c == home_cell2(p),
        -2147483648 <= c.x <= 2147483648,
        -2147483648 <= c.y <= 2147483648,
        c.x * UNIT <= p.x < c.x * UNIT + UNIT,
        c.y * UNIT <= p.y < c.y * UNIT + UNIT,
{
    Cell2 { x: lattice_cell(p.x), y: lattice_cell(p.y) }
}

/// A jittered feature point lies in the closed unit square of its cell, and
/// off the upper edge along each axis whose nibble is below 15.
pub proof fn lemma_jitter_point2_in_cell<H: SeedHash>(seed: &H, c: Cell2)
    requires
        cell_ok(c.x) && cell_ok(c.y),
    ensures
        c.x * UNIT <= cell_point2(seed, c).x <= c.x * UNIT + UNIT,
        c.y * UNIT <= cell_point2(seed, c).y <= c.y * UNIT + UNIT,
        low_nibble(seed.hash2(c)) < 15 ==> cell_point2(seed, c).x < c.x * UNIT + UNIT,
        high_nibble(seed.hash2(c)) < 15 ==> cell_point2(seed, c).y < c.y * UNIT + UNIT,
{
    let h = seed.hash2(c);
    lemma_jitter_bounds(low_nibble(h));
    lemma_jitter_bounds(high_nibble(h));
}

/// Distances from `p` to the nine jittered feature points around it.
fn jitter_candidates2<H: SeedHash>(seed: &H, p: Point2, m: Metric) -> (r: Vec<u64>)
    requires
        point2_ok(p),
    ensures
        as_ints(r@) == jitter_dists2(seed, p, m),
        r.len() == 9,
{
    let c = home_of2(p);
    let ghost s = jitter_dists2(seed, p, m);
    let mut r: Vec<u64> = Vec::new();
    let mut k: usize = 0;
    while k < 9
        invariant
            k <= 9,
            r.len() == k,
            c == home_cell2(p),
            -2147483648 <= c.x <= 2147483648,
            -2147483648 <= c.y <= 2147483648,
            c.x * UNIT <= p.x < c.x * UNIT + UNIT,
            c.y * UNIT <= p.y < c.y * UNIT + UNIT,
            s == jitter_dists2(seed, p, m),
            forall|j: int| 0 <= j < k ==> r@[j] as int == s[j],
        decreases 9 - k,
    {
        let n = Cell2 { x: c.x + (k / 3) as i64 - 1, y: c.y + (k % 3) as i64 - 1 };
        assert(n == neighbor2(c, k as int));
        proof {
            lemma_jitter_point2_in_cell(seed, n);
        }
        let f = get_cell_point2(seed, n);
        r.push(distance2(m, p, f));
        k = k + 1;
    }
    assert(as_ints(r@) =~= s);
    r
}

/// The nearest and second-nearest jittered feature points of `point` under
/// `metric`, with their distances, nearest first; ties go to the cell met
/// first (x slowest, offsets -1, 0, 1).
pub fn cell2_seed_2_points<H: SeedHash>(seed: &H, point: &Point2, metric: Metric) -> (r: (
    Point2,
    u64,
    Point2,
    u64,
))
    requires
        point2_ok(*point),
    ensures
        (r.0, r.1 as int, r.2, r.3 as int) == two_nearest2(seed, *point, metric),
        r.1 <= r.3,
{
    let p = *point;
    let d = jitter_candidates2(seed, p, metric);
    let (i, k) = two_nearest_indices(&d);
    proof {
        lemma_runner_up_unique(as_ints(d@), i as int, k as int);
        assert(as_ints(d@)[i as int] <= as_ints(d@)[k as int]);
    }
    let c = home_of2(p);
    let n1 = Cell2 { x: c.x + (i / 3) as i64 - 1, y: c.y + (i % 3) as i64 - 1 };
    let n2 = Cell2 { x: c.x + (k / 3) as i64 - 1, y: c.y + (k % 3) as i64 - 1 };
    assert(n1 == neighbor2(c, i as int));
    assert(n2 == neighbor2(c, k as int));
    (get_cell_point2(seed, n1), d[i], get_cell_point2(seed, n2), d[k])
}

/// The cell whose jittered feature point is nearest to `point` under
/// `metric`; ties go to the cell met first.
pub fn cell2_seed_cell<H: SeedHash>(seed: &H, point: &Point2, metric: Metric) -> (r: Cell2)
    requires
        point2_ok(*point),
    ensures
        r == owning_cell2(seed, *point, metric),
{
    let p = *point;
    let d = jitter_candidates2(seed, p, metric);
    let i = nearest_index(&d);
    proof {
        lemma_first_min_unique(as_ints(d@), i as int);
    }
    let c = home_of2(p);
    let n = Cell2 { x: c.x + (i / 3) as i64 - 1, y: c.y + (i % 3) as i64 - 1 };
    assert(n == neighbor2(c, i as int));
    n
}

/// `h / 255` in distance steps.
fn byte_to_value(h: u8) -> (r: u64)
    ensures
        r == byte_value(h),
        r <= DIST_ONE,
{
    proof {
        assert(0 <= h as int * 4294967296 <= 255 * 4294967296) by (nonlinear_arith)
            requires
                0 <= h <= 255,
        ;
        vstd::arithmetic::div_mod::lemma_div_is_ordered(h as int * 4294967296, 1095216660480, 255);
        vstd::arithmetic::div_mod::lemma_div_pos_is_pos(h as int * 4294967296, 255);
    }
    (h as u64) * DIST_ONE / 255
}

/// Second-nearest minus nearest squared Euclidean distance: high along the
/// edges between cells.
pub fn cell2_range_inv<H: SeedHash>(seed: &H, point: &Point2) -> (r: u64)
    requires
        point2_ok(*point),
    ensures
        r == two_nearest2(seed, *point, Metric::SqrEuclidean).3 - two_nearest2(
            seed,
            *point,
            Metric::SqrEuclidean,
        ).1,
{
    let (_, r1, _, r2) = cell2_seed_2_points(seed, point, Metric::SqrEuclidean);
    r2 - r1
}

/// Second-nearest minus nearest Manhattan distance.
pub fn cell2_manhattan_inv<H: SeedHash>(seed: &H, point: &Point2) -> (r: u64)
    requires
        point2_ok(*point),
    ensures
        r == two_nearest2(seed, *point, Metric::Manhattan).3 - two_nearest2(
            seed,
            *point,
            Metric::Manhattan,
        ).1,
{
    let (_, r1, _, r2) = cell2_seed_2_points(seed, point, Metric::Manhattan);
    r2 - r1
}

/// The hash of the cell that owns `point` under the squared Euclidean
/// metric, as a value in `[0, 1]`.
pub fn cell2_value<H: SeedHash>(seed: &H, point: &Point2) -> (r: u64)
    requires
        point2_ok(*point),
    ensures
        r == byte_value(seed.hash2(owning_cell2(seed, *point, Metric::SqrEuclidean))),
        r <= DIST_ONE,
{
    let c = cell2_seed_cell(seed, point, Metric::SqrEuclidean);
    byte_to_value(seed.get2(c))
}

/// The hash of the cell that owns `point` under the Manhattan metric, as a
/// value in `[0, 1]`.
pub fn cell2_manhattan_value<H: SeedHash>(seed: &H, point: &Point2) -> (r: u64)
    requires
        point2_ok(*point),
    ensures
        r == byte_value(seed.hash2(owning_cell2(seed, *point, Metric::Manhattan))),
        r <= DIST_ONE,
{
    let c = cell2_seed_cell(seed, point, Metric::Manhattan);
    byte_to_value(seed.get2(c))
}


/// The cell holding `p`.
pub open spec fn home_cell3(p: Point3) -> Cell3 {
    Cell3 {
        x: floor_unit(p.x as int) as i64,
        y: floor_unit(p.y as int) as i64,
        z: floor_unit(p.z as int) as i64,
    }
}

/// Neighbour `k` (0..27) of `c`: offsets -1..=1 per axis, x varying slowest.
pub open spec fn neighbor3(c: Cell3, k: int) -> Cell3 {
    Cell3 {
        x: (c.x + k / 9 - 1) as i64,
        y: (c.y + (k / 3) % 3 - 1) as i64,
        z: (c.z + k % 3 - 1) as i64,
    }
}

/// Distances from `p` to the feature points of the 27 cells around it.
pub open spec fn jitter_dists3<H: SeedHash>(seed: &H, p: Point3, m: Metric) -> Seq<int> {
    Seq::new(27, |k: int| dist3(m, p, cell_point3(seed, neighbor3(home_cell3(p), k))))
}

/// Nearest and second-nearest jittered feature points of `p`, with their distances.
pub open spec fn two_nearest3<H: SeedHash>(seed: &H, p: Point3, m: Metric) -> (
    Point3,
    int,
    Point3,
    int,
) {
    let s = jitter_dists3(seed, p, m);
    let c = home_cell3(p);
    (
        cell_point3(seed, neighbor3(c, first_min_index(s))),
        s[first_min_index(s)],
        cell_point3(seed, neighbor3(c, runner_up_index(s))),
        s[runner_up_index(s)],
    )
}

/// The cell whose jittered feature point is nearest to `p`.
pub open spec fn owning_cell3<H: SeedHash>(seed: &H, p: Point3, m: Metric) -> Cell3 {
    neighbor3(home_cell3(p), first_min_index(jitter_dists3(seed, p, m)))
}

fn home_of3(p: Point3) -> (c: Cell3)
    requires
        point3_ok(p),
    ensures
        c == home_cell3(p),
        -2147483648 <= c.x <= 2147483648,
        c.x * UNIT <= p.x < c.x * UNIT + UNIT,
        -2147483648 <= c.y <= 2147483648,
        c.y * UNIT <= p.y < c.y * UNIT + UNIT,
        -2147483648 <= c.z <= 2147483648,
        c.z * UNIT <= p.z < c.z * UNIT + UNIT,
{
    Cell3 { x: lattice_cell(p.x), y: lattice_cell(p.y), z: lattice_cell(p.z) }
}

/// A jittered feature point lies in the closed unit cube of its cell, and
/// off the upper face along each axis whose nibble is below 15.
pub proof fn lemma_jitter_point3_in_cell<H: SeedHash>(seed: &H, c: Cell3)
    requires
        cell_ok(c.x) && cell_ok(c.y) && cell_ok(c.z),
    ensures
        c.x * UNIT <= cell_point3(seed, c).x <= c.x * UNIT + UNIT,
        c.y * UNIT <= cell_point3(seed, c).y <= c.y * UNIT + UNIT,
        c.z * UNIT <= cell_point3(seed, c).z <= c.z * UNIT + UNIT,
        low_nibble(seed.hash3(c)) < 15 ==> cell_point3(seed, c).x < c.x * UNIT + UNIT,
        high_nibble(seed.hash3(c)) < 15 ==> cell_point3(seed, c).y < c.y * UNIT + UNIT,
        low_nibble(seed.hash3(shifted3(c))) < 15 ==> cell_point3(seed, c).z < c.z * UNIT + UNIT,
{
    let h1 = seed.hash3(c);
    let h2 = seed.hash3(shifted3(c));
    lemma_jitter_bounds(low_nibble(h1));
    lemma_jitter_bounds(high_nibble(h1));
    lemma_jitter_bounds(low_nibble(h2));
    lemma_jitter_bounds(high_nibble(h2));
}

/// Distances from `p` to the 27 jittered feature points around it.
fn jitter_candidates3<H: SeedHash>(seed: &H, p: Point3, m: Metric) -> (r: Vec<u64>)
    requires
        point3_ok(p),
    ensures
        as_ints(r@) == jitter_dists3(seed, p, m),
        r.len() == 27,
{
    let c = home_of3(p);
    let ghost s = jitter_dists3(seed, p, m);
    let mut r: Vec<u64> = Vec::new();
    let mut k: usize = 0;
    while k < 27
        invariant
            k <= 27,
            r.len() == k,
            c == home_cell3(p),
            -2147483648 <= c.x <= 2147483648,
            c.x * UNIT <= p.x < c.x * UNIT + UNIT,
            -2147483648 <= c.y <= 2147483648,
            c.y * UNIT <= p.y < c.y * UNIT + UNIT,
            -2147483648 <= c.z <= 2147483648,
            c.z * UNIT <= p.z < c.z * UNIT + UNIT,
            s == jitter_dists3(seed, p, m),
            forall|j: int| 0 <= j < k ==> r@[j] as int == s[j],
        decreases 27 - k,
    {
        let n = Cell3 {
            x: c.x + (k / 9) as i64 - 1,
            y: c.y + ((k / 3) % 3) as i64 - 1,
            z: c.z + (k % 3) as i64 - 1,
        };
        assert(n == neighbor3(c, k as int));
        proof {
            lemma_jitter_point3_in_cell(seed, n);
        }
        let f = get_cell_point3(seed, n);
        r.push(distance3(m, p, f));
        k = k + 1;
    }
    assert(as_ints(r@) =~= s);
    r
}

/// The nearest and second-nearest jittered feature points of `point` under
/// `metric`, with their distances, nearest first; ties go to the cell met
/// first (x slowest, offsets -1, 0, 1).
pub fn cell3_seed_2_points<H: SeedHash>(seed: &H, point: &Point3, metric: Metric) -> (r: (
    Point3,
    u64,
    Point3,
    u64,
))
    requires
        point3_ok(*point),
    ensures
        (r.0, r.1 as int, r.2, r.3 as int) == two_nearest3(seed, *point, metric),
        r.1 <= r.3,
{
    let p = *point;
    let d = jitter_candidates3(seed, p, metric);
    let (i, k) = two_nearest_indices(&d);
    proof {
        lemma_runner_up_unique(as_ints(d@), i as int, k as int);
        assert(as_ints(d@)[i as int] <= as_ints(d@)[k as int]);
    }
    let c = home_of3(p);
    let n1 = Cell3 {
        x: c.x + (i / 9) as i64 - 1,
        y: c.y + ((i / 3) % 3) as i64 - 1,
        z: c.z + (i % 3) as i64 - 1,
    };
    let n2 = Cell3 {
        x: c.x + (k / 9) as i64 - 1,
        y: c.y + ((k / 3) % 3) as i64 - 1,
        z: c.z + (k % 3) as i64 - 1,
    };
    assert(n1 == neighbor3(c, i as int));
    assert(n2 == neighbor3(c, k as int));
    (get_cell_point3(seed, n1), d[i], get_cell_point3(seed, n2), d[k])
}

/// The cell whose jittered feature point is nearest to `point` under
/// `metric`; ties go to the cell met first.
pub fn cell3_seed_cell<H: SeedHash>(seed: &H, point: &Point3, metric: Metric) -> (r: Cell3)
    requires
        point3_ok(*point),
    ensures
        r == owning_cell3(seed, *point, metric),
{
    let p = *point;
    let d = jitter_candidates3(seed, p, metric);
    let i = nearest_index(&d);
    proof {
        lemma_first_min_unique(as_ints(d@), i as int);
    }
    let c = home_of3(p);
    let n = Cell3 {
        x: c.x + (i / 9) as i64 - 1,
        y: c.y + ((i / 3) % 3) as i64 - 1,
        z: c.z + (i % 3) as i64 - 1,
    };
    assert(n == neighbor3(c, i as int));
    n
}

/// Second-nearest minus nearest squared Euclidean distance.
pub fn cell3_range_inv<H: SeedHash>(seed: &H, point: &Point3) -> (r: u64)
    requires
        point3_ok(*point),
    ensures
        r == two_nearest3(seed, *point, Metric::SqrEuclidean).3 - two_nearest3(
            seed,
            *point,
            Metric::SqrEuclidean,
        ).1,
{
    let (_, r1, _, r2) = cell3_seed_2_points(seed, point, Metric::SqrEuclidean);
    r2 - r1
}

/// Second-nearest minus nearest Manhattan distance.
pub fn cell3_manhattan_inv<H: SeedHash>(seed: &H, point: &Point3) -> (r: u64)
    requires
        point3_ok(*point),
    ensures
        r == two_nearest3(seed, *point, Metric::Manhattan).3 - two_nearest3(
            seed,
            *point,
            Metric::Manhattan,
        ).1,
{
    let (_, r1, _, r2) = cell3_seed_2_points(seed, point, Metric::Manhattan);
    r2 - r1
}

/// The hash of the cell that owns `point` under the squared Euclidean
/// metric, as a value in `[0, 1]`.
pub fn cell3_value<H: SeedHash>(seed: &H, point: &Point3) -> (r: u64)
    requires
        point3_ok(*point),
    ensures
        r == byte_value(seed.hash3(owning_cell3(seed, *point, Metric::SqrEuclidean))),
        r <= DIST_ONE,
{
    let c = cell3_seed_cell(seed, point, Metric::SqrEuclidean);
    byte_to_value(seed.get3(c))
}

/// The hash of the cell that owns `point` under the Manhattan metric, as a
/// value in `[0, 1]`.
pub fn cell3_manhattan_value<H: SeedHash>(seed: &H, point: &Point3) -> (r: u64)
    requires
        point3_ok(*point),
    ensures
        r == byte_value(seed.hash3(owning_cell3(seed, *point, Metric::Manhattan))),
        r <= DIST_ONE,
{
    let c = cell3_seed_cell(seed, point, Metric::Manhattan);
    byte_to_value(seed.get3(c))
}

/// The cell holding `p`.
pub open spec fn home_cell4(p: Point4) -> Cell4 {
    Cell4 {
        x: floor_unit(p.x as int) as i64,
        y: floor_unit(p.y as int) as i64,
        z: floor_unit(p.z as int) as i64,
        w: floor_unit(p.w as int) as i64,
    }
}

/// Neighbour `k` (0..81) of `c`: offsets -1..=1 per axis, x varying slowest.
pub open spec fn neighbor4(c: Cell4, k: int) -> Cell4 {
    Cell4 {
        x: (c.x + k / 27 - 1) as i64,
        y: (c.y + (k / 9) % 3 - 1) as i64,
        z: (c.z + (k / 3) % 3 - 1) as i64,
        w: (c.w + k % 3 - 1) as i64,
    }
}

/// Distances from `p` to the feature points of the 81 cells around it.
pub open spec fn jitter_dists4<H: SeedHash>(seed: &H, p: Point4, m: Metric) -> Seq<int> {
    Seq::new(81, |k: int| dist4(m, p, cell_point4(seed, neighbor4(home_cell4(p), k))))
}

/// Nearest and second-nearest jittered feature points of `p`, with their distances.
pub open spec fn two_nearest4<H: SeedHash>(seed: &H, p: Point4, m: Metric) -> (
    Point4,
    int,
    Point4,
    int,
) {
    let s = jitter_dists4(seed, p, m);
    let c = home_cell4(p);
    (
        cell_point4(seed, neighbor4(c, first_min_index(s))),
        s[first_min_index(s)],
        cell_point4(seed, neighbor4(c, runner_up_index(s))),
        s[runner_up_index(s)],
    )
}

/// The cell whose jittered feature point is nearest to `p`.
pub open spec fn owning_cell4<H: SeedHash>(seed: &H, p: Point4, m: Metric) -> Cell4 {
    neighbor4(home_cell4(p), first_min_index(jitter_dists4(seed, p, m)))
}

fn home_of4(p: Point4) -> (c: Cell4)
    requires
        point4_ok(p),
    ensures
        c == home_cell4(p),
        -2147483648 <= c.x <= 2147483648,
        c.x * UNIT <= p.x < c.x * UNIT + UNIT,
        -2147483648 <= c.y <= 2147483648,
        c.y * UNIT <= p.y < c.y * UNIT + UNIT,
        -2147483648 <= c.z <= 2147483648,
        c.z * UNIT <= p.z < c.z * UNIT + UNIT,
        -2147483648 <= c.w <= 2147483648,
        c.w * UNIT <= p.w < c.w * UNIT + UNIT,
{
    Cell4 { x: lattice_cell(p.x), y: lattice_cell(p.y), z: lattice_cell(p.z), w: lattice_cell(p.w) }
}

/// A jittered feature point lies in the closed unit cube of its cell, and
/// off the upper face along each axis whose nibble is below 15.
pub proof fn lemma_jitter_point4_in_cell<H: SeedHash>(seed: &H, c: Cell4)
    requires
        cell_ok(c.x) && cell_ok(c.y) && cell_ok(c.z) && cell_ok(c.w),
    ensures
        c.x * UNIT <= cell_point4(seed, c).x <= c.x * UNIT + UNIT,
        c.y * UNIT <= cell_point4(seed, c).y <= c.y * UNIT + UNIT,
        c.z * UNIT <= cell_point4(seed, c).z <= c.z * UNIT + UNIT,
        c.w * UNIT <= cell_point4(seed, c).w <= c.w * UNIT + UNIT,
        low_nibble(seed.hash4(c)) < 15 ==> cell_point4(seed, c).x < c.x * UNIT + UNIT,
        high_nibble(seed.hash4(c)) < 15 ==> cell_point4(seed, c).y < c.y * UNIT + UNIT,
        low_nibble(seed.hash4(shifted4(c))) < 15 ==> cell_point4(seed, c).z < c.z * UNIT + UNIT,
        high_nibble(seed.hash4(shifted4(c))) < 15 ==> cell_point4(seed, c).w < c.w * UNIT + UNIT,
{
    let h1 = seed.hash4(c);
    let h2 = seed.hash4(shifted4(c));
    lemma_jitter_bounds(low_nibble(h1));
    lemma_jitter_bounds(high_nibble(h1));
    lemma_jitter_bounds(low_nibble(h2));
    lemma_jitter_bounds(high_nibble(h2));
}

/// Distances from `p` to the 81 jittered feature points around it.
fn jitter_candidates4<H: SeedHash>(seed: &H, p: Point4, m: Metric) -> (r: Vec<u64>)
    requires
        point4_ok(p),
    ensures
        as_ints(r@) == jitter_dists4(seed, p, m),
        r.len() == 81,
{
    let c = home_of4(p);
    let ghost s = jitter_dists4(seed, p, m);
    let mut r: Vec<u64> = Vec::new();
    let mut k: usize = 0;
    while k < 81
        invariant
            k <= 81,
            r.len() == k,
            c == home_cell4(p),
            -2147483648 <= c.x <= 2147483648,
            c.x * UNIT <= p.x < c.x * UNIT + UNIT,
            -2147483648 <= c.y <= 2147483648,
            c.y * UNIT <= p.y < c.y * UNIT + UNIT,
            -2147483648 <= c.z <= 2147483648,
            c.z * UNIT <= p.z < c.z * UNIT + UNIT,
            -2147483648 <= c.w <= 2147483648,
            c.w * UNIT <= p.w < c.w * UNIT + UNIT,
            s == jitter_dists4(seed, p, m),
            forall|j: int| 0 <= j < k ==> r@[j] as int == s[j],
        decreases 81 - k,
    {
        let n = Cell4 {
            x: c.x + (k / 27) as i64 - 1,
            y: c.y + ((k / 9) % 3) as i64 - 1,
            z: c.z + ((k / 3) % 3) as i64 - 1,
            w: c.w + (k % 3) as i64 - 1,
        };
        assert(n == neighbor4(c, k as int));
        proof {
            lemma_jitter_point4_in_cell(seed, n);
        }
        let f = get_cell_point4(seed, n);
        r.push(distance4(m, p, f));
        k = k + 1;
    }
    assert(as_ints(r@) =~= s);
    r
}

/// The nearest and second-nearest jittered feature points of `point` under
/// `metric`, with their distances, nearest first; ties go to the cell met
/// first (x slowest, offsets -1, 0, 1).
pub fn cell4_seed_2_points<H: SeedHash>(seed: &H, point: &Point4, metric: Metric) -> (r: (
    Point4,
    u64,
    Point4,
    u64,
))
    requires
        point4_ok(*point),
    ensures
        (r.0, r.1 as int, r.2, r.3 as int) == two_nearest4(seed, *point, metric),
        r.1 <= r.3,
{
    let p = *point;
    let d = jitter_candidates4(seed, p, metric);
    let (i, k) = two_nearest_indices(&d);
    proof {
        lemma_runner_up_unique(as_ints(d@), i as int, k as int);
        assert(as_ints(d@)[i as int] <= as_ints(d@)[k as int]);
    }
    let c = home_of4(p);
    let n1 = Cell4 {
        x: c.x + (i / 27) as i64 - 1,
        y: c.y + ((i / 9) % 3) as i64 - 1,
        z: c.z + ((i / 3) % 3) as i64 - 1,
        w: c.w + (i % 3) as i64 - 1,
    };
    let n2 = Cell4 {
        x: c.x + (k / 27) as i64 - 1,
        y: c.y + ((k / 9) % 3) as i64 - 1,
        z: c.z + ((k / 3) % 3) as i64 - 1,
        w: c.w + (k % 3) as i64 - 1,
    };
    assert(n1 == neighbor4(c, i as int));
    assert(n2 == neighbor4(c, k as int));
    (get_cell_point4(seed, n1), d[i], get_cell_point4(seed, n2), d[k])
}

/// The cell whose jittered feature point is nearest to `point` under
/// `metric`; ties go to the cell met first.
pub fn cell4_seed_cell<H: SeedHash>(seed: &H, point: &Point4, metric: Metric) -> (r: Cell4)
    requires
        point4_ok(*point),
    ensures
        r == owning_cell4(seed, *point, metric),
{
    let p = *point;
    let d = jitter_candidates4(seed, p, metric);
    let i = nearest_index(&d);
    proof {
        lemma_first_min_unique(as_ints(d@), i as int);
    }
    let c = home_of4(p);
    let n = Cell4 {
        x: c.x + (i / 27) as i64 - 1,
        y: c.y + ((i / 9) % 3) as i64 - 1,
        z: c.z + ((i / 3) % 3) as i64 - 1,
        w: c.w + (i % 3) as i64 - 1,
    };
    assert(n == neighbor4(c, i as int));
    n
}

/// Second-nearest minus nearest squared Euclidean distance.
pub fn cell4_range_inv<H: SeedHash>(seed: &H, point: &Point4) -> (r: u64)
    requires
        point4_ok(*point),
    ensures
        r == two_nearest4(seed, *point, Metric::SqrEuclidean).3 - two_nearest4(
            seed,
            *point,
            Metric::SqrEuclidean,
        ).1,
{
    let (_, r1, _, r2) = cell4_seed_2_points(seed, point, Metric::SqrEuclidean);
    r2 - r1
}

/// Second-nearest minus nearest Manhattan distance.
pub fn cell4_manhattan_inv<H: SeedHash>(seed: &H, point: &Point4) -> (r: u64)
    requires
        point4_ok(*point),
    ensures
        r == two_nearest4(seed, *point, Metric::Manhattan).3 - two_nearest4(
            seed,
            *point,
            Metric::Manhattan,
        ).1,
{
    let (_, r1, _, r2) = cell4_seed_2_points(seed, point, Metric::Manhattan);
    r2 - r1
}

/// The hash of the cell that owns `point` under the squared Euclidean
/// metric, as a value in `[0, 1]`.
pub fn cell4_value<H: SeedHash>(seed: &H, point: &Point4) -> (r: u64)
    requires
        point4_ok(*point),
    ensures
        r == byte_value(seed.hash4(owning_cell4(seed, *point, Metric::SqrEuclidean))),
        r <= DIST_ONE,
{
    let c = cell4_seed_cell(seed, point, Metric::SqrEuclidean);
    byte_to_value(seed.get4(c))
}

/// The hash of the cell that owns `point` under the Manhattan metric, as a
/// value in `[0, 1]`.
pub fn cell4_manhattan_value<H: SeedHash>(seed: &H, point: &Point4) -> (r: u64)
    requires
        point4_ok(*point),
    ensures
        r == byte_value(seed.hash4(owning_cell4(seed, *point, Metric::Manhattan))),
        r <= DIST_ONE,
{
    let c = cell4_seed_cell(seed, point, Metric::Manhattan);
    byte_to_value(seed.get4(c))
}


// ---------------------------------------------------------------------------
// Corner searches in 3- and 4-space: every corner of the point's cell.
// ---------------------------------------------------------------------------

/// Corner `k` (0..8) of cell `c`: bit `i` of `k` adds one along axis `i`,
/// x first.
pub open spec fn corner3(c: Cell3, k: int) -> Cell3 {
    Cell3 { x: (c.x + k % 2) as i64, y: (c.y + (k / 2) % 2) as i64, z: (c.z + k / 4) as i64 }
}

/// Distances from `p` to the feature points of the 8 corners of its cell.
pub open spec fn gradient_dists3<H: SeedHash>(seed: &H, p: Point3, m: Metric) -> Seq<int> {
    Seq::new(
        8,
        |k: int|
            dist3(
                m,
                p,
                corner_point3(corner3(home_cell3(p), k), seed.hash3(corner3(home_cell3(p), k))),
            ),
    )
}

/// The nearest corner feature point of `p`, and its distance.
pub open spec fn nearest_gradient3<H: SeedHash>(seed: &H, p: Point3, m: Metric) -> (Point3, int) {
    let s = gradient_dists3(seed, p, m);
    let k = corner3(home_cell3(p), first_min_index(s));
    (corner_point3(k, seed.hash3(k)), s[first_min_index(s)])
}

/// The nearest feature point among the 8 corners of `point`'s cell, and
/// its distance under `metric`; ties go to the corner met first.
pub fn cell3_seed_point<H: SeedHash>(seed: &H, point: &Point3, metric: Metric) -> (r: (Point3, u64))
    requires
        point3_ok(*point),
    ensures
        (r.0, r.1 as int) == nearest_gradient3(seed, *point, metric),
{
    let p = *point;
    let c = home_of3(p);
    let ghost s = gradient_dists3(seed, p, metric);
    let mut d: Vec<u64> = Vec::new();
    let mut k: usize = 0;
    while k < 8
        invariant
            k <= 8,
            d.len() == k,
            c == home_cell3(p),
            -2147483648 <= c.x <= 2147483648,
            c.x * UNIT <= p.x < c.x * UNIT + UNIT,
            -2147483648 <= c.y <= 2147483648,
            c.y * UNIT <= p.y < c.y * UNIT + UNIT,
            -2147483648 <= c.z <= 2147483648,
            c.z * UNIT <= p.z < c.z * UNIT + UNIT,
            s == gradient_dists3(seed, p, metric),
            forall|j: int| 0 <= j < k ==> d@[j] as int == s[j],
        decreases 8 - k,
    {
        let n = Cell3 {
            x: c.x + (k % 2) as i64,
            y: c.y + ((k / 2) % 2) as i64,
            z: c.z + (k / 4) as i64,
        };
        assert(n == corner3(c, k as int));
        proof {
            lemma_grad_bounds(seed.hash3(n));
        }
        let f = gradient_point3(seed, n);
        d.push(distance3(metric, p, f));
        k = k + 1;
    }
    assert(as_ints(d@) =~= s);
    let i = nearest_index(&d);
    proof {
        lemma_first_min_unique(s, i as int);
    }
    let n = Cell3 {
        x: c.x + (i % 2) as i64,
        y: c.y + ((i / 2) % 2) as i64,
        z: c.z + (i / 4) as i64,
    };
    assert(n == corner3(c, i as int));
    (gradient_point3(seed, n), d[i])
}

/// Squared Euclidean distance to the nearest corner feature point.
pub fn cell3_range<H: SeedHash>(seed: &H, point: &Point3) -> (r: u64)
    requires
        point3_ok(*point),
    ensures
        r == nearest_gradient3(seed, *point, Metric::SqrEuclidean).1,
{
    let (_, r) = cell3_seed_point(seed, point, Metric::SqrEuclidean);
    r
}

/// Manhattan distance to the nearest corner feature point.
pub fn cell3_manhattan<H: SeedHash>(seed: &H, point: &Point3) -> (r: u64)
    requires
        point3_ok(*point),
    ensures
        r == nearest_gradient3(seed, *point, Metric::Manhattan).1,
{
    let (_, r) = cell3_seed_point(seed, point, Metric::Manhattan);
    r
}

/// Corner `k` (0..16) of cell `c`: bit `i` of `k` adds one along axis `i`,
/// x first.
pub open spec fn corner4(c: Cell4, k: int) -> Cell4 {
    Cell4 {
        x: (c.x + k % 2) as i64,
        y: (c.y + (k / 2) % 2) as i64,
        z: (c.z + (k / 4) % 2) as i64,
        w: (c.w + k / 8) as i64,
    }
}

/// Distances from `p` to the feature points of the 16 corners of its cell.
pub open spec fn gradient_dists4<H: SeedHash>(seed: &H, p: Point4, m: Metric) -> Seq<int> {
    Seq::new(
        16,
        |k: int|
            dist4(
                m,
                p,
                corner_point4(corner4(home_cell4(p), k), seed.hash4(corner4(home_cell4(p), k))),
            ),
    )
}

/// The nearest corner feature point of `p`, and its distance.
pub open spec fn nearest_gradient4<H: SeedHash>(seed: &H, p: Point4, m: Metric) -> (Point4, int) {
    let s = gradient_dists4(seed, p, m);
    let k = corner4(home_cell4(p), first_min_index(s));
    (corner_point4(k, seed.hash4(k)), s[first_min_index(s)])
}

/// The nearest feature point among the 16 corners of `point`'s cell, and
/// its distance under `metric`; ties go to the corner met first.
pub fn cell4_seed_point<H: SeedHash>(seed: &H, point: &Point4, metric: Metric) -> (r: (Point4, u64))
    requires
        point4_ok(*point),
    ensures
        (r.0, r.1 as int) == nearest_gradient4(seed, *point, metric),
{
    let p = *point;
    let c = home_of4(p);
    let ghost s = gradient_dists4(seed, p, metric);
    let mut d: Vec<u64> = Vec::new();
    let mut k: usize = 0;
    while k < 16
        invariant
            k <= 16,
            d.len() == k,
            c == home_cell4(p),
            -2147483648 <= c.x <= 2147483648,
            c.x * UNIT <= p.x < c.x * UNIT + UNIT,
            -2147483648 <= c.y <= 2147483648,
            c.y * UNIT <= p.y < c.y * UNIT + UNIT,
            -2147483648 <= c.z <= 2147483648,
            c.z * UNIT <= p.z < c.z * UNIT + UNIT,
            -2147483648 <= c.w <= 2147483648,
            c.w * UNIT <= p.w < c.w * UNIT + UNIT,
            s == gradient_dists4(seed, p, metric),
            forall|j: int| 0 <= j < k ==> d@[j] as int == s[j],
        decreases 16 - k,
    {
        let n = Cell4 {
            x: c.x + (k % 2) as i64,
            y: c.y + ((k / 2) % 2) as i64,
            z: c.z + ((k / 4) % 2) as i64,
            w: c.w + (k / 8) as i64,
        };
        assert(n == corner4(c, k as int));
        proof {
            lemma_grad_bounds(seed.hash4(n));
        }
        let f = gradient_point4(seed, n);
        d.push(distance4(metric, p, f));
        k = k + 1;
    }
    assert(as_ints(d@) =~= s);
    let i = nearest_index(&d);
    proof {
        lemma_first_min_unique(s, i as int);
    }
    let n = Cell4 {
        x: c.x + (i % 2) as i64,
        y: c.y + ((i / 2) % 2) as i64,
        z: c.z + ((i / 4) % 2) as i64,
        w: c.w + (i / 8) as i64,
    };
    assert(n == corner4(c, i as int));
    (gradient_point4(seed, n), d[i])
}

/// Squared Euclidean distance to the nearest corner feature point.
pub fn cell4_range<H: SeedHash>(seed: &H, point: &Point4) -> (r: u64)
    requires
        point4_ok(*point),
    ensures
        r == nearest_gradient4(seed, *point, Metric::SqrEuclidean).1,
{
    let (_, r) = cell4_seed_point(seed, point, Metric::SqrEuclidean);
    r
}

/// Manhattan distance to the nearest corner feature point.
pub fn cell4_manhattan<H: SeedHash>(seed: &H, point: &Point4) -> (r: u64)
    requires
        point4_ok(*point),
    ensures
        r == nearest_gradient4(seed, *point, Metric::Manhattan).1,
{
    let (_, r) = cell4_seed_point(seed, point, Metric::Manhattan);
    r
}


// ---------------------------------------------------------------------------
// Plane corner search with pruning.
// ---------------------------------------------------------------------------

/// Offset of `x` inside its unit interval.
pub open spec fn frac_of(x: i64) -> int {
    x - floor_unit(x as int) * UNIT
}

/// The lattice coordinate nearest to `x` along one axis, and the other
/// corner coordinate of its interval.
pub open spec fn near_far(x: i64) -> (int, int) {
    let c = floor_unit(x as int);
    if frac_of(x) < UNIT / 2 {
        (c, c + 1)
    } else {
        (c + 1, c)
    }
}

/// Squared distance from `x` to the centre line of its unit interval: no
/// feature point anchored on the far side of it is nearer than that.
pub open spec fn centre_range(x: i64) -> int {
    (UNIT / 2 - frac_of(x)) * (UNIT / 2 - frac_of(x))
}

/// The plane corners in the order the search weighs them: the nearest
/// corner, the far corner along x, the far corner along y, the opposite corner.
pub open spec fn ranked_corner2(p: Point2, k: int) -> Cell2 {
    let (nx, fx) = near_far(p.x);
    let (ny, fy) = near_far(p.y);
    if k == 0 {
        Cell2 { x: nx as i64, y: ny as i64 }
    } else if k == 1 {
        Cell2 { x: fx as i64, y: ny as i64 }
    } else if k == 2 {
        Cell2 { x: nx as i64, y: fy as i64 }
    } else {
        Cell2 { x: fx as i64, y: fy as i64 }
    }
}

/// Distances from `p` to the feature points of the four corners of its cell,
/// in ranked order.
#[verifier::opaque]
pub open spec fn gradient_dists2<H: SeedHash>(seed: &H, p: Point2, m: Metric) -> Seq<int> {
    Seq::new(
        4,
        |k: int|
            dist2(m, p, corner_point2(ranked_corner2(p, k), seed.hash2(ranked_corner2(p, k)))),
    )
}

/// The nearest corner feature point of `p` over all four corners, and its
/// distance.
pub open spec fn nearest_gradient2<H: SeedHash>(seed: &H, p: Point2, m: Metric) -> (Point2, int) {
    let s = gradient_dists2(seed, p, m);
    let k = ranked_corner2(p, first_min_index(s));
    (corner_point2(k, seed.hash2(k)), s[first_min_index(s)])
}

/// Along one axis, a feature point anchored on the far corner is at least
/// the centre range away.
proof fn lemma_far_axis(m: Metric, px: int, cx: int, g: int)
    requires
        cx * 65536 <= px < cx * 65536 + 65536,
        -32768 <= g <= 32768,
    ensures
        ({
            let fx = px - cx * 65536;
            let far = if fx < 32768 {
                cx + 1
            } else {
                cx
            };
            axis_dist(m, px - (far * 65536 + g)) >= (32768 - fx) * (32768 - fx)
        }),
{
    let fx = px - cx * 65536;
    if fx < 32768 {
        let e = (cx + 1) * 65536 + g - px;
        let t = 32768 - fx;
        assert(e >= t && t > 0);
        assert(e * e >= t * t) by (nonlinear_arith)
            requires
                e >= t > 0,
        ;
        assert(e * 65536 >= t * t) by (nonlinear_arith)
            requires
                e >= t > 0,
                t <= 65536,
        ;
        assert((px - ((cx + 1) * 65536 + g)) == -e);
        assert((-e) * (-e) == e * e) by (nonlinear_arith);
    } else {
        let e = px - cx * 65536 - g;
        let t = fx - 32768;
        assert(e >= t && t >= 0);
        assert(e * e >= t * t) by (nonlinear_arith)
            requires
                e >= t >= 0,
        ;
        assert(e * 65536 >= t * t) by (nonlinear_arith)
            requires
                e >= t >= 0,
                t <= 65536,
        ;
        assert((32768 - fx) * (32768 - fx) == t * t) by (nonlinear_arith)
            requires
                t == fx - 32768,
        ;
    }
}

/// The far corners lie across a centre line: each is at least that line's
/// centre range away from `p`.
proof fn lemma_pruning_bounds<H: SeedHash>(seed: &H, p: Point2, m: Metric)
    requires
        point2_ok(p),
    ensures
        gradient_dists2(seed, p, m)[1] >= centre_range(p.x),
        gradient_dists2(seed, p, m)[3] >= centre_range(p.x),
        gradient_dists2(seed, p, m)[2] >= centre_range(p.y),
        gradient_dists2(seed, p, m)[3] >= centre_range(p.y),
{
    lemma_ranked_corner(seed, p, m, 1);
    lemma_ranked_corner(seed, p, m, 2);
    lemma_ranked_corner(seed, p, m, 3);
}

/// The bound of `lemma_pruning_bounds` for ranked corner `k`.
proof fn lemma_ranked_corner<H: SeedHash>(seed: &H, p: Point2, m: Metric, k: int)
    requires
        point2_ok(p),
        0 <= k < 4,
    ensures
        (k == 1 || k == 3) ==> gradient_dists2(seed, p, m)[k] >= centre_range(p.x),
        (k == 2 || k == 3) ==> gradient_dists2(seed, p, m)[k] >= centre_range(p.y),
{
    reveal(gradient_dists2);
    let s = gradient_dists2(seed, p, m);
    let c = home_cell2(p);
    lemma_floor_unit(p.x);
    lemma_floor_unit(p.y);
    let n = ranked_corner2(p, k);
    let h = seed.hash2(n);
    let q = corner_point2(n, h);
    lemma_grad_bounds(h);
    lemma_axis_dist_bounds(m, p.x - q.x);
    lemma_axis_dist_bounds(m, p.y - q.y);
    lemma_far_axis(m, p.x as int, c.x as int, grad2(h).x as int);
    lemma_far_axis(m, p.y as int, c.y as int, grad2(h).y as int);
    assert(s[k] == axis_dist(m, p.x - q.x) + axis_dist(m, p.y - q.y));
}

/// Distance `k` of the ranked corner list, spelled out.
pub proof fn lemma_ranked_dist<H: SeedHash>(seed: &H, p: Point2, m: Metric, k: int)
    requires
        0 <= k < 4,
    ensures
        gradient_dists2(seed, p, m).len() == 4,
        gradient_dists2(seed, p, m)[k] == dist2(
            m,
            p,
            corner_point2(ranked_corner2(p, k), seed.hash2(ranked_corner2(p, k))),
        ),
{
    reveal(gradient_dists2);
}

/// The nearest and far corners of `p`'s cell, and the centre ranges along x and y.
fn corners_and_centres(p: Point2) -> (r: (Cell2, Cell2, u64, u64))
    requires
        point2_ok(p),
    ensures
        r.0 == ranked_corner2(p, 0),
        r.1 == ranked_corner2(p, 3),
        (Cell2 { x: r.1.x, y: r.0.y }) == ranked_corner2(p, 1),
        (Cell2 { x: r.0.x, y: r.1.y }) == ranked_corner2(p, 2),
        r.2 == centre_range(p.x),
        r.3 == centre_range(p.y),
        -2147483648 <= r.0.x <= 2147483649,
        -2147483648 <= r.0.y <= 2147483649,
        -2147483648 <= r.1.x <= 2147483649,
        -2147483648 <= r.1.y <= 2147483649,
{
    let c = home_of2(p);
    let half: i64 = UNIT / 2;
    let fx = p.x - c.x * UNIT;
    let fy = p.y - c.y * UNIT;
    let x_half = fx < half;
    let y_half = fy < half;
    let near = Cell2 {
        x: if x_half { c.x } else { c.x + 1 },
        y: if y_half { c.y } else { c.y + 1 },
    };
    let far = Cell2 {
        x: if x_half { c.x + 1 } else { c.x },
        y: if y_half { c.y + 1 } else { c.y },
    };
    proof {
        assert(0 <= (half - fx) * (half - fx) <= 0x4000_0000) by (nonlinear_arith)
            requires
                -32768 <= half - fx <= 32768,
        ;
        assert(0 <= (half - fy) * (half - fy) <= 0x4000_0000) by (nonlinear_arith)
            requires
                -32768 <= half - fy <= 32768,
        ;
    }
    (near, far, ((half - fx) * (half - fx)) as u64, ((half - fy) * (half - fy)) as u64)
}

/// The feature point of plane corner `n` and its distance from `p`.
fn weigh_corner2<H: SeedHash>(seed: &H, p: Point2, m: Metric, n: Cell2) -> (r: (Point2, u64))
    requires
        point2_ok(p),
        -2147483648 <= n.x <= 2147483649,
        -2147483648 <= n.y <= 2147483649,
        floor_unit(p.x as int) <= n.x <= floor_unit(p.x as int) + 1,
        floor_unit(p.y as int) <= n.y <= floor_unit(p.y as int) + 1,
    ensures
        r.0 == corner_point2(n, seed.hash2(n)),
        r.1 == dist2(m, p, r.0),
{
    proof {
        lemma_floor_unit(p.x);
        lemma_floor_unit(p.y);
        lemma_grad_bounds(seed.hash2(n));
    }
    let q = gradient_point2(seed, n);
    (q, distance2(m, p, q))
}

/// The nearest feature point among the four corners of `point`'s cell, and
/// its distance under `metric`. The nearest corner is weighed first; a far
/// corner is weighed only while the centre line towards it is nearer than
/// the best distance so far, which never passes over a nearer corner: the
/// result is that of weighing all four corners in ranked order.
pub fn cell2_seed_point<H: SeedHash>(seed: &H, point: &Point2, metric: Metric) -> (r: (Point2, u64))
    requires
        point2_ok(*point),
    ensures
        (r.0, r.1 as int) == nearest_gradient2(seed, *point, metric),
{
    let p = *point;
    let ghost s = gradient_dists2(seed, p, metric);
    let (near, far, x_centre, y_centre) = corners_and_centres(p);
    proof {
        lemma_pruning_bounds(seed, p, metric);
        lemma_ranked_dist(seed, p, metric, 0);
        lemma_ranked_dist(seed, p, metric, 1);
        lemma_ranked_dist(seed, p, metric, 2);
        lemma_ranked_dist(seed, p, metric, 3);
    }
    let (mut seed_point, mut range) = weigh_corner2(seed, p, metric, near);
    let ghost mut best: int = 0;
    if x_centre < range {
        let (cur_point, cur_range) = weigh_corner2(seed, p, metric, Cell2 { x: far.x, y: near.y });
        if cur_range < range {
            range = cur_range;
            seed_point = cur_point;
            proof {
                best = 1;
            }
        }
    }
    assert(range == s[best] && 0 <= best < 2 && s[0] >= range && s[1] >= range);
    assert(best == 1 ==> s[0] > range);
    if y_centre < range {
        let (cur_point, cur_range) = weigh_corner2(seed, p, metric, Cell2 { x: near.x, y: far.y });
        if cur_range < range {
            range = cur_range;
            seed_point = cur_point;
            proof {
                best = 2;
            }
        }
    }
    assert(range == s[best] && 0 <= best < 3 && s[0] >= range && s[1] >= range && s[2] >= range);
    assert(forall|j: int| 0 <= j < best ==> s[j] > s[best]);
    if x_centre < range && y_centre < range {
        let (cur_point, cur_range) = weigh_corner2(seed, p, metric, far);
        if cur_range < range {
            range = cur_range;
            seed_point = cur_point;
            proof {
                best = 3;
            }
        }
    }
    proof {
        assert(is_first_min(s, best));
        lemma_first_min_unique(s, best);
    }
    (seed_point, range)
}

/// Squared Euclidean distance to the nearest corner feature point.
pub fn cell2_range<H: SeedHash>(seed: &H, point: &Point2) -> (r: u64)
    requires
        point2_ok(*point),
    ensures
        r == nearest_gradient2(seed, *point, Metric::SqrEuclidean).1,
{
    let (_, r) = cell2_seed_point(seed, point, Metric::SqrEuclidean);
    r
}

/// Manhattan distance to the nearest corner feature point.
pub fn cell2_manhattan<H: SeedHash>(seed: &H, point: &Point2) -> (r: u64)
    requires
        point2_ok(*point),
    ensures
        r == nearest_gradient2(seed, *point, Metric::Manhattan).1,
{
    let (_, r) = cell2_seed_point(seed, point, Metric::Manhattan);
    r
}

} // verus!
