//! Laws that tie the noise functions together.

use vstd::prelude::*;
use crate::point::{Cell2, Cell3, Cell4, Metric, Point2, Point3, Point4, axis_dist};
use crate::cell::{
    corner3, corner4, gradient_dists2, gradient_dists3, gradient_dists4, home_cell2, home_cell3,
    home_cell4, jitter_dists2, jitter_dists3, jitter_dists4, nearest_gradient2, nearest_gradient3,
    nearest_gradient4, neighbor2, neighbor3, neighbor4, owning_cell2, owning_cell3, owning_cell4,
    ranked_corner2, two_nearest2, two_nearest3, two_nearest4,
};
use crate::gradient::{corner_point2, corner_point3, corner_point4};
use crate::jitter::{cell_point2, cell_point3, cell_point4};
use crate::search::{lemma_min_non_negative, lemma_runner_up_exists};
use crate::seed::SeedHash;

verus! {

/// Neither metric gives a negative distance along an axis.
pub proof fn lemma_axis_dist_non_negative(m: Metric, d: int)
    ensures
        axis_dist(m, d) >= 0,
{
    assert(d * d >= 0) by (nonlinear_arith);
}

/// The distance to the nearest corner feature point is never negative.
pub proof fn lemma_nearest_non_negative2<H: SeedHash>(seed: &H, p: Point2, m: Metric)
    ensures
        nearest_gradient2(seed, p, m).1 >= 0,
{
    reveal(gradient_dists2);
    let s = gradient_dists2(seed, p, m);
    assert forall|k: int| 0 <= k < s.len() implies #[trigger] s[k] >= 0 by {
        let c = ranked_corner2(p, k);
        let q = corner_point2(c, seed.hash2(c));
        lemma_axis_dist_non_negative(m, p.x - q.x);
        lemma_axis_dist_non_negative(m, p.y - q.y);
    }
    lemma_min_non_negative(s);
}

/// In the two-nearest search the nearest distance is never negative and
/// never exceeds the second-nearest one.
pub proof fn lemma_two_nearest_ordered2<H: SeedHash>(seed: &H, p: Point2, m: Metric)
    ensures
        0 <= two_nearest2(seed, p, m).1 <= two_nearest2(seed, p, m).3,
{
    let s = jitter_dists2(seed, p, m);
    assert forall|k: int| 0 <= k < s.len() implies #[trigger] s[k] >= 0 by {
        let q = cell_point2(seed, neighbor2(home_cell2(p), k));
        lemma_axis_dist_non_negative(m, p.x - q.x);
        lemma_axis_dist_non_negative(m, p.y - q.y);
    }
    lemma_runner_up_exists(s);
    lemma_min_non_negative(s);
}

/// The noise functions see the seed only through its hash: two seeds that
/// hash every cell alike give the same nearest points, distances and cells.
pub proof fn lemma_hash_determines2<H1: SeedHash, H2: SeedHash>(
    a: &H1,
    b: &H2,
    p: Point2,
    m: Metric,
)
    requires
        forall|c: Cell2| #[trigger] a.hash2(c) == b.hash2(c),
    ensures
        nearest_gradient2(a, p, m) == nearest_gradient2(b, p, m),
        two_nearest2(a, p, m) == two_nearest2(b, p, m),
        owning_cell2(a, p, m) == owning_cell2(b, p, m),
{
    reveal(gradient_dists2);
    assert(gradient_dists2(a, p, m) =~= gradient_dists2(b, p, m));
    assert(jitter_dists2(a, p, m) =~= jitter_dists2(b, p, m));
}

/// The distance to the nearest corner feature point is never negative.
pub proof fn lemma_nearest_non_negative3<H: SeedHash>(seed: &H, p: Point3, m: Metric)
    ensures
        nearest_gradient3(seed, p, m).1 >= 0,
{
    let s = gradient_dists3(seed, p, m);
    assert forall|k: int| 0 <= k < s.len() implies #[trigger] s[k] >= 0 by {
        let c = corner3(home_cell3(p), k);
        let q = corner_point3(c, seed.hash3(c));
        lemma_axis_dist_non_negative(m, p.x - q.x);
        lemma_axis_dist_non_negative(m, p.y - q.y);
        lemma_axis_dist_non_negative(m, p.z - q.z);
    }
    lemma_min_non_negative(s);
}

/// In the two-nearest search the nearest distance is never negative and
/// never exceeds the second-nearest one.
pub proof fn lemma_two_nearest_ordered3<H: SeedHash>(seed: &H, p: Point3, m: Metric)
    ensures
        0 <= two_nearest3(seed, p, m).1 <= two_nearest3(seed, p, m).3,
{
    let s = jitter_dists3(seed, p, m);
    assert forall|k: int| 0 <= k < s.len() implies #[trigger] s[k] >= 0 by {
        let q = cell_point3(seed, neighbor3(home_cell3(p), k));
        lemma_axis_dist_non_negative(m, p.x - q.x);
        lemma_axis_dist_non_negative(m, p.y - q.y);
        lemma_axis_dist_non_negative(m, p.z - q.z);
    }
    lemma_runner_up_exists(s);
    lemma_min_non_negative(s);
}

/// The noise functions see the seed only through its hash: two seeds that
/// hash every cell alike give the same nearest points, distances and cells.
pub proof fn lemma_hash_determines3<H1: SeedHash, H2: SeedHash>(
    a: &H1,
    b: &H2,
    p: Point3,
    m: Metric,
)
    requires
        forall|c: Cell3| #[trigger] a.hash3(c) == b.hash3(c),
    ensures
        nearest_gradient3(a, p, m) == nearest_gradient3(b, p, m),
        two_nearest3(a, p, m) == two_nearest3(b, p, m),
        owning_cell3(a, p, m) == owning_cell3(b, p, m),
{
    assert(gradient_dists3(a, p, m) =~= gradient_dists3(b, p, m));
    assert(jitter_dists3(a, p, m) =~= jitter_dists3(b, p, m));
}

/// The distance to the nearest corner feature point is never negative.
pub proof fn lemma_nearest_non_negative4<H: SeedHash>(seed: &H, p: Point4, m: Metric)
    ensures
        nearest_gradient4(seed, p, m).1 >= 0,
{
    let s = gradient_dists4(seed, p, m);
    assert forall|k: int| 0 <= k < s.len() implies #[trigger] s[k] >= 0 by {
        let c = corner4(home_cell4(p), k);
        let q = corner_point4(c, seed.hash4(c));
        lemma_axis_dist_non_negative(m, p.x - q.x);
        lemma_axis_dist_non_negative(m, p.y - q.y);
        lemma_axis_dist_non_negative(m, p.z - q.z);
        lemma_axis_dist_non_negative(m, p.w - q.w);
    }
    lemma_min_non_negative(s);
}

/// In the two-nearest search the nearest distance is never negative and
/// never exceeds the second-nearest one.
pub proof fn lemma_two_nearest_ordered4<H: SeedHash>(seed: &H, p: Point4, m: Metric)
    ensures
        0 <= two_nearest4(seed, p, m).1 <= two_nearest4(seed, p, m).3,
{
    let s = jitter_dists4(seed, p, m);
    assert forall|k: int| 0 <= k < s.len() implies #[trigger] s[k] >= 0 by {
        let q = cell_point4(seed, neighbor4(home_cell4(p), k));
        lemma_axis_dist_non_negative(m, p.x - q.x);
        lemma_axis_dist_non_negative(m, p.y - q.y);
        lemma_axis_dist_non_negative(m, p.z - q.z);
        lemma_axis_dist_non_negative(m, p.w - q.w);
    }
    lemma_runner_up_exists(s);
    lemma_min_non_negative(s);
}

/// The noise functions see the seed only through its hash: two seeds that
/// hash every cell alike give the same nearest points, distances and cells.
pub proof fn lemma_hash_determines4<H1: SeedHash, H2: SeedHash>(
    a: &H1,
    b: &H2,
    p: Point4,
    m: Metric,
)
    requires
        forall|c: Cell4| #[trigger] a.hash4(c) == b.hash4(c),
    ensures
        nearest_gradient4(a, p, m) == nearest_gradient4(b, p, m),
        two_nearest4(a, p, m) == two_nearest4(b, p, m),
        owning_cell4(a, p, m) == owning_cell4(b, p, m),
{
    assert(gradient_dists4(a, p, m) =~= gradient_dists4(b, p, m));
    assert(jitter_dists4(a, p, m) =~= jitter_dists4(b, p, m));
}

} // verus!
