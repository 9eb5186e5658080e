use cellular_noise::{
    cell2_manhattan, cell2_manhattan_inv, cell2_manhattan_value, cell2_range, cell2_range_inv,
    cell2_seed_2_points, cell2_seed_cell, cell2_seed_point, cell2_value, cell3_manhattan,
    cell3_manhattan_inv, cell3_manhattan_value, cell3_range, cell3_range_inv,
    cell3_seed_2_points, cell3_seed_cell, cell3_seed_point, cell3_value, cell4_manhattan,
    cell4_manhattan_inv, cell4_manhattan_value, cell4_range, cell4_range_inv,
    cell4_seed_2_points, cell4_seed_cell, cell4_seed_point, cell4_value, get_cell_point2,
    get_cell_point3, get_cell_point4, get_vec2, get_vec3, get_vec4, lattice_cell,
    range_manhattan2, range_manhattan3, range_manhattan4, range_sqr_euclidian2,
    range_sqr_euclidian3, range_sqr_euclidian4, Cell2, Cell3, Cell4, Metric, Point2, Point3,
    Point4, Seed, SeedHash, DIST_ONE, UNIT,
};

/// A hash that sends every cell to 0.
struct ZeroHash;

impl SeedHash for ZeroHash {
    fn hash2(&self, _c: Cell2) -> u8 {
        0
    }
    fn hash3(&self, _c: Cell3) -> u8 {
        0
    }
    fn hash4(&self, _c: Cell4) -> u8 {
        0
    }
    fn get2(&self, _c: Cell2) -> u8 {
        0
    }
    fn get3(&self, _c: Cell3) -> u8 {
        0
    }
    fn get4(&self, _c: Cell4) -> u8 {
        0
    }
}

const HALF: i64 = UNIT / 2;

fn p2(x: i64, y: i64) -> Point2 {
    Point2 { x, y }
}

fn p3(x: i64, y: i64, z: i64) -> Point3 {
    Point3 { x, y, z }
}

fn p4(x: i64, y: i64, z: i64, w: i64) -> Point4 {
    Point4 { x, y, z, w }
}

/// A shuffled table from a small linear congruential generator.
fn shuffled_seed(mut state: u32) -> Seed {
    let mut table = [0u8; 256];
    for (i, t) in table.iter_mut().enumerate() {
        *t = i as u8;
    }
    for i in (1..256usize).rev() {
        state = state.wrapping_mul(1664525).wrapping_add(1013904223);
        let j = (state >> 8) as usize % (i + 1);
        table.swap(i, j);
    }
    Seed::new(table)
}

/// Points spread over a few cells, negative ones included.
fn sample_points2() -> Vec<Point2> {
    let mut v = Vec::new();
    let mut x: i64 = -3 * UNIT;
    while x < 3 * UNIT {
        let mut y: i64 = -2 * UNIT - 777;
        while y < 3 * UNIT {
            v.push(p2(x, y));
            y += 9001;
        }
        x += 7919;
    }
    v
}

fn identity_seed() -> Seed {
    let mut table = [0u8; 256];
    for (i, t) in table.iter_mut().enumerate() {
        *t = i as u8;
    }
    Seed::new(table)
}

#[test]
fn seed_table_hash_adds_low_bytes() {
    let s = identity_seed();
    assert_eq!(s.get2(Cell2 { x: 3, y: 4 }), 7);
    assert_eq!(s.get2(Cell2 { x: -1, y: 1 }), 0);
    assert_eq!(s.get2(Cell2 { x: 256, y: 300 }), 44);
    assert_eq!(s.get3(Cell3 { x: 1, y: 2, z: 3 }), 6);
    assert_eq!(s.get4(Cell4 { x: 1, y: 2, z: 3, w: -7 }), 255);
}

#[test]
fn lattice_cell_is_floor() {
    assert_eq!(lattice_cell(0), 0);
    assert_eq!(lattice_cell(UNIT - 1), 0);
    assert_eq!(lattice_cell(UNIT), 1);
    assert_eq!(lattice_cell(-1), -1);
    assert_eq!(lattice_cell(-UNIT), -1);
    assert_eq!(lattice_cell(-UNIT - 1), -2);
}

#[test]
fn metrics_exact_values() {
    let a = p2(0, 0);
    let b = p2(3 * UNIT, -4 * UNIT);
    assert_eq!(range_sqr_euclidian2(a, b), 25 * DIST_ONE);
    assert_eq!(range_manhattan2(a, b), 7 * DIST_ONE);
    assert_eq!(range_sqr_euclidian2(b, a), range_sqr_euclidian2(a, b));
    assert_eq!(range_sqr_euclidian2(b, b), 0);
    let c = p3(HALF, 0, -HALF);
    assert_eq!(range_sqr_euclidian3(c, p3(0, 0, 0)), DIST_ONE / 2);
    assert_eq!(range_manhattan3(c, p3(0, 0, 0)), DIST_ONE);
    let d = p4(UNIT, UNIT, UNIT, UNIT);
    assert_eq!(range_sqr_euclidian4(d, p4(0, 0, 0, 0)), 4 * DIST_ONE);
    assert_eq!(range_manhattan4(p4(0, 0, 0, 0), d), 4 * DIST_ONE);
}

#[test]
fn direction_tables_exact_values() {
    assert_eq!(get_vec2(0xF8), p2(23170, 23170));
    assert_eq!(get_vec2(0xFC), p2(32768, 0));
    assert_eq!(get_vec2(0x19), p2(2242, -2242));
    assert_eq!(get_vec2(0x07), p2(0, 0));
    assert_eq!(get_vec3(255), p3(-23170, -23170, 0));
    assert_eq!(get_vec3(224), p3(0, 23170, 23170));
    assert_eq!(get_vec4(255), p4(0, -18918, -18918, -18918));
    assert_eq!(get_vec4(224), p4(18918, 18918, 18918, 0));
}

#[test]
fn direction_tables_are_bounded() {
    for i in 0..=255u8 {
        let a = get_vec2(i);
        let b = get_vec3(i);
        let c = get_vec4(i);
        for v in [a.x, a.y, b.x, b.y, b.z, c.x, c.y, c.z, c.w] {
            assert!(v.abs() <= HALF);
        }
    }
}

#[test]
fn zero_hash_range2_golden() {
    let p = p2(HALF, HALF);
    let (pt, d) = cell2_seed_point(&ZeroHash, &p, Metric::SqrEuclidean);
    assert_eq!(pt, p2(UNIT, UNIT));
    assert_eq!(d, DIST_ONE / 2);
    assert_eq!(cell2_range(&ZeroHash, &p), DIST_ONE / 2);
    assert_eq!(cell2_manhattan(&ZeroHash, &p), DIST_ONE);
    let q = p2(HALF / 2, UNIT - 1000);
    let (pt, _) = cell2_seed_point(&ZeroHash, &q, Metric::SqrEuclidean);
    assert_eq!(pt, p2(0, UNIT));
}

#[test]
fn zero_hash_range3_and_range4_golden() {
    let p = p3(HALF, HALF, HALF);
    let (pt, d) = cell3_seed_point(&ZeroHash, &p, Metric::SqrEuclidean);
    assert_eq!(pt, p3(0, 0, 0));
    assert_eq!(d, 3221225472);
    assert_eq!(cell3_range(&ZeroHash, &p), 3221225472);
    assert_eq!(cell3_manhattan(&ZeroHash, &p), 3 * DIST_ONE / 2);
    let q = p4(HALF, HALF, HALF, HALF);
    assert_eq!(cell4_seed_point(&ZeroHash, &q, Metric::Manhattan), (p4(0, 0, 0, 0), 2 * DIST_ONE));
    assert_eq!(cell4_range(&ZeroHash, &q), DIST_ONE);
    assert_eq!(cell4_manhattan(&ZeroHash, &q), 2 * DIST_ONE);
}

#[test]
fn zero_hash_edge_and_value_golden() {
    let p = p2(UNIT / 4, UNIT / 4);
    let (a, d1, b, d2) = cell2_seed_2_points(&ZeroHash, &p, Metric::SqrEuclidean);
    assert_eq!((a, d1), (p2(0, 0), 536870912));
    assert_eq!((b, d2), (p2(0, UNIT), 2684354560));
    assert_eq!(cell2_range_inv(&ZeroHash, &p), DIST_ONE / 2);
    assert_eq!(cell2_manhattan_inv(&ZeroHash, &p), DIST_ONE / 2);
    assert_eq!(cell2_value(&ZeroHash, &p), 0);
    assert_eq!(cell2_manhattan_value(&ZeroHash, &p), 0);
    let q = p3(UNIT / 4, UNIT / 4, UNIT / 4);
    assert_eq!(cell3_range_inv(&ZeroHash, &q), DIST_ONE / 2);
    assert_eq!(cell3_manhattan_inv(&ZeroHash, &q), DIST_ONE / 2);
    assert_eq!(cell3_seed_cell(&ZeroHash, &q, Metric::SqrEuclidean), Cell3 { x: 0, y: 0, z: 0 });
    let r = p4(UNIT / 4, UNIT / 4, UNIT / 4, UNIT / 4);
    assert_eq!(cell4_range_inv(&ZeroHash, &r), DIST_ONE / 2);
    assert_eq!(cell4_manhattan_inv(&ZeroHash, &r), DIST_ONE / 2);
    assert_eq!(cell4_value(&ZeroHash, &r), 0);
    assert_eq!(cell3_value(&ZeroHash, &q), 0);
    assert_eq!(cell3_manhattan_value(&ZeroHash, &q), 0);
    assert_eq!(cell4_manhattan_value(&ZeroHash, &r), 0);
}

#[test]
fn boundary_points_pick_first_winner() {
    // On a lattice point every zero-hash feature point lies on the lattice:
    // the point's own cell wins, and the first of the four unit neighbours
    // (x slowest, offsets -1, 0, 1) is second.
    let p = p2(0, 0);
    let (a, d1, b, d2) = cell2_seed_2_points(&ZeroHash, &p, Metric::SqrEuclidean);
    assert_eq!((a, d1), (p2(0, 0), 0));
    assert_eq!((b, d2), (p2(-UNIT, 0), DIST_ONE));
    assert_eq!(cell2_range_inv(&ZeroHash, &p), DIST_ONE);
    assert_eq!(cell2_seed_cell(&ZeroHash, &p, Metric::Manhattan), Cell2 { x: 0, y: 0 });
    // Four feature points at the same distance: the first one met wins.
    let q = p2(HALF, HALF);
    assert_eq!(cell2_seed_cell(&ZeroHash, &q, Metric::SqrEuclidean), Cell2 { x: 0, y: 0 });
    assert_eq!(cell2_range_inv(&ZeroHash, &q), 0);
    let s = shuffled_seed(7);
    for p in [p2(UNIT, -UNIT), p2(0, 5 * UNIT), p2(-HALF, HALF)] {
        assert_eq!(cell2_range(&s, &p), cell2_range(&s, &p));
        assert_eq!(cell2_value(&s, &p), cell2_value(&s, &p));
    }
}

#[test]
fn same_input_same_result() {
    let s = shuffled_seed(42);
    let t = shuffled_seed(42);
    for p in sample_points2().into_iter().take(50) {
        assert_eq!(cell2_range(&s, &p), cell2_range(&t, &p));
        assert_eq!(cell2_manhattan_inv(&s, &p), cell2_manhattan_inv(&t, &p));
        assert_eq!(cell2_value(&s, &p), cell2_value(&s, &p));
        let q = p3(p.x, p.y, p.x - p.y);
        assert_eq!(cell3_range_inv(&s, &q), cell3_range_inv(&t, &q));
        let r = p4(p.x, p.y, -p.x, p.y / 2);
        assert_eq!(cell4_manhattan_value(&s, &r), cell4_manhattan_value(&t, &r));
    }
}

/// Nearest corner feature point over all four corners, weighed in the
/// order nearest corner, far x, far y, opposite corner.
fn all_corners2(s: &Seed, p: Point2, m: Metric) -> (Point2, u64) {
    let cx = lattice_cell(p.x);
    let cy = lattice_cell(p.y);
    let (nx, fx) = if p.x - cx * UNIT < HALF { (cx, cx + 1) } else { (cx + 1, cx) };
    let (ny, fy) = if p.y - cy * UNIT < HALF { (cy, cy + 1) } else { (cy + 1, cy) };
    let mut best: Option<(Point2, u64)> = None;
    for (x, y) in [(nx, ny), (fx, ny), (nx, fy), (fx, fy)] {
        let c = Cell2 { x, y };
        let g = get_vec2(s.get2(c));
        let q = p2(x * UNIT + g.x, y * UNIT + g.y);
        let d = match m {
            Metric::SqrEuclidean => range_sqr_euclidian2(p, q),
            Metric::Manhattan => range_manhattan2(p, q),
        };
        if best.map_or(true, |(_, b)| d < b) {
            best = Some((q, d));
        }
    }
    best.unwrap()
}

#[test]
fn pruned_search_matches_all_corners() {
    for seed in [1u32, 2, 99] {
        let s = shuffled_seed(seed);
        for p in sample_points2() {
            for m in [Metric::SqrEuclidean, Metric::Manhattan] {
                assert_eq!(cell2_seed_point(&s, &p, m), all_corners2(&s, p, m));
            }
        }
    }
}

#[test]
fn jittered_points_stay_in_their_cell() {
    let s = shuffled_seed(5);
    for x in -20..20i64 {
        for y in -20..20i64 {
            let c = Cell2 { x, y };
            let f = get_cell_point2(&s, c);
            assert!(x * UNIT <= f.x && f.x <= x * UNIT + UNIT);
            assert!(y * UNIT <= f.y && f.y <= y * UNIT + UNIT);
            let h = s.get2(c);
            if h % 16 < 15 {
                assert!(f.x < x * UNIT + UNIT);
            }
            if h / 16 < 15 {
                assert!(f.y < y * UNIT + UNIT);
            }
            let g = get_cell_point3(&s, Cell3 { x, y, z: x + y });
            assert!((x + y) * UNIT <= g.z && g.z <= (x + y) * UNIT + UNIT);
            let k = get_cell_point4(&s, Cell4 { x, y, z: -x, w: y - x });
            assert!((y - x) * UNIT <= k.w && k.w <= (y - x) * UNIT + UNIT);
        }
    }
}

#[test]
fn jitter_uses_both_nibbles() {
    let mut table = [0u8; 256];
    table[0] = 0x3C;
    let s = Seed::new(table);
    // The cell (0, 0) hashes to table[table[0]] = table[0x3C] = 0, so look at a
    // cell whose hash is 0x3C: (x, y) with table[(table[x] + y) % 256] = 0x3C.
    assert_eq!(s.get2(Cell2 { x: 1, y: 0 }), 0x3C);
    let f = get_cell_point2(&s, Cell2 { x: 1, y: 0 });
    assert_eq!(f, p2(UNIT + 12 * UNIT / 15, 3 * UNIT / 15));
    // (1, 0, 196) hashes to 0x3C too; its second hash, at z = 324, is 0.
    let g = get_cell_point3(&s, Cell3 { x: 1, y: 0, z: 196 });
    assert_eq!(g, p3(UNIT + 12 * UNIT / 15, 3 * UNIT / 15, 196 * UNIT));
}

#[test]
fn two_nearest_are_ordered() {
    let s = shuffled_seed(11);
    for p in sample_points2() {
        let (_, d1, _, d2) = cell2_seed_2_points(&s, &p, Metric::SqrEuclidean);
        assert!(d1 <= d2);
        assert_eq!(cell2_range_inv(&s, &p), d2 - d1);
        let q = p3(p.x, p.y, p.y - p.x);
        let (_, e1, _, e2) = cell3_seed_2_points(&s, &q, Metric::Manhattan);
        assert!(e1 <= e2);
        assert_eq!(cell3_manhattan_inv(&s, &q), e2 - e1);
    }
    let r = p4(1234, -56789, 99999, 3);
    let (_, f1, _, f2) = cell4_seed_2_points(&s, &r, Metric::SqrEuclidean);
    assert!(f1 <= f2);
}

#[test]
fn values_lie_in_unit_range() {
    let s = shuffled_seed(3);
    let mut seen_nonzero = false;
    for p in sample_points2() {
        let v = cell2_value(&s, &p);
        let w = cell2_manhattan_value(&s, &p);
        assert!(v <= DIST_ONE && w <= DIST_ONE);
        let c = cell2_seed_cell(&s, &p, Metric::SqrEuclidean);
        assert_eq!(v, s.get2(c) as u64 * DIST_ONE / 255);
        seen_nonzero |= v > 0;
    }
    assert!(seen_nonzero);
    let q = p4(-UNIT, 2 * UNIT, 17, -3);
    assert!(cell4_value(&s, &q) <= DIST_ONE);
    let c = cell4_seed_cell(&s, &q, Metric::Manhattan);
    assert_eq!(cell4_manhattan_value(&s, &q), s.get4(c) as u64 * DIST_ONE / 255);
}

#[test]
fn owning_cell_holds_the_nearest_point() {
    let s = shuffled_seed(8);
    for p in sample_points2() {
        let c = cell2_seed_cell(&s, &p, Metric::SqrEuclidean);
        let (a, _, _, _) = cell2_seed_2_points(&s, &p, Metric::SqrEuclidean);
        assert_eq!(get_cell_point2(&s, c), a);
    }
}

#[test]
fn nearest_corner_search_in_3d_and_4d() {
    let s = shuffled_seed(21);
    let p = p3(3 * UNIT + 100, -UNIT / 3, 7);
    let (pt, d) = cell3_seed_point(&s, &p, Metric::SqrEuclidean);
    assert_eq!(range_sqr_euclidian3(p, pt), d);
    let mut best = u64::MAX;
    for k in 0..8i64 {
        let c = Cell3 { x: 3 + (k & 1), y: -1 + ((k >> 1) & 1), z: (k >> 2) & 1 };
        let g = get_vec3(s.get3(c));
        let q = p3(c.x * UNIT + g.x, c.y * UNIT + g.y, c.z * UNIT + g.z);
        best = best.min(range_sqr_euclidian3(p, q));
    }
    assert_eq!(d, best);
    let r = p4(HALF + 1, -HALF, 10 * UNIT, -5);
    let (pt4, d4) = cell4_seed_point(&s, &r, Metric::Manhattan);
    assert_eq!(range_manhattan4(r, pt4), d4);
}
