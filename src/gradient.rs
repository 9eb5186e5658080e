//! Direction tables and the feature points anchored at lattice corners.
//!
//! A hashed byte picks a direction from a fixed table and a length from its
//! high bits; the feature point of a corner is the corner plus that vector.

use vstd::prelude::*;
use crate::point::{Cell2, Cell3, Cell4, Point2, Point3, Point4, UNIT};
use crate::seed::SeedHash;

verus! {

/// `1 / sqrt(2)` to eleven decimals, as a fraction of `DIAG_DEN`.
pub const INV_SQRT2: i64 = 70710678118;

/// `1 / sqrt(3)` to eleven decimals, as a fraction of `DIAG_DEN`.
pub const INV_SQRT3: i64 = 57735026919;

pub const DIAG_DEN: i64 = 100000000000;

/// -1 when `bit` is set, else 1.
pub open spec fn sign_of(bit: bool) -> int {
    if bit {
        -1
    } else {
        1
    }
}

/// `m` with the sign of `s` (zero where `s` is zero).
pub open spec fn scale(s: int, m: int) -> int {
    if s < 0 {
        -m
    } else if s == 0 {
        0
    } else {
        m
    }
}

/// Length of a plane vector: `(index >> 3)` steps of `0.5 / 31` of a unit.
pub open spec fn len2(index: u8) -> int {
    (index as int / 8) * UNIT / 62
}

/// Length of a 3- or 4-space vector: `(index >> 5)` steps of `0.5 / 7` of a unit.
pub open spec fn len34(index: u8) -> int {
    (index as int / 32) * UNIT / 14
}

/// Per-axis length of a diagonal direction: `len` scaled by `frac / DIAG_DEN`.
pub open spec fn diag_of(len: int, frac: int) -> int {
    len * frac / DIAG_DEN as int
}

/// Plane direction `k` (0..8): four diagonals, then +x, -x, +y, -y.
pub open spec fn dir2(k: int) -> (int, int) {
    if k < 4 {
        (sign_of(k % 4 >= 2), sign_of(k % 2 == 1))
    } else if k < 6 {
        (sign_of(k == 5), 0)
    } else {
        (0, sign_of(k == 7))
    }
}

/// 3-space direction `k` (0..18): twelve edge diagonals in the xy, xz and yz
/// planes, then +x, +y, +z, -x, -y, -z.
pub open spec fn dir3(k: int) -> (int, int, int) {
    if k < 12 {
        let a = sign_of(k % 4 >= 2);
        let b = sign_of(k % 2 == 1);
        if k < 4 {
            (a, b, 0)
        } else if k < 8 {
            (a, 0, b)
        } else {
            (0, a, b)
        }
    } else {
        let s = sign_of(k >= 15);
        let axis = (k - 12) % 3;
        if axis == 0 {
            (s, 0, 0)
        } else if axis == 1 {
            (0, s, 0)
        } else {
            (0, 0, s)
        }
    }
}

/// 4-space direction `k` (0..32): the face diagonals, eight per axis left
/// out (w, z, y, x in turn).
pub open spec fn dir4(k: int) -> (int, int, int, int) {
    let a = sign_of(k % 4 >= 2);
    let b = sign_of(k % 2 == 1);
    let c = sign_of(k % 8 >= 4);
    if k < 8 {
        (a, b, c, 0)
    } else if k < 16 {
        (a, b, 0, c)
    } else if k < 24 {
        (a, 0, b, c)
    } else {
        (0, a, b, c)
    }
}

/// The plane vector that `index` selects.
pub open spec fn grad2(index: u8) -> Point2 {
    let k = index as int % 8;
    let d = dir2(k);
    let mag = if k < 4 {
        diag_of(len2(index), INV_SQRT2 as int)
    } else {
        len2(index)
    };
    Point2 { x: scale(d.0, mag) as i64, y: scale(d.1, mag) as i64 }
}

/// The 3-space vector that `index` selects.
pub open spec fn grad3(index: u8) -> Point3 {
    let k = index as int % 18;
    let d = dir3(k);
    let mag = if k < 12 {
        diag_of(len34(index), INV_SQRT2 as int)
    } else {
        len34(index)
    };
    Point3 { x: scale(d.0, mag) as i64, y: scale(d.1, mag) as i64, z: scale(d.2, mag) as i64 }
}

/// The 4-space vector that `index` selects.
pub open spec fn grad4(index: u8) -> Point4 {
    let k = index as int % 32;
    let d = dir4(k);
    let mag = diag_of(len34(index), INV_SQRT3 as int);
    Point4 {
        x: scale(d.0, mag) as i64,
        y: scale(d.1, mag) as i64,
        z: scale(d.2, mag) as i64,
        w: scale(d.3, mag) as i64,
    }
}

/// The feature point of a plane corner: the corner plus its hashed vector.
pub open spec fn corner_point2(c: Cell2, h: u8) -> Point2 {
    Point2 { x: (c.x * UNIT + grad2(h).x) as i64, y: (c.y * UNIT + grad2(h).y) as i64 }
}

pub open spec fn corner_point3(c: Cell3, h: u8) -> Point3 {
    Point3 {
        x: (c.x * UNIT + grad3(h).x) as i64,
        y: (c.y * UNIT + grad3(h).y) as i64,
        z: (c.z * UNIT + grad3(h).z) as i64,
    }
}

pub open spec fn corner_point4(c: Cell4, h: u8) -> Point4 {
    Point4 {
        x: (c.x * UNIT + grad4(h).x) as i64,
        y: (c.y * UNIT + grad4(h).y) as i64,
        z: (c.z * UNIT + grad4(h).z) as i64,
        w: (c.w * UNIT + grad4(h).w) as i64,
    }
}

/// A corner that the search may visit: one lattice unit past the range of
/// position coordinates at most.
pub open spec fn corner_ok(x: i64) -> bool {
    -2147483649 <= x <= 2147483649
}

/// Lengths and diagonals never exceed half a unit.
proof fn lemma_lengths(index: u8)
    ensures
        0 <= len2(index) <= UNIT / 2,
        0 <= len34(index) <= UNIT / 2,
        0 <= diag_of(len2(index), INV_SQRT2 as int) <= len2(index),
        0 <= diag_of(len34(index), INV_SQRT2 as int) <= len34(index),
        0 <= diag_of(len34(index), INV_SQRT3 as int) <= len34(index),
{
    let q2 = index as int / 8;
    let q3 = index as int / 32;
    assert(0 <= q2 <= 31);
    assert(0 <= q3 <= 7);
    assert(0 <= q2 * 65536 <= 31 * 65536) by (nonlinear_arith)
        requires
            0 <= q2 <= 31,
    ;
    assert(0 <= q3 * 65536 <= 7 * 65536) by (nonlinear_arith)
        requires
            0 <= q3 <= 7,
    ;
    vstd::arithmetic::div_mod::lemma_div_is_ordered(q2 * 65536, 2031616, 62);
    vstd::arithmetic::div_mod::lemma_div_is_ordered(q3 * 65536, 458752, 14);
    vstd::arithmetic::div_mod::lemma_div_pos_is_pos(q2 * 65536, 62);
    vstd::arithmetic::div_mod::lemma_div_pos_is_pos(q3 * 65536, 14);
    lemma_diag(len2(index), INV_SQRT2 as int);
    lemma_diag(len34(index), INV_SQRT2 as int);
    lemma_diag(len34(index), INV_SQRT3 as int);
}

proof fn lemma_diag(len: int, frac: int)
    requires
        0 <= len,
        0 <= frac <= DIAG_DEN,
    ensures
        0 <= diag_of(len, frac) <= len,
{
    assert(0 <= len * frac <= len * 100000000000) by (nonlinear_arith)
        requires
            0 <= len,
            0 <= frac <= 100000000000,
    ;
    vstd::arithmetic::div_mod::lemma_div_is_ordered(len * frac, len * 100000000000, 100000000000);
    vstd::arithmetic::div_mod::lemma_div_pos_is_pos(len * frac, 100000000000);
    vstd::arithmetic::div_mod::lemma_div_by_multiple(len, 100000000000);
}

/// Every component of a table vector lies within half a unit of zero.
pub proof fn lemma_grad_bounds(index: u8)
    ensures
        -UNIT / 2 <= grad2(index).x <= UNIT / 2,
        -UNIT / 2 <= grad2(index).y <= UNIT / 2,
        -UNIT / 2 <= grad3(index).x <= UNIT / 2,
        -UNIT / 2 <= grad3(index).y <= UNIT / 2,
        -UNIT / 2 <= grad3(index).z <= UNIT / 2,
        -UNIT / 2 <= grad4(index).x <= UNIT / 2,
        -UNIT / 2 <= grad4(index).y <= UNIT / 2,
        -UNIT / 2 <= grad4(index).z <= UNIT / 2,
        -UNIT / 2 <= grad4(index).w <= UNIT / 2,
{
    lemma_lengths(index);
}

/// Length and diagonal magnitudes of `index`, computed.
fn magnitudes(index: u8, shift_high: bool, frac: i64) -> (r: (i64, i64))
    requires
        frac == INV_SQRT2 || frac == INV_SQRT3,
    ensures
        !shift_high ==> r.0 == len2(index),
        shift_high ==> r.0 == len34(index),
        r.1 == diag_of(r.0 as int, frac as int),
{
    proof {
        lemma_lengths(index);
    }
    let len: i64 = if shift_high {
        ((index / 32) as i64) * UNIT / 14
    } else {
        ((index / 8) as i64) * UNIT / 62
    };
    proof {
        assert(0 <= len * frac <= 32768 * 100000000000) by (nonlinear_arith)
            requires
                0 <= len <= 32768,
                0 <= frac <= 100000000000,
        ;
    }
    (len, len * frac / DIAG_DEN)
}

/// The plane vector of the direction table that `index` selects.
pub fn get_vec2(index: u8) -> (r: Point2)
    ensures
        r == grad2(index),
{
    let (one, diag) = magnitudes(index, false, INV_SQRT2);
    proof {
        lemma_lengths(index);
    }
    match index % 8 {
        0 => Point2 { x: diag, y: diag },
        1 => Point2 { x: diag, y: -diag },
        2 => Point2 { x: -diag, y: diag },
        3 => Point2 { x: -diag, y: -diag },
        4 => Point2 { x: one, y: 0 },
        5 => Point2 { x: -one, y: 0 },
        6 => Point2 { x: 0, y: one },
        _ => Point2 { x: 0, y: -one },
    }
}

/// The 3-space vector of the direction table that `index` selects.
pub fn get_vec3(index: u8) -> (r: Point3)
    ensures
        r == grad3(index),
{
    let (one, diag) = magnitudes(index, true, INV_SQRT2);
    proof {
        lemma_lengths(index);
    }
    match index % 18 {
        0 => Point3 { x: diag, y: diag, z: 0 },
        1 => Point3 { x: diag, y: -diag, z: 0 },
        2 => Point3 { x: -diag, y: diag, z: 0 },
        3 => Point3 { x: -diag, y: -diag, z: 0 },
        4 => Point3 { x: diag, y: 0, z: diag },
        5 => Point3 { x: diag, y: 0, z: -diag },
        6 => Point3 { x: -diag, y: 0, z: diag },
        7 => Point3 { x: -diag, y: 0, z: -diag },
        8 => Point3 { x: 0, y: diag, z: diag },
        9 => Point3 { x: 0, y: diag, z: -diag },
        10 => Point3 { x: 0, y: -diag, z: diag },
        11 => Point3 { x: 0, y: -diag, z: -diag },
        12 => Point3 { x: one, y: 0, z: 0 },
        13 => Point3 { x: 0, y: one, z: 0 },
        14 => Point3 { x: 0, y: 0, z: one },
        15 => Point3 { x: -one, y: 0, z: 0 },
        16 => Point3 { x: 0, y: -one, z: 0 },
        _ => Point3 { x: 0, y: 0, z: -one },
    }
}

/// The 4-space vector of the direction table that `index` selects.
pub fn get_vec4(index: u8) -> (r: Point4)
    ensures
        r == grad4(index),
{
    let (_, d) = magnitudes(index, true, INV_SQRT3);
    proof {
        lemma_lengths(index);
    }
    match index % 32 {
        0 => Point4 { x: d, y: d, z: d, w: 0 },
        1 => Point4 { x: d, y: -d, z: d, w: 0 },
        2 => Point4 { x: -d, y: d, z: d, w: 0 },
        3 => Point4 { x: -d, y: -d, z: d, w: 0 },
        4 => Point4 { x: d, y: d, z: -d, w: 0 },
        5 => Point4 { x: d, y: -d, z: -d, w: 0 },
        6 => Point4 { x: -d, y: d, z: -d, w: 0 },
        7 => Point4 { x: -d, y: -d, z: -d, w: 0 },
        8 => Point4 { x: d, y: d, z: 0, w: d },
        9 => Point4 { x: d, y: -d, z: 0, w: d },
        10 => Point4 { x: -d, y: d, z: 0, w: d },
        11 => Point4 { x: -d, y: -d, z: 0, w: d },
        12 => Point4 { x: d, y: d, z: 0, w: -d },
        13 => Point4 { x: d, y: -d, z: 0, w: -d },
        14 => Point4 { x: -d, y: d, z: 0, w: -d },
        15 => Point4 { x: -d, y: -d, z: 0, w: -d },
        16 => Point4 { x: d, y: 0, z: d, w: d },
        17 => Point4 { x: d, y: 0, z: -d, w: d },
        18 => Point4 { x: -d, y: 0, z: d, w: d },
        19 => Point4 { x: -d, y: 0, z: -d, w: d },
        20 => Point4 { x: d, y: 0, z: d, w: -d },
        21 => Point4 { x: d, y: 0, z: -d, w: -d },
        22 => Point4 { x: -d, y: 0, z: d, w: -d },
        23 => Point4 { x: -d, y: 0, z: -d, w: -d },
        24 => Point4 { x: 0, y: d, z: d, w: d },
        25 => Point4 { x: 0, y: d, z: -d, w: d },
        26 => Point4 { x: 0, y: -d, z: d, w: d },
        27 => Point4 { x: 0, y: -d, z: -d, w: d },
        28 => Point4 { x: 0, y: d, z: d, w: -d },
        29 => Point4 { x: 0, y: d, z: -d, w: -d },
        30 => Point4 { x: 0, y: -d, z: d, w: -d },
        _ => Point4 { x: 0, y: -d, z: -d, w: -d },
    }
}

/// The feature point anchored at plane corner `c`.
pub fn gradient_point2<H: SeedHash>(seed: &H, c: Cell2) -> (r: Point2)
    requires
        corner_ok(c.x) && corner_ok(c.y),
    ensures
        r == corner_point2(c, seed.hash2(c)),
{
    let g = get_vec2(seed.get2(c));
    proof {
        lemma_grad_bounds(seed.hash2(c));
    }
    Point2 { x: c.x * UNIT + g.x, y: c.y * UNIT + g.y }
}

/// The feature point anchored at 3-space corner `c`.
pub fn gradient_point3<H: SeedHash>(seed: &H, c: Cell3) -> (r: Point3)
    requires
        corner_ok(c.x) && corner_ok(c.y) && corner_ok(c.z),
    ensures
        r == corner_point3(c, seed.hash3(c)),
{
    let g = get_vec3(seed.get3(c));
    proof {
        lemma_grad_bounds(seed.hash3(c));
    }
    Point3 { x: c.x * UNIT + g.x, y: c.y * UNIT + g.y, z: c.z * UNIT + g.z }
}

/// The feature point anchored at 4-space corner `c`.
pub fn gradient_point4<H: SeedHash>(seed: &H, c: Cell4) -> (r: Point4)
    requires
        corner_ok(c.x) && corner_ok(c.y) && corner_ok(c.z) && corner_ok(c.w),
    ensures
        r == corner_point4(c, seed.hash4(c)),
{
    let g = get_vec4(seed.get4(c));
    proof {
        lemma_grad_bounds(seed.hash4(c));
    }
    Point4 {
        x: c.x * UNIT + g.x,
        y: c.y * UNIT + g.y,
        z: c.z * UNIT + g.z,
        w: c.w * UNIT + g.w,
    }
}

} // verus!
