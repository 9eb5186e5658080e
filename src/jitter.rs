//! Feature points jittered inside their own lattice cell.
//!
//! Each nibble of a hashed byte moves one coordinate by `nibble / 15` of a
//! unit from the cell's lower corner.

use vstd::prelude::*;
use crate::point::{Cell2, Cell3, Cell4, Point2, Point3, Point4, UNIT};
use crate::seed::SeedHash;

verus! {

/// Offset of a nibble `n` (0..16): `n / 15` of a unit, rounded down.
pub open spec fn jitter(n: int) -> int {
    n * UNIT / 15
}

/// The low nibble of a byte.
pub open spec fn low_nibble(h: u8) -> int {
    h as int % 16
}

/// The high nibble of a byte.
pub open spec fn high_nibble(h: u8) -> int {
    h as int / 16
}

/// A cell whose feature point the search may place: one unit past the range
/// of position coordinates at most.
pub open spec fn cell_ok(x: i64) -> bool {
    -2147483649 <= x <= 2147483649
}

/// The same cell with its last coordinate moved by 128: where the second
/// hash of a 3-space cell is taken.
pub open spec fn shifted3(c: Cell3) -> Cell3 {
    Cell3 { x: c.x, y: c.y, z: (c.z + 128) as i64 }
}

pub open spec fn shifted4(c: Cell4) -> Cell4 {
    Cell4 { x: c.x, y: c.y, z: c.z, w: (c.w + 128) as i64 }
}

/// The feature point of plane cell `c` whose hash is `h`.
pub open spec fn jitter_point2(c: Cell2, h: u8) -> Point2 {
    Point2 {
        x: (c.x * UNIT + jitter(low_nibble(h))) as i64,
        y: (c.y * UNIT + jitter(high_nibble(h))) as i64,
    }
}

/// The feature point of 3-space cell `c` whose two hashes are `h1` and `h2`.
pub open spec fn jitter_point3(c: Cell3, h1: u8, h2: u8) -> Point3 {
    Point3 {
        x: (c.x * UNIT + jitter(low_nibble(h1))) as i64,
        y: (c.y * UNIT + jitter(high_nibble(h1))) as i64,
        z: (c.z * UNIT + jitter(low_nibble(h2))) as i64,
    }
}

/// The feature point of 4-space cell `c` whose two hashes are `h1` and `h2`.
pub open spec fn jitter_point4(c: Cell4, h1: u8, h2: u8) -> Point4 {
    Point4 {
        x: (c.x * UNIT + jitter(low_nibble(h1))) as i64,
        y: (c.y * UNIT + jitter(high_nibble(h1))) as i64,
        z: (c.z * UNIT + jitter(low_nibble(h2))) as i64,
        w: (c.w * UNIT + jitter(high_nibble(h2))) as i64,
    }
}

pub open spec fn cell_point2<H: SeedHash>(seed: &H, c: Cell2) -> Point2 {
    jitter_point2(c, seed.hash2(c))
}

pub open spec fn cell_point3<H: SeedHash>(seed: &H, c: Cell3) -> Point3 {
    jitter_point3(c, seed.hash3(c), seed.hash3(shifted3(c)))
}

pub open spec fn cell_point4<H: SeedHash>(seed: &H, c: Cell4) -> Point4 {
    jitter_point4(c, seed.hash4(c), seed.hash4(shifted4(c)))
}

/// A nibble's offset lies in `[0, UNIT]`, and below `UNIT` unless the nibble is 15.
pub proof fn lemma_jitter_bounds(n: int)
    requires
        0 <= n < 16,
    ensures
        0 <= jitter(n) <= UNIT,
        n < 15 ==> jitter(n) < UNIT,
        n == 15 ==> jitter(n) == UNIT,
{
    assert(0 <= n * 65536 <= 15 * 65536) by (nonlinear_arith)
        requires
            0 <= n < 16,
    ;
    vstd::arithmetic::div_mod::lemma_div_is_ordered(n * 65536, 983040, 15);
    vstd::arithmetic::div_mod::lemma_div_pos_is_pos(n * 65536, 15);
    if n < 15 {
        assert(n * 65536 < 15 * 65536) by (nonlinear_arith)
            requires
                n < 15,
        ;
        vstd::arithmetic::div_mod::lemma_div_is_ordered(n * 65536, 917504, 15);
    }
}

/// Offset of a nibble, computed.
fn nibble_offset(n: u8) -> (r: i64)
    requires
        n < 16,
    ensures
        r == jitter(n as int),
        0 <= r <= UNIT,
{
    proof {
        lemma_jitter_bounds(n as int);
    }
    (n as i64) * UNIT / 15
}

/// The feature point of plane cell `c`: one hash, its two nibbles.
pub fn get_cell_point2<H: SeedHash>(seed: &H, c: Cell2) -> (r: Point2)
    requires
        cell_ok(c.x) && cell_ok(c.y),
    ensures
        r == cell_point2(seed, c),
{
    let h = seed.get2(c);
    let ox = nibble_offset(h % 16);
    let oy = nibble_offset(h / 16);
    Point2 { x: c.x * UNIT + ox, y: c.y * UNIT + oy }
}

/// The feature point of 3-space cell `c`: the nibbles of two hashes, the
/// second taken with the last coordinate moved by 128.
pub fn get_cell_point3<H: SeedHash>(seed: &H, c: Cell3) -> (r: Point3)
    requires
        cell_ok(c.x) && cell_ok(c.y) && cell_ok(c.z),
    ensures
        r == cell_point3(seed, c),
{
    let h1 = seed.get3(c);
    let h2 = seed.get3(Cell3 { x: c.x, y: c.y, z: c.z + 128 });
    let ox = nibble_offset(h1 % 16);
    let oy = nibble_offset(h1 / 16);
    let oz = nibble_offset(h2 % 16);
    Point3 { x: c.x * UNIT + ox, y: c.y * UNIT + oy, z: c.z * UNIT + oz }
}

/// The feature point of 4-space cell `c`: the four nibbles of two hashes.
pub fn get_cell_point4<H: SeedHash>(seed: &H, c: Cell4) -> (r: Point4)
    requires
        cell_ok(c.x) && cell_ok(c.y) && cell_ok(c.z) && cell_ok(c.w),
    ensures
        r == cell_point4(seed, c),
{
    let h1 = seed.get4(c);
    let h2 = seed.get4(Cell4 { x: c.x, y: c.y, z: c.z, w: c.w + 128 });
    let ox = nibble_offset(h1 % 16);
    let oy = nibble_offset(h1 / 16);
    let oz = nibble_offset(h2 % 16);
    let ow = nibble_offset(h2 / 16);
    Point4 { x: c.x * UNIT + ox, y: c.y * UNIT + oy, z: c.z * UNIT + oz, w: c.w * UNIT + ow }
}

} // verus!
