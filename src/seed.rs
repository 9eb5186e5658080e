//! The seeded hash that places every feature point.

use vstd::prelude::*;
use crate::point::{Cell2, Cell3, Cell4};

verus! {

/// A deterministic hash from a lattice cell to a byte: the one source of
/// randomness of the noise functions. `hash2`, `hash3` and `hash4` name the
/// value that `get2`, `get3` and `get4` return, so equal cells always hash
/// alike. An implementation outside verified code gives each `hashN` the
/// same body as its `getN`.
pub trait SeedHash {
    spec fn hash2(&self, c: Cell2) -> u8;

    spec fn hash3(&self, c: Cell3) -> u8;

    spec fn hash4(&self, c: Cell4) -> u8;

    fn get2(&self, c: Cell2) -> (r: u8)
        ensures
            r == self.hash2(c),
    ;

    fn get3(&self, c: Cell3) -> (r: u8)
        ensures
            r == self.hash3(c),
    ;

    fn get4(&self, c: Cell4) -> (r: u8)
        ensures
            r == self.hash4(c),
    ;
}

/// A hash driven by a 256-entry table, usually a permutation of `0..256`:
/// each coordinate's low byte is added to the table entry of the coordinates
/// before it, and the sum (mod 256) looks up the next entry.
pub struct Seed {
    table: [u8; 256],
}

/// The low byte of a coordinate, as a table index.
pub open spec fn low_byte(x: i64) -> int {
    (x as int) % 256
}

impl Seed {
    /// The table entry at `i`.
    pub closed spec fn entry(&self, i: int) -> u8 {
        self.table@[i]
    }

    /// One hashing step: the entry at `(prev + low_byte(x)) mod 256`.
    pub open spec fn step(&self, prev: int, x: i64) -> int {
        self.entry((prev + low_byte(x)) % 256) as int
    }

    pub open spec fn chain2(&self, c: Cell2) -> int {
        self.step(self.step(0, c.x), c.y)
    }

    pub open spec fn chain3(&self, c: Cell3) -> int {
        self.step(self.step(self.step(0, c.x), c.y), c.z)
    }

    pub open spec fn chain4(&self, c: Cell4) -> int {
        self.step(self.step(self.step(self.step(0, c.x), c.y), c.z), c.w)
    }

    /// A seed over the given table.
    pub fn new(table: [u8; 256]) -> (s: Seed)
        ensures
            forall|i: int| 0 <= i < 256 ==> s.entry(i) == table@[i],
    {
        Seed { table }
    }

    fn mix(&self, prev: u8, x: i64) -> (r: u8)
        ensures
            r == self.step(prev as int, x),
    {
        let low = x.checked_rem_euclid(256);
        let b: usize = match low {
            Some(v) => v as usize,
            None => 0,
        };
        let i: usize = (prev as usize + b) % 256;
        self.table[i]
    }
}

impl SeedHash for Seed {
    open spec fn hash2(&self, c: Cell2) -> u8 {
        self.chain2(c) as u8
    }

    open spec fn hash3(&self, c: Cell3) -> u8 {
        self.chain3(c) as u8
    }

    open spec fn hash4(&self, c: Cell4) -> u8 {
        self.chain4(c) as u8
    }

    fn get2(&self, c: Cell2) -> (r: u8) {
        let a = self.mix(0, c.x);
        self.mix(a, c.y)
    }

    fn get3(&self, c: Cell3) -> (r: u8) {
        let a = self.mix(0, c.x);
        let b = self.mix(a, c.y);
        self.mix(b, c.z)
    }

    fn get4(&self, c: Cell4) -> (r: u8) {
        let a = self.mix(0, c.x);
        let b = self.mix(a, c.y);
        let d = self.mix(b, c.z);
        self.mix(d, c.w)
    }
}

} // verus!
