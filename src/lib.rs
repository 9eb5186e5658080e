//! Cellular ("Worley") noise over 2-, 3- and 4-dimensional space, in exact
//! fixed-point arithmetic.
//!
//! A position coordinate is an `i64` counting `1 / UNIT` steps of a lattice
//! unit. A distance or noise value is a `u64` counting `1 / (UNIT * UNIT)`
//! steps, so `DIST_ONE` stands for `1.0`; a Manhattan distance is scaled by
//! `UNIT` to share that scale.
//!
//! Feature points come from a seeded hash of lattice cells (`SeedHash`):
//! the nearest-distance functions anchor one point at each cell corner and
//! search the corners of the point's cell; the edge and cell-value functions
//! jitter one point inside each cell and search the 3^n cells around it.

pub mod point;
pub mod seed;
pub mod gradient;
pub mod jitter;
pub mod search;
pub mod cell;
pub mod lemmas;

pub use point::{
    Cell2, Cell3, Cell4, Metric, Point2, Point3, Point4, DIST_ONE, MAX_COORD, UNIT,
    lattice_cell, range_manhattan2, range_manhattan3, range_manhattan4, range_sqr_euclidian2,
    range_sqr_euclidian3, range_sqr_euclidian4,
};
pub use seed::{Seed, SeedHash};
pub use gradient::{get_vec2, get_vec3, get_vec4};
pub use jitter::{get_cell_point2, get_cell_point3, get_cell_point4};
pub use cell::{
    cell2_manhattan, cell2_manhattan_inv, cell2_manhattan_value, cell2_range, cell2_range_inv,
    cell2_seed_2_points, cell2_seed_cell, cell2_seed_point, cell2_value, cell3_manhattan,
    cell3_manhattan_inv, cell3_manhattan_value, cell3_range, cell3_range_inv,
    cell3_seed_2_points, cell3_seed_cell, cell3_seed_point, cell3_value, cell4_manhattan,
    cell4_manhattan_inv, cell4_manhattan_value, cell4_range, cell4_range_inv,
    cell4_seed_2_points, cell4_seed_cell, cell4_seed_point, cell4_value,
};
