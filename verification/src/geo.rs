//! Geographic coordinates in exact integer form.
//!
//! Longitudes and latitudes are carried as signed microdegrees, so every
//! geometric decision in this crate (antimeridian splitting, nearest-object
//! distances, screen-cell mapping) is exact integer arithmetic.

use vstd::prelude::*;
use vstd::arithmetic::div_mod::{
    lemma_div_is_ordered, lemma_div_multiples_vanish, lemma_div_multiples_vanish_fancy,
    lemma_fundamental_div_mod, lemma_mod_bound,
};
use vstd::arithmetic::mul::{lemma_mul_is_commutative, lemma_mul_nonnegative};

verus! {

/// Microdegrees in one degree.
pub const DEG: i64 = 1_000_000;

/// Largest representable longitude: +180 degrees.
pub const MAX_LON: i64 = 180 * DEG;

/// Largest representable latitude: +90 degrees.
pub const MAX_LAT: i64 = 90 * DEG;

/// A longitude in range, in microdegrees.
pub open spec fn valid_lon(lon: int) -> bool {
    -MAX_LON <= lon <= MAX_LON
}

/// A latitude in range, in microdegrees.
pub open spec fn valid_lat(lat: int) -> bool {
    -MAX_LAT <= lat <= MAX_LAT
}

/// A point on the ground: longitude and latitude in microdegrees.
#[derive(Clone, Copy, PartialEq, Eq, Structural, Debug)]
pub struct GroundPoint {
    pub lon: i64,
    pub lat: i64,
}

impl GroundPoint {
    /// Both coordinates in range.
    pub open spec fn wf(self) -> bool {
        valid_lon(self.lon as int) && valid_lat(self.lat as int)
    }
}

/// Longitude of the map cell at column `x` of `width`: the left map edge is
/// -180 degrees and column widths are equal, rounded down to a microdegree.
pub open spec fn spec_cell_lon(x: int, width: int) -> int {
    -MAX_LON + ((x + 1) * 360 * DEG) / width
}

/// Latitude of the map cell at row `y` of `height`: the top map edge is +90
/// degrees and row heights are equal, rounded down to a microdegree.
pub open spec fn spec_cell_lat(y: int, height: int) -> int {
    MAX_LAT - ((y + 1) * 180 * DEG) / height
}

/// The geographic point a map cell stands for, on a map of `width` columns
/// and `height` rows covering the whole ground.
pub fn area_to_lon_lat(x: u16, y: u16, width: u16, height: u16) -> (p: GroundPoint)
    requires
        x < width,
        y < height,
    ensures
        p.lon == spec_cell_lon(x as int, width as int),
        p.lat == spec_cell_lat(y as int, height as int),
        p.wf(),
{
    proof {
        lemma_div_is_ordered((x + 1) * 360 * (DEG as int), (width as int) * 360 * DEG, width as int);
        lemma_div_multiples_vanish(360 * (DEG as int), width as int);
        lemma_div_is_ordered((y + 1) * 180 * (DEG as int), (height as int) * 180 * DEG, height as int);
        lemma_div_multiples_vanish(180 * (DEG as int), height as int);
    }
    let lon: i64 = -MAX_LON + ((x as i64 + 1) * 360 * DEG) / (width as i64);
    let lat: i64 = MAX_LAT - ((y as i64 + 1) * 180 * DEG) / (height as i64);
    GroundPoint { lon, lat }
}

/// The map column whose cell the given longitude falls in: the rounded
/// column fraction, shifted one cell left and clamped at the left edge.
pub open spec fn spec_lon_cell(lon: int, width: int) -> int {
    let rounded = ((lon + MAX_LON) * width + 180 * DEG) / (360 * DEG);
    if rounded >= 1 {
        rounded - 1
    } else {
        0
    }
}

/// The map row for a latitude, counted from the top edge at +90 degrees.
pub open spec fn spec_lat_cell(lat: int, height: int) -> int {
    let rounded = ((MAX_LAT - lat) * height + 90 * DEG) / (180 * DEG);
    if rounded >= 1 {
        rounded - 1
    } else {
        0
    }
}

/// The map cell a geographic point falls in, on a map of `width` columns and
/// `height` rows: the inverse of [`area_to_lon_lat`], rounding to the
/// nearest cell boundary.
pub fn lon_lat_to_area(p: GroundPoint, width: u16, height: u16) -> (cell: (u16, u16))
    requires
        p.wf(),
        width >= 1,
        height >= 1,
    ensures
        cell.0 == spec_lon_cell(p.lon as int, width as int),
        cell.1 == spec_lat_cell(p.lat as int, height as int),
        cell.0 < width,
        cell.1 < height,
{
    proof {
        assert((p.lon + MAX_LON) * (width as int) <= 360_000_000 * (width as int))
            by (nonlinear_arith)
            requires
                p.lon + MAX_LON <= 360_000_000,
                width >= 0,
        ;
        assert((MAX_LAT - p.lat) * (height as int) <= 180_000_000 * (height as int))
            by (nonlinear_arith)
            requires
                MAX_LAT - p.lat <= 180_000_000,
                height >= 0,
        ;
        lemma_mul_nonnegative(p.lon + MAX_LON, width as int);
        lemma_mul_nonnegative(MAX_LAT - p.lat, height as int);
    }
    let xd: i64 = (p.lon + MAX_LON) * (width as i64) + 180 * DEG;
    let yd: i64 = (MAX_LAT - p.lat) * (height as i64) + 90 * DEG;
    proof {
        lemma_div_is_ordered(xd as int, 360_000_000 * (width as int) + 180_000_000, 360_000_000);
        lemma_div_multiples_vanish_fancy(width as int, 180_000_000, 360_000_000);
        lemma_div_is_ordered(yd as int, 180_000_000 * (height as int) + 90_000_000, 180_000_000);
        lemma_div_multiples_vanish_fancy(height as int, 90_000_000, 180_000_000);
    }
    let xq: u64 = (xd as u64) / 360_000_000;
    let yq: u64 = (yd as u64) / 180_000_000;
    let x: u64 = if xq >= 1 {
        xq - 1
    } else {
        0
    };
    let y: u64 = if yq >= 1 {
        yq - 1
    } else {
        0
    };
    (x as u16, y as u16)
}

/// Rounding the re-scaled point of a cell recovers the cell: flooring the
/// cell point loses under `cells` microdegrees, and the half-scale offset
/// added before rounding absorbs that loss, since `cells` never exceeds it.
proof fn lemma_cell_round_trip_one_axis(c: int, cells: int, full: int, half: int)
    requires
        0 <= c < cells <= 65536,
        full == 2 * half,
        half >= 90_000_000,
    ensures
        ((c + 1) * full / cells * cells + half) / full == c + 1,
{
    let n = (c + 1) * full;
    let q = n / cells;
    let r = n % cells;
    lemma_mul_is_commutative(c + 1, full);
    lemma_fundamental_div_mod(n, cells);
    lemma_mod_bound(n, cells);
    lemma_mul_is_commutative(q, cells);
    // cells * q == n - r, so the re-scaled dividend sits within half a cell
    // above n
    lemma_div_is_ordered(n + 1, q * cells + half, full);
    lemma_div_multiples_vanish_fancy(c + 1, 1, full);
    lemma_div_is_ordered(q * cells + half, n + half, full);
    lemma_div_multiples_vanish_fancy(c + 1, half, full);
}

/// Law: the two cell mappings are inverse on whole cells — the geographic
/// point a map cell stands for falls back in that very cell.
pub proof fn lemma_cell_mapping_round_trip(x: int, y: int, width: int, height: int)
    requires
        0 <= x < width <= 65536,
        0 <= y < height <= 65536,
    ensures
        spec_lon_cell(spec_cell_lon(x, width), width) == x,
        spec_lat_cell(spec_cell_lat(y, height), height) == y,
{
    lemma_cell_round_trip_one_axis(x, width, 360_000_000, 180_000_000);
    lemma_cell_round_trip_one_axis(y, height, 180_000_000, 90_000_000);
    let lon = spec_cell_lon(x, width);
    let lat = spec_cell_lat(y, height);
    assert((lon + MAX_LON) * width == (x + 1) * 360_000_000 / width * width);
    assert((MAX_LAT - lat) * height == (y + 1) * 180_000_000 / height * height);
}

} // verus!
