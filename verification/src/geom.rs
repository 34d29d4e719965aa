//! Integer world- and screen-space geometry: points, bounds, and the
//! distance computation used by the render pass.

use vstd::prelude::*;

verus! {

/// Every coordinate handled by this crate stays within this bound, so that
/// squared distances and offset sums cannot overflow.
pub const COORD_LIMIT: i64 = 1_000_000;

/// A world-space position.
#[derive(Clone, Copy, Debug, PartialEq, Eq, Structural)]
pub struct WorldPos {
    pub x: i64,
    pub y: i64,
    pub z: i64,
}

/// A screen-space point.
#[derive(Clone, Copy, Debug, PartialEq, Eq, Structural)]
pub struct ScreenPos {
    pub x: i64,
    pub y: i64,
}

pub open spec fn world_ok(v: WorldPos) -> bool {
    &&& -COORD_LIMIT <= v.x <= COORD_LIMIT
    &&& -COORD_LIMIT <= v.y <= COORD_LIMIT
    &&& -COORD_LIMIT <= v.z <= COORD_LIMIT
}

pub open spec fn screen_ok(v: ScreenPos) -> bool {
    &&& -COORD_LIMIT <= v.x <= COORD_LIMIT
    &&& -COORD_LIMIT <= v.y <= COORD_LIMIT
}

/// Componentwise sum, used to offset a model-space hull corner by a world
/// position. Defined for bounded operands, where no truncation occurs.
pub open spec fn world_sum(a: WorldPos, b: WorldPos) -> WorldPos {
    WorldPos { x: (a.x + b.x) as i64, y: (a.y + b.y) as i64, z: (a.z + b.z) as i64 }
}

pub fn world_add(a: WorldPos, b: WorldPos) -> (r: WorldPos)
    requires
        world_ok(a),
        world_ok(b),
    ensures
        r == world_sum(a, b),
        r.x == a.x + b.x,
        r.y == a.y + b.y,
        r.z == a.z + b.z,
{
    WorldPos { x: a.x + b.x, y: a.y + b.y, z: a.z + b.z }
}

pub open spec fn is_sqrt_floor(n: int, r: int) -> bool {
    &&& 0 <= r
    &&& r * r <= n
    &&& n < (r + 1) * (r + 1)
}

/// The integer square root (rounded down) of a non-negative integer.
pub open spec fn sqrt_floor(n: int) -> int {
    choose|r: int| is_sqrt_floor(n, r)
}

pub proof fn lemma_sqrt_floor_unique(n: int, r: int)
    requires
        is_sqrt_floor(n, r),
    ensures
        sqrt_floor(n) == r,
{
    let r2 = choose|q: int| is_sqrt_floor(n, q);
    assert(is_sqrt_floor(n, r2));
    assert(r2 == r) by (nonlinear_arith)
        requires
            is_sqrt_floor(n, r),
            is_sqrt_floor(n, r2),
    ;
}

/// Largest admissible squared distance: three squared coordinate differences,
/// each difference at most `2 * COORD_LIMIT`.
pub const MAX_DIST_SQ: u64 = 12_000_000_000_000;

pub fn isqrt(n: u64) -> (r: u64)
    requires
        n <= MAX_DIST_SQ,
    ensures
        is_sqrt_floor(n as int, r as int),
        r == sqrt_floor(n as int),
{
    let mut r: u64 = 0;
    loop
        invariant
            n <= MAX_DIST_SQ,
            r * r <= n,
            r <= 4_000_000,
        ensures
            is_sqrt_floor(n as int, r as int),
        decreases n - r * r,
    {
        proof {
            assert((r + 1) * (r + 1) <= 16_000_008_000_001) by (nonlinear_arith)
                requires
                    r <= 4_000_000,
            ;
        }
        let next = (r + 1) * (r + 1);
        if next > n {
            break ;
        }
        proof {
            assert((r + 1) * (r + 1) <= MAX_DIST_SQ ==> r + 1 <= 4_000_000) by (nonlinear_arith);
            assert(r * r < (r + 1) * (r + 1)) by (nonlinear_arith);
        }
        r = r + 1;
    }
    proof {
        lemma_sqrt_floor_unique(n as int, r as int);
    }
    r
}

/// Conversion from world units to meters: multiply by 1905, divide by 100000.
pub const UNITS_TO_METERS_NUM: u64 = 1905;

pub const UNITS_TO_METERS_DEN: u64 = 100_000;

pub open spec fn dist_sq(a: WorldPos, b: WorldPos) -> int {
    (a.x - b.x) * (a.x - b.x) + (a.y - b.y) * (a.y - b.y) + (a.z - b.z) * (a.z - b.z)
}

/// Scalar camera-to-actor distance in whole meters (rounded down).
pub open spec fn dist_meters(a: WorldPos, b: WorldPos) -> int {
    sqrt_floor(dist_sq(a, b)) * UNITS_TO_METERS_NUM / UNITS_TO_METERS_DEN as int
}

pub fn distance_meters(a: WorldPos, b: WorldPos) -> (r: i64)
    requires
        world_ok(a),
        world_ok(b),
    ensures
        r == dist_meters(a, b),
        0 <= r <= 100_000,
{
    let dx = a.x - b.x;
    let dy = a.y - b.y;
    let dz = a.z - b.z;
    assert(dx * dx <= 4_000_000_000_000 && dx * dx >= 0) by (nonlinear_arith)
        requires
            -2_000_000 <= dx <= 2_000_000,
    ;
    assert(dy * dy <= 4_000_000_000_000 && dy * dy >= 0) by (nonlinear_arith)
        requires
            -2_000_000 <= dy <= 2_000_000,
    ;
    assert(dz * dz <= 4_000_000_000_000 && dz * dz >= 0) by (nonlinear_arith)
        requires
            -2_000_000 <= dz <= 2_000_000,
    ;
    let sq: u64 = (dx * dx) as u64 + (dy * dy) as u64 + (dz * dz) as u64;
    let units = isqrt(sq);
    assert(units <= 4_000_000) by (nonlinear_arith)
        requires
            units * units <= 12_000_000_000_000,
    ;
    let meters = units * UNITS_TO_METERS_NUM / UNITS_TO_METERS_DEN;
    meters as i64
}

} // verus!
