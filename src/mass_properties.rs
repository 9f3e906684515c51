//! Mass and center of mass of a shape of uniform density.
//!
//! Masses are integers: a volume in cubed coordinate units times the density,
//! rounded down, with pi taken as 355/113. The center of mass is rounded down
//! on every axis.
use vstd::prelude::*;
use crate::math::{coord, point_within, Isometry, Point, MAX_COORD};
use crate::bounding_volume::pt;

verus! {

/// Largest density accepted by the mass computations.
pub const MAX_DENSITY: i64 = 1_000;

/// Upper bound on the mass of a single primitive shape.
pub const MAX_MASS: i128 = 100_000_000_000_000_000_000_000;

/// The mass of a shape and its center of mass in the shape's local frame.
#[derive(Clone, Copy, Debug, PartialEq, Eq, Structural)]
pub struct MassProperties {
    pub mass: i128,
    pub local_com: Point,
}

/// Rounds `v / 2` down.
pub open spec fn half(v: int) -> int {
    v / 2
}

pub open spec fn ball_mass(density: int, r: int) -> int {
    density * 1420 * r * r * r / 339
}

pub open spec fn cuboid_mass(density: int, he: Point) -> int {
    density * 8 * he.x * he.y * he.z
}

pub open spec fn cylinder_mass(density: int, half_height: int, r: int) -> int {
    density * 710 * r * r * half_height / 113
}

pub open spec fn cone_mass(density: int, half_height: int, r: int) -> int {
    density * 710 * r * r * half_height / 339
}

/// A cylinder of length `len` capped by two half balls, all of radius `r`.
pub open spec fn capsule_mass(density: int, len: int, r: int) -> int {
    density * 355 * r * r * (3 * len + 4 * r) / 339
}

/// The square root of `n`, rounded down.
pub open spec fn is_floor_sqrt(n: int, r: int) -> bool {
    0 <= r && r * r <= n < (r + 1) * (r + 1)
}

/// The distance between two points, rounded down.
pub open spec fn is_floor_distance(a: Point, b: Point, d: int) -> bool {
    let dx = b.x - a.x;
    let dy = b.y - a.y;
    let dz = b.z - a.z;
    is_floor_sqrt(dx * dx + dy * dy + dz * dz, d)
}

/// Square root of `n`, rounded down, by bisection.
pub fn floor_sqrt(n: i64) -> (r: i64)
    requires
        0 <= n <= 100_000_000_000_000,
    ensures
        is_floor_sqrt(n as int, r as int),
{
    let mut lo: i64 = 0;
    let mut hi: i64 = 10_000_001;
    assert(hi * hi > n) by (nonlinear_arith)
        requires
            hi == 10_000_001,
            n <= 100_000_000_000_000,
    ;
    while hi - lo > 1
        invariant
            0 <= lo < hi <= 10_000_001,
            lo * lo <= n < hi * hi,
        decreases hi - lo,
    {
        let mid = lo + (hi - lo) / 2;
        assert(mid * mid <= 10_000_001 * 10_000_001) by (nonlinear_arith)
            requires
                0 <= mid <= 10_000_001,
        ;
        if mid * mid <= n {
            lo = mid;
        } else {
            hi = mid;
        }
    }
    assert(hi == lo + 1);
    lo
}

/// Products of bounded non-negative factors stay bounded.
pub proof fn lemma_mul_le(a: int, b: int, ba: int, bb: int)
    requires
        0 <= a <= ba,
        0 <= b <= bb,
    ensures
        0 <= a * b <= ba * bb,
{
    assert(0 <= a * b <= ba * bb) by (nonlinear_arith)
        requires
            0 <= a <= ba,
            0 <= b <= bb,
    ;
}

impl MassProperties {
    /// The mass is within the bound of one primitive and the center lies within reach.
    pub open spec fn wf(self) -> bool {
        0 <= self.mass <= MAX_MASS && point_within(self.local_com, 2 * MAX_COORD)
    }

    /// These mass properties seen from the frame in which `pose` places the shape.
    pub open spec fn transformed_spec(self, pose: Isometry) -> MassProperties {
        MassProperties {
            mass: self.mass,
            local_com: pt(
                coord(pose.translation, 0) + pose.rotate_coord(self.local_com, 0),
                coord(pose.translation, 1) + pose.rotate_coord(self.local_com, 1),
                coord(pose.translation, 2) + pose.rotate_coord(self.local_com, 2),
            ),
        }
    }

    /// These mass properties seen from the frame in which `pose` places the shape.
    pub fn transform_by(&self, pose: &Isometry) -> (r: MassProperties)
        requires
            self.wf(),
            pose.wf(),
        ensures
            r == self.transformed_spec(*pose),
            point_within(r.local_com, 3 * MAX_COORD),
    {
        let x = pose.translation.x + signed_coord(pose, &self.local_com, 0);
        let y = pose.translation.y + signed_coord(pose, &self.local_com, 1);
        let z = pose.translation.z + signed_coord(pose, &self.local_com, 2);
        MassProperties { mass: self.mass, local_com: Point::new(x, y, z) }
    }

    /// No mass, centered at the origin.
    pub fn zero() -> (r: MassProperties)
        ensures
            r.mass == 0,
            r.local_com == (Point { x: 0, y: 0, z: 0 }),
            r.wf(),
    {
        MassProperties { mass: 0, local_com: Point::origin() }
    }

    /// A ball of radius `radius` centered at the origin.
    pub fn from_ball(density: i64, radius: i64) -> (r: MassProperties)
        requires
            0 < density <= MAX_DENSITY,
            0 <= radius <= MAX_COORD,
        ensures
            r.mass == ball_mass(density as int, radius as int),
            r.local_com == (Point { x: 0, y: 0, z: 0 }),
            r.wf(),
    {
        let d = density as i128;
        let rr = radius as i128;
        proof {
            lemma_mul_le(d as int, 1420, 1000, 1420);
            lemma_mul_le(d * 1420, rr as int, 1420000, 1000000);
            lemma_mul_le(d * 1420 * rr, rr as int, 1420000000000, 1000000);
            lemma_mul_le(d * 1420 * rr * rr, rr as int, 1420000000000000000, 1000000);
        }
        MassProperties { mass: d * 1420 * rr * rr * rr / 339, local_com: Point::origin() }
    }

    /// A box of the given half extents centered at the origin.
    pub fn from_cuboid(density: i64, half_extents: Point) -> (r: MassProperties)
        requires
            0 < density <= MAX_DENSITY,
            0 <= half_extents.x <= MAX_COORD,
            0 <= half_extents.y <= MAX_COORD,
            0 <= half_extents.z <= MAX_COORD,
        ensures
            r.mass == cuboid_mass(density as int, half_extents),
            r.local_com == (Point { x: 0, y: 0, z: 0 }),
            r.wf(),
    {
        let d = density as i128;
        proof {
            lemma_mul_le(d as int, 8, 1000, 8);
            lemma_mul_le(d * 8, half_extents.x as int, 8000, 1000000);
            lemma_mul_le(d * 8 * half_extents.x, half_extents.y as int, 8000000000, 1000000);
            lemma_mul_le(d * 8 * half_extents.x * half_extents.y, half_extents.z as int, 8000000000000000, 1000000);
        }
        MassProperties {
            mass: d * 8 * (half_extents.x as i128) * (half_extents.y as i128) * (half_extents.z as i128),
            local_com: Point::origin(),
        }
    }

    /// A cylinder along the y axis, centered at the origin.
    pub fn from_cylinder(density: i64, half_height: i64, radius: i64) -> (r: MassProperties)
        requires
            0 < density <= MAX_DENSITY,
            0 <= half_height <= MAX_COORD,
            0 <= radius <= MAX_COORD,
        ensures
            r.mass == cylinder_mass(density as int, half_height as int, radius as int),
            r.local_com == (Point { x: 0, y: 0, z: 0 }),
            r.wf(),
    {
        let d = density as i128;
        let rr = radius as i128;
        let h = half_height as i128;
        proof {
            lemma_mul_le(d as int, 710, 1000, 710);
            lemma_mul_le(d * 710, rr as int, 710000, 1000000);
            lemma_mul_le(d * 710 * rr, rr as int, 710000000000, 1000000);
            lemma_mul_le(d * 710 * rr * rr, h as int, 710000000000000000, 1000000);
        }
        MassProperties { mass: d * 710 * rr * rr * h / 113, local_com: Point::origin() }
    }

    /// A cone along the y axis, apex up, whose bounding box is centered at the origin.
    pub fn from_cone(density: i64, half_height: i64, radius: i64) -> (r: MassProperties)
        requires
            0 < density <= MAX_DENSITY,
            0 <= half_height <= MAX_COORD,
            0 <= radius <= MAX_COORD,
        ensures
            r.mass == cone_mass(density as int, half_height as int, radius as int),
            r.local_com == (Point { x: 0, y: -(half_height / 2) as i64, z: 0 }),
            r.wf(),
    {
        let d = density as i128;
        let rr = radius as i128;
        let h = half_height as i128;
        proof {
            lemma_mul_le(d as int, 710, 1000, 710);
            lemma_mul_le(d * 710, rr as int, 710000, 1000000);
            lemma_mul_le(d * 710 * rr, rr as int, 710000000000, 1000000);
            lemma_mul_le(d * 710 * rr * rr, h as int, 710000000000000000, 1000000);
        }
        MassProperties { mass: d * 710 * rr * rr * h / 339, local_com: Point::new(0, -(half_height / 2), 0) }
    }

    /// A capsule: the points within `radius` of the segment from `a` to `b`.
    pub fn from_capsule(density: i64, a: Point, b: Point, radius: i64) -> (r: MassProperties)
        requires
            0 < density <= MAX_DENSITY,
            point_within(a, MAX_COORD as int),
            point_within(b, MAX_COORD as int),
            0 <= radius <= MAX_COORD,
        ensures
            exists|len: int|
                is_floor_distance(a, b, len) && r.mass == capsule_mass(density as int, len, radius as int),
            r.local_com == pt(half(a.x + b.x), half(a.y + b.y), half(a.z + b.z)),
            r.wf(),
    {
        let dx = b.x - a.x;
        let dy = b.y - a.y;
        let dz = b.z - a.z;
        proof {
            lemma_mul_le(if dx >= 0 { dx as int } else { -dx }, if dx >= 0 { dx as int } else { -dx }, 2000000, 2000000);
            lemma_mul_le(if dy >= 0 { dy as int } else { -dy }, if dy >= 0 { dy as int } else { -dy }, 2000000, 2000000);
            lemma_mul_le(if dz >= 0 { dz as int } else { -dz }, if dz >= 0 { dz as int } else { -dz }, 2000000, 2000000);
            assert(dx * dx == (if dx >= 0 { dx as int } else { -dx }) * (if dx >= 0 { dx as int } else { -dx })) by (nonlinear_arith);
            assert(dy * dy == (if dy >= 0 { dy as int } else { -dy }) * (if dy >= 0 { dy as int } else { -dy })) by (nonlinear_arith);
            assert(dz * dz == (if dz >= 0 { dz as int } else { -dz }) * (if dz >= 0 { dz as int } else { -dz })) by (nonlinear_arith);
        }
        let len = floor_sqrt(dx * dx + dy * dy + dz * dz);
        proof {
            if len > 3464102 {
                lemma_mul_le(3464103, 3464103, len as int, len as int);
            }
            assert(len <= 3464102);
        }
        let d = density as i128;
        let rr = radius as i128;
        let l = len as i128;
        proof {
            lemma_mul_le(d as int, 355, 1000, 355);
            lemma_mul_le(d * 355, rr as int, 355000, 1000000);
            lemma_mul_le(d * 355 * rr, rr as int, 355000000000, 1000000);
            lemma_mul_le(d * 355 * rr * rr, 3 * l + 4 * rr, 355000000000000000, 14392306);
        }
        let mass = d * 355 * rr * rr * (3 * l + 4 * rr) / 339;
        let com = Point::new(half_i64(a.x + b.x), half_i64(a.y + b.y), half_i64(a.z + b.z));
        assert(is_floor_distance(a, b, len as int));
        assert(mass == capsule_mass(density as int, len as int, radius as int));
        MassProperties { mass, local_com: com }
    }
}

/// Where `pose` sends the vector `v` along axis `i`, before translation.
fn signed_coord(pose: &Isometry, v: &Point, i: usize) -> (r: i64)
    requires
        point_within(*v, 2 * MAX_COORD),
        i < 3,
    ensures
        r == pose.rotate_coord(*v, i as int),
        -2 * MAX_COORD <= r <= 2 * MAX_COORD,
{
    let c = v.get(pose.axes.source(i));
    if pose.flip(i) {
        -c
    } else {
        c
    }
}

/// Rounds `v / 2` down.
fn half_i64(v: i64) -> (r: i64)
    requires
        -4 * MAX_COORD <= v <= 4 * MAX_COORD,
    ensures
        r == half(v as int),
{
    if v >= 0 {
        v / 2
    } else {
        -((1 - v) / 2)
    }
}

} // verus!

verus! {

/// A number has only one square root rounded down.
pub proof fn lemma_floor_sqrt_unique(n: int, r1: int, r2: int)
    requires
        is_floor_sqrt(n, r1),
        is_floor_sqrt(n, r2),
    ensures
        r1 == r2,
{
    if r1 < r2 {
        lemma_mul_le(r1 + 1, r1 + 1, r2, r2);
    } else if r2 < r1 {
        lemma_mul_le(r2 + 1, r2 + 1, r1, r1);
    }
}

} // verus!
