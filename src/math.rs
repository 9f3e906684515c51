//! Fixed-point geometry: points, rigid poses restricted to axis-aligned
//! orientations, and the bounds that keep every computation inside `i64`.
use vstd::prelude::*;
use vstd::arithmetic::div_mod::{lemma_fundamental_div_mod, lemma_fundamental_div_mod_converse, lemma_mod_pos_bound};

verus! {

/// Largest magnitude of a coordinate, radius or translation held by a shape.
pub const MAX_COORD: i64 = 1_000_000;

/// A point (or a vector) with fixed-point integer coordinates.
#[derive(Clone, Copy, Debug, PartialEq, Eq, Structural)]
pub struct Point {
    pub x: i64,
    pub y: i64,
    pub z: i64,
}

/// Vectors share the representation of points.
pub type Vector = Point;

/// The coordinate of `p` along axis `k` (0, 1 or 2).
pub open spec fn coord(p: Point, k: int) -> int {
    if k == 0 {
        p.x as int
    } else if k == 1 {
        p.y as int
    } else {
        p.z as int
    }
}

/// Every coordinate of `p` lies in `[-b, b]`.
pub open spec fn point_within(p: Point, b: int) -> bool {
    -b <= p.x <= b && -b <= p.y <= b && -b <= p.z <= b
}

/// The dot product of two vectors, as a mathematical integer.
pub open spec fn dot_spec(a: Point, b: Point) -> int {
    a.x * b.x + a.y * b.y + a.z * b.z
}

impl Point {
    pub fn new(x: i64, y: i64, z: i64) -> (r: Point)
        ensures
            r.x == x && r.y == y && r.z == z,
    {
        Point { x, y, z }
    }

    pub fn origin() -> (r: Point)
        ensures
            r.x == 0 && r.y == 0 && r.z == 0,
    {
        Point { x: 0, y: 0, z: 0 }
    }

    /// The coordinate along axis `k`.
    pub fn get(&self, k: usize) -> (r: i64)
        requires
            k < 3,
        ensures
            r == coord(*self, k as int),
    {
        if k == 0 {
            self.x
        } else if k == 1 {
            self.y
        } else {
            self.z
        }
    }
}

/// Dot product of two vectors whose coordinates lie within `MAX_COORD`.
pub fn dot(a: &Point, b: &Point) -> (r: i64)
    requires
        point_within(*a, MAX_COORD as int),
        point_within(*b, MAX_COORD as int),
    ensures
        r == dot_spec(*a, *b),
{
    proof {
        lemma_coord_product(a.x as int, b.x as int);
        lemma_coord_product(a.y as int, b.y as int);
        lemma_coord_product(a.z as int, b.z as int);
    }
    a.x * b.x + a.y * b.y + a.z * b.z
}

/// The product of two coordinates is at most `MAX_COORD` squared in magnitude.
pub proof fn lemma_coord_product(a: int, b: int)
    requires
        -MAX_COORD <= a <= MAX_COORD,
        -MAX_COORD <= b <= MAX_COORD,
    ensures
        -1_000_000_000_000 <= a * b <= 1_000_000_000_000,
{
    assert(-1_000_000_000_000 <= a * b <= 1_000_000_000_000) by (nonlinear_arith)
        requires
            -1_000_000 <= a <= 1_000_000,
            -1_000_000 <= b <= 1_000_000,
    ;
}

/// The six orderings of the three axes.
#[derive(Clone, Copy, Debug, PartialEq, Eq, Structural)]
pub enum AxisOrder {
    Xyz,
    Xzy,
    Yxz,
    Yzx,
    Zxy,
    Zyx,
}

impl AxisOrder {
    /// The input axis that output axis `i` is taken from.
    pub open spec fn source_spec(self, i: int) -> int {
        let (a, b, c) = match self {
            AxisOrder::Xyz => (0int, 1int, 2int),
            AxisOrder::Xzy => (0int, 2int, 1int),
            AxisOrder::Yxz => (1int, 0int, 2int),
            AxisOrder::Yzx => (1int, 2int, 0int),
            AxisOrder::Zxy => (2int, 0int, 1int),
            AxisOrder::Zyx => (2int, 1int, 0int),
        };
        if i == 0 {
            a
        } else if i == 1 {
            b
        } else {
            c
        }
    }

    pub fn source(&self, i: usize) -> (r: usize)
        requires
            i < 3,
        ensures
            r == self.source_spec(i as int),
            r < 3,
    {
        let (a, b, c): (usize, usize, usize) = match self {
            AxisOrder::Xyz => (0, 1, 2),
            AxisOrder::Xzy => (0, 2, 1),
            AxisOrder::Yxz => (1, 0, 2),
            AxisOrder::Yzx => (1, 2, 0),
            AxisOrder::Zxy => (2, 0, 1),
            AxisOrder::Zyx => (2, 1, 0),
        };
        if i == 0 {
            a
        } else if i == 1 {
            b
        } else {
            c
        }
    }
}

/// A rigid pose whose rotation maps axes onto axes: output axis `i` is the
/// input axis `axes.source(i)`, negated where `flips` says so, then shifted by
/// `translation`. These are exactly the rotations (and reflections) that keep
/// integer coordinates integer.
#[derive(Clone, Copy, Debug, PartialEq, Eq, Structural)]
pub struct Isometry {
    pub translation: Vector,
    pub axes: AxisOrder,
    pub flip_x: bool,
    pub flip_y: bool,
    pub flip_z: bool,
}

impl Isometry {
    pub open spec fn wf(self) -> bool {
        point_within(self.translation, MAX_COORD as int)
    }

    pub open spec fn flipped(self, i: int) -> bool {
        if i == 0 {
            self.flip_x
        } else if i == 1 {
            self.flip_y
        } else {
            self.flip_z
        }
    }

    pub open spec fn is_identity(self) -> bool {
        self.translation == Point { x: 0, y: 0, z: 0 } && self.axes == AxisOrder::Xyz
            && !self.flip_x && !self.flip_y && !self.flip_z
    }

    /// Where this pose sends the vector `v` (no translation), along axis `i`.
    pub open spec fn rotate_coord(self, v: Point, i: int) -> int {
        let c = coord(v, self.axes.source_spec(i));
        if self.flipped(i) {
            -c
        } else {
            c
        }
    }

    pub fn identity() -> (r: Isometry)
        ensures
            r.is_identity(),
            r.wf(),
    {
        Isometry {
            translation: Point::origin(),
            axes: AxisOrder::Xyz,
            flip_x: false,
            flip_y: false,
            flip_z: false,
        }
    }

    /// A pure translation.
    pub fn translation(x: i64, y: i64, z: i64) -> (r: Isometry)
        ensures
            r.translation == (Point { x, y, z }),
            r.axes == AxisOrder::Xyz,
            !r.flip_x && !r.flip_y && !r.flip_z,
    {
        Isometry { translation: Point::new(x, y, z), axes: AxisOrder::Xyz, flip_x: false, flip_y: false, flip_z: false }
    }

    pub fn flip(&self, i: usize) -> (r: bool)
        requires
            i < 3,
        ensures
            r == self.flipped(i as int),
    {
        if i == 0 {
            self.flip_x
        } else if i == 1 {
            self.flip_y
        } else {
            self.flip_z
        }
    }
}

/// `n / d` rounded down, for a positive divisor.
pub fn floor_div(n: i128, d: i128) -> (r: i128)
    requires
        d > 0,
        n > i128::MIN + d,
    ensures
        r == n as int / d as int,
{
    if n >= 0 {
        n / d
    } else {
        let x = -n + d - 1;
        let q = x / d;
        proof {
            lemma_fundamental_div_mod(x as int, d as int);
            lemma_mod_pos_bound(x as int, d as int);
            let rem = x as int % d as int;
            assert(n == (-q) * d + (d - 1 - rem)) by (nonlinear_arith)
                requires
                    x == d * q + rem,
                    x == -n + d - 1,
            ;
            lemma_fundamental_div_mod_converse(n as int, d as int, -q, d - 1 - rem);
        }
        -q
    }
}

} // verus!
