//! Compound shapes: several shapes, each placed by its own pose.
use vstd::prelude::*;
use crate::bounding_volume::{lemma_transform_within, pt, Aabb, MAX_EXTENT};
use crate::handle::ShapeHandle;
use crate::primitives::Ball;
use crate::mass_properties::{lemma_mul_le, MassProperties, MAX_DENSITY, MAX_MASS};
use crate::math::{coord, floor_div, Isometry, Point, MAX_COORD};
use crate::primitives::HALF_SPACE_EXTENT;
use crate::shape::{PolygonalFeatureMap, Shape, ShapeType};

verus! {

/// Largest number of parts of a compound shape.
pub const MAX_PARTS: usize = 1_000_000;

/// The box of one placed part.
pub open spec fn part_aabb(part: (Isometry, ShapeHandle)) -> Aabb {
    part.1.leaf_local_aabb().transformed_spec(part.0)
}

/// The smallest box holding the boxes of all placed parts of a non-empty sequence.
pub open spec fn parts_aabb(s: Seq<(Isometry, ShapeHandle)>) -> Aabb
    decreases s.len(),
{
    if s.len() <= 1 {
        part_aabb(s[0])
    } else {
        parts_aabb(s.drop_last()).merged_spec(part_aabb(s.last()))
    }
}

/// The mass properties of one placed part, in the compound's frame.
pub open spec fn part_mass(part: (Isometry, ShapeHandle), density: int) -> MassProperties {
    part.1.leaf_mass(density).transformed_spec(part.0)
}

/// The sum of the parts' masses.
pub open spec fn total_mass(s: Seq<(Isometry, ShapeHandle)>, density: int) -> int
    decreases s.len(),
{
    if s.len() == 0 {
        0
    } else {
        total_mass(s.drop_last(), density) + part_mass(s.last(), density).mass
    }
}

/// The sum over the parts of mass times the center-of-mass coordinate along axis `k`.
pub open spec fn total_moment(s: Seq<(Isometry, ShapeHandle)>, density: int, k: int) -> int
    decreases s.len(),
{
    if s.len() == 0 {
        0
    } else {
        let m = part_mass(s.last(), density);
        total_moment(s.drop_last(), density, k) + m.mass * coord(m.local_com, k)
    }
}

/// The combined center of mass along axis `k`, rounded down; 0 without mass.
pub open spec fn combined_com(s: Seq<(Isometry, ShapeHandle)>, density: int, k: int) -> int {
    let m = total_mass(s, density);
    if m > 0 {
        total_moment(s, density, k) / m
    } else {
        0
    }
}

/// The smallest thickness of the parts; the largest value for no part.
pub open spec fn min_thickness(s: Seq<(Isometry, ShapeHandle)>) -> int
    decreases s.len(),
{
    if s.len() == 0 {
        i64::MAX as int
    } else {
        let rest = min_thickness(s.drop_last());
        let t = s.last().1.leaf_thickness();
        if t < rest {
            t
        } else {
            rest
        }
    }
}

/// Every part is placed by a valid pose and may stand in a compound.
pub open spec fn valid_parts(s: Seq<(Isometry, ShapeHandle)>) -> bool {
    &&& 1 <= s.len() <= MAX_PARTS
    &&& forall|j: int| 0 <= j < s.len() ==> (#[trigger] s[j]).0.wf() && s[j].1.is_part()
}

/// Shapes placed relative to a common frame. Its parts are never aggregates themselves.
#[derive(Debug)]
pub struct Compound {
    pub shapes: Vec<(Isometry, ShapeHandle)>,
    pub aabb: Aabb,
}

impl Compound {
    /// Builds a compound of the given placed parts and computes its box.
    pub fn new(shapes: Vec<(Isometry, ShapeHandle)>) -> (r: Compound)
        requires
            valid_parts(shapes@),
        ensures
            r.shapes@ == shapes@,
            r.wf(),
    {
        let first = &shapes[0];
        let mut aabb = first.1.leaf_compute_local_aabb().transform_by(&first.0);
        proof {
            lemma_transform_within(first.1.leaf_local_aabb(), first.0, HALF_SPACE_EXTENT as int);
            assert(shapes@.take(1).len() == 1);
        }
        let n = shapes.len();
        let mut i: usize = 1;
        while i < n
            invariant
                1 <= i <= n,
                n == shapes@.len(),
                valid_parts(shapes@),
                aabb == parts_aabb(shapes@.take(i as int)),
                aabb.wf(),
                aabb.within(MAX_EXTENT as int),
            decreases n - i,
        {
            let part = &shapes[i];
            assert(shapes@[i as int] == *part);
            let b = part.1.leaf_compute_local_aabb().transform_by(&part.0);
            proof {
                lemma_transform_within(part.1.leaf_local_aabb(), part.0, HALF_SPACE_EXTENT as int);
                assert(shapes@.take(i + 1).drop_last() =~= shapes@.take(i as int));
            }
            aabb = aabb.merged(&b);
            i = i + 1;
        }
        assert(shapes@.take(n as int) =~= shapes@);
        Compound { shapes, aabb }
    }

    /// The placed parts.
    pub fn shapes(&self) -> (r: &Vec<(Isometry, ShapeHandle)>)
        ensures
            r@ == self.shapes@,
    {
        &self.shapes
    }
}

impl Shape for Compound {
    open spec fn wf(&self) -> bool {
        &&& valid_parts(self.shapes@)
        &&& self.aabb == parts_aabb(self.shapes@)
        &&& self.aabb.wf()
        &&& self.aabb.within(MAX_EXTENT as int)
    }

    open spec fn local_aabb_spec(&self) -> Aabb {
        parts_aabb(self.shapes@)
    }

    /// The parts' masses summed, centered at their mass-weighted mean.
    open spec fn mass_spec(&self, density: int) -> MassProperties {
        MassProperties {
            mass: total_mass(self.shapes@, density) as i128,
            local_com: pt(
                combined_com(self.shapes@, density, 0),
                combined_com(self.shapes@, density, 1),
                combined_com(self.shapes@, density, 2),
            ),
        }
    }

    open spec fn type_spec(&self) -> ShapeType {
        ShapeType::Compound
    }

    open spec fn thickness_spec(&self) -> int {
        min_thickness(self.shapes@)
    }

    open spec fn convex_spec(&self) -> bool {
        false
    }

    open spec fn support_map_spec(&self) -> bool {
        false
    }

    open spec fn composite_spec(&self) -> bool {
        true
    }

    open spec fn feature_margin_spec(&self) -> Option<int> {
        None
    }

    fn compute_local_aabb(&self) -> (r: Aabb) {
        self.aabb
    }

    fn compute_aabb(&self, position: &Isometry) -> (r: Aabb) {
        self.aabb.transform_by(position)
    }

    fn mass_properties(&self, density: i64) -> (r: MassProperties) {
        let n = self.shapes.len();
        let mut mass: i128 = 0;
        let mut mx: i128 = 0;
        let mut my: i128 = 0;
        let mut mz: i128 = 0;
        let mut i: usize = 0;
        let ghost s = self.shapes@;
        let ghost d = density as int;
        while i < n
            invariant
                i <= n,
                n == s.len(),
                s == self.shapes@,
                d == density,
                0 < density <= MAX_DENSITY,
                valid_parts(s),
                mass == total_mass(s.take(i as int), d),
                mx == total_moment(s.take(i as int), d, 0),
                my == total_moment(s.take(i as int), d, 1),
                mz == total_moment(s.take(i as int), d, 2),
                0 <= mass <= 100_000_000_000_000_000_000_000 * i,
                -300_000_000_000_000_000_000_000_000_000 * i <= mx <= 300_000_000_000_000_000_000_000_000_000 * i,
                -300_000_000_000_000_000_000_000_000_000 * i <= my <= 300_000_000_000_000_000_000_000_000_000 * i,
                -300_000_000_000_000_000_000_000_000_000 * i <= mz <= 300_000_000_000_000_000_000_000_000_000 * i,
            decreases n - i,
        {
            let part = &self.shapes[i];
            assert(s[i as int] == *part);
            let m = part.1.leaf_mass_properties(density).transform_by(&part.0);
            proof {
                assert(s.take(i + 1).drop_last() =~= s.take(i as int));
                lemma_mass_moment_bound(m.mass as int, m.local_com.x as int);
                lemma_mass_moment_bound(m.mass as int, m.local_com.y as int);
                lemma_mass_moment_bound(m.mass as int, m.local_com.z as int);
            }
            mass = mass + m.mass;
            mx = mx + m.mass * (m.local_com.x as i128);
            my = my + m.mass * (m.local_com.y as i128);
            mz = mz + m.mass * (m.local_com.z as i128);
            i = i + 1;
        }
        assert(s.take(n as int) =~= s);
        let com = if mass > 0 {
            Point::new(
                floor_div(mx, mass) as i64,
                floor_div(my, mass) as i64,
                floor_div(mz, mass) as i64,
            )
        } else {
            Point::origin()
        };
        MassProperties { mass, local_com: com }
    }

    fn shape_type(&self) -> (r: ShapeType) {
        ShapeType::Compound
    }

    fn ccd_thickness(&self) -> (r: i64) {
        let n = self.shapes.len();
        let mut curr: i64 = i64::MAX;
        let mut i: usize = 0;
        while i < n
            invariant
                i <= n,
                n == self.shapes@.len(),
                valid_parts(self.shapes@),
                curr == min_thickness(self.shapes@.take(i as int)),
                curr >= 0,
            decreases n - i,
        {
            let part = &self.shapes[i];
            assert(self.shapes@[i as int] == *part);
            let t = part.1.leaf_ccd_thickness();
            assert(self.shapes@.take(i + 1).drop_last() =~= self.shapes@.take(i as int));
            if t < curr {
                curr = t;
            }
            i = i + 1;
        }
        assert(self.shapes@.take(n as int) =~= self.shapes@);
        curr
    }

    fn is_convex(&self) -> (r: bool) {
        false
    }

    fn as_support_map(&self) -> (r: Option<&Self>) {
        None
    }

    fn as_composite_shape(&self) -> (r: Option<&Self>) {
        Some(self)
    }

    fn as_polygonal_feature_map(&self) -> (r: Option<(PolygonalFeatureMap<'_>, i64)>) {
        None
    }
}

proof fn lemma_mass_moment_bound(m: int, c: int)
    requires
        0 <= m <= MAX_MASS,
        -3 * MAX_COORD <= c <= 3 * MAX_COORD,
    ensures
        -300_000_000_000_000_000_000_000_000_000 <= m * c <= 300_000_000_000_000_000_000_000_000_000,
{
    assert(-300_000_000_000_000_000_000_000_000_000 <= m * c <= 300_000_000_000_000_000_000_000_000_000) by (nonlinear_arith)
        requires
            0 <= m <= 100_000_000_000_000_000_000_000,
            -3_000_000 <= c <= 3_000_000,
    ;
}

/// Two equal balls placed at opposite positions make a compound whose center
/// of mass is the origin and whose mass is the sum of the two balls' masses.
pub proof fn lemma_symmetric_balls(c: Compound, b: Ball, density: int)
    requires
        c.wf(),
        0 < density <= MAX_DENSITY,
        c.shapes@.len() == 2,
        c.shapes@[0].1 == ShapeHandle::Ball(b),
        c.shapes@[1].1 == ShapeHandle::Ball(b),
        c.shapes@[1].0.translation.x == -c.shapes@[0].0.translation.x,
        c.shapes@[1].0.translation.y == -c.shapes@[0].0.translation.y,
        c.shapes@[1].0.translation.z == -c.shapes@[0].0.translation.z,
    ensures
        c.mass_spec(density).mass == 2 * b.mass_spec(density).mass,
        c.mass_spec(density).local_com == (Point { x: 0, y: 0, z: 0 }),
{
    let s = c.shapes@;
    let s1 = s.drop_last();
    let s0 = s1.drop_last();
    assert(s1.last() == s[0]);
    assert(s0.len() == 0);
    let r = b.radius as int;
    lemma_mul_le(density, 1420, 1000, 1420);
    lemma_mul_le(density * 1420, r, 1420000, 1000000);
    lemma_mul_le(density * 1420 * r, r, 1420000000000, 1000000);
    lemma_mul_le(density * 1420 * r * r, r, 1420000000000000000, 1000000);
    let m = b.mass_spec(density).mass as int;
    assert(0 <= m <= MAX_MASS);
    let p0 = part_mass(s[0], density);
    let p1 = part_mass(s[1], density);
    assert(p0.mass == m && p1.mass == m);
    assert(s.last() == s[1]);
    assert(total_mass(s0, density) == 0);
    assert(total_mass(s1, density) == m);
    assert(total_mass(s, density) == 2 * m);
    let t0 = s[0].0.translation;
    assert(p0.local_com == t0);
    assert(p1.local_com == pt(-t0.x, -t0.y, -t0.z));
    assert(m * t0.x + m * (-t0.x) == 0) by (nonlinear_arith);
    assert(m * t0.y + m * (-t0.y) == 0) by (nonlinear_arith);
    assert(m * t0.z + m * (-t0.z) == 0) by (nonlinear_arith);
    assert(total_moment(s0, density, 0) == 0 && total_moment(s0, density, 1) == 0 && total_moment(s0, density, 2) == 0);
    assert(total_moment(s1, density, 0) == m * t0.x);
    assert(total_moment(s1, density, 1) == m * t0.y);
    assert(total_moment(s1, density, 2) == m * t0.z);
    assert(total_moment(s, density, 0) == 0);
    assert(total_moment(s, density, 1) == 0);
    assert(total_moment(s, density, 2) == 0);
}

} // verus!
