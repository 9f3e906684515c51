//! Shapes with rounded corners: a base shape grown by a ball.
use vstd::prelude::*;
use crate::bounding_volume::{lemma_loosen_transform_commute, lemma_transform_within, Aabb};
use crate::mass_properties::MassProperties;
use crate::math::{Isometry, MAX_COORD};
use crate::mesh::ConvexPolyhedron;
use crate::primitives::{Cone, Cuboid, Cylinder, Triangle};
use crate::shape::{PolygonalFeatureMap, RoundableShape, Shape, ShapeType};

verus! {

/// The Minkowski sum of `base_shape` and a ball of radius `border_radius`:
/// the points within `border_radius` of the base shape.
#[derive(Debug)]
pub struct RoundShape<S> {
    pub base_shape: S,
    pub border_radius: i64,
}

/// A cuboid with rounded corners.
pub type RoundCuboid = RoundShape<Cuboid>;

/// A triangle with rounded corners.
pub type RoundTriangle = RoundShape<Triangle>;

/// A cylinder with rounded corners.
pub type RoundCylinder = RoundShape<Cylinder>;

/// A cone with rounded corners.
pub type RoundCone = RoundShape<Cone>;

/// A convex polyhedron with rounded corners.
pub type RoundConvexPolyhedron = RoundShape<ConvexPolyhedron>;

impl<S: RoundableShape> RoundShape<S> {
    pub fn new(base_shape: S, border_radius: i64) -> (r: RoundShape<S>)
        requires
            base_shape.wf(),
            0 <= border_radius <= MAX_COORD,
        ensures
            r.base_shape == base_shape,
            r.border_radius == border_radius,
            r.wf(),
    {
        RoundShape { base_shape, border_radius }
    }
}

impl<S: RoundableShape> Shape for RoundShape<S> {
    open spec fn wf(&self) -> bool {
        self.base_shape.wf() && 0 <= self.border_radius <= MAX_COORD
    }

    open spec fn local_aabb_spec(&self) -> Aabb {
        self.base_shape.local_aabb_spec().loosened_spec(self.border_radius as int)
    }

    /// The rounding does not change the mass properties.
    open spec fn mass_spec(&self, density: int) -> MassProperties {
        self.base_shape.mass_spec(density)
    }

    open spec fn type_spec(&self) -> ShapeType {
        S::round_type_spec()
    }

    open spec fn thickness_spec(&self) -> int {
        self.base_shape.thickness_spec() + self.border_radius
    }

    open spec fn convex_spec(&self) -> bool {
        self.base_shape.convex_spec()
    }

    open spec fn support_map_spec(&self) -> bool {
        true
    }

    open spec fn composite_spec(&self) -> bool {
        false
    }

    open spec fn feature_margin_spec(&self) -> Option<int> {
        Some(self.border_radius as int)
    }

    fn compute_local_aabb(&self) -> (r: Aabb) {
        proof {
            self.base_shape.lemma_roundable();
        }
        self.base_shape.compute_local_aabb().loosened(self.border_radius)
    }

    fn compute_aabb(&self, position: &Isometry) -> (r: Aabb) {
        proof {
            self.base_shape.lemma_roundable();
            lemma_transform_within(self.base_shape.local_aabb_spec(), *position, 4 * MAX_COORD);
            lemma_loosen_transform_commute(
                self.base_shape.local_aabb_spec(),
                *position,
                self.border_radius as int,
            );
        }
        self.base_shape.compute_aabb(position).loosened(self.border_radius)
    }

    fn mass_properties(&self, density: i64) -> (r: MassProperties) {
        proof {
            self.base_shape.lemma_roundable();
        }
        self.base_shape.mass_properties(density)
    }

    fn shape_type(&self) -> (r: ShapeType) {
        S::round_shape_type()
    }

    fn ccd_thickness(&self) -> (r: i64) {
        proof {
            self.base_shape.lemma_roundable();
        }
        self.base_shape.ccd_thickness() + self.border_radius
    }

    fn is_convex(&self) -> (r: bool) {
        self.base_shape.is_convex()
    }

    fn as_support_map(&self) -> (r: Option<&Self>) {
        Some(self)
    }

    fn as_composite_shape(&self) -> (r: Option<&Self>) {
        None
    }

    fn as_polygonal_feature_map(&self) -> (r: Option<(PolygonalFeatureMap<'_>, i64)>) {
        proof {
            self.base_shape.lemma_roundable();
        }
        match self.base_shape.as_polygonal_feature_map() {
            Some((view, _)) => Some((view, self.border_radius)),
            None => None,
        }
    }
}

/// A rounded shape is as thick as its base plus the border radius, is convex
/// exactly when its base is, and its box is the base's box grown by the
/// border radius.
pub proof fn lemma_round_shape<S: RoundableShape>(s: RoundShape<S>)
    requires
        s.wf(),
    ensures
        s.thickness_spec() == s.base_shape.thickness_spec() + s.border_radius,
        s.convex_spec() == s.base_shape.convex_spec(),
        s.local_aabb_spec() == s.base_shape.local_aabb_spec().loosened_spec(s.border_radius as int),
{
}

} // verus!
