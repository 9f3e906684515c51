//! The capability interface shared by every shape.
use vstd::prelude::*;
use crate::bounding_volume::{lemma_identity_transform, Aabb, MAX_EXTENT};
use crate::mass_properties::{MassProperties, MAX_DENSITY};
use crate::math::{Isometry, Point, Vector, MAX_COORD};
use crate::primitives::{Cone, Cuboid, Cylinder, Segment, Triangle, HALF_SPACE_EXTENT};
use crate::mesh::ConvexPolyhedron;

verus! {

/// The type tag of a shape.
#[derive(Clone, Copy, Debug, PartialEq, Eq, Structural)]
pub enum ShapeType {
    /// A ball shape.
    Ball,
    /// A cuboid shape.
    Cuboid,
    /// A capsule shape.
    Capsule,
    /// A segment shape.
    Segment,
    /// A triangle shape.
    Triangle,
    /// A triangle mesh shape.
    TriMesh,
    /// A set of segments.
    Polyline,
    /// A shape representing a full half-space.
    HalfSpace,
    /// A heightfield shape.
    HeightField,
    /// A compound shape.
    Compound,
    /// A convex polyhedron.
    ConvexPolyhedron,
    /// A cylindrical shape.
    Cylinder,
    /// A conical shape.
    Cone,
    /// A cuboid with rounded corners.
    RoundCuboid,
    /// A triangle with rounded corners.
    RoundTriangle,
    /// A cylinder with rounded corners.
    RoundCylinder,
    /// A cone with rounded corners.
    RoundCone,
    /// A convex polyhedron with rounded corners.
    RoundConvexPolyhedron,
}

/// A feature of a shape: a vertex, an edge or a face, by its index.
#[derive(Clone, Copy, Debug, PartialEq, Eq, Structural)]
pub enum FeatureId {
    Vertex(u32),
    Edge(u32),
    Face(u32),
    Unknown,
}

/// A shape seen through its discrete vertices, edges and faces.
#[derive(Clone, Copy, Debug)]
pub enum PolygonalFeatureMap<'a> {
    Cuboid(&'a Cuboid),
    Segment(&'a Segment),
    Triangle(&'a Triangle),
    ConvexPolyhedron(&'a ConvexPolyhedron),
    Cylinder(&'a Cylinder),
    Cone(&'a Cone),
}

/// What every shape exposes: its bounding box, its mass, its type tag, its
/// thickness for continuous collision detection, whether it is known to be
/// convex, and which specialised views it offers.
pub trait Shape {
    /// The shape's data satisfies its invariant.
    spec fn wf(&self) -> bool;

    /// The bounding box in the shape's own frame.
    spec fn local_aabb_spec(&self) -> Aabb;

    /// The mass properties at the given density.
    spec fn mass_spec(&self, density: int) -> MassProperties;

    spec fn type_spec(&self) -> ShapeType;

    spec fn thickness_spec(&self) -> int;

    /// `true` only for shapes known to be convex.
    spec fn convex_spec(&self) -> bool;

    /// The shape answers support-point queries.
    spec fn support_map_spec(&self) -> bool;

    /// The shape is an aggregate of sub-shapes.
    spec fn composite_spec(&self) -> bool;

    /// The margin of the shape's polygonal feature map, if it has one.
    spec fn feature_margin_spec(&self) -> Option<int>;

    /// Computes the bounding box of this shape in its own frame.
    fn compute_local_aabb(&self) -> (r: Aabb)
        requires
            self.wf(),
        ensures
            r == self.local_aabb_spec(),
            r.wf(),
            r.within(MAX_EXTENT as int),
            !self.composite_spec() ==> r.within(HALF_SPACE_EXTENT as int),
    ;

    /// Computes the bounding box of this shape placed at `position`.
    fn compute_aabb(&self, position: &Isometry) -> (r: Aabb)
        requires
            self.wf(),
            position.wf(),
        ensures
            r == self.local_aabb_spec().transformed_spec(*position),
            r.wf(),
    {
        self.compute_local_aabb().transform_by(position)
    }

    /// Computes the mass properties of this shape given its uniform density.
    fn mass_properties(&self, density: i64) -> (r: MassProperties)
        requires
            self.wf(),
            0 < density <= MAX_DENSITY,
        ensures
            r == self.mass_spec(density as int),
            !self.composite_spec() ==> r.wf(),
    ;

    /// Gets the type tag of this shape.
    fn shape_type(&self) -> (r: ShapeType)
        ensures
            r == self.type_spec(),
    ;

    /// A lower bound on the thickness of this shape, never negative.
    fn ccd_thickness(&self) -> (r: i64)
        requires
            self.wf(),
        ensures
            r == self.thickness_spec(),
            r >= 0,
    ;

    /// Is this shape known to be convex? `false` means "not known".
    fn is_convex(&self) -> (r: bool)
        ensures
            r == self.convex_spec(),
    ;

    /// This shape as a support mapping, if it is one.
    fn as_support_map(&self) -> (r: Option<&Self>)
        ensures
            r is Some <==> self.support_map_spec(),
            r matches Some(v) ==> v == self,
    ;

    /// This shape as a composite shape, if it is one.
    fn as_composite_shape(&self) -> (r: Option<&Self>)
        ensures
            r is Some <==> self.composite_spec(),
            r matches Some(v) ==> v == self,
    ;

    /// This shape as a polygonal feature map, with the margin to apply around it.
    fn as_polygonal_feature_map(&self) -> (r: Option<(PolygonalFeatureMap<'_>, i64)>)
        requires
            self.wf(),
        ensures
            r is None <==> self.feature_margin_spec() is None,
            r matches Some((_, m)) ==> self.feature_margin_spec() == Some(m as int),
    ;

    /// The shape's normal at the given point located on a specific feature.
    fn feature_normal_at_point(&self, feature: FeatureId, point: &Point) -> (r: Option<Vector>)
        ensures
            r is None,
    {
        None
    }
}

/// A shape that can be wrapped by `RoundShape`: convex, with a polygonal
/// feature map and a bounding box small enough to be grown.
pub trait RoundableShape: Shape {
    /// The tag of this shape once rounded.
    spec fn round_type_spec() -> ShapeType;

    fn round_shape_type() -> (r: ShapeType)
        ensures
            r == Self::round_type_spec(),
    ;

    /// Facts every roundable shape keeps.
    proof fn lemma_roundable(&self)
        requires
            self.wf(),
        ensures
            self.local_aabb_spec().within(4 * MAX_COORD),
            0 <= self.thickness_spec() <= MAX_COORD,
            self.feature_margin_spec() is Some,
            !self.composite_spec(),
    ;
}

/// Placing a shape at the identity pose gives its local bounding box:
/// what `compute_aabb` returns for the identity is what `compute_local_aabb` returns.
pub proof fn lemma_aabb_at_identity<S: Shape>(s: &S, pose: Isometry)
    requires
        s.wf(),
        pose.is_identity(),
    ensures
        s.local_aabb_spec().transformed_spec(pose) == s.local_aabb_spec(),
{
    lemma_identity_transform(s.local_aabb_spec(), pose);
}

} // verus!
