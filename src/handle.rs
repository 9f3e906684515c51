//! Shapes behind one handle: dispatch over every kind of shape, and recovery
//! of the concrete shape.
//!
//! The family of shapes is closed, so the handle is a sum type: matching on
//! it is both the dispatch and the runtime identity that downcasts rely on.
//! The type tag of `Shape::shape_type` is separate and plays no part in it.
use vstd::prelude::*;
use crate::bounding_volume::{pt, Aabb};
use crate::mass_properties::{MassProperties, MAX_DENSITY};
use crate::math::Point;
use crate::mesh::{ConvexPolyhedron, HeightField, Polyline, TriMesh};
use crate::primitives::{Ball, Capsule, Cone, Cuboid, Cylinder, HalfSpace, Segment, Triangle, HALF_SPACE_EXTENT};
use crate::round_shape::{RoundCone, RoundConvexPolyhedron, RoundCuboid, RoundCylinder, RoundTriangle};
use crate::compound::Compound;
use crate::shape::{PolygonalFeatureMap, Shape, ShapeType};

verus! {

/// Any shape.
#[derive(Debug)]
pub enum ShapeHandle {
    Ball(Ball),
    Cuboid(Cuboid),
    Capsule(Capsule),
    Segment(Segment),
    Triangle(Triangle),
    TriMesh(TriMesh),
    Polyline(Polyline),
    HalfSpace(HalfSpace),
    HeightField(HeightField),
    Compound(Compound),
    ConvexPolyhedron(ConvexPolyhedron),
    Cylinder(Cylinder),
    Cone(Cone),
    RoundCuboid(RoundCuboid),
    RoundTriangle(RoundTriangle),
    RoundCylinder(RoundCylinder),
    RoundCone(RoundCone),
    RoundConvexPolyhedron(RoundConvexPolyhedron),
}

/// A concrete shape type that a `ShapeHandle` may hold.
pub trait DowncastShape: Sized {
    /// The value of this type that `h` holds, if it holds one.
    spec fn held_by(h: ShapeHandle) -> Option<Self>;

    /// The value of this type that `h` holds, if it holds one.
    fn downcast_ref(h: &ShapeHandle) -> (r: Option<&Self>)
        ensures
            r is Some <==> Self::held_by(*h) is Some,
            r matches Some(v) ==> Self::held_by(*h) == Some(*v),
    ;
}

impl DowncastShape for Ball {
    open spec fn held_by(h: ShapeHandle) -> Option<Ball> {
        match h {
            ShapeHandle::Ball(s) => Some(s),
            _ => None,
        }
    }

    fn downcast_ref(h: &ShapeHandle) -> (r: Option<&Ball>) {
        match h {
            ShapeHandle::Ball(s) => Some(s),
            _ => None,
        }
    }
}

impl DowncastShape for Cuboid {
    open spec fn held_by(h: ShapeHandle) -> Option<Cuboid> {
        match h {
            ShapeHandle::Cuboid(s) => Some(s),
            _ => None,
        }
    }

    fn downcast_ref(h: &ShapeHandle) -> (r: Option<&Cuboid>) {
        match h {
            ShapeHandle::Cuboid(s) => Some(s),
            _ => None,
        }
    }
}

impl DowncastShape for Capsule {
    open spec fn held_by(h: ShapeHandle) -> Option<Capsule> {
        match h {
            ShapeHandle::Capsule(s) => Some(s),
            _ => None,
        }
    }

    fn downcast_ref(h: &ShapeHandle) -> (r: Option<&Capsule>) {
        match h {
            ShapeHandle::Capsule(s) => Some(s),
            _ => None,
        }
    }
}

impl DowncastShape for Segment {
    open spec fn held_by(h: ShapeHandle) -> Option<Segment> {
        match h {
            ShapeHandle::Segment(s) => Some(s),
            _ => None,
        }
    }

    fn downcast_ref(h: &ShapeHandle) -> (r: Option<&Segment>) {
        match h {
            ShapeHandle::Segment(s) => Some(s),
            _ => None,
        }
    }
}

impl DowncastShape for Triangle {
    open spec fn held_by(h: ShapeHandle) -> Option<Triangle> {
        match h {
            ShapeHandle::Triangle(s) => Some(s),
            _ => None,
        }
    }

    fn downcast_ref(h: &ShapeHandle) -> (r: Option<&Triangle>) {
        match h {
            ShapeHandle::Triangle(s) => Some(s),
            _ => None,
        }
    }
}

impl DowncastShape for TriMesh {
    open spec fn held_by(h: ShapeHandle) -> Option<TriMesh> {
        match h {
            ShapeHandle::TriMesh(s) => Some(s),
            _ => None,
        }
    }

    fn downcast_ref(h: &ShapeHandle) -> (r: Option<&TriMesh>) {
        match h {
            ShapeHandle::TriMesh(s) => Some(s),
            _ => None,
        }
    }
}

impl DowncastShape for Polyline {
    open spec fn held_by(h: ShapeHandle) -> Option<Polyline> {
        match h {
            ShapeHandle::Polyline(s) => Some(s),
            _ => None,
        }
    }

    fn downcast_ref(h: &ShapeHandle) -> (r: Option<&Polyline>) {
        match h {
            ShapeHandle::Polyline(s) => Some(s),
            _ => None,
        }
    }
}

impl DowncastShape for HalfSpace {
    open spec fn held_by(h: ShapeHandle) -> Option<HalfSpace> {
        match h {
            ShapeHandle::HalfSpace(s) => Some(s),
            _ => None,
        }
    }

    fn downcast_ref(h: &ShapeHandle) -> (r: Option<&HalfSpace>) {
        match h {
            ShapeHandle::HalfSpace(s) => Some(s),
            _ => None,
        }
    }
}

impl DowncastShape for HeightField {
    open spec fn held_by(h: ShapeHandle) -> Option<HeightField> {
        match h {
            ShapeHandle::HeightField(s) => Some(s),
            _ => None,
        }
    }

    fn downcast_ref(h: &ShapeHandle) -> (r: Option<&HeightField>) {
        match h {
            ShapeHandle::HeightField(s) => Some(s),
            _ => None,
        }
    }
}

impl DowncastShape for Compound {
    open spec fn held_by(h: ShapeHandle) -> Option<Compound> {
        match h {
            ShapeHandle::Compound(s) => Some(s),
            _ => None,
        }
    }

    fn downcast_ref(h: &ShapeHandle) -> (r: Option<&Compound>) {
        match h {
            ShapeHandle::Compound(s) => Some(s),
            _ => None,
        }
    }
}

impl DowncastShape for ConvexPolyhedron {
    open spec fn held_by(h: ShapeHandle) -> Option<ConvexPolyhedron> {
        match h {
            ShapeHandle::ConvexPolyhedron(s) => Some(s),
            _ => None,
        }
    }

    fn downcast_ref(h: &ShapeHandle) -> (r: Option<&ConvexPolyhedron>) {
        match h {
            ShapeHandle::ConvexPolyhedron(s) => Some(s),
            _ => None,
        }
    }
}

impl DowncastShape for Cylinder {
    open spec fn held_by(h: ShapeHandle) -> Option<Cylinder> {
        match h {
            ShapeHandle::Cylinder(s) => Some(s),
            _ => None,
        }
    }

    fn downcast_ref(h: &ShapeHandle) -> (r: Option<&Cylinder>) {
        match h {
            ShapeHandle::Cylinder(s) => Some(s),
            _ => None,
        }
    }
}

impl DowncastShape for Cone {
    open spec fn held_by(h: ShapeHandle) -> Option<Cone> {
        match h {
            ShapeHandle::Cone(s) => Some(s),
            _ => None,
        }
    }

    fn downcast_ref(h: &ShapeHandle) -> (r: Option<&Cone>) {
        match h {
            ShapeHandle::Cone(s) => Some(s),
            _ => None,
        }
    }
}

impl DowncastShape for RoundCuboid {
    open spec fn held_by(h: ShapeHandle) -> Option<RoundCuboid> {
        match h {
            ShapeHandle::RoundCuboid(s) => Some(s),
            _ => None,
        }
    }

    fn downcast_ref(h: &ShapeHandle) -> (r: Option<&RoundCuboid>) {
        match h {
            ShapeHandle::RoundCuboid(s) => Some(s),
            _ => None,
        }
    }
}

impl DowncastShape for RoundTriangle {
    open spec fn held_by(h: ShapeHandle) -> Option<RoundTriangle> {
        match h {
            ShapeHandle::RoundTriangle(s) => Some(s),
            _ => None,
        }
    }

    fn downcast_ref(h: &ShapeHandle) -> (r: Option<&RoundTriangle>) {
        match h {
            ShapeHandle::RoundTriangle(s) => Some(s),
            _ => None,
        }
    }
}

impl DowncastShape for RoundCylinder {
    open spec fn held_by(h: ShapeHandle) -> Option<RoundCylinder> {
        match h {
            ShapeHandle::RoundCylinder(s) => Some(s),
            _ => None,
        }
    }

    fn downcast_ref(h: &ShapeHandle) -> (r: Option<&RoundCylinder>) {
        match h {
            ShapeHandle::RoundCylinder(s) => Some(s),
            _ => None,
        }
    }
}

impl DowncastShape for RoundCone {
    open spec fn held_by(h: ShapeHandle) -> Option<RoundCone> {
        match h {
            ShapeHandle::RoundCone(s) => Some(s),
            _ => None,
        }
    }

    fn downcast_ref(h: &ShapeHandle) -> (r: Option<&RoundCone>) {
        match h {
            ShapeHandle::RoundCone(s) => Some(s),
            _ => None,
        }
    }
}

impl DowncastShape for RoundConvexPolyhedron {
    open spec fn held_by(h: ShapeHandle) -> Option<RoundConvexPolyhedron> {
        match h {
            ShapeHandle::RoundConvexPolyhedron(s) => Some(s),
            _ => None,
        }
    }

    fn downcast_ref(h: &ShapeHandle) -> (r: Option<&RoundConvexPolyhedron>) {
        match h {
            ShapeHandle::RoundConvexPolyhedron(s) => Some(s),
            _ => None,
        }
    }
}

impl ShapeHandle {
    /// Converts this shape to the given concrete shape type, if it is one.
    pub fn as_shape<T: DowncastShape>(&self) -> (r: Option<&T>)
        ensures
            r is Some <==> T::held_by(*self) is Some,
            r matches Some(v) ==> T::held_by(*self) == Some(*v),
    {
        T::downcast_ref(self)
    }

    /// Converts this shape to a ball, if it is one.
    pub fn as_ball(&self) -> (r: Option<&Ball>)
        ensures
            r is Some <==> self is Ball,
            r matches Some(s) ==> *self == ShapeHandle::Ball(*s),
    {
        self.as_shape::<Ball>()
    }

    /// Converts this shape to a cuboid, if it is one.
    pub fn as_cuboid(&self) -> (r: Option<&Cuboid>)
        ensures
            r is Some <==> self is Cuboid,
            r matches Some(s) ==> *self == ShapeHandle::Cuboid(*s),
    {
        self.as_shape::<Cuboid>()
    }

    /// Converts this shape to a capsule, if it is one.
    pub fn as_capsule(&self) -> (r: Option<&Capsule>)
        ensures
            r is Some <==> self is Capsule,
            r matches Some(s) ==> *self == ShapeHandle::Capsule(*s),
    {
        self.as_shape::<Capsule>()
    }

    /// Converts this shape to a triangle, if it is one.
    pub fn as_triangle(&self) -> (r: Option<&Triangle>)
        ensures
            r is Some <==> self is Triangle,
            r matches Some(s) ==> *self == ShapeHandle::Triangle(*s),
    {
        self.as_shape::<Triangle>()
    }

    /// Converts this shape to a triangle mesh, if it is one.
    pub fn as_trimesh(&self) -> (r: Option<&TriMesh>)
        ensures
            r is Some <==> self is TriMesh,
            r matches Some(s) ==> *self == ShapeHandle::TriMesh(*s),
    {
        self.as_shape::<TriMesh>()
    }

    /// Converts this shape to a polyline, if it is one.
    pub fn as_polyline(&self) -> (r: Option<&Polyline>)
        ensures
            r is Some <==> self is Polyline,
            r matches Some(s) ==> *self == ShapeHandle::Polyline(*s),
    {
        self.as_shape::<Polyline>()
    }

    /// Converts this shape to a heightfield, if it is one.
    pub fn as_heightfield(&self) -> (r: Option<&HeightField>)
        ensures
            r is Some <==> self is HeightField,
            r matches Some(s) ==> *self == ShapeHandle::HeightField(*s),
    {
        self.as_shape::<HeightField>()
    }

    /// Converts this shape to a compound shape, if it is one.
    pub fn as_compound(&self) -> (r: Option<&Compound>)
        ensures
            r is Some <==> self is Compound,
            r matches Some(s) ==> *self == ShapeHandle::Compound(*s),
    {
        self.as_shape::<Compound>()
    }

    /// Converts this shape to a convex polyhedron, if it is one.
    pub fn as_convex_polyhedron(&self) -> (r: Option<&ConvexPolyhedron>)
        ensures
            r is Some <==> self is ConvexPolyhedron,
            r matches Some(s) ==> *self == ShapeHandle::ConvexPolyhedron(*s),
    {
        self.as_shape::<ConvexPolyhedron>()
    }

    /// Converts this shape to a cylinder, if it is one.
    pub fn as_cylinder(&self) -> (r: Option<&Cylinder>)
        ensures
            r is Some <==> self is Cylinder,
            r matches Some(s) ==> *self == ShapeHandle::Cylinder(*s),
    {
        self.as_shape::<Cylinder>()
    }

    /// Converts this shape to a cone, if it is one.
    pub fn as_cone(&self) -> (r: Option<&Cone>)
        ensures
            r is Some <==> self is Cone,
            r matches Some(s) ==> *self == ShapeHandle::Cone(*s),
    {
        self.as_shape::<Cone>()
    }

    /// Converts this shape to a round cuboid, if it is one.
    pub fn as_round_cuboid(&self) -> (r: Option<&RoundCuboid>)
        ensures
            r is Some <==> self is RoundCuboid,
            r matches Some(s) ==> *self == ShapeHandle::RoundCuboid(*s),
    {
        self.as_shape::<RoundCuboid>()
    }

    /// Converts this shape to a round triangle, if it is one.
    pub fn as_round_triangle(&self) -> (r: Option<&RoundTriangle>)
        ensures
            r is Some <==> self is RoundTriangle,
            r matches Some(s) ==> *self == ShapeHandle::RoundTriangle(*s),
    {
        self.as_shape::<RoundTriangle>()
    }

    /// Converts this shape to a round cylinder, if it is one.
    pub fn as_round_cylinder(&self) -> (r: Option<&RoundCylinder>)
        ensures
            r is Some <==> self is RoundCylinder,
            r matches Some(s) ==> *self == ShapeHandle::RoundCylinder(*s),
    {
        self.as_shape::<RoundCylinder>()
    }

    /// Converts this shape to a round cone, if it is one.
    pub fn as_round_cone(&self) -> (r: Option<&RoundCone>)
        ensures
            r is Some <==> self is RoundCone,
            r matches Some(s) ==> *self == ShapeHandle::RoundCone(*s),
    {
        self.as_shape::<RoundCone>()
    }

    /// Converts this shape to a round convex polyhedron, if it is one.
    pub fn as_round_convex_polyhedron(&self) -> (r: Option<&RoundConvexPolyhedron>)
        ensures
            r is Some <==> self is RoundConvexPolyhedron,
            r matches Some(s) ==> *self == ShapeHandle::RoundConvexPolyhedron(*s),
    {
        self.as_shape::<RoundConvexPolyhedron>()
    }

    /// The held shape is well formed; never for a compound.
    pub open spec fn leaf_wf(self) -> bool {
        match self {
            ShapeHandle::Ball(s) => s.wf(),
            ShapeHandle::Cuboid(s) => s.wf(),
            ShapeHandle::Capsule(s) => s.wf(),
            ShapeHandle::Segment(s) => s.wf(),
            ShapeHandle::Triangle(s) => s.wf(),
            ShapeHandle::TriMesh(s) => s.wf(),
            ShapeHandle::Polyline(s) => s.wf(),
            ShapeHandle::HalfSpace(s) => s.wf(),
            ShapeHandle::HeightField(s) => s.wf(),
            ShapeHandle::Compound(_) => false,
            ShapeHandle::ConvexPolyhedron(s) => s.wf(),
            ShapeHandle::Cylinder(s) => s.wf(),
            ShapeHandle::Cone(s) => s.wf(),
            ShapeHandle::RoundCuboid(s) => s.wf(),
            ShapeHandle::RoundTriangle(s) => s.wf(),
            ShapeHandle::RoundCylinder(s) => s.wf(),
            ShapeHandle::RoundCone(s) => s.wf(),
            ShapeHandle::RoundConvexPolyhedron(s) => s.wf(),
        }
    }

    /// The local box of the held shape, for any shape but a compound.
    pub open spec fn leaf_local_aabb(self) -> Aabb {
        match self {
            ShapeHandle::Ball(s) => s.local_aabb_spec(),
            ShapeHandle::Cuboid(s) => s.local_aabb_spec(),
            ShapeHandle::Capsule(s) => s.local_aabb_spec(),
            ShapeHandle::Segment(s) => s.local_aabb_spec(),
            ShapeHandle::Triangle(s) => s.local_aabb_spec(),
            ShapeHandle::TriMesh(s) => s.local_aabb_spec(),
            ShapeHandle::Polyline(s) => s.local_aabb_spec(),
            ShapeHandle::HalfSpace(s) => s.local_aabb_spec(),
            ShapeHandle::HeightField(s) => s.local_aabb_spec(),
            ShapeHandle::Compound(_) => Aabb { mins: pt(0, 0, 0), maxs: pt(0, 0, 0) },
            ShapeHandle::ConvexPolyhedron(s) => s.local_aabb_spec(),
            ShapeHandle::Cylinder(s) => s.local_aabb_spec(),
            ShapeHandle::Cone(s) => s.local_aabb_spec(),
            ShapeHandle::RoundCuboid(s) => s.local_aabb_spec(),
            ShapeHandle::RoundTriangle(s) => s.local_aabb_spec(),
            ShapeHandle::RoundCylinder(s) => s.local_aabb_spec(),
            ShapeHandle::RoundCone(s) => s.local_aabb_spec(),
            ShapeHandle::RoundConvexPolyhedron(s) => s.local_aabb_spec(),
        }
    }

    /// The mass properties of the held shape, for any shape but a compound.
    pub open spec fn leaf_mass(self, density: int) -> MassProperties {
        match self {
            ShapeHandle::Ball(s) => s.mass_spec(density),
            ShapeHandle::Cuboid(s) => s.mass_spec(density),
            ShapeHandle::Capsule(s) => s.mass_spec(density),
            ShapeHandle::Segment(s) => s.mass_spec(density),
            ShapeHandle::Triangle(s) => s.mass_spec(density),
            ShapeHandle::TriMesh(s) => s.mass_spec(density),
            ShapeHandle::Polyline(s) => s.mass_spec(density),
            ShapeHandle::HalfSpace(s) => s.mass_spec(density),
            ShapeHandle::HeightField(s) => s.mass_spec(density),
            ShapeHandle::Compound(_) => MassProperties { mass: 0, local_com: pt(0, 0, 0) },
            ShapeHandle::ConvexPolyhedron(s) => s.mass_spec(density),
            ShapeHandle::Cylinder(s) => s.mass_spec(density),
            ShapeHandle::Cone(s) => s.mass_spec(density),
            ShapeHandle::RoundCuboid(s) => s.mass_spec(density),
            ShapeHandle::RoundTriangle(s) => s.mass_spec(density),
            ShapeHandle::RoundCylinder(s) => s.mass_spec(density),
            ShapeHandle::RoundCone(s) => s.mass_spec(density),
            ShapeHandle::RoundConvexPolyhedron(s) => s.mass_spec(density),
        }
    }

    /// The thickness of the held shape, for any shape but a compound.
    pub open spec fn leaf_thickness(self) -> int {
        match self {
            ShapeHandle::Ball(s) => s.thickness_spec(),
            ShapeHandle::Cuboid(s) => s.thickness_spec(),
            ShapeHandle::Capsule(s) => s.thickness_spec(),
            ShapeHandle::Segment(s) => s.thickness_spec(),
            ShapeHandle::Triangle(s) => s.thickness_spec(),
            ShapeHandle::TriMesh(s) => s.thickness_spec(),
            ShapeHandle::Polyline(s) => s.thickness_spec(),
            ShapeHandle::HalfSpace(s) => s.thickness_spec(),
            ShapeHandle::HeightField(s) => s.thickness_spec(),
            ShapeHandle::Compound(_) => 0,
            ShapeHandle::ConvexPolyhedron(s) => s.thickness_spec(),
            ShapeHandle::Cylinder(s) => s.thickness_spec(),
            ShapeHandle::Cone(s) => s.thickness_spec(),
            ShapeHandle::RoundCuboid(s) => s.thickness_spec(),
            ShapeHandle::RoundTriangle(s) => s.thickness_spec(),
            ShapeHandle::RoundCylinder(s) => s.thickness_spec(),
            ShapeHandle::RoundCone(s) => s.thickness_spec(),
            ShapeHandle::RoundConvexPolyhedron(s) => s.thickness_spec(),
        }
    }

    /// The held shape may stand in a compound: it is well formed and not an aggregate.
    pub open spec fn is_part(self) -> bool {
        self.leaf_wf() && !self.composite_spec()
    }

    pub(crate) fn leaf_compute_local_aabb(&self) -> (r: Aabb)
        requires
            self.is_part(),
        ensures
            r == self.leaf_local_aabb(),
            r.wf(),
            r.within(HALF_SPACE_EXTENT as int),
    {
        match self {
            ShapeHandle::Ball(s) => s.compute_local_aabb(),
            ShapeHandle::Cuboid(s) => s.compute_local_aabb(),
            ShapeHandle::Capsule(s) => s.compute_local_aabb(),
            ShapeHandle::Segment(s) => s.compute_local_aabb(),
            ShapeHandle::Triangle(s) => s.compute_local_aabb(),
            ShapeHandle::TriMesh(s) => s.compute_local_aabb(),
            ShapeHandle::Polyline(s) => s.compute_local_aabb(),
            ShapeHandle::HalfSpace(s) => s.compute_local_aabb(),
            ShapeHandle::HeightField(s) => s.compute_local_aabb(),
            ShapeHandle::Compound(_) => Aabb::new(Point::origin(), Point::origin()),
            ShapeHandle::ConvexPolyhedron(s) => s.compute_local_aabb(),
            ShapeHandle::Cylinder(s) => s.compute_local_aabb(),
            ShapeHandle::Cone(s) => s.compute_local_aabb(),
            ShapeHandle::RoundCuboid(s) => s.compute_local_aabb(),
            ShapeHandle::RoundTriangle(s) => s.compute_local_aabb(),
            ShapeHandle::RoundCylinder(s) => s.compute_local_aabb(),
            ShapeHandle::RoundCone(s) => s.compute_local_aabb(),
            ShapeHandle::RoundConvexPolyhedron(s) => s.compute_local_aabb(),
        }
    }

    pub(crate) fn leaf_mass_properties(&self, density: i64) -> (r: MassProperties)
        requires
            self.is_part(),
            0 < density <= MAX_DENSITY,
        ensures
            r == self.leaf_mass(density as int),
            r.wf(),
    {
        match self {
            ShapeHandle::Ball(s) => s.mass_properties(density),
            ShapeHandle::Cuboid(s) => s.mass_properties(density),
            ShapeHandle::Capsule(s) => s.mass_properties(density),
            ShapeHandle::Segment(s) => s.mass_properties(density),
            ShapeHandle::Triangle(s) => s.mass_properties(density),
            ShapeHandle::TriMesh(s) => s.mass_properties(density),
            ShapeHandle::Polyline(s) => s.mass_properties(density),
            ShapeHandle::HalfSpace(s) => s.mass_properties(density),
            ShapeHandle::HeightField(s) => s.mass_properties(density),
            ShapeHandle::Compound(_) => MassProperties::zero(),
            ShapeHandle::ConvexPolyhedron(s) => s.mass_properties(density),
            ShapeHandle::Cylinder(s) => s.mass_properties(density),
            ShapeHandle::Cone(s) => s.mass_properties(density),
            ShapeHandle::RoundCuboid(s) => s.mass_properties(density),
            ShapeHandle::RoundTriangle(s) => s.mass_properties(density),
            ShapeHandle::RoundCylinder(s) => s.mass_properties(density),
            ShapeHandle::RoundCone(s) => s.mass_properties(density),
            ShapeHandle::RoundConvexPolyhedron(s) => s.mass_properties(density),
        }
    }

    pub(crate) fn leaf_ccd_thickness(&self) -> (r: i64)
        requires
            self.is_part(),
        ensures
            r == self.leaf_thickness(),
            r >= 0,
    {
        match self {
            ShapeHandle::Ball(s) => s.ccd_thickness(),
            ShapeHandle::Cuboid(s) => s.ccd_thickness(),
            ShapeHandle::Capsule(s) => s.ccd_thickness(),
            ShapeHandle::Segment(s) => s.ccd_thickness(),
            ShapeHandle::Triangle(s) => s.ccd_thickness(),
            ShapeHandle::TriMesh(s) => s.ccd_thickness(),
            ShapeHandle::Polyline(s) => s.ccd_thickness(),
            ShapeHandle::HalfSpace(s) => s.ccd_thickness(),
            ShapeHandle::HeightField(s) => s.ccd_thickness(),
            ShapeHandle::Compound(_) => 0,
            ShapeHandle::ConvexPolyhedron(s) => s.ccd_thickness(),
            ShapeHandle::Cylinder(s) => s.ccd_thickness(),
            ShapeHandle::Cone(s) => s.ccd_thickness(),
            ShapeHandle::RoundCuboid(s) => s.ccd_thickness(),
            ShapeHandle::RoundTriangle(s) => s.ccd_thickness(),
            ShapeHandle::RoundCylinder(s) => s.ccd_thickness(),
            ShapeHandle::RoundCone(s) => s.ccd_thickness(),
            ShapeHandle::RoundConvexPolyhedron(s) => s.ccd_thickness(),
        }
    }
}

impl Shape for ShapeHandle {
    open spec fn wf(&self) -> bool {
        match self {
            ShapeHandle::Compound(c) => c.wf(),
            _ => self.leaf_wf(),
        }
    }

    open spec fn local_aabb_spec(&self) -> Aabb {
        match self {
            ShapeHandle::Compound(c) => c.local_aabb_spec(),
            _ => self.leaf_local_aabb(),
        }
    }

    open spec fn mass_spec(&self, density: int) -> MassProperties {
        match self {
            ShapeHandle::Compound(c) => c.mass_spec(density),
            _ => self.leaf_mass(density),
        }
    }

    open spec fn type_spec(&self) -> ShapeType {
        match self {
            ShapeHandle::Ball(s) => s.type_spec(),
            ShapeHandle::Cuboid(s) => s.type_spec(),
            ShapeHandle::Capsule(s) => s.type_spec(),
            ShapeHandle::Segment(s) => s.type_spec(),
            ShapeHandle::Triangle(s) => s.type_spec(),
            ShapeHandle::TriMesh(s) => s.type_spec(),
            ShapeHandle::Polyline(s) => s.type_spec(),
            ShapeHandle::HalfSpace(s) => s.type_spec(),
            ShapeHandle::HeightField(s) => s.type_spec(),
            ShapeHandle::Compound(s) => s.type_spec(),
            ShapeHandle::ConvexPolyhedron(s) => s.type_spec(),
            ShapeHandle::Cylinder(s) => s.type_spec(),
            ShapeHandle::Cone(s) => s.type_spec(),
            ShapeHandle::RoundCuboid(s) => s.type_spec(),
            ShapeHandle::RoundTriangle(s) => s.type_spec(),
            ShapeHandle::RoundCylinder(s) => s.type_spec(),
            ShapeHandle::RoundCone(s) => s.type_spec(),
            ShapeHandle::RoundConvexPolyhedron(s) => s.type_spec(),
        }
    }

    open spec fn thickness_spec(&self) -> int {
        match self {
            ShapeHandle::Compound(c) => c.thickness_spec(),
            _ => self.leaf_thickness(),
        }
    }

    open spec fn convex_spec(&self) -> bool {
        match self {
            ShapeHandle::Ball(s) => s.convex_spec(),
            ShapeHandle::Cuboid(s) => s.convex_spec(),
            ShapeHandle::Capsule(s) => s.convex_spec(),
            ShapeHandle::Segment(s) => s.convex_spec(),
            ShapeHandle::Triangle(s) => s.convex_spec(),
            ShapeHandle::TriMesh(s) => s.convex_spec(),
            ShapeHandle::Polyline(s) => s.convex_spec(),
            ShapeHandle::HalfSpace(s) => s.convex_spec(),
            ShapeHandle::HeightField(s) => s.convex_spec(),
            ShapeHandle::Compound(s) => s.convex_spec(),
            ShapeHandle::ConvexPolyhedron(s) => s.convex_spec(),
            ShapeHandle::Cylinder(s) => s.convex_spec(),
            ShapeHandle::Cone(s) => s.convex_spec(),
            ShapeHandle::RoundCuboid(s) => s.convex_spec(),
            ShapeHandle::RoundTriangle(s) => s.convex_spec(),
            ShapeHandle::RoundCylinder(s) => s.convex_spec(),
            ShapeHandle::RoundCone(s) => s.convex_spec(),
            ShapeHandle::RoundConvexPolyhedron(s) => s.convex_spec(),
        }
    }

    open spec fn support_map_spec(&self) -> bool {
        match self {
            ShapeHandle::Ball(s) => s.support_map_spec(),
            ShapeHandle::Cuboid(s) => s.support_map_spec(),
            ShapeHandle::Capsule(s) => s.support_map_spec(),
            ShapeHandle::Segment(s) => s.support_map_spec(),
            ShapeHandle::Triangle(s) => s.support_map_spec(),
            ShapeHandle::TriMesh(s) => s.support_map_spec(),
            ShapeHandle::Polyline(s) => s.support_map_spec(),
            ShapeHandle::HalfSpace(s) => s.support_map_spec(),
            ShapeHandle::HeightField(s) => s.support_map_spec(),
            ShapeHandle::Compound(s) => s.support_map_spec(),
            ShapeHandle::ConvexPolyhedron(s) => s.support_map_spec(),
            ShapeHandle::Cylinder(s) => s.support_map_spec(),
            ShapeHandle::Cone(s) => s.support_map_spec(),
            ShapeHandle::RoundCuboid(s) => s.support_map_spec(),
            ShapeHandle::RoundTriangle(s) => s.support_map_spec(),
            ShapeHandle::RoundCylinder(s) => s.support_map_spec(),
            ShapeHandle::RoundCone(s) => s.support_map_spec(),
            ShapeHandle::RoundConvexPolyhedron(s) => s.support_map_spec(),
        }
    }

    open spec fn composite_spec(&self) -> bool {
        match self {
            ShapeHandle::Ball(s) => s.composite_spec(),
            ShapeHandle::Cuboid(s) => s.composite_spec(),
            ShapeHandle::Capsule(s) => s.composite_spec(),
            ShapeHandle::Segment(s) => s.composite_spec(),
            ShapeHandle::Triangle(s) => s.composite_spec(),
            ShapeHandle::TriMesh(s) => s.composite_spec(),
            ShapeHandle::Polyline(s) => s.composite_spec(),
            ShapeHandle::HalfSpace(s) => s.composite_spec(),
            ShapeHandle::HeightField(s) => s.composite_spec(),
            ShapeHandle::Compound(s) => s.composite_spec(),
            ShapeHandle::ConvexPolyhedron(s) => s.composite_spec(),
            ShapeHandle::Cylinder(s) => s.composite_spec(),
            ShapeHandle::Cone(s) => s.composite_spec(),
            ShapeHandle::RoundCuboid(s) => s.composite_spec(),
            ShapeHandle::RoundTriangle(s) => s.composite_spec(),
            ShapeHandle::RoundCylinder(s) => s.composite_spec(),
            ShapeHandle::RoundCone(s) => s.composite_spec(),
            ShapeHandle::RoundConvexPolyhedron(s) => s.composite_spec(),
        }
    }

    open spec fn feature_margin_spec(&self) -> Option<int> {
        match self {
            ShapeHandle::Ball(s) => s.feature_margin_spec(),
            ShapeHandle::Cuboid(s) => s.feature_margin_spec(),
            ShapeHandle::Capsule(s) => s.feature_margin_spec(),
            ShapeHandle::Segment(s) => s.feature_margin_spec(),
            ShapeHandle::Triangle(s) => s.feature_margin_spec(),
            ShapeHandle::TriMesh(s) => s.feature_margin_spec(),
            ShapeHandle::Polyline(s) => s.feature_margin_spec(),
            ShapeHandle::HalfSpace(s) => s.feature_margin_spec(),
            ShapeHandle::HeightField(s) => s.feature_margin_spec(),
            ShapeHandle::Compound(s) => s.feature_margin_spec(),
            ShapeHandle::ConvexPolyhedron(s) => s.feature_margin_spec(),
            ShapeHandle::Cylinder(s) => s.feature_margin_spec(),
            ShapeHandle::Cone(s) => s.feature_margin_spec(),
            ShapeHandle::RoundCuboid(s) => s.feature_margin_spec(),
            ShapeHandle::RoundTriangle(s) => s.feature_margin_spec(),
            ShapeHandle::RoundCylinder(s) => s.feature_margin_spec(),
            ShapeHandle::RoundCone(s) => s.feature_margin_spec(),
            ShapeHandle::RoundConvexPolyhedron(s) => s.feature_margin_spec(),
        }
    }

    fn compute_local_aabb(&self) -> (r: Aabb) {
        match self {
            ShapeHandle::Ball(s) => s.compute_local_aabb(),
            ShapeHandle::Cuboid(s) => s.compute_local_aabb(),
            ShapeHandle::Capsule(s) => s.compute_local_aabb(),
            ShapeHandle::Segment(s) => s.compute_local_aabb(),
            ShapeHandle::Triangle(s) => s.compute_local_aabb(),
            ShapeHandle::TriMesh(s) => s.compute_local_aabb(),
            ShapeHandle::Polyline(s) => s.compute_local_aabb(),
            ShapeHandle::HalfSpace(s) => s.compute_local_aabb(),
            ShapeHandle::HeightField(s) => s.compute_local_aabb(),
            ShapeHandle::Compound(s) => s.compute_local_aabb(),
            ShapeHandle::ConvexPolyhedron(s) => s.compute_local_aabb(),
            ShapeHandle::Cylinder(s) => s.compute_local_aabb(),
            ShapeHandle::Cone(s) => s.compute_local_aabb(),
            ShapeHandle::RoundCuboid(s) => s.compute_local_aabb(),
            ShapeHandle::RoundTriangle(s) => s.compute_local_aabb(),
            ShapeHandle::RoundCylinder(s) => s.compute_local_aabb(),
            ShapeHandle::RoundCone(s) => s.compute_local_aabb(),
            ShapeHandle::RoundConvexPolyhedron(s) => s.compute_local_aabb(),
        }
    }

    fn mass_properties(&self, density: i64) -> (r: MassProperties) {
        match self {
            ShapeHandle::Ball(s) => s.mass_properties(density),
            ShapeHandle::Cuboid(s) => s.mass_properties(density),
            ShapeHandle::Capsule(s) => s.mass_properties(density),
            ShapeHandle::Segment(s) => s.mass_properties(density),
            ShapeHandle::Triangle(s) => s.mass_properties(density),
            ShapeHandle::TriMesh(s) => s.mass_properties(density),
            ShapeHandle::Polyline(s) => s.mass_properties(density),
            ShapeHandle::HalfSpace(s) => s.mass_properties(density),
            ShapeHandle::HeightField(s) => s.mass_properties(density),
            ShapeHandle::Compound(s) => s.mass_properties(density),
            ShapeHandle::ConvexPolyhedron(s) => s.mass_properties(density),
            ShapeHandle::Cylinder(s) => s.mass_properties(density),
            ShapeHandle::Cone(s) => s.mass_properties(density),
            ShapeHandle::RoundCuboid(s) => s.mass_properties(density),
            ShapeHandle::RoundTriangle(s) => s.mass_properties(density),
            ShapeHandle::RoundCylinder(s) => s.mass_properties(density),
            ShapeHandle::RoundCone(s) => s.mass_properties(density),
            ShapeHandle::RoundConvexPolyhedron(s) => s.mass_properties(density),
        }
    }

    fn shape_type(&self) -> (r: ShapeType) {
        match self {
            ShapeHandle::Ball(s) => s.shape_type(),
            ShapeHandle::Cuboid(s) => s.shape_type(),
            ShapeHandle::Capsule(s) => s.shape_type(),
            ShapeHandle::Segment(s) => s.shape_type(),
            ShapeHandle::Triangle(s) => s.shape_type(),
            ShapeHandle::TriMesh(s) => s.shape_type(),
            ShapeHandle::Polyline(s) => s.shape_type(),
            ShapeHandle::HalfSpace(s) => s.shape_type(),
            ShapeHandle::HeightField(s) => s.shape_type(),
            ShapeHandle::Compound(s) => s.shape_type(),
            ShapeHandle::ConvexPolyhedron(s) => s.shape_type(),
            ShapeHandle::Cylinder(s) => s.shape_type(),
            ShapeHandle::Cone(s) => s.shape_type(),
            ShapeHandle::RoundCuboid(s) => s.shape_type(),
            ShapeHandle::RoundTriangle(s) => s.shape_type(),
            ShapeHandle::RoundCylinder(s) => s.shape_type(),
            ShapeHandle::RoundCone(s) => s.shape_type(),
            ShapeHandle::RoundConvexPolyhedron(s) => s.shape_type(),
        }
    }

    fn ccd_thickness(&self) -> (r: i64) {
        match self {
            ShapeHandle::Ball(s) => s.ccd_thickness(),
            ShapeHandle::Cuboid(s) => s.ccd_thickness(),
            ShapeHandle::Capsule(s) => s.ccd_thickness(),
            ShapeHandle::Segment(s) => s.ccd_thickness(),
            ShapeHandle::Triangle(s) => s.ccd_thickness(),
            ShapeHandle::TriMesh(s) => s.ccd_thickness(),
            ShapeHandle::Polyline(s) => s.ccd_thickness(),
            ShapeHandle::HalfSpace(s) => s.ccd_thickness(),
            ShapeHandle::HeightField(s) => s.ccd_thickness(),
            ShapeHandle::Compound(s) => s.ccd_thickness(),
            ShapeHandle::ConvexPolyhedron(s) => s.ccd_thickness(),
            ShapeHandle::Cylinder(s) => s.ccd_thickness(),
            ShapeHandle::Cone(s) => s.ccd_thickness(),
            ShapeHandle::RoundCuboid(s) => s.ccd_thickness(),
            ShapeHandle::RoundTriangle(s) => s.ccd_thickness(),
            ShapeHandle::RoundCylinder(s) => s.ccd_thickness(),
            ShapeHandle::RoundCone(s) => s.ccd_thickness(),
            ShapeHandle::RoundConvexPolyhedron(s) => s.ccd_thickness(),
        }
    }

    fn is_convex(&self) -> (r: bool) {
        match self {
            ShapeHandle::Ball(s) => s.is_convex(),
            ShapeHandle::Cuboid(s) => s.is_convex(),
            ShapeHandle::Capsule(s) => s.is_convex(),
            ShapeHandle::Segment(s) => s.is_convex(),
            ShapeHandle::Triangle(s) => s.is_convex(),
            ShapeHandle::TriMesh(s) => s.is_convex(),
            ShapeHandle::Polyline(s) => s.is_convex(),
            ShapeHandle::HalfSpace(s) => s.is_convex(),
            ShapeHandle::HeightField(s) => s.is_convex(),
            ShapeHandle::Compound(s) => s.is_convex(),
            ShapeHandle::ConvexPolyhedron(s) => s.is_convex(),
            ShapeHandle::Cylinder(s) => s.is_convex(),
            ShapeHandle::Cone(s) => s.is_convex(),
            ShapeHandle::RoundCuboid(s) => s.is_convex(),
            ShapeHandle::RoundTriangle(s) => s.is_convex(),
            ShapeHandle::RoundCylinder(s) => s.is_convex(),
            ShapeHandle::RoundCone(s) => s.is_convex(),
            ShapeHandle::RoundConvexPolyhedron(s) => s.is_convex(),
        }
    }

    fn as_support_map(&self) -> (r: Option<&Self>) {
        if self.has_support_map() {
            Some(self)
        } else {
            None
        }
    }

    fn as_composite_shape(&self) -> (r: Option<&Self>) {
        if self.has_composite_view() {
            Some(self)
        } else {
            None
        }
    }

    fn as_polygonal_feature_map(&self) -> (r: Option<(PolygonalFeatureMap<'_>, i64)>) {
        match self {
            ShapeHandle::Ball(s) => s.as_polygonal_feature_map(),
            ShapeHandle::Cuboid(s) => s.as_polygonal_feature_map(),
            ShapeHandle::Capsule(s) => s.as_polygonal_feature_map(),
            ShapeHandle::Segment(s) => s.as_polygonal_feature_map(),
            ShapeHandle::Triangle(s) => s.as_polygonal_feature_map(),
            ShapeHandle::TriMesh(s) => s.as_polygonal_feature_map(),
            ShapeHandle::Polyline(s) => s.as_polygonal_feature_map(),
            ShapeHandle::HalfSpace(s) => s.as_polygonal_feature_map(),
            ShapeHandle::HeightField(s) => s.as_polygonal_feature_map(),
            ShapeHandle::Compound(s) => s.as_polygonal_feature_map(),
            ShapeHandle::ConvexPolyhedron(s) => s.as_polygonal_feature_map(),
            ShapeHandle::Cylinder(s) => s.as_polygonal_feature_map(),
            ShapeHandle::Cone(s) => s.as_polygonal_feature_map(),
            ShapeHandle::RoundCuboid(s) => s.as_polygonal_feature_map(),
            ShapeHandle::RoundTriangle(s) => s.as_polygonal_feature_map(),
            ShapeHandle::RoundCylinder(s) => s.as_polygonal_feature_map(),
            ShapeHandle::RoundCone(s) => s.as_polygonal_feature_map(),
            ShapeHandle::RoundConvexPolyhedron(s) => s.as_polygonal_feature_map(),
        }
    }
}

impl ShapeHandle {
    fn has_support_map(&self) -> (r: bool)
        ensures
            r == self.support_map_spec(),
    {
        match self {
            ShapeHandle::Ball(s) => s.as_support_map().is_some(),
            ShapeHandle::Cuboid(s) => s.as_support_map().is_some(),
            ShapeHandle::Capsule(s) => s.as_support_map().is_some(),
            ShapeHandle::Segment(s) => s.as_support_map().is_some(),
            ShapeHandle::Triangle(s) => s.as_support_map().is_some(),
            ShapeHandle::TriMesh(s) => s.as_support_map().is_some(),
            ShapeHandle::Polyline(s) => s.as_support_map().is_some(),
            ShapeHandle::HalfSpace(s) => s.as_support_map().is_some(),
            ShapeHandle::HeightField(s) => s.as_support_map().is_some(),
            ShapeHandle::Compound(s) => s.as_support_map().is_some(),
            ShapeHandle::ConvexPolyhedron(s) => s.as_support_map().is_some(),
            ShapeHandle::Cylinder(s) => s.as_support_map().is_some(),
            ShapeHandle::Cone(s) => s.as_support_map().is_some(),
            ShapeHandle::RoundCuboid(s) => s.as_support_map().is_some(),
            ShapeHandle::RoundTriangle(s) => s.as_support_map().is_some(),
            ShapeHandle::RoundCylinder(s) => s.as_support_map().is_some(),
            ShapeHandle::RoundCone(s) => s.as_support_map().is_some(),
            ShapeHandle::RoundConvexPolyhedron(s) => s.as_support_map().is_some(),
        }
    }

    fn has_composite_view(&self) -> (r: bool)
        ensures
            r == self.composite_spec(),
    {
        match self {
            ShapeHandle::Ball(s) => s.as_composite_shape().is_some(),
            ShapeHandle::Cuboid(s) => s.as_composite_shape().is_some(),
            ShapeHandle::Capsule(s) => s.as_composite_shape().is_some(),
            ShapeHandle::Segment(s) => s.as_composite_shape().is_some(),
            ShapeHandle::Triangle(s) => s.as_composite_shape().is_some(),
            ShapeHandle::TriMesh(s) => s.as_composite_shape().is_some(),
            ShapeHandle::Polyline(s) => s.as_composite_shape().is_some(),
            ShapeHandle::HalfSpace(s) => s.as_composite_shape().is_some(),
            ShapeHandle::HeightField(s) => s.as_composite_shape().is_some(),
            ShapeHandle::Compound(s) => s.as_composite_shape().is_some(),
            ShapeHandle::ConvexPolyhedron(s) => s.as_composite_shape().is_some(),
            ShapeHandle::Cylinder(s) => s.as_composite_shape().is_some(),
            ShapeHandle::Cone(s) => s.as_composite_shape().is_some(),
            ShapeHandle::RoundCuboid(s) => s.as_composite_shape().is_some(),
            ShapeHandle::RoundTriangle(s) => s.as_composite_shape().is_some(),
            ShapeHandle::RoundCylinder(s) => s.as_composite_shape().is_some(),
            ShapeHandle::RoundCone(s) => s.as_composite_shape().is_some(),
            ShapeHandle::RoundConvexPolyhedron(s) => s.as_composite_shape().is_some(),
        }
    }
}

} // verus!
