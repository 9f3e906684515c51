//! The primitive convex shapes, and the half-space.
use vstd::prelude::*;
use crate::bounding_volume::{pt, Aabb, MAX_EXTENT};
use crate::mass_properties::{
    ball_mass, capsule_mass, cone_mass, cuboid_mass, cylinder_mass, half, is_floor_distance,
    MassProperties,
};
use crate::math::{point_within, Point, Vector, MAX_COORD};
use crate::shape::{PolygonalFeatureMap, RoundableShape, Shape, ShapeType};

verus! {

/// Half the side of the box that stands for an unbounded extent; room is
/// left to move it by any pose.
pub const HALF_SPACE_EXTENT: i64 = MAX_EXTENT - MAX_COORD;

/// The box holding the single point `p`.
pub open spec fn point_aabb(p: Point) -> Aabb {
    Aabb { mins: p, maxs: p }
}

/// The box `[-h, h]` on every axis, with `h` given per axis.
pub open spec fn centered_aabb(hx: int, hy: int, hz: int) -> Aabb {
    Aabb { mins: pt(-hx, -hy, -hz), maxs: pt(hx, hy, hz) }
}

fn centered_box(hx: i64, hy: i64, hz: i64) -> (r: Aabb)
    requires
        0 <= hx <= HALF_SPACE_EXTENT,
        0 <= hy <= HALF_SPACE_EXTENT,
        0 <= hz <= HALF_SPACE_EXTENT,
    ensures
        r == centered_aabb(hx as int, hy as int, hz as int),
{
    Aabb::new(Point::new(-hx, -hy, -hz), Point::new(hx, hy, hz))
}

/// A ball centered at the origin.
#[derive(Clone, Copy, Debug, PartialEq, Eq, Structural)]
pub struct Ball {
    pub radius: i64,
}

impl Ball {
    pub fn new(radius: i64) -> (r: Ball)
        requires
            0 <= radius <= MAX_COORD,
        ensures
            r.radius == radius,
            r.wf(),
    {
        Ball { radius }
    }
}

impl Shape for Ball {
    open spec fn wf(&self) -> bool {
        0 <= self.radius <= MAX_COORD
    }

    open spec fn local_aabb_spec(&self) -> Aabb {
        centered_aabb(self.radius as int, self.radius as int, self.radius as int)
    }

    open spec fn mass_spec(&self, density: int) -> MassProperties {
        MassProperties { mass: ball_mass(density, self.radius as int) as i128, local_com: pt(0, 0, 0) }
    }

    open spec fn type_spec(&self) -> ShapeType {
        ShapeType::Ball
    }

    open spec fn thickness_spec(&self) -> int {
        self.radius as int
    }

    open spec fn convex_spec(&self) -> bool {
        true
    }

    open spec fn support_map_spec(&self) -> bool {
        true
    }

    open spec fn composite_spec(&self) -> bool {
        false
    }

    open spec fn feature_margin_spec(&self) -> Option<int> {
        None
    }

    fn compute_local_aabb(&self) -> (r: Aabb) {
        centered_box(self.radius, self.radius, self.radius)
    }

    fn mass_properties(&self, density: i64) -> (r: MassProperties) {
        MassProperties::from_ball(density, self.radius)
    }

    fn shape_type(&self) -> (r: ShapeType) {
        ShapeType::Ball
    }

    fn ccd_thickness(&self) -> (r: i64) {
        self.radius
    }

    fn is_convex(&self) -> (r: bool) {
        true
    }

    fn as_support_map(&self) -> (r: Option<&Self>) {
        Some(self)
    }

    fn as_composite_shape(&self) -> (r: Option<&Self>) {
        None
    }

    fn as_polygonal_feature_map(&self) -> (r: Option<(PolygonalFeatureMap<'_>, i64)>) {
        None
    }
}

/// A box centered at the origin, given by its half extents.
#[derive(Clone, Copy, Debug, PartialEq, Eq, Structural)]
pub struct Cuboid {
    pub half_extents: Vector,
}

/// The smallest of three values.
pub open spec fn min3(a: int, b: int, c: int) -> int {
    if a <= b && a <= c {
        a
    } else if b <= c {
        b
    } else {
        c
    }
}

impl Cuboid {
    pub fn new(half_extents: Vector) -> (r: Cuboid)
        requires
            0 <= half_extents.x <= MAX_COORD,
            0 <= half_extents.y <= MAX_COORD,
            0 <= half_extents.z <= MAX_COORD,
        ensures
            r.half_extents == half_extents,
            r.wf(),
    {
        Cuboid { half_extents }
    }
}

impl Shape for Cuboid {
    open spec fn wf(&self) -> bool {
        0 <= self.half_extents.x <= MAX_COORD && 0 <= self.half_extents.y <= MAX_COORD
            && 0 <= self.half_extents.z <= MAX_COORD
    }

    open spec fn local_aabb_spec(&self) -> Aabb {
        centered_aabb(self.half_extents.x as int, self.half_extents.y as int, self.half_extents.z as int)
    }

    open spec fn mass_spec(&self, density: int) -> MassProperties {
        MassProperties { mass: cuboid_mass(density, self.half_extents) as i128, local_com: pt(0, 0, 0) }
    }

    open spec fn type_spec(&self) -> ShapeType {
        ShapeType::Cuboid
    }

    open spec fn thickness_spec(&self) -> int {
        min3(self.half_extents.x as int, self.half_extents.y as int, self.half_extents.z as int)
    }

    open spec fn convex_spec(&self) -> bool {
        true
    }

    open spec fn support_map_spec(&self) -> bool {
        true
    }

    open spec fn composite_spec(&self) -> bool {
        false
    }

    open spec fn feature_margin_spec(&self) -> Option<int> {
        Some(0)
    }

    fn compute_local_aabb(&self) -> (r: Aabb) {
        centered_box(self.half_extents.x, self.half_extents.y, self.half_extents.z)
    }

    fn mass_properties(&self, density: i64) -> (r: MassProperties) {
        MassProperties::from_cuboid(density, self.half_extents)
    }

    fn shape_type(&self) -> (r: ShapeType) {
        ShapeType::Cuboid
    }

    fn ccd_thickness(&self) -> (r: i64) {
        let he = self.half_extents;
        if he.x <= he.y && he.x <= he.z {
            he.x
        } else if he.y <= he.z {
            he.y
        } else {
            he.z
        }
    }

    fn is_convex(&self) -> (r: bool) {
        true
    }

    fn as_support_map(&self) -> (r: Option<&Self>) {
        Some(self)
    }

    fn as_composite_shape(&self) -> (r: Option<&Self>) {
        None
    }

    fn as_polygonal_feature_map(&self) -> (r: Option<(PolygonalFeatureMap<'_>, i64)>) {
        Some((PolygonalFeatureMap::Cuboid(self), 0))
    }
}

impl RoundableShape for Cuboid {
    open spec fn round_type_spec() -> ShapeType {
        ShapeType::RoundCuboid
    }

    fn round_shape_type() -> (r: ShapeType) {
        ShapeType::RoundCuboid
    }

    proof fn lemma_roundable(&self) {
    }
}

/// A segment between two points.
#[derive(Clone, Copy, Debug, PartialEq, Eq, Structural)]
pub struct Segment {
    pub a: Point,
    pub b: Point,
}

impl Segment {
    pub fn new(a: Point, b: Point) -> (r: Segment)
        requires
            point_within(a, MAX_COORD as int),
            point_within(b, MAX_COORD as int),
        ensures
            r.a == a && r.b == b,
            r.wf(),
    {
        Segment { a, b }
    }
}

impl Shape for Segment {
    open spec fn wf(&self) -> bool {
        point_within(self.a, MAX_COORD as int) && point_within(self.b, MAX_COORD as int)
    }

    open spec fn local_aabb_spec(&self) -> Aabb {
        point_aabb(self.a).merged_spec(point_aabb(self.b))
    }

    open spec fn mass_spec(&self, density: int) -> MassProperties {
        MassProperties { mass: 0, local_com: pt(0, 0, 0) }
    }

    open spec fn type_spec(&self) -> ShapeType {
        ShapeType::Segment
    }

    open spec fn thickness_spec(&self) -> int {
        0
    }

    open spec fn convex_spec(&self) -> bool {
        true
    }

    open spec fn support_map_spec(&self) -> bool {
        true
    }

    open spec fn composite_spec(&self) -> bool {
        false
    }

    open spec fn feature_margin_spec(&self) -> Option<int> {
        Some(0)
    }

    fn compute_local_aabb(&self) -> (r: Aabb) {
        Aabb::new(self.a, self.a).merged(&Aabb::new(self.b, self.b))
    }

    fn mass_properties(&self, density: i64) -> (r: MassProperties) {
        MassProperties::zero()
    }

    fn shape_type(&self) -> (r: ShapeType) {
        ShapeType::Segment
    }

    fn ccd_thickness(&self) -> (r: i64) {
        0
    }

    fn is_convex(&self) -> (r: bool) {
        true
    }

    fn as_support_map(&self) -> (r: Option<&Self>) {
        Some(self)
    }

    fn as_composite_shape(&self) -> (r: Option<&Self>) {
        None
    }

    fn as_polygonal_feature_map(&self) -> (r: Option<(PolygonalFeatureMap<'_>, i64)>) {
        Some((PolygonalFeatureMap::Segment(self), 0))
    }
}

/// The points within `radius` of a segment.
#[derive(Clone, Copy, Debug, PartialEq, Eq, Structural)]
pub struct Capsule {
    pub segment: Segment,
    pub radius: i64,
}

impl Capsule {
    pub fn new(a: Point, b: Point, radius: i64) -> (r: Capsule)
        requires
            point_within(a, MAX_COORD as int),
            point_within(b, MAX_COORD as int),
            0 <= radius <= MAX_COORD,
        ensures
            r.segment.a == a && r.segment.b == b && r.radius == radius,
            r.wf(),
    {
        Capsule { segment: Segment::new(a, b), radius }
    }
}

impl Shape for Capsule {
    open spec fn wf(&self) -> bool {
        self.segment.wf() && 0 <= self.radius <= MAX_COORD
    }

    open spec fn local_aabb_spec(&self) -> Aabb {
        self.segment.local_aabb_spec().loosened_spec(self.radius as int)
    }

    open spec fn mass_spec(&self, density: int) -> MassProperties {
        let a = self.segment.a;
        let b = self.segment.b;
        MassProperties {
            mass: capsule_mass(
                density,
                choose|len: int| is_floor_distance(a, b, len),
                self.radius as int,
            ) as i128,
            local_com: pt(half(a.x + b.x), half(a.y + b.y), half(a.z + b.z)),
        }
    }

    open spec fn type_spec(&self) -> ShapeType {
        ShapeType::Capsule
    }

    open spec fn thickness_spec(&self) -> int {
        self.radius as int
    }

    open spec fn convex_spec(&self) -> bool {
        true
    }

    open spec fn support_map_spec(&self) -> bool {
        true
    }

    open spec fn composite_spec(&self) -> bool {
        false
    }

    open spec fn feature_margin_spec(&self) -> Option<int> {
        Some(self.radius as int)
    }

    fn compute_local_aabb(&self) -> (r: Aabb) {
        self.segment.compute_local_aabb().loosened(self.radius)
    }

    fn mass_properties(&self, density: i64) -> (r: MassProperties) {
        let r = MassProperties::from_capsule(density, self.segment.a, self.segment.b, self.radius);
        proof {
            let a = self.segment.a;
            let b = self.segment.b;
            let len = choose|len: int| is_floor_distance(a, b, len);
            assert(is_floor_distance(a, b, len));
            let l2 = choose|l: int| is_floor_distance(a, b, l) && r.mass == capsule_mass(density as int, l, self.radius as int);
            crate::mass_properties::lemma_floor_sqrt_unique(
                (b.x - a.x) * (b.x - a.x) + (b.y - a.y) * (b.y - a.y) + (b.z - a.z) * (b.z - a.z), len, l2);
        }
        r
    }

    fn shape_type(&self) -> (r: ShapeType) {
        ShapeType::Capsule
    }

    fn ccd_thickness(&self) -> (r: i64) {
        self.radius
    }

    fn is_convex(&self) -> (r: bool) {
        true
    }

    fn as_support_map(&self) -> (r: Option<&Self>) {
        Some(self)
    }

    fn as_composite_shape(&self) -> (r: Option<&Self>) {
        None
    }

    fn as_polygonal_feature_map(&self) -> (r: Option<(PolygonalFeatureMap<'_>, i64)>) {
        Some((PolygonalFeatureMap::Segment(&self.segment), self.radius))
    }
}

/// A triangle given by its three vertices.
#[derive(Clone, Copy, Debug, PartialEq, Eq, Structural)]
pub struct Triangle {
    pub a: Point,
    pub b: Point,
    pub c: Point,
}

impl Triangle {
    pub fn new(a: Point, b: Point, c: Point) -> (r: Triangle)
        requires
            point_within(a, MAX_COORD as int),
            point_within(b, MAX_COORD as int),
            point_within(c, MAX_COORD as int),
        ensures
            r.a == a && r.b == b && r.c == c,
            r.wf(),
    {
        Triangle { a, b, c }
    }
}

impl Shape for Triangle {
    open spec fn wf(&self) -> bool {
        point_within(self.a, MAX_COORD as int) && point_within(self.b, MAX_COORD as int)
            && point_within(self.c, MAX_COORD as int)
    }

    open spec fn local_aabb_spec(&self) -> Aabb {
        point_aabb(self.a).merged_spec(point_aabb(self.b)).merged_spec(point_aabb(self.c))
    }

    /// A triangle has no volume.
    open spec fn mass_spec(&self, density: int) -> MassProperties {
        MassProperties { mass: 0, local_com: pt(0, 0, 0) }
    }

    open spec fn type_spec(&self) -> ShapeType {
        ShapeType::Triangle
    }

    /// A conservative placeholder: a triangle may be arbitrarily thin.
    open spec fn thickness_spec(&self) -> int {
        0
    }

    open spec fn convex_spec(&self) -> bool {
        true
    }

    open spec fn support_map_spec(&self) -> bool {
        true
    }

    open spec fn composite_spec(&self) -> bool {
        false
    }

    open spec fn feature_margin_spec(&self) -> Option<int> {
        Some(0)
    }

    fn compute_local_aabb(&self) -> (r: Aabb) {
        Aabb::new(self.a, self.a).merged(&Aabb::new(self.b, self.b)).merged(&Aabb::new(self.c, self.c))
    }

    fn mass_properties(&self, density: i64) -> (r: MassProperties) {
        MassProperties::zero()
    }

    fn shape_type(&self) -> (r: ShapeType) {
        ShapeType::Triangle
    }

    fn ccd_thickness(&self) -> (r: i64) {
        0
    }

    fn is_convex(&self) -> (r: bool) {
        true
    }

    fn as_support_map(&self) -> (r: Option<&Self>) {
        Some(self)
    }

    fn as_composite_shape(&self) -> (r: Option<&Self>) {
        None
    }

    fn as_polygonal_feature_map(&self) -> (r: Option<(PolygonalFeatureMap<'_>, i64)>) {
        Some((PolygonalFeatureMap::Triangle(self), 0))
    }
}

impl RoundableShape for Triangle {
    open spec fn round_type_spec() -> ShapeType {
        ShapeType::RoundTriangle
    }

    fn round_shape_type() -> (r: ShapeType) {
        ShapeType::RoundTriangle
    }

    proof fn lemma_roundable(&self) {
    }
}

/// A cylinder along the y axis, centered at the origin.
#[derive(Clone, Copy, Debug, PartialEq, Eq, Structural)]
pub struct Cylinder {
    pub half_height: i64,
    pub radius: i64,
}

impl Cylinder {
    pub fn new(half_height: i64, radius: i64) -> (r: Cylinder)
        requires
            0 <= half_height <= MAX_COORD,
            0 <= radius <= MAX_COORD,
        ensures
            r.half_height == half_height && r.radius == radius,
            r.wf(),
    {
        Cylinder { half_height, radius }
    }
}

impl Shape for Cylinder {
    open spec fn wf(&self) -> bool {
        0 <= self.half_height <= MAX_COORD && 0 <= self.radius <= MAX_COORD
    }

    open spec fn local_aabb_spec(&self) -> Aabb {
        centered_aabb(self.radius as int, self.half_height as int, self.radius as int)
    }

    open spec fn mass_spec(&self, density: int) -> MassProperties {
        MassProperties {
            mass: cylinder_mass(density, self.half_height as int, self.radius as int) as i128,
            local_com: pt(0, 0, 0),
        }
    }

    open spec fn type_spec(&self) -> ShapeType {
        ShapeType::Cylinder
    }

    open spec fn thickness_spec(&self) -> int {
        self.radius as int
    }

    open spec fn convex_spec(&self) -> bool {
        true
    }

    open spec fn support_map_spec(&self) -> bool {
        true
    }

    open spec fn composite_spec(&self) -> bool {
        false
    }

    open spec fn feature_margin_spec(&self) -> Option<int> {
        Some(0)
    }

    fn compute_local_aabb(&self) -> (r: Aabb) {
        centered_box(self.radius, self.half_height, self.radius)
    }

    fn mass_properties(&self, density: i64) -> (r: MassProperties) {
        MassProperties::from_cylinder(density, self.half_height, self.radius)
    }

    fn shape_type(&self) -> (r: ShapeType) {
        ShapeType::Cylinder
    }

    fn ccd_thickness(&self) -> (r: i64) {
        self.radius
    }

    fn is_convex(&self) -> (r: bool) {
        true
    }

    fn as_support_map(&self) -> (r: Option<&Self>) {
        Some(self)
    }

    fn as_composite_shape(&self) -> (r: Option<&Self>) {
        None
    }

    fn as_polygonal_feature_map(&self) -> (r: Option<(PolygonalFeatureMap<'_>, i64)>) {
        Some((PolygonalFeatureMap::Cylinder(self), 0))
    }
}

impl RoundableShape for Cylinder {
    open spec fn round_type_spec() -> ShapeType {
        ShapeType::RoundCylinder
    }

    fn round_shape_type() -> (r: ShapeType) {
        ShapeType::RoundCylinder
    }

    proof fn lemma_roundable(&self) {
    }
}

/// A cone along the y axis, apex up, whose bounding box is centered at the origin.
#[derive(Clone, Copy, Debug, PartialEq, Eq, Structural)]
pub struct Cone {
    pub half_height: i64,
    pub radius: i64,
}

impl Cone {
    pub fn new(half_height: i64, radius: i64) -> (r: Cone)
        requires
            0 <= half_height <= MAX_COORD,
            0 <= radius <= MAX_COORD,
        ensures
            r.half_height == half_height && r.radius == radius,
            r.wf(),
    {
        Cone { half_height, radius }
    }
}

impl Shape for Cone {
    open spec fn wf(&self) -> bool {
        0 <= self.half_height <= MAX_COORD && 0 <= self.radius <= MAX_COORD
    }

    open spec fn local_aabb_spec(&self) -> Aabb {
        centered_aabb(self.radius as int, self.half_height as int, self.radius as int)
    }

    open spec fn mass_spec(&self, density: int) -> MassProperties {
        MassProperties {
            mass: cone_mass(density, self.half_height as int, self.radius as int) as i128,
            local_com: pt(0, -(self.half_height / 2), 0),
        }
    }

    open spec fn type_spec(&self) -> ShapeType {
        ShapeType::Cone
    }

    open spec fn thickness_spec(&self) -> int {
        self.radius as int
    }

    open spec fn convex_spec(&self) -> bool {
        true
    }

    open spec fn support_map_spec(&self) -> bool {
        true
    }

    open spec fn composite_spec(&self) -> bool {
        false
    }

    open spec fn feature_margin_spec(&self) -> Option<int> {
        Some(0)
    }

    fn compute_local_aabb(&self) -> (r: Aabb) {
        centered_box(self.radius, self.half_height, self.radius)
    }

    fn mass_properties(&self, density: i64) -> (r: MassProperties) {
        MassProperties::from_cone(density, self.half_height, self.radius)
    }

    fn shape_type(&self) -> (r: ShapeType) {
        ShapeType::Cone
    }

    fn ccd_thickness(&self) -> (r: i64) {
        self.radius
    }

    fn is_convex(&self) -> (r: bool) {
        true
    }

    fn as_support_map(&self) -> (r: Option<&Self>) {
        Some(self)
    }

    fn as_composite_shape(&self) -> (r: Option<&Self>) {
        None
    }

    fn as_polygonal_feature_map(&self) -> (r: Option<(PolygonalFeatureMap<'_>, i64)>) {
        Some((PolygonalFeatureMap::Cone(self), 0))
    }
}

impl RoundableShape for Cone {
    open spec fn round_type_spec() -> ShapeType {
        ShapeType::RoundCone
    }

    fn round_shape_type() -> (r: ShapeType) {
        ShapeType::RoundCone
    }

    proof fn lemma_roundable(&self) {
    }
}

/// The points on the side of a plane through the origin opposite to `normal`.
#[derive(Clone, Copy, Debug, PartialEq, Eq, Structural)]
pub struct HalfSpace {
    pub normal: Vector,
}

impl HalfSpace {
    pub fn new(normal: Vector) -> (r: HalfSpace)
        requires
            point_within(normal, MAX_COORD as int),
        ensures
            r.normal == normal,
            r.wf(),
    {
        HalfSpace { normal }
    }
}

impl Shape for HalfSpace {
    open spec fn wf(&self) -> bool {
        point_within(self.normal, MAX_COORD as int)
    }

    /// Unbounded: the box of the largest extent the library handles.
    open spec fn local_aabb_spec(&self) -> Aabb {
        centered_aabb(HALF_SPACE_EXTENT as int, HALF_SPACE_EXTENT as int, HALF_SPACE_EXTENT as int)
    }

    open spec fn mass_spec(&self, density: int) -> MassProperties {
        MassProperties { mass: 0, local_com: pt(0, 0, 0) }
    }

    open spec fn type_spec(&self) -> ShapeType {
        ShapeType::HalfSpace
    }

    /// Unbounded: the largest representable value.
    open spec fn thickness_spec(&self) -> int {
        i64::MAX as int
    }

    open spec fn convex_spec(&self) -> bool {
        true
    }

    open spec fn support_map_spec(&self) -> bool {
        false
    }

    open spec fn composite_spec(&self) -> bool {
        false
    }

    open spec fn feature_margin_spec(&self) -> Option<int> {
        None
    }

    fn compute_local_aabb(&self) -> (r: Aabb) {
        centered_box(HALF_SPACE_EXTENT, HALF_SPACE_EXTENT, HALF_SPACE_EXTENT)
    }

    fn mass_properties(&self, density: i64) -> (r: MassProperties) {
        MassProperties::zero()
    }

    fn shape_type(&self) -> (r: ShapeType) {
        ShapeType::HalfSpace
    }

    fn ccd_thickness(&self) -> (r: i64) {
        i64::MAX
    }

    fn is_convex(&self) -> (r: bool) {
        true
    }

    fn as_support_map(&self) -> (r: Option<&Self>) {
        None
    }

    fn as_composite_shape(&self) -> (r: Option<&Self>) {
        None
    }

    fn as_polygonal_feature_map(&self) -> (r: Option<(PolygonalFeatureMap<'_>, i64)>) {
        None
    }
}

} // verus!
