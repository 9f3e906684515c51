//! Shapes made of many vertices: triangle meshes, polylines, heightfields
//! and convex polyhedra.
use vstd::prelude::*;
use crate::bounding_volume::{local_point_cloud_aabb, points_aabb, pt, Aabb};
use crate::convex_hull_utils::points_within;
use crate::mass_properties::MassProperties;
use crate::math::{coord, floor_div, point_within, Point, MAX_COORD};
use crate::shape::{PolygonalFeatureMap, RoundableShape, Shape, ShapeType};

verus! {

/// Every vertex index of every triangle is below `n`.
pub open spec fn triangles_below(t: Seq<(u32, u32, u32)>, n: int) -> bool {
    forall|j: int| 0 <= j < t.len() ==> (#[trigger] t[j]).0 < n && t[j].1 < n && t[j].2 < n
}

/// Every vertex index of every segment is below `n`.
pub open spec fn segments_below(s: Seq<(u32, u32)>, n: int) -> bool {
    forall|j: int| 0 <= j < s.len() ==> (#[trigger] s[j]).0 < n && s[j].1 < n
}

/// A mesh of triangles, each given by three indices into `vertices`.
#[derive(Debug)]
pub struct TriMesh {
    pub vertices: Vec<Point>,
    pub indices: Vec<(u32, u32, u32)>,
    pub aabb: Aabb,
}

impl TriMesh {
    pub fn new(vertices: Vec<Point>, indices: Vec<(u32, u32, u32)>) -> (r: TriMesh)
        requires
            vertices@.len() >= 1,
            points_within(vertices@),
            triangles_below(indices@, vertices@.len() as int),
        ensures
            r.vertices@ == vertices@,
            r.indices@ == indices@,
            r.wf(),
    {
        let aabb = local_point_cloud_aabb(vertices.as_slice());
        TriMesh { vertices, indices, aabb }
    }
}

impl Shape for TriMesh {
    open spec fn wf(&self) -> bool {
        &&& self.vertices@.len() >= 1
        &&& points_within(self.vertices@)
        &&& triangles_below(self.indices@, self.vertices@.len() as int)
        &&& self.aabb == points_aabb(self.vertices@)
    }

    open spec fn local_aabb_spec(&self) -> Aabb {
        points_aabb(self.vertices@)
    }

    /// A surface encloses no volume of its own.
    open spec fn mass_spec(&self, density: int) -> MassProperties {
        MassProperties { mass: 0, local_com: pt(0, 0, 0) }
    }

    open spec fn type_spec(&self) -> ShapeType {
        ShapeType::TriMesh
    }

    /// A conservative placeholder: a mesh may be arbitrarily thin.
    open spec fn thickness_spec(&self) -> int {
        0
    }

    open spec fn convex_spec(&self) -> bool {
        false
    }

    open spec fn support_map_spec(&self) -> bool {
        false
    }

    open spec fn composite_spec(&self) -> bool {
        true
    }

    open spec fn feature_margin_spec(&self) -> Option<int> {
        None
    }

    fn compute_local_aabb(&self) -> (r: Aabb) {
        proof {
            crate::bounding_volume::lemma_points_aabb_bounded(self.vertices@);
        }
        self.aabb
    }

    fn mass_properties(&self, density: i64) -> (r: MassProperties) {
        MassProperties::zero()
    }

    fn shape_type(&self) -> (r: ShapeType) {
        ShapeType::TriMesh
    }

    fn ccd_thickness(&self) -> (r: i64) {
        0
    }

    fn is_convex(&self) -> (r: bool) {
        false
    }

    fn as_support_map(&self) -> (r: Option<&Self>) {
        None
    }

    fn as_composite_shape(&self) -> (r: Option<&Self>) {
        Some(self)
    }

    fn as_polygonal_feature_map(&self) -> (r: Option<(PolygonalFeatureMap<'_>, i64)>) {
        None
    }
}

/// A set of segments, each given by two indices into `vertices`.
#[derive(Debug)]
pub struct Polyline {
    pub vertices: Vec<Point>,
    pub indices: Vec<(u32, u32)>,
    pub aabb: Aabb,
}

impl Polyline {
    pub fn new(vertices: Vec<Point>, indices: Vec<(u32, u32)>) -> (r: Polyline)
        requires
            vertices@.len() >= 1,
            points_within(vertices@),
            segments_below(indices@, vertices@.len() as int),
        ensures
            r.vertices@ == vertices@,
            r.indices@ == indices@,
            r.wf(),
    {
        let aabb = local_point_cloud_aabb(vertices.as_slice());
        Polyline { vertices, indices, aabb }
    }
}

impl Shape for Polyline {
    open spec fn wf(&self) -> bool {
        &&& self.vertices@.len() >= 1
        &&& points_within(self.vertices@)
        &&& segments_below(self.indices@, self.vertices@.len() as int)
        &&& self.aabb == points_aabb(self.vertices@)
    }

    open spec fn local_aabb_spec(&self) -> Aabb {
        points_aabb(self.vertices@)
    }

    /// Segments enclose no volume.
    open spec fn mass_spec(&self, density: int) -> MassProperties {
        MassProperties { mass: 0, local_com: pt(0, 0, 0) }
    }

    open spec fn type_spec(&self) -> ShapeType {
        ShapeType::Polyline
    }

    open spec fn thickness_spec(&self) -> int {
        0
    }

    open spec fn convex_spec(&self) -> bool {
        false
    }

    open spec fn support_map_spec(&self) -> bool {
        false
    }

    open spec fn composite_spec(&self) -> bool {
        true
    }

    open spec fn feature_margin_spec(&self) -> Option<int> {
        None
    }

    fn compute_local_aabb(&self) -> (r: Aabb) {
        proof {
            crate::bounding_volume::lemma_points_aabb_bounded(self.vertices@);
        }
        self.aabb
    }

    fn mass_properties(&self, density: i64) -> (r: MassProperties) {
        MassProperties::zero()
    }

    fn shape_type(&self) -> (r: ShapeType) {
        ShapeType::Polyline
    }

    fn ccd_thickness(&self) -> (r: i64) {
        0
    }

    fn is_convex(&self) -> (r: bool) {
        false
    }

    fn as_support_map(&self) -> (r: Option<&Self>) {
        None
    }

    fn as_composite_shape(&self) -> (r: Option<&Self>) {
        Some(self)
    }

    fn as_polygonal_feature_map(&self) -> (r: Option<(PolygonalFeatureMap<'_>, i64)>) {
        None
    }
}

/// Largest number of faces of a convex polyhedron.
pub const MAX_FACES: usize = 1_000_000;

/// Largest six-fold volume of a convex polyhedron: that of the box of side `2 * MAX_COORD`.
pub const MAX_VOLUME6: i128 = 48_000_000_000_000_000_000;

/// The determinant of the matrix with rows `a`, `b`, `c`: six times the
/// signed volume of the tetrahedron with vertices `a`, `b`, `c` and the origin.
pub open spec fn det3(a: Point, b: Point, c: Point) -> int {
    a.x * (b.y * c.z - b.z * c.y) - a.y * (b.x * c.z - b.z * c.x) + a.z * (b.x * c.y - b.y * c.x)
}

pub open spec fn face_det(p: Seq<Point>, f: (u32, u32, u32)) -> int {
    det3(p[f.0 as int], p[f.1 as int], p[f.2 as int])
}

/// Sum of the coordinates along axis `k` of the three vertices of a face.
pub open spec fn face_sum(p: Seq<Point>, f: (u32, u32, u32), k: int) -> int {
    coord(p[f.0 as int], k) + coord(p[f.1 as int], k) + coord(p[f.2 as int], k)
}

/// Six times the volume enclosed by outward-oriented faces.
pub open spec fn volume6(p: Seq<Point>, faces: Seq<(u32, u32, u32)>) -> int
    decreases faces.len(),
{
    if faces.len() == 0 {
        0
    } else {
        volume6(p, faces.drop_last()) + face_det(p, faces.last())
    }
}

/// Twenty-four times the first moment of volume along axis `k`.
pub open spec fn moment24(p: Seq<Point>, faces: Seq<(u32, u32, u32)>, k: int) -> int
    decreases faces.len(),
{
    if faces.len() == 0 {
        0
    } else {
        moment24(p, faces.drop_last(), k) + face_det(p, faces.last()) * face_sum(p, faces.last(), k)
    }
}

/// The centroid of the enclosed volume along axis `k`, rounded down; 0 for no volume.
pub open spec fn centroid_coord(p: Seq<Point>, faces: Seq<(u32, u32, u32)>, k: int) -> int {
    let v = volume6(p, faces);
    if v > 0 {
        moment24(p, faces, k) / (4 * v)
    } else {
        0
    }
}

/// The centroid of the enclosed volume.
pub open spec fn polyhedron_com(p: Seq<Point>, faces: Seq<(u32, u32, u32)>) -> Point {
    pt(centroid_coord(p, faces, 0), centroid_coord(p, faces, 1), centroid_coord(p, faces, 2))
}

/// Vertices and faces that a convex polyhedron accepts.
pub open spec fn valid_convex_mesh(p: Seq<Point>, faces: Seq<(u32, u32, u32)>) -> bool {
    &&& p.len() >= 1
    &&& points_within(p)
    &&& faces.len() <= MAX_FACES
    &&& triangles_below(faces, p.len() as int)
    &&& 0 <= volume6(p, faces) <= MAX_VOLUME6
    &&& forall|k: int| 0 <= k < 3 ==> -MAX_COORD <= #[trigger] centroid_coord(p, faces, k) <= MAX_COORD
}

proof fn lemma_abs_mul_le(u: int, v: int, bu: int, bv: int)
    requires
        -bu <= u <= bu,
        -bv <= v <= bv,
    ensures
        -(bu * bv) <= u * v <= bu * bv,
{
    assert(-(bu * bv) <= u * v <= bu * bv) by (nonlinear_arith)
        requires
            -bu <= u <= bu,
            -bv <= v <= bv,
    ;
}

/// The determinant of a face and its products with the face's coordinate sums.
fn face_terms(a: Point, b: Point, c: Point) -> (r: (i128, i128, i128, i128))
    requires
        point_within(a, MAX_COORD as int),
        point_within(b, MAX_COORD as int),
        point_within(c, MAX_COORD as int),
    ensures
        r.0 == det3(a, b, c),
        r.1 == det3(a, b, c) * (a.x + b.x + c.x),
        r.2 == det3(a, b, c) * (a.y + b.y + c.y),
        r.3 == det3(a, b, c) * (a.z + b.z + c.z),
        -6_000_000_000_000_000_000 <= r.0 <= 6_000_000_000_000_000_000,
        -18_000_000_000_000_000_000_000_000 <= r.1 <= 18_000_000_000_000_000_000_000_000,
        -18_000_000_000_000_000_000_000_000 <= r.2 <= 18_000_000_000_000_000_000_000_000,
        -18_000_000_000_000_000_000_000_000 <= r.3 <= 18_000_000_000_000_000_000_000_000,
{
    proof {
        lemma_abs_mul_le(b.y as int, c.z as int, 1000000, 1000000);
        lemma_abs_mul_le(b.z as int, c.y as int, 1000000, 1000000);
        lemma_abs_mul_le(b.x as int, c.z as int, 1000000, 1000000);
        lemma_abs_mul_le(b.z as int, c.x as int, 1000000, 1000000);
        lemma_abs_mul_le(b.x as int, c.y as int, 1000000, 1000000);
        lemma_abs_mul_le(b.y as int, c.x as int, 1000000, 1000000);
        lemma_abs_mul_le(a.x as int, b.y * c.z - b.z * c.y, 1000000, 2000000000000);
        lemma_abs_mul_le(a.y as int, b.x * c.z - b.z * c.x, 1000000, 2000000000000);
        lemma_abs_mul_le(a.z as int, b.x * c.y - b.y * c.x, 1000000, 2000000000000);
    }
    let (ax, ay, az) = (a.x as i128, a.y as i128, a.z as i128);
    let (bx, by, bz) = (b.x as i128, b.y as i128, b.z as i128);
    let (cx, cy, cz) = (c.x as i128, c.y as i128, c.z as i128);
    let d = ax * (by * cz - bz * cy) - ay * (bx * cz - bz * cx) + az * (bx * cy - by * cx);
    proof {
        lemma_abs_mul_le(d as int, a.x + b.x + c.x, 6000000000000000000, 3000000);
        lemma_abs_mul_le(d as int, a.y + b.y + c.y, 6000000000000000000, 3000000);
        lemma_abs_mul_le(d as int, a.z + b.z + c.z, 6000000000000000000, 3000000);
    }
    (d, d * (ax + bx + cx), d * (ay + by + cy), d * (az + bz + cz))
}

/// Six times the enclosed volume and twenty-four times its first moments.
fn volume_and_moments(p: &[Point], faces: &[(u32, u32, u32)]) -> (r: (i128, i128, i128, i128))
    requires
        points_within(p@),
        faces@.len() <= MAX_FACES,
        triangles_below(faces@, p@.len() as int),
    ensures
        r.0 == volume6(p@, faces@),
        r.1 == moment24(p@, faces@, 0),
        r.2 == moment24(p@, faces@, 1),
        r.3 == moment24(p@, faces@, 2),
        -18_000_000_000_000_000_000_000_000_000_000 <= r.1 <= 18_000_000_000_000_000_000_000_000_000_000,
        -18_000_000_000_000_000_000_000_000_000_000 <= r.2 <= 18_000_000_000_000_000_000_000_000_000_000,
        -18_000_000_000_000_000_000_000_000_000_000 <= r.3 <= 18_000_000_000_000_000_000_000_000_000_000,
{
    let mut v: i128 = 0;
    let mut mx: i128 = 0;
    let mut my: i128 = 0;
    let mut mz: i128 = 0;
    let n = faces.len();
    let mut i: usize = 0;
    while i < n
        invariant
            n == faces@.len() <= MAX_FACES,
            i <= n,
            points_within(p@),
            triangles_below(faces@, p@.len() as int),
            v == volume6(p@, faces@.take(i as int)),
            mx == moment24(p@, faces@.take(i as int), 0),
            my == moment24(p@, faces@.take(i as int), 1),
            mz == moment24(p@, faces@.take(i as int), 2),
            -6_000_000_000_000_000_000 * i <= v <= 6_000_000_000_000_000_000 * i,
            -18_000_000_000_000_000_000_000_000 * i <= mx <= 18_000_000_000_000_000_000_000_000 * i,
            -18_000_000_000_000_000_000_000_000 * i <= my <= 18_000_000_000_000_000_000_000_000 * i,
            -18_000_000_000_000_000_000_000_000 * i <= mz <= 18_000_000_000_000_000_000_000_000 * i,
        decreases n - i,
    {
        let f = faces[i];
        assert(faces@[i as int] == f);
        let a = p[f.0 as usize];
        let b = p[f.1 as usize];
        let c = p[f.2 as usize];
        let (d, dx, dy, dz) = face_terms(a, b, c);
        assert(faces@.take(i + 1).drop_last() =~= faces@.take(i as int));
        assert(faces@.take(i + 1).last() == f);
        v = v + d;
        mx = mx + dx;
        my = my + dy;
        mz = mz + dz;
        i = i + 1;
    }
    assert(faces@.take(n as int) =~= faces@);
    (v, mx, my, mz)
}

/// A convex polyhedron: the convex hull of `points`. Its triangular `faces`,
/// oriented outward, give its volume and centroid.
#[derive(Debug)]
pub struct ConvexPolyhedron {
    pub points: Vec<Point>,
    pub faces: Vec<(u32, u32, u32)>,
}

impl ConvexPolyhedron {
    /// Builds a convex polyhedron from a closed mesh with outward-oriented faces,
    /// or `None` if the mesh is out of bounds or encloses a negative volume.
    pub fn from_convex_mesh(points: Vec<Point>, faces: Vec<(u32, u32, u32)>) -> (r: Option<ConvexPolyhedron>)
        ensures
            r is Some <==> valid_convex_mesh(points@, faces@),
            r matches Some(c) ==> c.points@ == points@ && c.faces@ == faces@,
    {
        if points.len() == 0 || faces.len() > MAX_FACES {
            return None;
        }
        let mut i: usize = 0;
        while i < points.len()
            invariant
                i <= points@.len(),
                forall|j: int| 0 <= j < i ==> point_within(#[trigger] points@[j], MAX_COORD as int),
            decreases points@.len() - i,
        {
            let q = points[i];
            if q.x < -MAX_COORD || q.x > MAX_COORD || q.y < -MAX_COORD || q.y > MAX_COORD
                || q.z < -MAX_COORD || q.z > MAX_COORD {
                assert(!point_within(points@[i as int], MAX_COORD as int));
                return None;
            }
            i = i + 1;
        }
        let mut k: usize = 0;
        while k < faces.len()
            invariant
                k <= faces@.len(),
                forall|j: int| 0 <= j < k ==> (#[trigger] faces@[j]).0 < points@.len()
                    && faces@[j].1 < points@.len() && faces@[j].2 < points@.len(),
            decreases faces@.len() - k,
        {
            let f = faces[k];
            if f.0 as usize >= points.len() || f.1 as usize >= points.len() || f.2 as usize >= points.len() {
                assert(!triangles_below(faces@, points@.len() as int)) by {
                    assert(faces@[k as int] == f);
                }
                return None;
            }
            k = k + 1;
        }
        let (v, mx, my, mz) = volume_and_moments(points.as_slice(), faces.as_slice());
        if v < 0 || v > MAX_VOLUME6 {
            return None;
        }
        let com = centroid(v, mx, my, mz);
        let bound = MAX_COORD as i128;
        if com.0 < -bound || com.0 > bound || com.1 < -bound || com.1 > bound || com.2 < -bound || com.2 > bound {
            proof {
                let c0 = centroid_coord(points@, faces@, 0);
                let c1 = centroid_coord(points@, faces@, 1);
                let c2 = centroid_coord(points@, faces@, 2);
                assert(!(-MAX_COORD <= c0 <= MAX_COORD) || !(-MAX_COORD <= c1 <= MAX_COORD)
                    || !(-MAX_COORD <= c2 <= MAX_COORD));
            }
            return None;
        }
        assert(forall|k: int| 0 <= k < 3 ==> -MAX_COORD <= #[trigger] centroid_coord(points@, faces@, k) <= MAX_COORD) by {
            assert forall|k: int| 0 <= k < 3 implies -MAX_COORD <= #[trigger] centroid_coord(points@, faces@, k) <= MAX_COORD by {
                if k == 0 {
                } else if k == 1 {
                } else {
                }
            }
        }
        Some(ConvexPolyhedron { points, faces })
    }
}

/// The centroid from six times the volume and twenty-four times the moments.
fn centroid(v: i128, mx: i128, my: i128, mz: i128) -> (r: (i128, i128, i128))
    requires
        0 <= v <= MAX_VOLUME6,
        -18_000_000_000_000_000_000_000_000_000_000 <= mx <= 18_000_000_000_000_000_000_000_000_000_000,
        -18_000_000_000_000_000_000_000_000_000_000 <= my <= 18_000_000_000_000_000_000_000_000_000_000,
        -18_000_000_000_000_000_000_000_000_000_000 <= mz <= 18_000_000_000_000_000_000_000_000_000_000,
    ensures
        v > 0 ==> r.0 == mx as int / (4 * v) && r.1 == my as int / (4 * v) && r.2 == mz as int / (4 * v),
        v == 0 ==> r == (0i128, 0i128, 0i128),
{
    if v > 0 {
        (floor_div(mx, 4 * v), floor_div(my, 4 * v), floor_div(mz, 4 * v))
    } else {
        (0, 0, 0)
    }
}

impl Shape for ConvexPolyhedron {
    open spec fn wf(&self) -> bool {
        valid_convex_mesh(self.points@, self.faces@)
    }

    open spec fn local_aabb_spec(&self) -> Aabb {
        points_aabb(self.points@)
    }

    open spec fn mass_spec(&self, density: int) -> MassProperties {
        MassProperties {
            mass: (density * volume6(self.points@, self.faces@) / 6) as i128,
            local_com: polyhedron_com(self.points@, self.faces@),
        }
    }

    open spec fn type_spec(&self) -> ShapeType {
        ShapeType::ConvexPolyhedron
    }

    /// Half the smallest side of the bounding box.
    open spec fn thickness_spec(&self) -> int {
        points_aabb(self.points@).min_half_extent()
    }

    open spec fn convex_spec(&self) -> bool {
        true
    }

    open spec fn support_map_spec(&self) -> bool {
        true
    }

    open spec fn composite_spec(&self) -> bool {
        false
    }

    open spec fn feature_margin_spec(&self) -> Option<int> {
        Some(0)
    }

    fn compute_local_aabb(&self) -> (r: Aabb) {
        local_point_cloud_aabb(self.points.as_slice())
    }

    fn mass_properties(&self, density: i64) -> (r: MassProperties) {
        let (v, mx, my, mz) = volume_and_moments(self.points.as_slice(), self.faces.as_slice());
        let com = centroid(v, mx, my, mz);
        let d = density as i128;
        proof {
            lemma_abs_mul_le(d as int, v as int, 1000, 48000000000000000000);
            assert(d * v / 6 <= 8000000000000000000000);
        }
        MassProperties { mass: d * v / 6, local_com: Point::new(com.0 as i64, com.1 as i64, com.2 as i64) }
    }

    fn shape_type(&self) -> (r: ShapeType) {
        ShapeType::ConvexPolyhedron
    }

    fn ccd_thickness(&self) -> (r: i64) {
        self.compute_local_aabb().half_extents_min()
    }

    fn is_convex(&self) -> (r: bool) {
        true
    }

    fn as_support_map(&self) -> (r: Option<&Self>) {
        Some(self)
    }

    fn as_composite_shape(&self) -> (r: Option<&Self>) {
        None
    }

    fn as_polygonal_feature_map(&self) -> (r: Option<(PolygonalFeatureMap<'_>, i64)>) {
        Some((PolygonalFeatureMap::ConvexPolyhedron(self), 0))
    }
}

impl RoundableShape for ConvexPolyhedron {
    open spec fn round_type_spec() -> ShapeType {
        ShapeType::RoundConvexPolyhedron
    }

    fn round_shape_type() -> (r: ShapeType) {
        ShapeType::RoundConvexPolyhedron
    }

    proof fn lemma_roundable(&self) {
        crate::bounding_volume::lemma_points_aabb_bounded(self.points@);
    }
}

/// The heights of a heightfield as points on the y axis.
pub open spec fn height_points(h: Seq<i64>) -> Seq<Point> {
    h.map_values(|v: i64| Point { x: 0, y: v, z: 0 })
}

/// The box of a heightfield: its footprint across x and z, its height range along y.
pub open spec fn heightfield_aabb(h: Seq<i64>, half_width: int, half_depth: int) -> Aabb {
    let r = points_aabb(height_points(h));
    Aabb { mins: pt(-half_width, r.mins.y as int, -half_depth), maxs: pt(half_width, r.maxs.y as int, half_depth) }
}

/// A grid of heights in row-major order, `ncols` per row, spread over the
/// footprint `[-half_width, half_width] x [-half_depth, half_depth]`.
#[derive(Debug)]
pub struct HeightField {
    pub heights: Vec<i64>,
    pub ncols: usize,
    pub half_width: i64,
    pub half_depth: i64,
    pub aabb: Aabb,
}

impl HeightField {
    pub fn new(heights: Vec<i64>, ncols: usize, half_width: i64, half_depth: i64) -> (r: HeightField)
        requires
            heights@.len() >= 1,
            ncols >= 1,
            heights@.len() as int % (ncols as int) == 0,
            forall|j: int| 0 <= j < heights@.len() ==> -MAX_COORD <= #[trigger] heights@[j] <= MAX_COORD,
            0 <= half_width <= MAX_COORD,
            0 <= half_depth <= MAX_COORD,
        ensures
            r.heights@ == heights@,
            r.ncols == ncols,
            r.half_width == half_width,
            r.half_depth == half_depth,
            r.wf(),
    {
        let mut pts: Vec<Point> = Vec::new();
        let mut i: usize = 0;
        while i < heights.len()
            invariant
                i <= heights@.len(),
                pts@ == height_points(heights@.take(i as int)),
                forall|j: int| 0 <= j < heights@.len() ==> -MAX_COORD <= #[trigger] heights@[j] <= MAX_COORD,
            decreases heights@.len() - i,
        {
            pts.push(Point::new(0, heights[i], 0));
            assert(height_points(heights@.take(i + 1)) =~= height_points(heights@.take(i as int)).push(
                Point { x: 0, y: heights@[i as int], z: 0 },
            ));
            i = i + 1;
        }
        assert(heights@.take(heights@.len() as int) =~= heights@);
        assert forall|j: int| 0 <= j < pts@.len() implies point_within(#[trigger] pts@[j], MAX_COORD as int) by {
            assert(pts@[j].y == heights@[j]);
        }
        let r = local_point_cloud_aabb(pts.as_slice());
        let aabb = Aabb::new(Point::new(-half_width, r.mins.y, -half_depth), Point::new(half_width, r.maxs.y, half_depth));
        HeightField { heights, ncols, half_width, half_depth, aabb }
    }
}

impl Shape for HeightField {
    open spec fn wf(&self) -> bool {
        &&& self.heights@.len() >= 1
        &&& self.ncols >= 1
        &&& self.heights@.len() as int % (self.ncols as int) == 0
        &&& forall|j: int| 0 <= j < self.heights@.len() ==> -MAX_COORD <= #[trigger] self.heights@[j] <= MAX_COORD
        &&& 0 <= self.half_width <= MAX_COORD
        &&& 0 <= self.half_depth <= MAX_COORD
        &&& self.aabb == heightfield_aabb(self.heights@, self.half_width as int, self.half_depth as int)
    }

    open spec fn local_aabb_spec(&self) -> Aabb {
        heightfield_aabb(self.heights@, self.half_width as int, self.half_depth as int)
    }

    /// A surface encloses no volume of its own.
    open spec fn mass_spec(&self, density: int) -> MassProperties {
        MassProperties { mass: 0, local_com: pt(0, 0, 0) }
    }

    open spec fn type_spec(&self) -> ShapeType {
        ShapeType::HeightField
    }

    open spec fn thickness_spec(&self) -> int {
        0
    }

    open spec fn convex_spec(&self) -> bool {
        false
    }

    open spec fn support_map_spec(&self) -> bool {
        false
    }

    open spec fn composite_spec(&self) -> bool {
        false
    }

    open spec fn feature_margin_spec(&self) -> Option<int> {
        None
    }

    fn compute_local_aabb(&self) -> (r: Aabb) {
        proof {
            let hp = height_points(self.heights@);
            assert forall|j: int| 0 <= j < hp.len() implies point_within(#[trigger] hp[j], MAX_COORD as int) by {
                assert(hp[j].y == self.heights@[j]);
            }
            crate::bounding_volume::lemma_points_aabb_bounded(hp);
        }
        self.aabb
    }

    fn mass_properties(&self, density: i64) -> (r: MassProperties) {
        MassProperties::zero()
    }

    fn shape_type(&self) -> (r: ShapeType) {
        ShapeType::HeightField
    }

    fn ccd_thickness(&self) -> (r: i64) {
        0
    }

    fn is_convex(&self) -> (r: bool) {
        false
    }

    fn as_support_map(&self) -> (r: Option<&Self>) {
        None
    }

    fn as_composite_shape(&self) -> (r: Option<&Self>) {
        None
    }

    fn as_polygonal_feature_map(&self) -> (r: Option<(PolygonalFeatureMap<'_>, i64)>) {
        None
    }
}

} // verus!
