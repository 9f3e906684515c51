use shape_core::bounding_volume::Aabb;
use shape_core::compound::Compound;
use shape_core::handle::ShapeHandle;
use shape_core::mass_properties::{floor_sqrt, MassProperties};
use shape_core::math::{AxisOrder, Isometry, Point};
use shape_core::mesh::{ConvexPolyhedron, HeightField, Polyline, TriMesh};
use shape_core::primitives::{Ball, Capsule, Cone, Cuboid, Cylinder, HalfSpace, Segment, Triangle};
use shape_core::round_shape::{RoundCuboid, RoundShape};
use shape_core::shape::{FeatureId, Shape, ShapeType};

fn p(x: i64, y: i64, z: i64) -> Point {
    Point::new(x, y, z)
}

fn tetrahedron() -> ConvexPolyhedron {
    let pts = vec![p(0, 0, 0), p(6, 0, 0), p(0, 6, 0), p(0, 0, 6)];
    let faces = vec![(0, 2, 1), (0, 1, 3), (0, 3, 2), (1, 2, 3)];
    ConvexPolyhedron::from_convex_mesh(pts, faces).unwrap()
}

fn handles() -> Vec<ShapeHandle> {
    vec![
        ShapeHandle::Ball(Ball::new(3)),
        ShapeHandle::Cuboid(Cuboid::new(p(1, 2, 3))),
        ShapeHandle::Capsule(Capsule::new(p(0, -2, 0), p(0, 2, 0), 1)),
        ShapeHandle::Segment(Segment::new(p(1, 2, 3), p(-4, 5, 0))),
        ShapeHandle::Triangle(Triangle::new(p(0, 0, 0), p(4, 1, 0), p(2, 7, -3))),
        ShapeHandle::HalfSpace(HalfSpace::new(p(0, 1, 0))),
        ShapeHandle::Cylinder(Cylinder::new(4, 2)),
        ShapeHandle::Cone(Cone::new(4, 2)),
        ShapeHandle::ConvexPolyhedron(tetrahedron()),
        ShapeHandle::RoundCuboid(RoundShape::new(Cuboid::new(p(1, 1, 1)), 2)),
        ShapeHandle::RoundCone(RoundShape::new(Cone::new(3, 1), 1)),
        ShapeHandle::TriMesh(TriMesh::new(vec![p(0, 0, 0), p(5, 0, 1), p(0, -3, 2)], vec![(0, 1, 2)])),
        ShapeHandle::Polyline(Polyline::new(vec![p(-1, 0, 0), p(2, 8, 0)], vec![(0, 1)])),
        ShapeHandle::HeightField(HeightField::new(vec![1, -2, 5, 0], 2, 10, 20)),
    ]
}

#[test]
fn aabb_at_identity_is_local_aabb() {
    for h in handles() {
        assert_eq!(h.compute_aabb(&Isometry::identity()), h.compute_local_aabb());
    }
}

#[test]
fn ccd_thickness_is_never_negative() {
    for h in handles() {
        assert!(h.ccd_thickness() >= 0);
    }
}

#[test]
fn round_shape_derives_from_base() {
    let base = Cuboid::new(p(1, 2, 3));
    let round: RoundCuboid = RoundShape::new(base, 4);
    assert_eq!(round.ccd_thickness(), base.ccd_thickness() + 4);
    assert_eq!(round.ccd_thickness(), 5);
    assert_eq!(round.is_convex(), base.is_convex());
    assert_eq!(round.compute_local_aabb(), base.compute_local_aabb().loosened(4));
    assert_eq!(round.compute_local_aabb(), Aabb::new(p(-5, -6, -7), p(5, 6, 7)));
    assert_eq!(round.shape_type(), ShapeType::RoundCuboid);
    assert_eq!(base.shape_type(), ShapeType::Cuboid);
    assert_eq!(round.as_polygonal_feature_map().map(|(_, m)| m), Some(4));
}

#[test]
fn round_shape_aabb_under_pose_is_loosened_base_aabb() {
    let base = Triangle::new(p(0, 0, 0), p(4, 1, 0), p(2, 7, -3));
    let round = RoundShape::new(base, 2);
    let pose = Isometry { translation: p(10, -5, 3), axes: AxisOrder::Zxy, flip_x: true, flip_y: false, flip_z: true };
    assert_eq!(round.compute_aabb(&pose), base.compute_aabb(&pose).loosened(2));
    assert_eq!(round.compute_aabb(&pose), round.compute_local_aabb().transform_by(&pose));
}

#[test]
fn as_ball_recovers_only_balls() {
    let ball = ShapeHandle::Ball(Ball::new(7));
    let cuboid = ShapeHandle::Cuboid(Cuboid::new(p(1, 1, 1)));
    assert!(ball.as_support_map().is_some());
    assert!(cuboid.as_support_map().is_some());
    assert_eq!(ball.as_ball(), Some(&Ball::new(7)));
    assert_eq!(cuboid.as_ball(), None);
    assert_eq!(cuboid.as_cuboid(), Some(&Cuboid::new(p(1, 1, 1))));
    assert_eq!(ball.as_shape::<Ball>().map(|b| b.radius), Some(7));
    assert!(ball.as_shape::<Cuboid>().is_none());
}

#[test]
fn round_cuboid_is_not_a_cuboid() {
    let h = ShapeHandle::RoundCuboid(RoundShape::new(Cuboid::new(p(1, 1, 1)), 1));
    assert!(h.as_cuboid().is_none());
    assert_eq!(h.as_round_cuboid().map(|r| r.border_radius), Some(1));
    assert_eq!(h.shape_type(), ShapeType::RoundCuboid);
}

#[test]
fn symmetric_balls_compound_center_is_origin() {
    let ball = Ball::new(1);
    let c = Compound::new(vec![
        (Isometry::translation(3, -2, 5), ShapeHandle::Ball(ball)),
        (Isometry::translation(-3, 2, -5), ShapeHandle::Ball(ball)),
    ]);
    let single = ball.mass_properties(10);
    let mp = c.mass_properties(10);
    assert_eq!(mp.local_com, p(0, 0, 0));
    assert_eq!(mp.mass, 2 * single.mass);
    assert_eq!(single.mass, 41);
}

#[test]
fn compound_aabb_thickness_and_views() {
    let c = Compound::new(vec![
        (Isometry::translation(10, 0, 0), ShapeHandle::Ball(Ball::new(2))),
        (Isometry::translation(0, 0, 0), ShapeHandle::Cuboid(Cuboid::new(p(1, 3, 5)))),
    ]);
    assert_eq!(c.compute_local_aabb(), Aabb::new(p(-1, -3, -5), p(12, 3, 5)));
    assert_eq!(c.ccd_thickness(), 1);
    assert!(!c.is_convex());
    assert!(c.as_composite_shape().is_some());
    assert!(c.as_support_map().is_none());
    assert_eq!(c.shape_type(), ShapeType::Compound);
    let h = ShapeHandle::Compound(c);
    assert!(h.as_compound().is_some());
    assert_eq!(h.compute_aabb(&Isometry::translation(1, 1, 1)), Aabb::new(p(0, -2, -4), p(13, 4, 6)));
}

#[test]
fn compound_mass_weights_centers() {
    let c = Compound::new(vec![
        (Isometry::translation(0, 0, 0), ShapeHandle::Cuboid(Cuboid::new(p(1, 1, 1)))),
        (Isometry::translation(9, 0, 0), ShapeHandle::Cuboid(Cuboid::new(p(1, 1, 2)))),
    ]);
    let mp = c.mass_properties(1);
    assert_eq!(mp.mass, 8 + 16);
    assert_eq!(mp.local_com, p(6, 0, 0));
}

#[test]
fn mass_formulas() {
    assert_eq!(MassProperties::from_ball(1, 10).mass, 4188);
    assert_eq!(Cuboid::new(p(1, 2, 3)).mass_properties(2).mass, 96);
    assert_eq!(Cylinder::new(1, 1).mass_properties(1).mass, 6);
    let cone = Cone::new(4, 2).mass_properties(1);
    assert_eq!(cone.mass, 33);
    assert_eq!(cone.local_com, p(0, -2, 0));
    let capsule = Capsule::new(p(0, 0, 0), p(0, 2, 0), 1).mass_properties(1);
    assert_eq!(capsule.mass, 10);
    assert_eq!(capsule.local_com, p(0, 1, 0));
    let odd = Capsule::new(p(-3, 0, 0), p(0, 4, 0), 1).mass_properties(1);
    assert_eq!(odd.local_com, p(-2, 2, 0));
    assert_eq!(Segment::new(p(0, 0, 0), p(1, 1, 1)).mass_properties(5), MassProperties::zero());
    assert_eq!(HalfSpace::new(p(0, 1, 0)).mass_properties(5).mass, 0);
}

#[test]
fn floor_sqrt_rounds_down() {
    assert_eq!(floor_sqrt(0), 0);
    assert_eq!(floor_sqrt(15), 3);
    assert_eq!(floor_sqrt(16), 4);
    assert_eq!(floor_sqrt(100_000_000_000_000), 10_000_000);
}

#[test]
fn convex_polyhedron_volume_and_centroid() {
    let t = tetrahedron();
    let mp = t.mass_properties(1);
    assert_eq!(mp.mass, 36);
    assert_eq!(mp.local_com, p(1, 1, 1));
    assert_eq!(t.compute_local_aabb(), Aabb::new(p(0, 0, 0), p(6, 6, 6)));
    assert_eq!(t.ccd_thickness(), 3);
    assert_eq!(t.shape_type(), ShapeType::ConvexPolyhedron);
}

#[test]
fn inside_out_polyhedron_is_rejected() {
    let pts = vec![p(0, 0, 0), p(6, 0, 0), p(0, 6, 0), p(0, 0, 6)];
    let faces = vec![(0, 1, 2), (0, 3, 1), (0, 2, 3), (1, 3, 2)];
    assert!(ConvexPolyhedron::from_convex_mesh(pts, faces).is_none());
    assert!(ConvexPolyhedron::from_convex_mesh(vec![p(0, 0, 0)], vec![(0, 1, 0)]).is_none());
    assert!(ConvexPolyhedron::from_convex_mesh(vec![], vec![]).is_none());
    assert!(ConvexPolyhedron::from_convex_mesh(vec![p(2_000_000, 0, 0)], vec![]).is_none());
}

#[test]
fn primitive_boxes() {
    assert_eq!(Ball::new(3).compute_local_aabb(), Aabb::new(p(-3, -3, -3), p(3, 3, 3)));
    assert_eq!(Capsule::new(p(0, -2, 0), p(1, 2, 0), 1).compute_local_aabb(), Aabb::new(p(-1, -3, -1), p(2, 3, 1)));
    assert_eq!(Cylinder::new(4, 2).compute_local_aabb(), Aabb::new(p(-2, -4, -2), p(2, 4, 2)));
    assert_eq!(
        Triangle::new(p(0, 0, 0), p(4, 1, 0), p(2, 7, -3)).compute_local_aabb(),
        Aabb::new(p(0, 0, -3), p(4, 7, 0))
    );
    let mesh = TriMesh::new(vec![p(0, 0, 0), p(5, 0, 1), p(0, -3, 2)], vec![(0, 1, 2)]);
    assert_eq!(mesh.compute_local_aabb(), Aabb::new(p(0, -3, 0), p(5, 0, 2)));
    let hf = HeightField::new(vec![1, -2, 5, 0], 2, 10, 20);
    assert_eq!(hf.compute_local_aabb(), Aabb::new(p(-10, -2, -20), p(10, 5, 20)));
}

#[test]
fn pose_moves_boxes_axis_by_axis() {
    let a = Aabb::new(p(1, 2, 3), p(4, 6, 8));
    let pose = Isometry { translation: p(100, 0, -100), axes: AxisOrder::Yzx, flip_x: false, flip_y: true, flip_z: false };
    assert_eq!(a.transform_by(&pose), Aabb::new(p(102, -8, -99), p(106, -3, -96)));
    assert_eq!(a.loosened(1), Aabb::new(p(0, 1, 2), p(5, 7, 9)));
    assert_eq!(a.merged(&Aabb::new(p(0, 5, 5), p(2, 9, 6))), Aabb::new(p(0, 2, 3), p(4, 9, 8)));
}

#[test]
fn thickness_per_shape() {
    assert_eq!(Ball::new(3).ccd_thickness(), 3);
    assert_eq!(Cuboid::new(p(4, 2, 3)).ccd_thickness(), 2);
    assert_eq!(Capsule::new(p(0, 0, 0), p(0, 9, 0), 2).ccd_thickness(), 2);
    assert_eq!(Triangle::new(p(0, 0, 0), p(1, 0, 0), p(0, 1, 0)).ccd_thickness(), 0);
    assert_eq!(HalfSpace::new(p(0, 1, 0)).ccd_thickness(), i64::MAX);
    assert_eq!(Cone::new(5, 3).ccd_thickness(), 3);
}

#[test]
fn capabilities_per_shape() {
    let capsule = Capsule::new(p(0, 0, 0), p(0, 2, 0), 3);
    assert_eq!(capsule.as_polygonal_feature_map().map(|(_, m)| m), Some(3));
    assert_eq!(Cuboid::new(p(1, 1, 1)).as_polygonal_feature_map().map(|(_, m)| m), Some(0));
    assert!(Ball::new(1).as_polygonal_feature_map().is_none());
    assert!(HalfSpace::new(p(0, 1, 0)).as_support_map().is_none());
    assert!(HalfSpace::new(p(0, 1, 0)).is_convex());
    let mesh = TriMesh::new(vec![p(0, 0, 0)], vec![]);
    assert!(mesh.as_composite_shape().is_some());
    assert!(!mesh.is_convex());
    assert!(Ball::new(1).feature_normal_at_point(FeatureId::Face(0), &p(0, 0, 1)).is_none());
    let h = ShapeHandle::Capsule(capsule);
    assert_eq!(h.as_polygonal_feature_map().map(|(_, m)| m), Some(3));
    assert!(h.as_composite_shape().is_none());
}
