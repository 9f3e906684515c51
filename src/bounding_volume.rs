//! Axis-aligned bounding boxes.
use vstd::prelude::*;
use crate::math::{coord, point_within, Isometry, Point, MAX_COORD};

verus! {

/// Largest magnitude of a box coordinate that the box operations accept.
pub const MAX_EXTENT: i64 = 1_000_000_000_000;

/// The point with the given coordinates.
pub open spec fn pt(x: int, y: int, z: int) -> Point {
    Point { x: x as i64, y: y as i64, z: z as i64 }
}

/// An axis-aligned box, from its smallest corner `mins` to its largest corner `maxs`.
#[derive(Clone, Copy, Debug, PartialEq, Eq, Structural)]
pub struct Aabb {
    pub mins: Point,
    pub maxs: Point,
}

impl Aabb {
    /// The corners are ordered along every axis.
    pub open spec fn wf(self) -> bool {
        self.mins.x <= self.maxs.x && self.mins.y <= self.maxs.y && self.mins.z <= self.maxs.z
    }

    /// Both corners lie within `[-b, b]` on every axis.
    pub open spec fn within(self, b: int) -> bool {
        point_within(self.mins, b) && point_within(self.maxs, b)
    }

    /// The box grown by `m` in every direction.
    pub open spec fn loosened_spec(self, m: int) -> Aabb {
        Aabb {
            mins: pt(self.mins.x - m, self.mins.y - m, self.mins.z - m),
            maxs: pt(self.maxs.x + m, self.maxs.y + m, self.maxs.z + m),
        }
    }

    /// The smallest coordinate along output axis `i` of the box moved by `pose`.
    pub open spec fn moved_min(self, pose: Isometry, i: int) -> int {
        let k = pose.axes.source_spec(i);
        if pose.flipped(i) {
            coord(pose.translation, i) - coord(self.maxs, k)
        } else {
            coord(pose.translation, i) + coord(self.mins, k)
        }
    }

    /// The largest coordinate along output axis `i` of the box moved by `pose`.
    pub open spec fn moved_max(self, pose: Isometry, i: int) -> int {
        let k = pose.axes.source_spec(i);
        if pose.flipped(i) {
            coord(pose.translation, i) - coord(self.mins, k)
        } else {
            coord(pose.translation, i) + coord(self.maxs, k)
        }
    }

    /// The box that bounds this box once moved by `pose`.
    pub open spec fn transformed_spec(self, pose: Isometry) -> Aabb {
        Aabb {
            mins: pt(self.moved_min(pose, 0), self.moved_min(pose, 1), self.moved_min(pose, 2)),
            maxs: pt(self.moved_max(pose, 0), self.moved_max(pose, 1), self.moved_max(pose, 2)),
        }
    }

    /// The smallest box holding both boxes.
    pub open spec fn merged_spec(self, o: Aabb) -> Aabb {
        Aabb {
            mins: pt(
                if self.mins.x <= o.mins.x { self.mins.x as int } else { o.mins.x as int },
                if self.mins.y <= o.mins.y { self.mins.y as int } else { o.mins.y as int },
                if self.mins.z <= o.mins.z { self.mins.z as int } else { o.mins.z as int },
            ),
            maxs: pt(
                if self.maxs.x >= o.maxs.x { self.maxs.x as int } else { o.maxs.x as int },
                if self.maxs.y >= o.maxs.y { self.maxs.y as int } else { o.maxs.y as int },
                if self.maxs.z >= o.maxs.z { self.maxs.z as int } else { o.maxs.z as int },
            ),
        }
    }

    /// Half the smallest side length, rounded down.
    pub open spec fn min_half_extent(self) -> int {
        let hx = (self.maxs.x - self.mins.x) / 2;
        let hy = (self.maxs.y - self.mins.y) / 2;
        let hz = (self.maxs.z - self.mins.z) / 2;
        if hx <= hy && hx <= hz {
            hx
        } else if hy <= hz {
            hy
        } else {
            hz
        }
    }

    pub fn new(mins: Point, maxs: Point) -> (r: Aabb)
        ensures
            r.mins == mins && r.maxs == maxs,
    {
        Aabb { mins, maxs }
    }

    /// This box grown by `margin` in every direction.
    pub fn loosened(&self, margin: i64) -> (r: Aabb)
        requires
            self.within(MAX_EXTENT as int),
            0 <= margin <= MAX_EXTENT,
        ensures
            r == self.loosened_spec(margin as int),
            self.wf() ==> r.wf(),
    {
        Aabb {
            mins: Point::new(self.mins.x - margin, self.mins.y - margin, self.mins.z - margin),
            maxs: Point::new(self.maxs.x + margin, self.maxs.y + margin, self.maxs.z + margin),
        }
    }

    /// The box that bounds this box once moved by `pose`.
    pub fn transform_by(&self, pose: &Isometry) -> (r: Aabb)
        requires
            self.within(MAX_EXTENT as int),
            pose.wf(),
        ensures
            r == self.transformed_spec(*pose),
            self.wf() ==> r.wf(),
    {
        let (lo0, hi0) = self.moved_axis(pose, 0);
        let (lo1, hi1) = self.moved_axis(pose, 1);
        let (lo2, hi2) = self.moved_axis(pose, 2);
        Aabb { mins: Point::new(lo0, lo1, lo2), maxs: Point::new(hi0, hi1, hi2) }
    }

    fn moved_axis(&self, pose: &Isometry, i: usize) -> (r: (i64, i64))
        requires
            self.within(MAX_EXTENT as int),
            pose.wf(),
            i < 3,
        ensures
            r.0 == self.moved_min(*pose, i as int),
            r.1 == self.moved_max(*pose, i as int),
            self.wf() ==> r.0 <= r.1,
    {
        let k = pose.axes.source(i);
        let t = pose.translation.get(i);
        if pose.flip(i) {
            (t - self.maxs.get(k), t - self.mins.get(k))
        } else {
            (t + self.mins.get(k), t + self.maxs.get(k))
        }
    }

    /// The smallest box holding both boxes.
    pub fn merged(&self, o: &Aabb) -> (r: Aabb)
        ensures
            r == self.merged_spec(*o),
    {
        Aabb {
            mins: Point::new(
                if self.mins.x <= o.mins.x { self.mins.x } else { o.mins.x },
                if self.mins.y <= o.mins.y { self.mins.y } else { o.mins.y },
                if self.mins.z <= o.mins.z { self.mins.z } else { o.mins.z },
            ),
            maxs: Point::new(
                if self.maxs.x >= o.maxs.x { self.maxs.x } else { o.maxs.x },
                if self.maxs.y >= o.maxs.y { self.maxs.y } else { o.maxs.y },
                if self.maxs.z >= o.maxs.z { self.maxs.z } else { o.maxs.z },
            ),
        }
    }

    /// Half the smallest side length, rounded down.
    pub fn half_extents_min(&self) -> (r: i64)
        requires
            self.wf(),
            self.within(MAX_EXTENT as int),
        ensures
            r == self.min_half_extent(),
            r >= 0,
    {
        let hx = (self.maxs.x - self.mins.x) / 2;
        let hy = (self.maxs.y - self.mins.y) / 2;
        let hz = (self.maxs.z - self.mins.z) / 2;
        if hx <= hy && hx <= hz {
            hx
        } else if hy <= hz {
            hy
        } else {
            hz
        }
    }
}

/// Moving a box by the identity pose leaves it unchanged.
pub proof fn lemma_identity_transform(a: Aabb, pose: Isometry)
    requires
        pose.is_identity(),
    ensures
        a.transformed_spec(pose) == a,
{
}

/// The smallest box holding every point of a non-empty sequence.
pub open spec fn points_aabb(s: Seq<Point>) -> Aabb
    decreases s.len(),
{
    if s.len() <= 1 {
        Aabb { mins: s[0], maxs: s[0] }
    } else {
        points_aabb(s.drop_last()).merged_spec(Aabb { mins: s.last(), maxs: s.last() })
    }
}

/// Computes the smallest box holding every point of a non-empty point cloud.
pub fn local_point_cloud_aabb(points: &[Point]) -> (r: Aabb)
    requires
        points@.len() >= 1,
        forall|j: int| 0 <= j < points@.len() ==> point_within(#[trigger] points@[j], MAX_COORD as int),
    ensures
        r == points_aabb(points@),
        r.wf(),
        r.within(MAX_COORD as int),
{
    let mut aabb = Aabb::new(points[0], points[0]);
    let n = points.len();
    let mut i: usize = 1;
    assert(points@.take(1).len() == 1);
    while i < n
        invariant
            1 <= i <= n,
            n == points@.len(),
            forall|j: int| 0 <= j < points@.len() ==> point_within(#[trigger] points@[j], MAX_COORD as int),
            aabb == points_aabb(points@.take(i as int)),
            aabb.wf(),
            aabb.within(MAX_COORD as int),
        decreases n - i,
    {
        let p = points[i];
        aabb = aabb.merged(&Aabb::new(p, p));
        assert(points@.take(i + 1).drop_last() =~= points@.take(i as int));
        i = i + 1;
    }
    assert(points@.take(n as int) =~= points@);
    aabb
}

/// The box of a non-empty bounded point sequence is well formed and bounded.
pub proof fn lemma_points_aabb_bounded(s: Seq<Point>)
    requires
        s.len() >= 1,
        forall|j: int| 0 <= j < s.len() ==> point_within(#[trigger] s[j], MAX_COORD as int),
    ensures
        points_aabb(s).wf(),
        points_aabb(s).within(MAX_COORD as int),
    decreases s.len(),
{
    if s.len() > 1 {
        let t = s.drop_last();
        assert forall|j: int| 0 <= j < t.len() implies point_within(#[trigger] t[j], MAX_COORD as int) by {
            assert(t[j] == s[j]);
        }
        lemma_points_aabb_bounded(t);
        assert(point_within(s[s.len() - 1], MAX_COORD as int));
    } else {
        assert(point_within(s[0], MAX_COORD as int));
    }
}

/// Growing a box and then moving it gives the same box as moving it and then growing it.
pub proof fn lemma_loosen_transform_commute(a: Aabb, pose: Isometry, m: int)
    requires
        a.within(MAX_EXTENT as int),
        pose.wf(),
        0 <= m <= MAX_EXTENT,
    ensures
        a.loosened_spec(m).transformed_spec(pose) == a.transformed_spec(pose).loosened_spec(m),
{
    let l = a.loosened_spec(m);
    assert forall|i: int| 0 <= i < 3 implies l.moved_min(pose, i) == a.moved_min(pose, i) - m
        && l.moved_max(pose, i) == a.moved_max(pose, i) + m by {
        let k = pose.axes.source_spec(i);
        assert(0 <= k < 3);
    }
    assert(l.moved_min(pose, 0) == a.moved_min(pose, 0) - m);
    assert(l.moved_min(pose, 1) == a.moved_min(pose, 1) - m);
    assert(l.moved_min(pose, 2) == a.moved_min(pose, 2) - m);
    assert(l.moved_max(pose, 0) == a.moved_max(pose, 0) + m);
    assert(l.moved_max(pose, 1) == a.moved_max(pose, 1) + m);
    assert(l.moved_max(pose, 2) == a.moved_max(pose, 2) + m);
}

/// Moving a bounded box by a pose keeps it bounded.
pub proof fn lemma_transform_within(a: Aabb, pose: Isometry, b: int)
    requires
        a.within(b),
        pose.wf(),
        0 <= b,
    ensures
        a.transformed_spec(pose).within(b + MAX_COORD),
{
    assert forall|i: int| 0 <= i < 3 implies -(b + MAX_COORD) <= #[trigger] a.moved_min(pose, i) <= b + MAX_COORD
        && -(b + MAX_COORD) <= a.moved_max(pose, i) <= b + MAX_COORD by {
        let k = pose.axes.source_spec(i);
        assert(0 <= k < 3);
    }
    assert(-(b + MAX_COORD) <= a.moved_max(pose, 0) <= b + MAX_COORD);
    assert(-(b + MAX_COORD) <= a.moved_max(pose, 1) <= b + MAX_COORD);
    assert(-(b + MAX_COORD) <= a.moved_max(pose, 2) <= b + MAX_COORD);
}

} // verus!
