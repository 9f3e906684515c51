//! Support points of point sets: the extremal point along a direction,
//! over a whole set or over a caller-chosen list of indices.
use vstd::prelude::*;
use crate::math::{dot, dot_spec, point_within, Point, Vector, MAX_COORD};

verus! {

/// `k` is the first position of a largest value of `s`.
pub open spec fn is_first_argmax(s: Seq<int>, k: int) -> bool {
    &&& 0 <= k < s.len()
    &&& forall|j: int| 0 <= j < s.len() ==> s[j] <= s[k]
    &&& forall|j: int| 0 <= j < k ==> s[j] < s[k]
}

/// The dot product of `dir` with each point, in order.
pub open spec fn dots(dir: Vector, points: Seq<Point>) -> Seq<int> {
    points.map_values(|p: Point| dot_spec(dir, p))
}

/// The dot product of `dir` with the point at each index of `idx`, in the order of `idx`.
pub open spec fn indexed_dots(dir: Vector, points: Seq<Point>, idx: Seq<usize>) -> Seq<int> {
    idx.map_values(|i: usize| dot_spec(dir, points[i as int]))
}

/// All points lie within the coordinate bound.
pub open spec fn points_within(points: Seq<Point>) -> bool {
    forall|j: int| 0 <= j < points.len() ==> point_within(#[trigger] points[j], MAX_COORD as int)
}

/// Every index of `idx` points into a sequence of length `n`.
pub open spec fn indices_below(idx: Seq<usize>, n: int) -> bool {
    forall|j: int| 0 <= j < idx.len() ==> #[trigger] idx[j] < n
}

/// Returns the index of the support point of a list of points: the first
/// point whose dot product with `direction` is largest, or `None` when the
/// list is empty.
pub fn support_point_id(direction: &Vector, points: &[Point]) -> (r: Option<usize>)
    requires
        point_within(*direction, MAX_COORD as int),
        points_within(points@),
    ensures
        r is None <==> points@.len() == 0,
        r matches Some(k) ==> is_first_argmax(dots(*direction, points@), k as int),
{
    let ghost s = dots(*direction, points@);
    let mut argmax: Option<usize> = None;
    let mut max: i64 = 0;
    let n = points.len();
    let mut i: usize = 0;
    while i < n
        invariant
            n == points@.len(),
            s == dots(*direction, points@),
            i <= n,
            point_within(*direction, MAX_COORD as int),
            points_within(points@),
            argmax is None <==> i == 0,
            argmax matches Some(k) ==> is_first_argmax(s.take(i as int), k as int) && max == s[k as int],
        decreases n - i,
    {
        let d = dot(direction, &points[i]);
        assert(d == s[i as int]);
        let better = match argmax {
            None => true,
            Some(_) => d > max,
        };
        if better {
            argmax = Some(i);
            max = d;
        }
        i = i + 1;
    }
    assert(s.take(n as int) =~= s);
    argmax
}

/// Returns the position `k` in `idx` such that `points[idx[k]]` is the support
/// point among the indexed points: the first indexed point whose dot product
/// with `direction` is largest, or `None` when `idx` is empty.
pub fn indexed_support_point_nth(direction: &Vector, points: &[Point], idx: &[usize]) -> (r: Option<usize>)
    requires
        point_within(*direction, MAX_COORD as int),
        points_within(points@),
        indices_below(idx@, points@.len() as int),
    ensures
        r is None <==> idx@.len() == 0,
        r matches Some(k) ==> is_first_argmax(indexed_dots(*direction, points@, idx@), k as int),
{
    let ghost s = indexed_dots(*direction, points@, idx@);
    let mut argmax: Option<usize> = None;
    let mut max: i64 = 0;
    let n = idx.len();
    let mut k: usize = 0;
    while k < n
        invariant
            n == idx@.len(),
            s == indexed_dots(*direction, points@, idx@),
            k <= n,
            point_within(*direction, MAX_COORD as int),
            points_within(points@),
            indices_below(idx@, points@.len() as int),
            argmax is None <==> k == 0,
            argmax matches Some(m) ==> is_first_argmax(s.take(k as int), m as int) && max == s[m as int],
        decreases n - k,
    {
        let i = idx[k];
        assert(i < points@.len());
        let d = dot(direction, &points[i]);
        assert(d == s[k as int]);
        let better = match argmax {
            None => true,
            Some(_) => d > max,
        };
        if better {
            argmax = Some(k);
            max = d;
        }
        k = k + 1;
    }
    assert(s.take(n as int) =~= s);
    argmax
}

/// Returns the index (into `points`) of the support point among the points
/// that `idx` lists: the first listed point whose dot product with
/// `direction` is largest, or `None` when `idx` is empty.
pub fn indexed_support_point_id(direction: &Vector, points: &[Point], idx: &[usize]) -> (r: Option<usize>)
    requires
        point_within(*direction, MAX_COORD as int),
        points_within(points@),
        indices_below(idx@, points@.len() as int),
    ensures
        r is None <==> idx@.len() == 0,
        r matches Some(i) ==> exists|k: int|
            is_first_argmax(indexed_dots(*direction, points@, idx@), k) && #[trigger] idx@[k] == i,
{
    match indexed_support_point_nth(direction, points, idx) {
        None => None,
        Some(k) => {
            let i = idx[k];
            assert(idx@[k as int] == i);
            Some(i)
        },
    }
}

} // verus!
