//! A ray against a box or a plane: the decisions of the intersection tests.
//!
//! The test of a ray against an axis-aligned box is the slab method. On
//! each axis the box lies between two parallel planes, and the ray is
//! inside this slab for a range of its parameter. The range starts at all
//! values and is narrowed axis by axis; the box is struck if something is
//! left. A ray that runs along the slab leaves the range as it is if it
//! starts inside, and misses the box if it starts outside.
//!
//! Numbers are single-precision bit patterns. The caller calculates, for
//! each axis, the parameters at which the ray meets the two planes; all
//! comparisons are made here.

use crate::hit::NEAR_LIMIT;
use crate::single::{
    abs, greater, gt, is_nan, larger, le, less, lt, magnitude, max, min, smaller, INFINITY,
    NEG_INFINITY, SIGN, ZERO,
};
use vstd::prelude::*;

verus! {

/// A direction whose absolute value is below this runs along the slab, or
/// along the plane. The pattern of a millionth.
pub const PARALLEL_LIMIT: u32 = 0x3586_37BD;

/// A ray and a box along one axis.
#[derive(Debug, Clone, Copy, PartialEq, Eq, Structural)]
pub struct AxisSlab {
    /// Where the ray starts.
    pub origin: u32,
    /// How fast it moves.
    pub direction: u32,
    /// The lower face of the box.
    pub low: u32,
    /// The upper face of the box.
    pub high: u32,
    /// The parameter at which the ray meets the lower face:
    /// `(low - origin) / direction`.
    pub to_low: u32,
    /// The parameter at which the ray meets the upper face:
    /// `(high - origin) / direction`.
    pub to_high: u32,
}

/// The range of the ray's parameter that is inside every slab so far.
#[derive(Debug, Clone, Copy, PartialEq, Eq, Structural)]
pub struct Interval {
    pub near: u32,
    pub far: u32,
}

/// The ray runs along the slab.
pub open spec fn parallel(axis: AxisSlab) -> bool {
    lt(magnitude(axis.direction), PARALLEL_LIMIT)
}

/// The ray starts outside the slab.
pub open spec fn outside(axis: AxisSlab) -> bool {
    lt(axis.origin, axis.low) || gt(axis.origin, axis.high)
}

/// The range before any slab: every value.
pub open spec fn everywhere() -> Interval {
    Interval { near: NEG_INFINITY, far: INFINITY }
}

/// The range after one more slab, or nothing if the ray misses the box.
pub open spec fn narrowed(interval: Interval, axis: AxisSlab) -> Option<Interval> {
    if parallel(axis) {
        if outside(axis) {
            None
        } else {
            Some(interval)
        }
    } else {
        let near = larger(interval.near, smaller(axis.to_low, axis.to_high));
        let far = smaller(interval.far, larger(axis.to_low, axis.to_high));
        if gt(near, far) {
            None
        } else {
            Some(Interval { near, far })
        }
    }
}

/// The range after the first `n` axes.
pub open spec fn slab(axes: Seq<AxisSlab>, n: int) -> Option<Interval>
    decreases n,
{
    if n <= 0 {
        Some(everywhere())
    } else {
        match slab(axes, n - 1) {
            None => None,
            Some(interval) => narrowed(interval, axes[n - 1]),
        }
    }
}

/// The distance at which a ray strikes a cube: where it enters, if that
/// is ahead of it; else where it leaves, if that is; else it does not.
/// A ray that starts inside the cube strikes it on the way out.
pub open spec fn entry_or_exit(interval: Interval) -> Option<u32> {
    if gt(interval.near, ZERO) {
        Some(interval.near)
    } else if gt(interval.far, ZERO) {
        Some(interval.far)
    } else {
        None
    }
}

pub open spec fn cube_distance(axes: Seq<AxisSlab>) -> Option<u32> {
    match slab(axes, axes.len() as int) {
        None => None,
        Some(interval) => entry_or_exit(interval),
    }
}

/// A ray strikes the bounding box if it is inside all slabs somewhere,
/// and the last such place is ahead of it.
pub open spec fn box_struck(axes: Seq<AxisSlab>) -> bool {
    match slab(axes, axes.len() as int) {
        None => false,
        Some(interval) => gt(interval.far, ZERO),
    }
}

/// The distance at which a ray strikes a plane. `denominator` is the
/// normal of the plane times the direction of the ray, and `distance` the
/// quotient that is the distance where the two are not parallel. A hit no
/// farther than the near limit does not count.
pub open spec fn plane_distance(denominator: u32, distance: u32) -> Option<u32> {
    if lt(magnitude(denominator), PARALLEL_LIMIT) {
        None
    } else if gt(distance, NEAR_LIMIT) {
        Some(distance)
    } else {
        None
    }
}

/// Narrows the range by one slab.
pub fn narrow(interval: Interval, axis: &AxisSlab) -> (result: Option<Interval>)
    ensures
        result == narrowed(interval, *axis),
{
    if less(abs(axis.direction), PARALLEL_LIMIT) {
        if less(axis.origin, axis.low) || greater(axis.origin, axis.high) {
            None
        } else {
            Some(interval)
        }
    } else {
        let near = max(interval.near, min(axis.to_low, axis.to_high));
        let far = min(interval.far, max(axis.to_low, axis.to_high));
        if greater(near, far) {
            None
        } else {
            Some(Interval { near, far })
        }
    }
}

/// Runs the slab method over the three axes.
pub fn ray_slab(axes: &[AxisSlab; 3]) -> (result: Option<Interval>)
    ensures
        result == slab(axes@, 3),
{
    let mut interval = Interval { near: NEG_INFINITY, far: INFINITY };
    let mut i: usize = 0;
    while i < 3
        invariant
            i <= 3,
            slab(axes@, i as int) == Some(interval),
        decreases 3 - i,
    {
        match narrow(interval, &axes[i]) {
            Some(next) => {
                interval = next;
            },
            None => {
                proof {
                    lemma_miss_is_final(axes@, i as int + 1, 3);
                }
                return None;
            },
        }
        i += 1;
    }
    Some(interval)
}

/// The distance at which the ray strikes the cube, if it does.
pub fn cube_hit(axes: &[AxisSlab; 3]) -> (distance: Option<u32>)
    ensures
        distance == cube_distance(axes@),
        distance matches Some(d) ==> gt(d, ZERO),
{
    match ray_slab(axes) {
        None => None,
        Some(interval) => {
            if greater(interval.near, ZERO) {
                Some(interval.near)
            } else if greater(interval.far, ZERO) {
                Some(interval.far)
            } else {
                None
            }
        },
    }
}

/// Whether the ray strikes the bounding box.
pub fn box_hit(axes: &[AxisSlab; 3]) -> (struck: bool)
    ensures
        struck == box_struck(axes@),
{
    match ray_slab(axes) {
        None => false,
        Some(interval) => greater(interval.far, ZERO),
    }
}

/// The distance at which the ray strikes the plane, if it does.
pub fn plane_hit(denominator: u32, distance: u32) -> (hit: Option<u32>)
    ensures
        hit == plane_distance(denominator, distance),
        hit matches Some(d) ==> gt(d, NEAR_LIMIT),
{
    if less(abs(denominator), PARALLEL_LIMIT) {
        None
    } else if greater(distance, NEAR_LIMIT) {
        Some(distance)
    } else {
        None
    }
}

/// Once the ray has missed the box, further axes change nothing.
proof fn lemma_miss_is_final(axes: Seq<AxisSlab>, n: int, m: int)
    requires
        0 <= n <= m,
        slab(axes, n) is None,
    ensures
        slab(axes, m) is None,
    decreases m - n,
{
    if n < m {
        lemma_miss_is_final(axes, n, m - 1);
    }
}

/// The range after `n` axes depends on those axes alone.
proof fn lemma_slab_of_equal_prefix(a: Seq<AxisSlab>, b: Seq<AxisSlab>, n: int)
    requires
        forall|k: int| 0 <= k < n ==> a[k] == b[k],
    ensures
        slab(a, n) == slab(b, n),
    decreases n,
{
    if n > 0 {
        lemma_slab_of_equal_prefix(a, b, n - 1);
    }
}

proof fn lemma_ignored_in_prefix(axes: Seq<AxisSlab>, i: int, m: int)
    requires
        0 <= i < m <= axes.len(),
        parallel(axes[i]),
        !outside(axes[i]),
    ensures
        slab(axes, m) == slab(axes.remove(i), m - 1),
    decreases m,
{
    let rest = axes.remove(i);
    if m == i + 1 {
        lemma_slab_of_equal_prefix(axes, rest, i);
    } else {
        lemma_ignored_in_prefix(axes, i, m - 1);
        assert(rest[m - 2] == axes[m - 1]);
    }
}

/// A direction of exactly zero, of either sign, runs along the slab.
pub proof fn lemma_zero_direction_is_parallel(axis: AxisSlab)
    requires
        axis.direction == ZERO || axis.direction == SIGN,
    ensures
        parallel(axis),
{
}

/// Parallel-ray rejection: a ray that runs along one of the slabs and
/// starts outside it misses the box, whatever the other axes are.
pub proof fn lemma_parallel_outside_misses(axes: Seq<AxisSlab>, i: int)
    requires
        0 <= i < axes.len(),
        parallel(axes[i]),
        outside(axes[i]),
    ensures
        slab(axes, axes.len() as int) is None,
        cube_distance(axes) is None,
        !box_struck(axes),
{
    assert(slab(axes, i + 1) is None);
    lemma_miss_is_final(axes, i + 1, axes.len() as int);
}

/// A ray that runs along one of the slabs and starts inside it fares as
/// if that axis were not there.
pub proof fn lemma_parallel_inside_is_ignored(axes: Seq<AxisSlab>, i: int)
    requires
        0 <= i < axes.len(),
        parallel(axes[i]),
        !outside(axes[i]),
    ensures
        slab(axes, axes.len() as int) == slab(axes.remove(i), axes.len() - 1),
        cube_distance(axes) == cube_distance(axes.remove(i)),
        box_struck(axes) == box_struck(axes.remove(i)),
{
    lemma_ignored_in_prefix(axes, i, axes.len() as int);
}

/// Along one axis, and for the same ray, the slab `inner` lies within the
/// slab `outer`: its faces lie between the faces of the other, and the ray
/// is inside it for no more than the range for which it is inside the
/// other.
pub open spec fn within(inner: AxisSlab, outer: AxisSlab) -> bool {
    &&& inner.origin == outer.origin
    &&& inner.direction == outer.direction
    &&& le(outer.low, inner.low)
    &&& le(inner.high, outer.high)
    &&& !parallel(inner) ==> {
        &&& le(smaller(outer.to_low, outer.to_high), smaller(inner.to_low, inner.to_high))
        &&& le(larger(inner.to_low, inner.to_high), larger(outer.to_low, outer.to_high))
    }
}

/// As long as the ray has not missed the inner box, it has not missed the
/// outer one, and what is left of its range for the inner box lies within
/// what is left for the outer one.
proof fn lemma_ranges_nest(inner: Seq<AxisSlab>, outer: Seq<AxisSlab>, n: int)
    requires
        0 <= n <= inner.len(),
        n <= outer.len(),
        forall|i: int| 0 <= i < n ==> within(#[trigger] inner[i], outer[i]),
    ensures
        slab(outer, n) is None ==> slab(inner, n) is None,
        slab(outer, n) matches Some(wide) ==> !is_nan(wide.near) && !is_nan(wide.far),
        slab(inner, n) matches Some(narrow) ==> !is_nan(narrow.near) && !is_nan(narrow.far) && le(
            narrow.near,
            narrow.far,
        ),
        slab(inner, n) matches Some(narrow) ==> (slab(outer, n) matches Some(wide) && le(
            wide.near,
            narrow.near,
        ) && le(narrow.far, wide.far)),
    decreases n,
{
    if n > 0 {
        lemma_ranges_nest(inner, outer, n - 1);
        assert(within(inner[n - 1], outer[n - 1]));
    }
}

/// Bounding-volume soundness of the slab method: a ray that does not
/// strike a box strikes no box within it.
pub proof fn lemma_box_miss_is_cube_miss(cube: Seq<AxisSlab>, bounding: Seq<AxisSlab>)
    requires
        cube.len() == bounding.len(),
        forall|i: int| 0 <= i < cube.len() ==> within(#[trigger] cube[i], bounding[i]),
        !box_struck(bounding),
    ensures
        cube_distance(cube) is None,
        !box_struck(cube),
{
    lemma_ranges_nest(cube, bounding, cube.len() as int);
}

/// What is left of the range is never empty: as long as the ray has not
/// missed the box, the near end is not beyond the far end.
pub proof fn lemma_range_is_not_empty(axes: Seq<AxisSlab>, n: int)
    requires
        0 <= n <= axes.len(),
    ensures
        slab(axes, n) matches Some(interval) ==> !gt(interval.near, interval.far),
    decreases n,
{
    if n > 0 {
        lemma_range_is_not_empty(axes, n - 1);
    }
}

} // verus!
