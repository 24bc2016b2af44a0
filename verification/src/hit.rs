//! Choosing among the intersections of one ray.
//!
//! The caller measures the distance at which the ray meets each cube and
//! the floor; which of them the ray strikes is decided here. Distances are
//! single-precision bit patterns, compared as numbers.

use crate::single::{ge, greater, gt, is_nan, less, lt, ZERO};
use vstd::prelude::*;

verus! {

/// Hits at or below this distance are the surface the ray started from.
/// The pattern of a thousandth.
pub const NEAR_LIMIT: u32 = 0x3A83_126F;

/// Distance of a ray that has struck nothing yet: infinity.
pub const UNREACHED: u32 = 0x7F80_0000;

/// Of every two cubes, only the first can cast a shadow.
pub const SHADOW_STRIDE: usize = 2;

/// What a ray has struck.
#[derive(Debug, Clone, Copy, PartialEq, Eq, Structural)]
pub enum HitObject {
    /// The cube at this index of the scene.
    Cube(usize),
    Floor,
}

/// The nearest hit found so far.
#[derive(Debug, Clone, Copy, PartialEq, Eq, Structural)]
pub struct Nearest {
    pub object: Option<HitObject>,
    pub distance: u32,
}

/// A distance counts as a hit if it is beyond the near limit.
pub open spec fn counts(distance: u32) -> bool {
    gt(distance, NEAR_LIMIT)
}

impl Nearest {
    pub open spec fn start() -> Nearest {
        Nearest { object: None, distance: UNREACHED }
    }

    /// A hit replaces the nearest one so far when it counts and is
    /// strictly nearer.
    pub open spec fn takes(self, distance: u32) -> bool {
        counts(distance) && lt(distance, self.distance)
    }

    pub open spec fn offered(self, object: HitObject, distance: u32) -> Nearest {
        if self.takes(distance) {
            Nearest { object: Some(object), distance }
        } else {
            self
        }
    }

    /// Nothing struck yet.
    pub fn new() -> (nearest: Nearest)
        ensures
            nearest == Nearest::start(),
    {
        Nearest { object: None, distance: UNREACHED }
    }

    /// Takes one more hit into account; tells whether it became the nearest.
    pub fn offer(&mut self, object: HitObject, distance: u32) -> (taken: bool)
        ensures
            taken == old(self).takes(distance),
            *final(self) == old(self).offered(object, distance),
    {
        if greater(distance, NEAR_LIMIT) && less(distance, self.distance) {
            self.object = Some(object);
            self.distance = distance;
            true
        } else {
            false
        }
    }
}

/// The nearest hit among the first `n` cubes. `distances[i]` is the
/// distance at which the ray meets cube `i`, if it does.
pub open spec fn scan_cubes(distances: Seq<Option<u32>>, n: int) -> Nearest
    decreases n,
{
    if n <= 0 {
        Nearest::start()
    } else {
        let before = scan_cubes(distances, n - 1);
        match distances[n - 1] {
            None => before,
            Some(distance) => before.offered(HitObject::Cube((n - 1) as usize), distance),
        }
    }
}

/// Whether a hit lies between the surface and the light.
pub open spec fn blocks(distance: Option<u32>, light: u32) -> bool {
    distance matches Some(d) && counts(d) && lt(d, light)
}

/// A point is in shadow when the ray towards the light meets one of the
/// sampled cubes before it meets the light.
pub open spec fn shadowed(distances: Seq<Option<u32>>, light: u32) -> bool {
    exists|i: int|
        0 <= i < distances.len() && i % (SHADOW_STRIDE as int) == 0 && blocks(
            #[trigger] distances[i],
            light,
        )
}

/// Whether the cube at `index` takes part in the shadow test.
pub fn shadow_sampled(index: usize) -> (sampled: bool)
    ensures
        sampled == (index % SHADOW_STRIDE == 0),
{
    index % SHADOW_STRIDE == 0
}

/// Finds the cube that a ray strikes first. The cubes are taken in order,
/// and a later cube wins only if it is strictly nearer.
pub fn nearest_cube(distances: &Vec<Option<u32>>) -> (found: Nearest)
    ensures
        found == scan_cubes(distances@, distances.len() as int),
{
    let mut found = Nearest::new();
    let mut i: usize = 0;
    while i < distances.len()
        invariant
            i <= distances.len(),
            found == scan_cubes(distances@, i as int),
        decreases distances.len() - i,
    {
        match distances[i] {
            None => {},
            Some(distance) => {
                found.offer(HitObject::Cube(i), distance);
            },
        }
        i += 1;
    }
    found
}

/// Decides between the nearest cube and the floor: the floor wins only if
/// it counts and is strictly nearer than the cube.
pub fn nearest_hit(distances: &Vec<Option<u32>>, floor: Option<u32>) -> (found: Nearest)
    ensures
        found == match floor {
            Some(distance) => scan_cubes(distances@, distances.len() as int).offered(
                HitObject::Floor,
                distance,
            ),
            None => scan_cubes(distances@, distances.len() as int),
        },
{
    let mut found = nearest_cube(distances);
    match floor {
        Some(distance) => {
            found.offer(HitObject::Floor, distance);
        },
        None => {},
    }
    found
}

/// The shadow test: whether any sampled cube blocks the light, which is
/// at the distance `light`.
pub fn in_shadow(distances: &Vec<Option<u32>>, light: u32) -> (dark: bool)
    ensures
        dark == shadowed(distances@, light),
{
    let mut i: usize = 0;
    while i < distances.len()
        invariant
            i <= distances.len(),
            forall|j: int|
                0 <= j < i && j % (SHADOW_STRIDE as int) == 0 ==> !blocks(
                    #[trigger] distances@[j],
                    light,
                ),
        decreases distances.len() - i,
    {
        if shadow_sampled(i) {
            match distances[i] {
                Some(distance) => {
                    if greater(distance, NEAR_LIMIT) && less(distance, light) {
                        assert(blocks(distances@[i as int], light));
                        return true;
                    }
                },
                None => {},
            }
        }
        i += 1;
    }
    false
}

/// The scan over the cubes finds the nearest one.
///
/// If it finds cube `i` at distance `d`, the ray does meet that cube there,
/// beyond the near limit and short of infinity; every earlier cube that
/// counts is strictly farther, and no later cube that counts is nearer. If
/// it finds nothing, no cube is met at a finite distance that counts. It
/// never finds the floor.
pub proof fn lemma_nearest_cube(distances: Seq<Option<u32>>, n: int)
    requires
        0 <= n <= distances.len() <= usize::MAX,
    ensures
        ({
            let found = scan_cubes(distances, n);
            match found.object {
                Some(HitObject::Cube(i)) => {
                    &&& i < n
                    &&& distances[i as int] == Some(found.distance)
                    &&& counts(found.distance)
                    &&& lt(found.distance, UNREACHED)
                    &&& forall|j: int|
                        0 <= j < i ==> (#[trigger] distances[j] matches Some(d) ==> !counts(d)
                            || gt(d, found.distance))
                    &&& forall|j: int|
                        i < j < n ==> (#[trigger] distances[j] matches Some(d) ==> !counts(d)
                            || ge(d, found.distance))
                },
                Some(HitObject::Floor) => false,
                None => {
                    &&& found.distance == UNREACHED
                    &&& forall|j: int|
                        0 <= j < n ==> (#[trigger] distances[j] matches Some(d) ==> !counts(d)
                            || !lt(d, UNREACHED))
                },
            }
        }),
    decreases n,
{
    if n > 0 {
        lemma_nearest_cube(distances, n - 1);
    }
}

/// Only a distance above zero is ever taken for a hit or for a shadow.
pub proof fn lemma_hits_are_ahead(nearest: Nearest, distance: u32, light: u32)
    ensures
        nearest.takes(distance) ==> gt(distance, ZERO) && !is_nan(distance),
        blocks(Some(distance), light) ==> gt(distance, ZERO) && gt(light, ZERO),
{
}

} // verus!
