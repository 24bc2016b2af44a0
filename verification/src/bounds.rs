//! What the bounding box of a scene holds.
//!
//! A renderer widens the bounding box by a margin and rejects a ray that
//! misses the widened box without looking at any cube. That is sound if
//! every cube lies inside the widened box, and the lemmas here show that it
//! does.
//!
//! Extents are measured from the centre of the cell at the grid origin, in
//! half units, so that half a cube is a whole number: with cubes of side
//! `size`, the cube at cell `c` covers `2 * c * size - size ..= 2 * c * size +
//! size` along an axis.

use crate::placement::{lemma_canopy_holds, lemma_terrain_follows_rules, lemma_terrain_holds_placed};
use crate::scene::{
    between, bounds, cactus_cubes, canopy_cubes, crystal_cubes, roof_cubes, scene_cubes,
    terrain_cubes, tree_cubes, trunk_cubes, Cube, GridPoint, OptimizedDiorama, ROOF_H, ROOF_W,
};
use crate::terrain::{lemma_column_height_bounds, GRID_SIZE};
use vstd::prelude::*;

verus! {

/// Along one axis, the cube at cell `c` lies inside the box that spans the
/// centres of the cells `lo..=hi` and is widened by `margin` on both sides.
/// `size` and `margin` are in the same unit.
pub open spec fn covered(c: int, lo: int, hi: int, size: int, margin: int) -> bool {
    2 * (lo * size) - 2 * margin <= 2 * (c * size) - size && 2 * (c * size) + size <= 2 * (hi
        * size) + 2 * margin
}

/// The cube lies inside the widened bounding box on all three axes.
pub open spec fn inside_widened_box(
    cube: Cube,
    lo: GridPoint,
    hi: GridPoint,
    size: int,
    margin: int,
) -> bool {
    &&& covered(cube.position.x as int, lo.x as int, hi.x as int, size, margin)
    &&& covered(cube.position.y as int, lo.y as int, hi.y as int, size, margin)
    &&& covered(cube.position.z as int, lo.z as int, hi.z as int, size, margin)
}

impl OptimizedDiorama {
    /// The bounding box is that of the cubes.
    pub open spec fn wf(&self) -> bool {
        bounds(self.bounding_box_min, self.bounding_box_max, self.cubes@)
    }

    /// The scene is the one that generation yields.
    pub open spec fn is_generated(&self) -> bool {
        &&& self.cubes@ == scene_cubes()
        &&& self.bounding_box_min == (GridPoint { x: 0, y: 0, z: 0 })
        &&& self.bounding_box_max == (GridPoint { x: 17, y: 11, z: 17 })
    }
}

proof fn lemma_canopy_positions(n: int, i: int)
    requires
        0 <= n <= 27,
        0 <= i < canopy_cubes(n).len(),
    ensures
        13 <= canopy_cubes(n)[i].position.x <= 15,
        12 <= canopy_cubes(n)[i].position.z <= 14,
        9 <= canopy_cubes(n)[i].position.y <= 11,
    decreases n,
{
    if n > 0 {
        if i < canopy_cubes(n - 1).len() {
            lemma_canopy_positions(n - 1, i);
        }
    }
}

/// Every cube of the generated scene stands on a column of the grid, no
/// higher than level 11.
pub proof fn lemma_scene_cube_on_grid(i: int)
    requires
        0 <= i < scene_cubes().len(),
    ensures
        scene_cubes()[i].position.x < GRID_SIZE,
        scene_cubes()[i].position.z < GRID_SIZE,
        scene_cubes()[i].position.y <= 11,
{
    let terrain = terrain_cubes(GRID_SIZE as int, GRID_SIZE as int);
    let trunk = trunk_cubes(4);
    let canopy = canopy_cubes(27);
    let crystals = crystal_cubes(4);
    let roof = roof_cubes(ROOF_W * ROOF_H);
    let cactus = cactus_cubes(2);
    assert(tree_cubes() == trunk + canopy);
    let t = terrain.len() as int;
    if i < t {
        lemma_terrain_follows_rules(GRID_SIZE as int, i);
        lemma_column_height_bounds(
            terrain[i].position.x as int,
            terrain[i].position.z as int,
            GRID_SIZE as int,
        );
    } else if i < t + 4 {
        assert(scene_cubes()[i] == trunk[i - t]);
    } else if i < t + 4 + canopy.len() {
        assert(scene_cubes()[i] == canopy[i - t - 4]);
        lemma_canopy_positions(27, i - t - 4);
    } else if i < t + 4 + canopy.len() + 4 {
        assert(scene_cubes()[i] == crystals[i - t - 4 - canopy.len()]);
    } else if i < t + 4 + canopy.len() + 4 + 42 {
        let k = i - t - 4 - canopy.len() - 4;
        assert(scene_cubes()[i] == roof[k]);
        assert(0 <= k / 7 < 6 && 0 <= k % 7 < 7);
    } else {
        assert(scene_cubes()[i] == cactus[i - t - 4 - canopy.len() - 4 - 42]);
    }
}

/// The bounding box of the generated scene reaches from the origin to the
/// far edge of the grid and up to the top of the tree.
pub proof fn lemma_scene_bounds()
    ensures
        bounds(
            GridPoint { x: 0, y: 0, z: 0 },
            GridPoint { x: 17, y: 11, z: 17 },
            scene_cubes(),
        ),
{
    let lo = GridPoint { x: 0, y: 0, z: 0 };
    let hi = GridPoint { x: 17, y: 11, z: 17 };
    let cubes = scene_cubes();
    let terrain = terrain_cubes(GRID_SIZE as int, GRID_SIZE as int);
    let n = cubes.len() as int;
    assert forall|i: int| 0 <= i < n implies between((#[trigger] cubes[i]).position, lo, hi) by {
        lemma_scene_cube_on_grid(i);
    }
    // The first and the last column of the terrain, and the top of the tree.
    let near = lemma_terrain_holds_placed(GRID_SIZE as int, 0, 0, 0);
    let far = lemma_terrain_holds_placed(GRID_SIZE as int, 17, 0, 17);
    let leaf = lemma_canopy_holds(27, 14);
    let top = terrain.len() + 4 + leaf;
    assert(cubes[near] == terrain[near]);
    assert(cubes[far] == terrain[far]);
    assert(tree_cubes() == trunk_cubes(4) + canopy_cubes(27));
    assert(cubes[top] == canopy_cubes(27)[leaf]);
    assert(cubes[near].position == lo);
    assert(cubes[far].position.x == 17 && cubes[far].position.z == 17);
    assert(cubes[top].position.y == 11);
}

/// A list of cubes has one bounding box.
pub proof fn lemma_bounds_are_unique(
    cubes: Seq<Cube>,
    lo: GridPoint,
    hi: GridPoint,
    lo2: GridPoint,
    hi2: GridPoint,
)
    requires
        bounds(lo, hi, cubes),
        bounds(lo2, hi2, cubes),
    ensures
        lo == lo2,
        hi == hi2,
{
    let n = cubes.len() as int;
    if n > 0 {
        let ax = choose|i: int| 0 <= i < n && (#[trigger] cubes[i]).position.x == lo.x;
        let ay = choose|i: int| 0 <= i < n && (#[trigger] cubes[i]).position.y == lo.y;
        let az = choose|i: int| 0 <= i < n && (#[trigger] cubes[i]).position.z == lo.z;
        let bx = choose|i: int| 0 <= i < n && (#[trigger] cubes[i]).position.x == hi.x;
        let by = choose|i: int| 0 <= i < n && (#[trigger] cubes[i]).position.y == hi.y;
        let bz = choose|i: int| 0 <= i < n && (#[trigger] cubes[i]).position.z == hi.z;
        let cx = choose|i: int| 0 <= i < n && (#[trigger] cubes[i]).position.x == lo2.x;
        let cy = choose|i: int| 0 <= i < n && (#[trigger] cubes[i]).position.y == lo2.y;
        let cz = choose|i: int| 0 <= i < n && (#[trigger] cubes[i]).position.z == lo2.z;
        let dx = choose|i: int| 0 <= i < n && (#[trigger] cubes[i]).position.x == hi2.x;
        let dy = choose|i: int| 0 <= i < n && (#[trigger] cubes[i]).position.y == hi2.y;
        let dz = choose|i: int| 0 <= i < n && (#[trigger] cubes[i]).position.z == hi2.z;
        assert(between(cubes[ax].position, lo2, hi2) && between(cubes[ay].position, lo2, hi2)
            && between(cubes[az].position, lo2, hi2));
        assert(between(cubes[bx].position, lo2, hi2) && between(cubes[by].position, lo2, hi2)
            && between(cubes[bz].position, lo2, hi2));
        assert(between(cubes[cx].position, lo, hi) && between(cubes[cy].position, lo, hi)
            && between(cubes[cz].position, lo, hi));
        assert(between(cubes[dx].position, lo, hi) && between(cubes[dy].position, lo, hi)
            && between(cubes[dz].position, lo, hi));
    }
}

proof fn lemma_covered(c: int, lo: int, hi: int, size: int, margin: int)
    requires
        lo <= c <= hi,
        0 <= size <= 2 * margin,
    ensures
        covered(c, lo, hi, size, margin),
{
    assert(lo * size <= c * size && c * size <= hi * size) by (nonlinear_arith)
        requires
            lo <= c <= hi,
            0 <= size,
    ;
}

/// A cube centred between the corners of a box lies inside the widened box
/// as long as half its side is no more than the margin.
pub proof fn lemma_margin_covers(cube: Cube, lo: GridPoint, hi: GridPoint, size: int, margin: int)
    requires
        between(cube.position, lo, hi),
        0 <= size <= 2 * margin,
    ensures
        inside_widened_box(cube, lo, hi, size, margin),
{
    lemma_covered(cube.position.x as int, lo.x as int, hi.x as int, size, margin);
    lemma_covered(cube.position.y as int, lo.y as int, hi.y as int, size, margin);
    lemma_covered(cube.position.z as int, lo.z as int, hi.z as int, size, margin);
}

/// Bounding-volume soundness: with cubes no larger than twice the margin,
/// every cube of a well-formed scene lies inside the widened bounding box,
/// so a ray that misses the widened box misses every cube.
pub proof fn lemma_every_cube_inside_widened_box(
    scene: OptimizedDiorama,
    i: int,
    size: int,
    margin: int,
)
    requires
        scene.wf(),
        0 <= i < scene.cubes@.len(),
        0 <= size <= 2 * margin,
    ensures
        inside_widened_box(
            scene.cubes@[i],
            scene.bounding_box_min,
            scene.bounding_box_max,
            size,
            margin,
        ),
{
    assert(between(scene.cubes@[i].position, scene.bounding_box_min, scene.bounding_box_max));
    lemma_margin_covers(
        scene.cubes@[i],
        scene.bounding_box_min,
        scene.bounding_box_max,
        size,
        margin,
    );
}

/// A generated scene is well formed.
pub proof fn lemma_generated_is_well_formed(scene: OptimizedDiorama)
    requires
        scene.is_generated(),
    ensures
        scene.wf(),
{
    lemma_scene_bounds();
}

/// Generation has one outcome: any two generated scenes list the same cubes
/// in the same order, with the same positions and materials, inside the
/// same bounding box.
pub proof fn lemma_generation_is_deterministic(a: OptimizedDiorama, b: OptimizedDiorama)
    requires
        a.is_generated(),
        b.is_generated(),
    ensures
        a.cubes@ == b.cubes@,
        a.cubes@.len() == b.cubes@.len(),
        forall|i: int|
            0 <= i < a.cubes@.len() ==> a.cubes@[i].position == b.cubes@[i].position
                && a.cubes@[i].material == b.cubes@[i].material,
        a.bounding_box_min == b.bounding_box_min,
        a.bounding_box_max == b.bounding_box_max,
{
}

} // verus!
