//! The diorama as a list of unit cubes on an integer grid.
//!
//! A cube is named by the grid point of its centre; neighbouring cubes touch.
//! Where the grid lies in the world, and how large a cube is there, is left
//! to whoever draws the scene.

use crate::material::Material;
use crate::bounds::{lemma_bounds_are_unique, lemma_scene_bounds};
use crate::terrain::{
    column_height, cube_material, cube_placed, is_height_map, lemma_column_height_bounds,
    GRID_SIZE,
};
use vstd::prelude::*;

verus! {

/// A point of the grid: `x` across, `y` up, `z` in depth.
#[derive(Debug, Clone, Copy, PartialEq, Eq, Structural)]
pub struct GridPoint {
    pub x: usize,
    pub y: usize,
    pub z: usize,
}

/// A unit cube centred on a grid point.
#[derive(Debug, Clone, Copy)]
pub struct Cube {
    pub position: GridPoint,
    pub material: Material,
}

/// A scene: every cube in the order it was laid, and the two corners of
/// the bounding box, which holds the centre of every cube.
pub struct OptimizedDiorama {
    pub cubes: Vec<Cube>,
    pub bounding_box_min: GridPoint,
    pub bounding_box_max: GridPoint,
}

/// Margin, in world units, by which a renderer widens the bounding box on
/// every side before testing rays against it.
pub const BOUNDING_MARGIN: usize = 2;

/// Column and base level of the tree.
pub const TREE_X: usize = 14;

pub const TREE_Z: usize = 13;

pub const TREE_BASE: usize = 5;

pub const TRUNK_HEIGHT: usize = 4;

/// Column and base level of the cactus.
pub const CACTUS_X: usize = 9;

pub const CACTUS_Z: usize = 8;

pub const CACTUS_BASE: usize = 4;

/// Footprint and level of the roof plate over the cave.
pub const ROOF_X0: usize = 0;

pub const ROOF_Z0: usize = 0;

pub const ROOF_W: usize = 6;

pub const ROOF_H: usize = 7;

pub const ROOF_Y: usize = 7;

pub open spec fn cube_at(x: int, y: int, z: int, material: Material) -> Cube {
    Cube { position: GridPoint { x: x as usize, y: y as usize, z: z as usize }, material }
}

/// The cubes of levels `0..levels` of one column, bottom first.
pub open spec fn column_cubes(x: int, z: int, top: int, grid_size: int, levels: int) -> Seq<Cube>
    decreases levels,
{
    if levels <= 0 {
        Seq::empty()
    } else {
        let level = levels - 1;
        let below = column_cubes(x, z, top, grid_size, level);
        if cube_placed(x, z, level, grid_size) {
            below.push(cube_at(x, level, z, cube_material(x, z, level, top)))
        } else {
            below
        }
    }
}

/// The cubes of columns `0..columns` of one row, each column whole.
pub open spec fn row_cubes(z: int, grid_size: int, columns: int) -> Seq<Cube>
    decreases columns,
{
    if columns <= 0 {
        Seq::empty()
    } else {
        let x = columns - 1;
        let top = column_height(x, z, grid_size);
        row_cubes(z, grid_size, x) + column_cubes(x, z, top, grid_size, top + 1)
    }
}

/// The cubes of rows `0..rows` of the terrain, each row whole.
pub open spec fn terrain_cubes(grid_size: int, rows: int) -> Seq<Cube>
    decreases rows,
{
    if rows <= 0 {
        Seq::empty()
    } else {
        terrain_cubes(grid_size, rows - 1) + row_cubes(rows - 1, grid_size, grid_size)
    }
}

/// The lowest `n` cubes of the tree trunk.
pub open spec fn trunk_cubes(n: int) -> Seq<Cube> {
    Seq::new(
        n as nat,
        |i: int| cube_at(TREE_X as int, TREE_BASE + i, TREE_Z as int, Material::wood_block()),
    )
}

/// The canopy is cut from a block of 3 x 3 x 3 cells on top of the trunk.
/// Cell `i` of the block lies `i / 9 - 1` rows and `(i / 3) % 3 - 1` columns
/// from the trunk, `i % 3` levels above its top.
pub open spec fn canopy_keeps(i: int) -> bool {
    let dz = i / 9 - 1;
    let dx = (i / 3) % 3 - 1;
    let dy = i % 3;
    (if dx < 0 {
        -dx
    } else {
        dx
    }) + dy + (if dz < 0 {
        -dz
    } else {
        dz
    }) <= 3
}

pub open spec fn canopy_cell(i: int) -> Cube {
    cube_at(
        TREE_X + (i / 3) % 3 - 1,
        TREE_BASE + TRUNK_HEIGHT + i % 3,
        TREE_Z + i / 9 - 1,
        Material::leaves_block(),
    )
}

/// The leaves among the first `n` cells of the canopy block: those within a
/// Manhattan distance of 3 from the cell on top of the trunk.
pub open spec fn canopy_cubes(n: int) -> Seq<Cube>
    decreases n,
{
    if n <= 0 {
        Seq::empty()
    } else {
        let before = canopy_cubes(n - 1);
        if canopy_keeps(n - 1) {
            before.push(canopy_cell(n - 1))
        } else {
            before
        }
    }
}

pub open spec fn tree_cubes() -> Seq<Cube> {
    trunk_cubes(TRUNK_HEIGHT as int) + canopy_cubes(27)
}

/// The first `n` crystals: a pair stacked at `(2, 8)`, then a pair at `(3, 11)`.
pub open spec fn crystal_cubes(n: int) -> Seq<Cube> {
    Seq::new(
        n as nat,
        |i: int|
            cube_at(
                if i < 2 {
                    2
                } else {
                    3
                },
                3 + i % 2,
                if i < 2 {
                    8
                } else {
                    11
                },
                Material::crystal_block(),
            ),
    )
}

/// The first `n` cubes of the roof plate, laid column by column.
pub open spec fn roof_cubes(n: int) -> Seq<Cube> {
    Seq::new(
        n as nat,
        |i: int|
            cube_at(
                ROOF_X0 + i / (ROOF_H as int),
                ROOF_Y as int,
                ROOF_Z0 + i % (ROOF_H as int),
                Material::stone_layer(),
            ),
    )
}

/// The lowest `n` cubes of the cactus.
pub open spec fn cactus_cubes(n: int) -> Seq<Cube> {
    Seq::new(
        n as nat,
        |i: int|
            cube_at(CACTUS_X as int, CACTUS_BASE + i, CACTUS_Z as int, Material::cactus_block()),
    )
}

/// The first `n` cubes of the forest corner: three stone stubs two cubes
/// tall, then a block of leaves two columns wide and two deep, each of its
/// columns laid from level 6 down to level 4.
pub open spec fn forest_corner_cubes(n: int) -> Seq<Cube> {
    Seq::new(
        n as nat,
        |i: int|
            if i < 6 {
                cube_at(
                    if i < 2 {
                        13
                    } else if i < 4 {
                        14
                    } else {
                        16
                    },
                    5 + i % 2,
                    if 2 <= i < 4 {
                        12
                    } else {
                        13
                    },
                    Material::stone_layer(),
                )
            } else {
                cube_at(
                    15 + (i - 6) / 6,
                    6 - (i - 6) % 3,
                    16 + ((i - 6) / 3) % 2,
                    Material::leaves_block(),
                )
            },
    )
}

/// Every cube of the diorama, in the order in which the scene lists them:
/// terrain, tree, crystals, roof, cactus.
pub open spec fn scene_cubes() -> Seq<Cube> {
    terrain_cubes(GRID_SIZE as int, GRID_SIZE as int) + tree_cubes() + crystal_cubes(4)
        + roof_cubes(ROOF_W * ROOF_H) + cactus_cubes(2)
}

/// The cell `c` lies between the cells `lo` and `hi` on every axis.
pub open spec fn between(c: GridPoint, lo: GridPoint, hi: GridPoint) -> bool {
    &&& lo.x <= c.x <= hi.x
    &&& lo.y <= c.y <= hi.y
    &&& lo.z <= c.z <= hi.z
}

/// The first `n` cubes are all centred between the two corners.
pub open spec fn encloses(lo: GridPoint, hi: GridPoint, cubes: Seq<Cube>, n: int) -> bool {
    forall|i: int| 0 <= i < n ==> between((#[trigger] cubes[i]).position, lo, hi)
}

/// Each side of the box between the two corners passes through the centre
/// of one of the first `n` cubes.
pub open spec fn touches(lo: GridPoint, hi: GridPoint, cubes: Seq<Cube>, n: int) -> bool {
    &&& exists|i: int| 0 <= i < n && (#[trigger] cubes[i]).position.x == lo.x
    &&& exists|i: int| 0 <= i < n && (#[trigger] cubes[i]).position.y == lo.y
    &&& exists|i: int| 0 <= i < n && (#[trigger] cubes[i]).position.z == lo.z
    &&& exists|i: int| 0 <= i < n && (#[trigger] cubes[i]).position.x == hi.x
    &&& exists|i: int| 0 <= i < n && (#[trigger] cubes[i]).position.y == hi.y
    &&& exists|i: int| 0 <= i < n && (#[trigger] cubes[i]).position.z == hi.z
}

/// The two corners are those of the bounding box of the cubes: the
/// smallest box that holds every centre. Without cubes there is no box, and
/// the corners are the far corner and the origin, in this order.
pub open spec fn bounds(lo: GridPoint, hi: GridPoint, cubes: Seq<Cube>) -> bool {
    if cubes.len() == 0 {
        lo == (GridPoint { x: usize::MAX, y: usize::MAX, z: usize::MAX }) && hi == (GridPoint {
            x: 0,
            y: 0,
            z: 0,
        })
    } else {
        encloses(lo, hi, cubes, cubes.len() as int) && touches(lo, hi, cubes, cubes.len() as int)
    }
}

fn smaller(a: usize, b: usize) -> (m: usize)
    ensures
        m == if a <= b {
            a
        } else {
            b
        },
{
    if a <= b {
        a
    } else {
        b
    }
}

fn larger(a: usize, b: usize) -> (m: usize)
    ensures
        m == if a >= b {
            a
        } else {
            b
        },
{
    if a >= b {
        a
    } else {
        b
    }
}

impl Cube {
    pub fn new(position: GridPoint, material: Material) -> (cube: Cube)
        ensures
            cube == (Cube { position, material }),
    {
        Cube { position, material }
    }
}

impl OptimizedDiorama {
    /// Generates the diorama.
    ///
    /// The cubes are those of the terrain, row by row and column by column
    /// from the bottom up, followed by the tree, the crystals, the roof plate
    /// and the cactus. The bounding box is that of all of them: it reaches
    /// from the origin to the far edge of the grid and up to the top of
    /// the tree.
    pub fn new() -> (scene: OptimizedDiorama)
        ensures
            scene.is_generated(),
            scene.wf(),
            scene.cubes@ == scene_cubes(),
            scene.bounding_box_min == (GridPoint { x: 0, y: 0, z: 0 }),
            scene.bounding_box_max == (GridPoint { x: 17, y: 11, z: 17 }),
    {
        let grid_size: usize = GRID_SIZE;
        let terrain_heights = Self::generate_terrain_heights(grid_size);
        let mut cubes: Vec<Cube> = Vec::new();

        let mut z: usize = 0;
        while z < grid_size
            invariant
                grid_size == GRID_SIZE,
                z <= grid_size,
                is_height_map(terrain_heights@, grid_size as int),
                cubes@ == terrain_cubes(grid_size as int, z as int),
            decreases grid_size - z,
        {
            let mut x: usize = 0;
            while x < grid_size
                invariant
                    grid_size == GRID_SIZE,
                    z < grid_size,
                    x <= grid_size,
                    is_height_map(terrain_heights@, grid_size as int),
                    cubes@ == terrain_cubes(grid_size as int, z as int) + row_cubes(
                        z as int,
                        grid_size as int,
                        x as int,
                    ),
                decreases grid_size - x,
            {
                let height = terrain_heights[z][x];
                proof {
                    lemma_column_height_bounds(x as int, z as int, grid_size as int);
                }
                let mut y_level: usize = 0;
                while y_level <= height
                    invariant
                        grid_size == GRID_SIZE,
                        z < grid_size,
                        x < grid_size,
                        height == column_height(x as int, z as int, grid_size as int),
                        height <= 7,
                        y_level <= height + 1,
                        cubes@ == terrain_cubes(grid_size as int, z as int) + row_cubes(
                            z as int,
                            grid_size as int,
                            x as int,
                        ) + column_cubes(
                            x as int,
                            z as int,
                            height as int,
                            grid_size as int,
                            y_level as int,
                        ),
                    decreases height + 1 - y_level,
                {
                    let material = Self::determine_material(x, z, y_level, height);
                    if Self::should_place_cube(x, z, y_level, height, grid_size) {
                        cubes.push(Cube::new(GridPoint { x, y: y_level, z }, material));
                    }
                    y_level += 1;
                }
                assert(cubes@ == terrain_cubes(grid_size as int, z as int) + row_cubes(
                    z as int,
                    grid_size as int,
                    x as int + 1,
                ));
                x += 1;
            }
            z += 1;
        }

        Self::place_tree(&mut cubes);
        Self::place_crystal_details(&mut cubes);
        Self::place_overhang_roof(&mut cubes);
        Self::place_cactus(&mut cubes);

        let (lowest, highest) = Self::bounding_cells(&cubes);
        proof {
            lemma_scene_bounds();
            lemma_bounds_are_unique(
                cubes@,
                lowest,
                highest,
                GridPoint { x: 0, y: 0, z: 0 },
                GridPoint { x: 17, y: 11, z: 17 },
            );
        }
        OptimizedDiorama { cubes, bounding_box_min: lowest, bounding_box_max: highest }
    }

    /// Finds the bounding box of a list of cubes.
    pub fn bounding_cells(cubes: &Vec<Cube>) -> (corners: (GridPoint, GridPoint))
        ensures
            bounds(corners.0, corners.1, cubes@),
    {
        let mut lo = GridPoint { x: usize::MAX, y: usize::MAX, z: usize::MAX };
        let mut hi = GridPoint { x: 0, y: 0, z: 0 };
        let mut i: usize = 0;
        while i < cubes.len()
            invariant
                i <= cubes.len(),
                i == 0 ==> lo == (GridPoint { x: usize::MAX, y: usize::MAX, z: usize::MAX }) && hi
                    == (GridPoint { x: 0, y: 0, z: 0 }),
                i > 0 ==> encloses(lo, hi, cubes@, i as int) && touches(lo, hi, cubes@, i as int),
            decreases cubes.len() - i,
        {
            let p = cubes[i].position;
            let ghost before_lo = lo;
            let ghost before_hi = hi;
            lo = GridPoint { x: smaller(lo.x, p.x), y: smaller(lo.y, p.y), z: smaller(lo.z, p.z) };
            hi = GridPoint { x: larger(hi.x, p.x), y: larger(hi.y, p.y), z: larger(hi.z, p.z) };
            proof {
                let n = i as int;
                assert(cubes@[n].position == p);
                assert forall|k: int| 0 <= k < n + 1 implies between(
                    (#[trigger] cubes@[k]).position,
                    lo,
                    hi,
                ) by {
                    if k < n {
                        assert(between(cubes@[k].position, before_lo, before_hi));
                    }
                }
                if n > 0 {
                    let kx = choose|k: int|
                        0 <= k < n && (#[trigger] cubes@[k]).position.x == before_lo.x;
                    let ky = choose|k: int|
                        0 <= k < n && (#[trigger] cubes@[k]).position.y == before_lo.y;
                    let kz = choose|k: int|
                        0 <= k < n && (#[trigger] cubes@[k]).position.z == before_lo.z;
                    let hx = choose|k: int|
                        0 <= k < n && (#[trigger] cubes@[k]).position.x == before_hi.x;
                    let hy = choose|k: int|
                        0 <= k < n && (#[trigger] cubes@[k]).position.y == before_hi.y;
                    let hz = choose|k: int|
                        0 <= k < n && (#[trigger] cubes@[k]).position.z == before_hi.z;
                    assert(cubes@[if p.x < before_lo.x { n } else { kx }].position.x == lo.x);
                    assert(cubes@[if p.y < before_lo.y { n } else { ky }].position.y == lo.y);
                    assert(cubes@[if p.z < before_lo.z { n } else { kz }].position.z == lo.z);
                    assert(cubes@[if p.x > before_hi.x { n } else { hx }].position.x == hi.x);
                    assert(cubes@[if p.y > before_hi.y { n } else { hy }].position.y == hi.y);
                    assert(cubes@[if p.z > before_hi.z { n } else { hz }].position.z == hi.z);
                }
            }
            i += 1;
        }
        (lo, hi)
    }

    /// Adds the tree: a trunk four cubes tall and the rounded canopy on top.
    pub fn place_tree(cubes: &mut Vec<Cube>)
        ensures
            final(cubes)@ == old(cubes)@ + tree_cubes(),
    {
        let mut i: usize = 0;
        while i < TRUNK_HEIGHT
            invariant
                i <= TRUNK_HEIGHT,
                cubes@ == old(cubes)@ + trunk_cubes(i as int),
            decreases TRUNK_HEIGHT - i,
        {
            cubes.push(
                Cube::new(
                    GridPoint { x: TREE_X, y: TREE_BASE + i, z: TREE_Z },
                    Material::wood_block(),
                ),
            );
            i += 1;
        }
        let top_y: usize = TREE_BASE + TRUNK_HEIGHT;
        let ghost base = cubes@;
        assert(base == base + canopy_cubes(0));
        let mut a: usize = 0;
        while a < 3
            invariant
                a <= 3,
                top_y == TREE_BASE + TRUNK_HEIGHT,
                cubes@ == base + canopy_cubes(9 * a),
            decreases 3 - a,
        {
            let mut b: usize = 0;
            while b < 3
                invariant
                    a < 3,
                    b <= 3,
                    top_y == TREE_BASE + TRUNK_HEIGHT,
                    cubes@ == base + canopy_cubes(9 * a + 3 * b),
                decreases 3 - b,
            {
                let mut c: usize = 0;
                while c < 3
                    invariant
                        a < 3,
                        b < 3,
                        c <= 3,
                        top_y == TREE_BASE + TRUNK_HEIGHT,
                        cubes@ == base + canopy_cubes(9 * a + 3 * b + c),
                    decreases 3 - c,
                {
                    let across: usize = if b >= 1 {
                        b - 1
                    } else {
                        1
                    };
                    let deep: usize = if a >= 1 {
                        a - 1
                    } else {
                        1
                    };
                    let manhattan: usize = across + c + deep;
                    let ghost n = 9 * a + 3 * b + c;
                    assert(n / 9 == a && (n / 3) % 3 == b && n % 3 == c);
                    if manhattan <= 3 {
                        cubes.push(
                            Cube::new(
                                GridPoint { x: TREE_X + b - 1, y: top_y + c, z: TREE_Z + a - 1 },
                                Material::leaves_block(),
                            ),
                        );
                    }
                    assert(cubes@ == base + canopy_cubes(n + 1));
                    c += 1;
                }
                b += 1;
            }
            a += 1;
        }
        assert(cubes@ == old(cubes)@ + tree_cubes());
    }

    /// Adds the decoration of the forest corner. The generated scene does
    /// without it.
    pub fn place_forest_corner_details(cubes: &mut Vec<Cube>)
        ensures
            final(cubes)@ == old(cubes)@ + forest_corner_cubes(18),
    {
        let stubs: [(usize, usize); 3] = [(13, 13), (14, 12), (16, 13)];
        let mut k: usize = 0;
        while k < 3
            invariant
                k <= 3,
                stubs[0] == (13usize, 13usize),
                stubs[1] == (14usize, 12usize),
                stubs[2] == (16usize, 13usize),
                cubes@ == old(cubes)@ + forest_corner_cubes(2 * k),
            decreases 3 - k,
        {
            let (bx, bz) = stubs[k];
            let mut by: usize = 0;
            while by < 2
                invariant
                    k < 3,
                    by <= 2,
                    (bx, bz) == stubs[k as int],
                    stubs[0] == (13usize, 13usize),
                    stubs[1] == (14usize, 12usize),
                    stubs[2] == (16usize, 13usize),
                    cubes@ == old(cubes)@ + forest_corner_cubes(2 * k + by),
                decreases 2 - by,
            {
                cubes.push(
                    Cube::new(GridPoint { x: bx, y: 5 + by, z: bz }, Material::stone_layer()),
                );
                by += 1;
            }
            k += 1;
        }
        let mut x: usize = 15;
        while x <= 16
            invariant
                15 <= x <= 17,
                cubes@ == old(cubes)@ + forest_corner_cubes(6 + 6 * (x - 15)),
            decreases 17 - x,
        {
            let mut z: usize = 16;
            while z <= 17
                invariant
                    15 <= x <= 16,
                    16 <= z <= 18,
                    cubes@ == old(cubes)@ + forest_corner_cubes(6 + 6 * (x - 15) + 3 * (z - 16)),
                decreases 18 - z,
            {
                let mut down: usize = 0;
                while down < 3
                    invariant
                        15 <= x <= 16,
                        16 <= z <= 17,
                        down <= 3,
                        cubes@ == old(cubes)@ + forest_corner_cubes(
                            6 + 6 * (x - 15) + 3 * (z - 16) + down,
                        ),
                    decreases 3 - down,
                {
                    cubes.push(
                        Cube::new(GridPoint { x, y: 6 - down, z }, Material::leaves_block()),
                    );
                    down += 1;
                }
                z += 1;
            }
            x += 1;
        }
    }

    /// Adds the two stacked cubes of the cactus.
    pub fn place_cactus(cubes: &mut Vec<Cube>)
        ensures
            final(cubes)@ == old(cubes)@ + cactus_cubes(2),
    {
        let mut i: usize = 0;
        while i < 2
            invariant
                i <= 2,
                cubes@ == old(cubes)@ + cactus_cubes(i as int),
            decreases 2 - i,
        {
            cubes.push(
                Cube::new(
                    GridPoint { x: CACTUS_X, y: CACTUS_BASE + i, z: CACTUS_Z },
                    Material::cactus_block(),
                ),
            );
            i += 1;
        }
    }

    /// Adds the two crystal pairs of the cave.
    pub fn place_crystal_details(cubes: &mut Vec<Cube>)
        ensures
            final(cubes)@ == old(cubes)@ + crystal_cubes(4),
    {
        let cells: [(usize, usize); 2] = [(2, 8), (3, 11)];
        let mut k: usize = 0;
        while k < 2
            invariant
                k <= 2,
                cells[0] == (2usize, 8usize),
                cells[1] == (3usize, 11usize),
                cubes@ == old(cubes)@ + crystal_cubes(2 * k),
            decreases 2 - k,
        {
            let (cx, cz) = cells[k];
            let mut y: usize = 3;
            while y <= 4
                invariant
                    k < 2,
                    3 <= y <= 5,
                    cx == (if k == 0 {
                        2usize
                    } else {
                        3usize
                    }),
                    cz == (if k == 0 {
                        8usize
                    } else {
                        11usize
                    }),
                    cubes@ == old(cubes)@ + crystal_cubes(2 * k + y - 3),
                decreases 5 - y,
            {
                cubes.push(Cube::new(GridPoint { x: cx, y, z: cz }, Material::crystal_block()));
                y += 1;
            }
            k += 1;
        }
    }

    /// Adds the flat stone plate that roofs the cave.
    pub fn place_overhang_roof(cubes: &mut Vec<Cube>)
        ensures
            final(cubes)@ == old(cubes)@ + roof_cubes(ROOF_W * ROOF_H),
    {
        let mut x: usize = ROOF_X0;
        while x < ROOF_X0 + ROOF_W
            invariant
                ROOF_X0 <= x <= ROOF_X0 + ROOF_W,
                cubes@ == old(cubes)@ + roof_cubes((x - ROOF_X0) * ROOF_H),
            decreases ROOF_X0 + ROOF_W - x,
        {
            let mut z: usize = ROOF_Z0;
            while z < ROOF_Z0 + ROOF_H
                invariant
                    ROOF_X0 <= x < ROOF_X0 + ROOF_W,
                    ROOF_Z0 <= z <= ROOF_Z0 + ROOF_H,
                    cubes@ == old(cubes)@ + roof_cubes((x - ROOF_X0) * ROOF_H + (z - ROOF_Z0)),
                decreases ROOF_Z0 + ROOF_H - z,
            {
                cubes.push(Cube::new(GridPoint { x, y: ROOF_Y, z }, Material::stone_layer()));
                z += 1;
            }
            x += 1;
        }
    }
}

} // verus!
