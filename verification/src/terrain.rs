//! Terrain rules of the diorama: the height of every column of the grid, the
//! material of every cube in a column, and which cubes are laid at all.
//!
//! The grid is indexed by `x` (across) and `z` (depth); levels count upwards
//! from 0. Three bands of `x` carry their own rules: the cave (`x < 6`), the
//! desert with its oasis (`6 <= x < 12`) and the forest (`x >= 12`).

use crate::material::Material;
use crate::scene::OptimizedDiorama;
use vstd::prelude::*;

verus! {

/// Side length of the grid the diorama is built on.
pub const GRID_SIZE: usize = 18;

/// The column around which the forest floor rises.
pub const CORNER_X: usize = 17;

pub const CORNER_Z: usize = 12;

/// The sunken pool of the desert: three columns wide, three deep, set one
/// column in from the far edge of the grid.
pub open spec fn oasis(x: int, z: int, grid_size: int) -> bool {
    8 <= x <= 10 && grid_size - 4 <= z <= grid_size - 2
}

pub open spec fn lava_pond_a(x: int, z: int) -> bool {
    2 <= x <= 4 && 2 <= z <= 4
}

pub open spec fn lava_pond_b(x: int, z: int) -> bool {
    1 <= x <= 3 && 4 <= z <= 5
}

pub open spec fn lava_pond_c(x: int, z: int, grid_size: int) -> bool {
    2 <= x <= 4 && grid_size - 4 <= z <= grid_size - 2
}

pub open spec fn any_lava_pond(x: int, z: int, grid_size: int) -> bool {
    lava_pond_a(x, z) || lava_pond_b(x, z) || lava_pond_c(x, z, grid_size)
}

/// Height of a cave column: the walls step down from 6 at the outer ring to
/// 3 in the interior.
pub open spec fn cave_height(x: int, z: int) -> int {
    if x == 0 || z == 0 {
        6
    } else if x == 1 || z == 1 {
        5
    } else if x == 2 || z == 2 {
        4
    } else {
        3
    }
}

/// Extra height of the mound around the corner column: 2 within a radius of
/// 2.5 columns, 1 within 5.5, nothing beyond. The radii are compared by
/// their squares, scaled by four to stay in whole numbers.
pub open spec fn corner_bump(x: int, z: int) -> int {
    let dx = x - CORNER_X;
    let dz = z - CORNER_Z;
    let d2 = dx * dx + dz * dz;
    if 4 * d2 < 25 {
        2
    } else if 4 * d2 < 121 {
        1
    } else {
        0
    }
}

/// Height of the column at `(x, z)` on a grid of the given size.
pub open spec fn column_height(x: int, z: int, grid_size: int) -> int {
    if x < 6 {
        cave_height(x, z)
    } else if x < 12 {
        if oasis(x, z, grid_size) {
            2
        } else {
            3
        }
    } else if x == 12 || x == 13 {
        3
    } else {
        4 + (x + 2 * z) % 2 + corner_bump(x, z)
    }
}

/// A table holds the height map of a grid: one row per `z`, one entry per `x`.
pub open spec fn is_height_map(heights: Seq<Vec<usize>>, grid_size: int) -> bool {
    &&& heights.len() == grid_size
    &&& forall|z: int| 0 <= z < grid_size ==> (#[trigger] heights[z]).len() == grid_size
    &&& forall|z: int, x: int|
        0 <= z < grid_size && 0 <= x < grid_size ==> #[trigger] heights[z][x] == column_height(
            x,
            z,
            grid_size,
        )
}

/// Cave cubes near the two outer walls that are turned to obsidian.
pub open spec fn obsidian_accent(x: int, z: int, level: int) -> bool {
    (x <= 2 || z <= 2) && ((x + 2 * z + level) % 5 == 0 || (3 * x + z) % 7 == 0)
}

/// Material of the cube at `level` in the column at `(x, z)` whose top cube
/// is at `top`.
///
/// Cave: level 1 is lava throughout; the top of a column inside a lava pond
/// is lava; accents are obsidian; the rest is stone. Desert: level 2 is water
/// everywhere, and so is level 1 inside the oasis; otherwise the top is sand
/// over stone. Forest: grass on top, one layer of dirt below it, stone
/// underneath.
pub open spec fn cube_material(x: int, z: int, level: int, top: int) -> Material {
    if x < 6 {
        if level == 1 {
            Material::lava_surface()
        } else if any_lava_pond(x, z, GRID_SIZE as int) && level == top {
            Material::lava_surface()
        } else if obsidian_accent(x, z, level) {
            Material::obsidian_block()
        } else {
            Material::stone_layer()
        }
    } else if x < 12 {
        if (oasis(x, z, GRID_SIZE as int) && level == 1) || level == 2 {
            Material::water_surface()
        } else if level == top {
            Material::sand_top()
        } else {
            Material::stone_layer()
        }
    } else {
        if level == top {
            Material::grass_top()
        } else if level >= top - 1 {
            Material::dirt_layer()
        } else {
            Material::stone_layer()
        }
    }
}

/// Whether a cube is laid at `level` of the column at `(x, z)`: always,
/// except that nothing is stacked above level 2 inside the oasis.
pub open spec fn cube_placed(x: int, z: int, level: int, grid_size: int) -> bool {
    !(oasis(x, z, grid_size) && level > 2)
}

/// No column is lower than 2 or taller than 7.
pub proof fn lemma_column_height_bounds(x: int, z: int, grid_size: int)
    requires
        0 <= x,
        0 <= z,
    ensures
        2 <= column_height(x, z, grid_size) <= 7,
{
}

impl OptimizedDiorama {
    pub fn in_oasis(x: usize, z: usize, grid_size: usize) -> (inside: bool)
        ensures
            inside == oasis(x as int, z as int, grid_size as int),
    {
        x >= 8 && x <= 10 && grid_size >= 2 && z <= grid_size - 2 && (grid_size < 4 || z
            >= grid_size - 4)
    }

    pub fn in_lava_pond_a(x: usize, z: usize) -> (inside: bool)
        ensures
            inside == lava_pond_a(x as int, z as int),
    {
        x >= 2 && x <= 4 && z >= 2 && z <= 4
    }

    pub fn in_lava_pond_b(x: usize, z: usize) -> (inside: bool)
        ensures
            inside == lava_pond_b(x as int, z as int),
    {
        x >= 1 && x <= 3 && z >= 4 && z <= 5
    }

    pub fn in_lava_pond_c(x: usize, z: usize, grid_size: usize) -> (inside: bool)
        ensures
            inside == lava_pond_c(x as int, z as int, grid_size as int),
    {
        x >= 2 && x <= 4 && grid_size >= 2 && z <= grid_size - 2 && (grid_size < 4 || z
            >= grid_size - 4)
    }

    pub fn in_any_lava_pond(x: usize, z: usize, grid_size: usize) -> (inside: bool)
        ensures
            inside == any_lava_pond(x as int, z as int, grid_size as int),
    {
        Self::in_lava_pond_a(x, z) || Self::in_lava_pond_b(x, z) || Self::in_lava_pond_c(
            x,
            z,
            grid_size,
        )
    }

    /// Height of one column.
    pub fn terrain_height(x: usize, z: usize, grid_size: usize) -> (height: usize)
        ensures
            height == column_height(x as int, z as int, grid_size as int),
    {
        if x < 6 {
            if x == 0 || z == 0 {
                6
            } else if x == 1 || z == 1 {
                5
            } else if x == 2 || z == 2 {
                4
            } else {
                3
            }
        } else if x < 12 {
            if Self::in_oasis(x, z, grid_size) {
                2
            } else {
                3
            }
        } else if x == 12 || x == 13 {
            3
        } else {
            let base: usize = 4 + x % 2;
            let dx: usize = if x >= CORNER_X {
                x - CORNER_X
            } else {
                CORNER_X - x
            };
            let dz: usize = if z >= CORNER_Z {
                z - CORNER_Z
            } else {
                CORNER_Z - z
            };
            proof {
                let ix = x as int - CORNER_X as int;
                let iz = z as int - CORNER_Z as int;
                assert(ix * ix == dx * dx) by (nonlinear_arith)
                    requires
                        ix == dx || ix == -dx,
                ;
                assert(iz * iz == dz * dz) by (nonlinear_arith)
                    requires
                        iz == dz || iz == -dz,
                ;
                assert((x + 2 * z) % 2 == x % 2);
            }
            if dx > 5 || dz > 5 {
                proof {
                    assert(dx * dx + dz * dz >= 36) by (nonlinear_arith)
                        requires
                            dx > 5 || dz > 5,
                            dx >= 0,
                            dz >= 0,
                    ;
                }
                base
            } else {
                assert(dx * dx <= 25 && dz * dz <= 25) by (nonlinear_arith)
                    requires
                        dx <= 5,
                        dz <= 5,
                ;
                let d2: usize = dx * dx + dz * dz;
                if 4 * d2 < 25 {
                    base + 2
                } else if 4 * d2 < 121 {
                    base + 1
                } else {
                    base
                }
            }
        }
    }

    /// Builds the height map of a square grid.
    pub fn generate_terrain_heights(grid_size: usize) -> (heights: Vec<Vec<usize>>)
        ensures
            is_height_map(heights@, grid_size as int),
    {
        let mut heights: Vec<Vec<usize>> = Vec::new();
        let mut z: usize = 0;
        while z < grid_size
            invariant
                z <= grid_size,
                heights.len() == z,
                forall|k: int| 0 <= k < z ==> (#[trigger] heights@[k]).len() == grid_size,
                forall|k: int, i: int|
                    0 <= k < z && 0 <= i < grid_size ==> #[trigger] heights@[k][i] == column_height(
                        i,
                        k,
                        grid_size as int,
                    ),
            decreases grid_size - z,
        {
            let mut row: Vec<usize> = Vec::new();
            let mut x: usize = 0;
            while x < grid_size
                invariant
                    x <= grid_size,
                    z < grid_size,
                    row.len() == x,
                    forall|i: int|
                        0 <= i < x ==> #[trigger] row@[i] == column_height(
                            i,
                            z as int,
                            grid_size as int,
                        ),
                decreases grid_size - x,
            {
                row.push(Self::terrain_height(x, z, grid_size));
                x += 1;
            }
            heights.push(row);
            z += 1;
        }
        heights
    }

    /// Material of one cube of the terrain.
    pub fn determine_material(x: usize, z: usize, y_level: usize, max_height: usize) -> (m:
        Material)
        ensures
            m == cube_material(x as int, z as int, y_level as int, max_height as int),
    {
        if x < 6 {
            if y_level == 1 {
                return Material::lava_surface();
            }
            if Self::in_any_lava_pond(x, z, GRID_SIZE) && y_level == max_height {
                return Material::lava_surface();
            }
            if x <= 2 || z <= 2 {
                let stripe: usize = (x + 2 * (z % 5) + y_level % 5) % 5;
                let speck: usize = (3 * x + z % 7) % 7;
                assert(stripe == (x + 2 * z + y_level) % 5);
                assert(speck == (3 * x + z) % 7);
                if stripe == 0 || speck == 0 {
                    return Material::obsidian_block();
                }
            }
            return Material::stone_layer();
        }
        if x < 12 {
            if (Self::in_oasis(x, z, GRID_SIZE) && y_level == 1) || y_level == 2 {
                return Material::water_surface();
            }
            if y_level == max_height {
                return Material::sand_top();
            }
            return Material::stone_layer();
        }
        if y_level == max_height {
            return Material::grass_top();
        }
        if max_height <= 1 || y_level >= max_height - 1 {
            return Material::dirt_layer();
        }
        Material::stone_layer()
    }

    /// Whether the terrain holds a cube at this level of this column.
    pub fn should_place_cube(
        x: usize,
        z: usize,
        y_level: usize,
        max_height: usize,
        grid_size: usize,
    ) -> (placed: bool)
        ensures
            placed == cube_placed(x as int, z as int, y_level as int, grid_size as int),
    {
        if x >= 6 && x < 12 && Self::in_oasis(x, z, grid_size) {
            if y_level == 1 || y_level == 2 {
                return true;
            }
            if y_level >= 2 {
                return false;
            }
        }
        true
    }
}

} // verus!
