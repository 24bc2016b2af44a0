use diorama::material::{Material, MaterialType};
use diorama::scene::OptimizedDiorama;
use diorama::terrain::{CORNER_X, CORNER_Z, GRID_SIZE};

fn tag(x: usize, z: usize, level: usize, top: usize) -> MaterialType {
    OptimizedDiorama::determine_material(x, z, level, top).material_type
}

#[test]
fn height_map_is_square() {
    let heights = OptimizedDiorama::generate_terrain_heights(GRID_SIZE);
    assert_eq!(heights.len(), 18);
    for row in &heights {
        assert_eq!(row.len(), 18);
    }
}

#[test]
fn height_map_reference_rows() {
    let heights = OptimizedDiorama::generate_terrain_heights(18);
    assert_eq!(heights[0], vec![6, 6, 6, 6, 6, 6, 3, 3, 3, 3, 3, 3, 3, 3, 4, 5, 4, 5]);
    assert_eq!(heights[12], vec![6, 5, 4, 3, 3, 3, 3, 3, 3, 3, 3, 3, 3, 3, 5, 7, 6, 7]);
    assert_eq!(heights[15], vec![6, 5, 4, 3, 3, 3, 3, 3, 2, 2, 2, 3, 3, 3, 5, 6, 5, 6]);
}

#[test]
fn height_map_agrees_with_single_columns() {
    let heights = OptimizedDiorama::generate_terrain_heights(18);
    for z in 0..18 {
        for x in 0..18 {
            assert_eq!(heights[z][x], OptimizedDiorama::terrain_height(x, z, 18));
        }
    }
}

#[test]
fn cave_walls_step_down() {
    assert_eq!(OptimizedDiorama::terrain_height(0, 9, 18), 6);
    assert_eq!(OptimizedDiorama::terrain_height(5, 0, 18), 6);
    assert_eq!(OptimizedDiorama::terrain_height(1, 9, 18), 5);
    assert_eq!(OptimizedDiorama::terrain_height(4, 1, 18), 5);
    assert_eq!(OptimizedDiorama::terrain_height(2, 9, 18), 4);
    assert_eq!(OptimizedDiorama::terrain_height(5, 2, 18), 4);
    assert_eq!(OptimizedDiorama::terrain_height(3, 3, 18), 3);
    assert_eq!(OptimizedDiorama::terrain_height(5, 17, 18), 3);
}

#[test]
fn oasis_is_sunken() {
    for z in 14..=16 {
        for x in 8..=10 {
            assert_eq!(OptimizedDiorama::terrain_height(x, z, 18), 2);
        }
    }
    assert_eq!(OptimizedDiorama::terrain_height(7, 15, 18), 3);
    assert_eq!(OptimizedDiorama::terrain_height(11, 15, 18), 3);
    assert_eq!(OptimizedDiorama::terrain_height(9, 13, 18), 3);
    assert_eq!(OptimizedDiorama::terrain_height(9, 17, 18), 3);
}

#[test]
fn oasis_moves_with_the_grid() {
    assert!(OptimizedDiorama::in_oasis(9, 14, 18));
    assert!(OptimizedDiorama::in_oasis(9, 16, 18));
    assert!(!OptimizedDiorama::in_oasis(9, 17, 18));
    assert!(!OptimizedDiorama::in_oasis(9, 13, 18));
    assert!(!OptimizedDiorama::in_oasis(7, 15, 18));
    assert!(!OptimizedDiorama::in_oasis(11, 15, 18));
    assert!(OptimizedDiorama::in_oasis(8, 16, 20));
    assert!(OptimizedDiorama::in_oasis(10, 18, 20));
    assert!(!OptimizedDiorama::in_oasis(10, 15, 20));
    assert!(OptimizedDiorama::in_oasis(9, 0, 2));
    assert!(OptimizedDiorama::in_oasis(9, 0, 3));
    assert!(OptimizedDiorama::in_oasis(9, 1, 3));
    assert!(!OptimizedDiorama::in_oasis(9, 2, 3));
    assert!(!OptimizedDiorama::in_oasis(9, 0, 1));
    assert!(!OptimizedDiorama::in_oasis(9, 0, 0));
    assert_eq!(OptimizedDiorama::terrain_height(9, 17, 20), 2);
}

#[test]
fn forest_rises_towards_the_corner() {
    assert_eq!((CORNER_X, CORNER_Z), (17, 12));
    assert_eq!(OptimizedDiorama::terrain_height(12, 12, 18), 3);
    assert_eq!(OptimizedDiorama::terrain_height(13, 12, 18), 3);
    // Odd columns stand one higher; the mound adds 2 within 2.5 columns
    // of the corner and 1 within 5.5.
    assert_eq!(OptimizedDiorama::terrain_height(17, 12, 18), 7);
    assert_eq!(OptimizedDiorama::terrain_height(15, 12, 18), 7);
    assert_eq!(OptimizedDiorama::terrain_height(16, 12, 18), 6);
    assert_eq!(OptimizedDiorama::terrain_height(14, 12, 18), 5);
    assert_eq!(OptimizedDiorama::terrain_height(17, 14, 18), 7);
    assert_eq!(OptimizedDiorama::terrain_height(17, 15, 18), 6);
    assert_eq!(OptimizedDiorama::terrain_height(17, 17, 18), 6);
    assert_eq!(OptimizedDiorama::terrain_height(16, 10, 18), 6);
    assert_eq!(OptimizedDiorama::terrain_height(17, 6, 18), 5);
    assert_eq!(OptimizedDiorama::terrain_height(14, 0, 18), 4);
    assert_eq!(OptimizedDiorama::terrain_height(15, 0, 18), 5);
}

#[test]
fn heights_of_far_columns_do_not_overflow() {
    assert_eq!(OptimizedDiorama::terrain_height(usize::MAX, usize::MAX, usize::MAX), 5);
    assert_eq!(OptimizedDiorama::terrain_height(usize::MAX - 1, 0, usize::MAX), 4);
    assert_eq!(OptimizedDiorama::terrain_height(0, usize::MAX, usize::MAX), 6);
    assert_eq!(OptimizedDiorama::terrain_height(9, usize::MAX - 2, usize::MAX), 2);
    assert_eq!(OptimizedDiorama::terrain_height(9, usize::MAX, usize::MAX), 3);
}

#[test]
fn small_grids_have_height_maps() {
    assert_eq!(OptimizedDiorama::generate_terrain_heights(0), Vec::<Vec<usize>>::new());
    assert_eq!(OptimizedDiorama::generate_terrain_heights(1), vec![vec![6]]);
    assert_eq!(
        OptimizedDiorama::generate_terrain_heights(4),
        vec![vec![6, 6, 6, 6], vec![6, 5, 5, 5], vec![6, 5, 4, 4], vec![6, 5, 4, 3]]
    );
}

#[test]
fn lava_ponds_are_three_rectangles() {
    assert!(OptimizedDiorama::in_lava_pond_a(2, 2));
    assert!(OptimizedDiorama::in_lava_pond_a(4, 4));
    assert!(!OptimizedDiorama::in_lava_pond_a(1, 3));
    assert!(!OptimizedDiorama::in_lava_pond_a(3, 5));
    assert!(OptimizedDiorama::in_lava_pond_b(1, 4));
    assert!(OptimizedDiorama::in_lava_pond_b(3, 5));
    assert!(!OptimizedDiorama::in_lava_pond_b(3, 6));
    assert!(!OptimizedDiorama::in_lava_pond_b(0, 4));
    assert!(!OptimizedDiorama::in_lava_pond_b(4, 4));
    assert!(OptimizedDiorama::in_lava_pond_c(2, 14, 18));
    assert!(OptimizedDiorama::in_lava_pond_c(4, 16, 18));
    assert!(!OptimizedDiorama::in_lava_pond_c(4, 17, 18));
    assert!(!OptimizedDiorama::in_lava_pond_c(5, 15, 18));
    assert!(OptimizedDiorama::in_any_lava_pond(1, 5, 18));
    assert!(OptimizedDiorama::in_any_lava_pond(3, 3, 18));
    assert!(OptimizedDiorama::in_any_lava_pond(3, 15, 18));
    assert!(!OptimizedDiorama::in_any_lava_pond(3, 10, 18));
    assert!(!OptimizedDiorama::in_any_lava_pond(0, 0, 18));
}

#[test]
fn cave_materials() {
    assert_eq!(tag(3, 9, 1, 3), MaterialType::Lava);
    assert_eq!(tag(0, 0, 1, 6), MaterialType::Lava);
    // The top of a pond column.
    assert_eq!(tag(3, 3, 3, 3), MaterialType::Lava);
    assert_eq!(tag(3, 15, 3, 3), MaterialType::Lava);
    assert_eq!(tag(3, 3, 2, 3), MaterialType::Stone);
    // Accents: (x + 2z + level) divisible by 5, or (3x + z) by 7.
    assert_eq!(tag(0, 0, 0, 6), MaterialType::Obsidian);
    assert_eq!(tag(1, 0, 4, 6), MaterialType::Obsidian);
    assert_eq!(tag(1, 0, 0, 6), MaterialType::Stone);
    assert_eq!(tag(2, 1, 5, 5), MaterialType::Obsidian);
    assert_eq!(tag(3, 7, 0, 3), MaterialType::Stone);
    assert_eq!(tag(5, 2, 0, 4), MaterialType::Stone);
    assert_eq!(tag(5, 2, 6, 4), MaterialType::Obsidian);
    assert_eq!(tag(4, 9, 0, 3), MaterialType::Stone);
    assert_eq!(tag(4, 9, 3, 3), MaterialType::Stone);
}

#[test]
fn desert_materials() {
    assert_eq!(tag(7, 3, 3, 3), MaterialType::Sand);
    assert_eq!(tag(7, 3, 2, 3), MaterialType::Water);
    assert_eq!(tag(7, 3, 1, 3), MaterialType::Stone);
    assert_eq!(tag(7, 3, 0, 3), MaterialType::Stone);
    assert_eq!(tag(9, 15, 2, 2), MaterialType::Water);
    assert_eq!(tag(9, 15, 1, 2), MaterialType::Water);
    assert_eq!(tag(9, 15, 0, 2), MaterialType::Stone);
    assert_eq!(tag(11, 15, 1, 3), MaterialType::Stone);
}

#[test]
fn forest_materials() {
    assert_eq!(tag(15, 12, 7, 7), MaterialType::Grass);
    assert_eq!(tag(15, 12, 6, 7), MaterialType::Dirt);
    assert_eq!(tag(15, 12, 5, 7), MaterialType::Stone);
    assert_eq!(tag(15, 12, 0, 7), MaterialType::Stone);
    assert_eq!(tag(12, 0, 3, 3), MaterialType::Grass);
    assert_eq!(tag(12, 0, 2, 3), MaterialType::Dirt);
    assert_eq!(tag(12, 0, 1, 3), MaterialType::Stone);
    // Above the top, and on columns without height.
    assert_eq!(tag(12, 0, 9, 3), MaterialType::Dirt);
    assert_eq!(tag(12, 0, 0, 0), MaterialType::Grass);
    assert_eq!(tag(12, 0, 3, 0), MaterialType::Dirt);
    assert_eq!(tag(12, 0, 0, 1), MaterialType::Dirt);
}

#[test]
fn materials_of_far_cells_do_not_overflow() {
    assert_eq!(tag(2, usize::MAX - usize::MAX % 35, usize::MAX - usize::MAX % 35, 3), MaterialType::Stone);
    assert_eq!(tag(2, usize::MAX - usize::MAX % 35 + 1, usize::MAX - usize::MAX % 35, 3), MaterialType::Obsidian);
    assert_eq!(tag(1, 5, 9, 3), MaterialType::Obsidian);
    assert_eq!(tag(1, 5, 8, 3), MaterialType::Stone);
    assert_eq!(tag(usize::MAX, usize::MAX, usize::MAX, usize::MAX), MaterialType::Grass);
    assert_eq!(tag(usize::MAX, 0, usize::MAX - 1, usize::MAX), MaterialType::Dirt);
    assert_eq!(tag(usize::MAX, 0, usize::MAX - 2, usize::MAX), MaterialType::Stone);
}

#[test]
fn terrain_materials_are_the_presets() {
    let lava = OptimizedDiorama::determine_material(3, 9, 1, 3);
    let preset = Material::lava_surface();
    assert_eq!(lava.specular, preset.specular);
    assert_eq!(lava.albedo, preset.albedo);
    assert_eq!(lava.diffuse, preset.diffuse);
    let water = OptimizedDiorama::determine_material(9, 15, 1, 2);
    assert_eq!(water.refractive_index, 133);
    assert_eq!(water.specular, 10000);
}

#[test]
fn oasis_is_capped_at_level_two() {
    assert!(OptimizedDiorama::should_place_cube(9, 15, 0, 2, 18));
    assert!(OptimizedDiorama::should_place_cube(9, 15, 1, 2, 18));
    assert!(OptimizedDiorama::should_place_cube(9, 15, 2, 2, 18));
    assert!(!OptimizedDiorama::should_place_cube(9, 15, 3, 5, 18));
    assert!(!OptimizedDiorama::should_place_cube(10, 16, 9, 9, 18));
    assert!(OptimizedDiorama::should_place_cube(9, 13, 3, 3, 18));
    assert!(OptimizedDiorama::should_place_cube(7, 15, 3, 3, 18));
    assert!(OptimizedDiorama::should_place_cube(3, 3, 3, 3, 18));
    assert!(OptimizedDiorama::should_place_cube(15, 15, 6, 6, 18));
    assert!(OptimizedDiorama::should_place_cube(9, 15, 3, 3, 30));
    assert!(!OptimizedDiorama::should_place_cube(9, 27, 3, 3, 30));
}
