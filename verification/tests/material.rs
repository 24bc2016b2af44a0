use diorama::color::Color;
use diorama::material::{Material, MaterialType};

const TAGS: [MaterialType; 13] = [
    MaterialType::Grass,
    MaterialType::Dirt,
    MaterialType::Stone,
    MaterialType::Water,
    MaterialType::Lava,
    MaterialType::Wood,
    MaterialType::Glass,
    MaterialType::Metal,
    MaterialType::Obsidian,
    MaterialType::Sand,
    MaterialType::Leaves,
    MaterialType::Crystal,
    MaterialType::Cactus,
];

fn fields(m: &Material) -> ((u8, u8, u8), u32, [u32; 2], u32, bool, MaterialType) {
    (
        (m.diffuse.r, m.diffuse.g, m.diffuse.b),
        m.specular,
        m.albedo,
        m.refractive_index,
        m.has_texture,
        m.material_type,
    )
}

#[test]
fn plain_materials() {
    let red = Color::new(200, 10, 10);
    assert_eq!(fields(&Material::new(red)), ((200, 10, 10), 0, [100, 0], 100, false, MaterialType::Stone));
    assert_eq!(
        fields(&Material::with_texture(red, MaterialType::Wood)),
        ((200, 10, 10), 0, [100, 0], 100, true, MaterialType::Wood)
    );
}

#[test]
fn terrain_presets() {
    assert_eq!(fields(&Material::grass_top()), ((50, 180, 50), 800, [85, 15], 100, true, MaterialType::Grass));
    assert_eq!(fields(&Material::dirt_layer()), ((160, 100, 50), 300, [90, 10], 100, true, MaterialType::Dirt));
    assert_eq!(fields(&Material::stone_layer()), ((90, 90, 95), 1500, [70, 30], 100, true, MaterialType::Stone));
    assert_eq!(fields(&Material::water_surface()), ((30, 110, 220), 10000, [60, 40], 133, true, MaterialType::Water));
    assert_eq!(fields(&Material::lava_surface()), ((255, 80, 0), 1500, [80, 20], 100, true, MaterialType::Lava));
    assert_eq!(fields(&Material::obsidian_block()), ((20, 18, 30), 5000, [80, 20], 100, true, MaterialType::Obsidian));
    assert_eq!(fields(&Material::sand_top()), ((235, 220, 170), 1000, [90, 10], 100, true, MaterialType::Sand));
}

#[test]
fn structure_presets() {
    assert_eq!(fields(&Material::stone_wall()), ((105, 105, 105), 500, [90, 10], 100, true, MaterialType::Stone));
    assert_eq!(fields(&Material::wood_planks()), ((139, 90, 43), 1000, [90, 10], 100, true, MaterialType::Wood));
    assert_eq!(fields(&Material::leaves_block()), ((60, 160, 70), 1000, [90, 10], 100, true, MaterialType::Leaves));
    assert_eq!(fields(&Material::wood_block()), ((140, 100, 60), 1000, [90, 10], 100, true, MaterialType::Wood));
    assert_eq!(fields(&Material::crystal_block()), ((180, 220, 255), 11000, [20, 80], 145, true, MaterialType::Crystal));
    assert_eq!(fields(&Material::clear_glass()), ((255, 255, 255), 12500, [10, 90], 150, false, MaterialType::Glass));
    assert_eq!(fields(&Material::cactus_block()), ((80, 170, 80), 500, [95, 5], 100, true, MaterialType::Cactus));
    assert_eq!(fields(&Material::metal_surface()), ((192, 192, 192), 10000, [40, 60], 100, false, MaterialType::Metal));
}

#[test]
fn hundredths_convert_to_the_decimal_values() {
    assert_eq!(Material::grass_top().albedo[0] as f32 / 100.0, 0.85f32);
    assert_eq!(Material::cactus_block().albedo[1] as f32 / 100.0, 0.05f32);
    assert_eq!(Material::water_surface().refractive_index as f32 / 100.0, 1.33f32);
    assert_eq!(Material::crystal_block().refractive_index as f32 / 100.0, 1.45f32);
    assert_eq!(Material::clear_glass().specular as f32 / 100.0, 125.0f32);
    assert_eq!(MaterialType::Dirt.ambient_strength() as f32 / 100.0, 0.35f32);
    assert_eq!(MaterialType::Leaves.surface_multiplier() as f32 / 100.0, 1.6f32);
    assert_eq!(Material::lava_surface().emission_intensity() as f32 / 100.0, 0.4f32);
}

#[test]
fn only_lava_is_emissive() {
    for tag in TAGS {
        let m = Material::with_texture(Color::new(1, 2, 3), tag);
        assert_eq!(m.is_emissive(), tag == MaterialType::Lava);
        if tag == MaterialType::Lava {
            assert_eq!(m.emission_intensity(), 40);
            assert_eq!(m.emission_color(), Color::new(255, 150, 50));
        } else {
            assert_eq!(m.emission_intensity(), 0);
            assert_eq!(m.emission_color(), Color::new(0, 0, 0));
        }
    }
    assert!(Material::lava_surface().is_emissive());
}

#[test]
fn glass_and_water_are_transparent() {
    for tag in TAGS {
        let m = Material::with_texture(Color::new(1, 2, 3), tag);
        assert_eq!(m.is_transparent(), tag == MaterialType::Glass || tag == MaterialType::Water);
    }
    assert!(Material::clear_glass().is_transparent());
    assert!(Material::water_surface().is_transparent());
    assert!(!Material::crystal_block().is_transparent());
}

#[test]
fn reflective_by_tag_or_by_highlight() {
    for tag in TAGS {
        let dull = Material::with_texture(Color::new(1, 2, 3), tag);
        let by_tag = tag == MaterialType::Water || tag == MaterialType::Metal || tag == MaterialType::Obsidian;
        assert_eq!(dull.is_reflective(), by_tag);
        let mut edge = dull;
        edge.specular = 5000;
        assert_eq!(edge.is_reflective(), by_tag);
        let mut shiny = dull;
        shiny.specular = 5001;
        assert!(shiny.is_reflective());
    }
    assert!(Material::obsidian_block().is_reflective());
    assert!(Material::crystal_block().is_reflective());
    assert!(Material::clear_glass().is_reflective());
    assert!(Material::metal_surface().is_reflective());
    assert!(Material::water_surface().is_reflective());
    assert!(!Material::stone_layer().is_reflective());
    assert!(!Material::lava_surface().is_reflective());
}

#[test]
fn ambient_strength_by_tag() {
    let expected = [50, 35, 25, 15, 80, 30, 30, 30, 20, 45, 55, 30, 30];
    for (tag, value) in TAGS.iter().zip(expected) {
        assert_eq!(tag.ambient_strength(), value, "{:?}", tag);
    }
}

#[test]
fn surface_multiplier_by_tag() {
    let expected = [140, 100, 80, 200, 30, 100, 100, 100, 110, 120, 160, 100, 100];
    for (tag, value) in TAGS.iter().zip(expected) {
        assert_eq!(tag.surface_multiplier(), value, "{:?}", tag);
    }
}

#[test]
fn materials_compare_by_tag_and_colour() {
    let mut a = Material::stone_layer();
    let b = Material::stone_layer();
    a.specular = 1;
    a.albedo = [0, 0];
    a.refractive_index = 7;
    a.has_texture = false;
    assert!(a == b);
    assert!(Material::stone_layer() != Material::stone_wall());
    assert!(Material::wood_block() != Material::wood_planks());
    let mut c = Material::stone_layer();
    c.material_type = MaterialType::Dirt;
    assert!(c != b);
    assert!(Material::new(Color::new(90, 90, 95)) == Material::stone_layer());
}
