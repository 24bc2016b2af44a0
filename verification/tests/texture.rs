use diorama::color::Color;
use diorama::material::MaterialType;
use diorama::texture::{Pattern, Texture, TextureSet};

fn pixel(texture: &Texture, x: u32, y: u32) -> (u8, u8, u8) {
    let i = ((y * texture.width + x) * 3) as usize;
    (texture.data[i], texture.data[i + 1], texture.data[i + 2])
}

// The patterns written with single-precision noise terms, as an image
// editor would compute them.

fn mix(a: u32, m: f32, b: u32, n: f32, weight: f32) -> f32 {
    (a as f32 / m + (b as f32 / n) * weight).clamp(0.0, 1.0)
}

fn grass_reference(x: u32, y: u32) -> (u8, u8, u8) {
    let c = mix((x * 17 + y * 13) % 16, 16.0, (x * 7 + y * 11) % 8, 8.0, 0.3);
    ((25.0 + c * 35.0) as u8, 160 + (c * 60.0) as u8, (25.0 + c * 30.0) as u8)
}

fn stone_reference(x: u32, y: u32) -> (u8, u8, u8) {
    let c = mix((x * 23 + y * 19) % 32, 32.0, (x * 7 + y * 13) % 16, 16.0, 0.4);
    let gray = (70.0 + c * 40.0) as u8;
    let variation = (c * 15.0) as u8;
    (gray + variation, gray + variation / 2, gray)
}

fn dirt_reference(x: u32, y: u32) -> (u8, u8, u8) {
    let c = mix((x * 13 + y * 17) % 24, 24.0, (x * 29 + y * 7) % 16, 16.0, 0.5);
    ((140.0 + c * 50.0) as u8, (85.0 + c * 35.0) as u8, (35.0 + c * 25.0) as u8)
}

fn lava_reference(x: u32, y: u32) -> (u8, u8, u8) {
    let i = mix((x * 31 + y * 17) % 32, 32.0, (x * 13 + y * 29) % 16, 16.0, 0.6);
    if i > 0.7 {
        (255, 255, (150.0 + i * 105.0) as u8)
    } else if i > 0.4 {
        (255, (120.0 + i * 135.0) as u8, 30)
    } else {
        ((180.0 + i * 75.0) as u8, 20, 0)
    }
}

fn obsidian_reference(x: u32, y: u32) -> (u8, u8, u8) {
    let c = mix((x * 43 + y * 23) % 16, 16.0, (x * 17 + y * 31) % 8, 8.0, 0.2);
    let base = 15.0 + c * 25.0;
    let tint = if c > 0.8 { 20.0 } else { 5.0 };
    ((base + tint * 0.6) as u8, base as u8, (base + tint) as u8)
}

fn sand_reference(x: u32, y: u32) -> (u8, u8, u8) {
    let n1 = ((x * 17 + y * 9) % 16) as f32 / 16.0;
    let n2 = ((x * 5 + y * 13) % 8) as f32 / 8.0;
    let t = (0.6 + 0.4 * (n1 * 0.7 + n2 * 0.3)).clamp(0.0, 1.0);
    ((210.0 + 40.0 * t) as u8, (190.0 + 35.0 * t) as u8, (140.0 + 25.0 * t) as u8)
}

fn leaves_reference(x: u32, y: u32) -> (u8, u8, u8) {
    let n = ((x * 23 + y * 31) % 32) as f32 / 32.0;
    ((30.0 + 40.0 * n) as u8, (120.0 + 100.0 * n) as u8, (30.0 + 35.0 * n) as u8)
}

fn assert_matches(texture: &Texture, reference: fn(u32, u32) -> (u8, u8, u8)) {
    assert_eq!(texture.width, 32);
    assert_eq!(texture.height, 32);
    assert_eq!(texture.data.len(), 32 * 32 * 3);
    for y in 0..32 {
        for x in 0..32 {
            assert_eq!(pixel(texture, x, y), reference(x, y), "pixel ({}, {})", x, y);
        }
    }
}

#[test]
fn grass_matches_single_precision_formula() {
    assert_matches(&Texture::create_grass_texture(), grass_reference);
}

#[test]
fn stone_matches_single_precision_formula() {
    assert_matches(&Texture::create_stone_texture(), stone_reference);
}

#[test]
fn dirt_matches_single_precision_formula() {
    assert_matches(&Texture::create_dirt_texture(), dirt_reference);
}

#[test]
fn obsidian_matches_single_precision_formula() {
    assert_matches(&Texture::create_obsidian_texture(), obsidian_reference);
}

#[test]
fn sand_matches_single_precision_formula() {
    assert_matches(&Texture::create_sand_texture(), sand_reference);
}

#[test]
fn leaves_match_single_precision_formula() {
    assert_matches(&Texture::create_leaves_texture(), leaves_reference);
}

#[test]
fn lava_matches_single_precision_formula_off_the_threshold() {
    let texture = Texture::create_lava_texture();
    assert_eq!(texture.data.len(), 32 * 32 * 3);
    let mut on_threshold = 0;
    for y in 0..32 {
        for x in 0..32 {
            let a = (x * 31 + y * 17) % 32;
            let b = (x * 13 + y * 29) % 16;
            if 5 * a + 6 * b == 112 {
                // An intensity of exactly 0.7 is not above 0.7.
                assert_eq!(pixel(&texture, x, y), (255, 214, 30));
                on_threshold += 1;
            } else {
                assert_eq!(pixel(&texture, x, y), lava_reference(x, y), "pixel ({}, {})", x, y);
            }
        }
    }
    assert_eq!(on_threshold, 8);
}

#[test]
fn lava_has_three_bands() {
    let texture = Texture::create_lava_texture();
    assert_eq!(pixel(&texture, 0, 0), (180, 20, 0));
    assert_eq!(pixel(&texture, 26, 2), (255, 214, 30));
    assert_eq!(pixel(&texture, 3, 7), (255, 214, 30));
    let mut dark = 0;
    let mut orange = 0;
    let mut white = 0;
    for y in 0..32 {
        for x in 0..32 {
            match pixel(&texture, x, y) {
                (_, 20, 0) => dark += 1,
                (255, _, 30) => orange += 1,
                (255, 255, _) => white += 1,
                other => panic!("unexpected lava pixel {:?}", other),
            }
        }
    }
    assert_eq!(dark + orange + white, 1024);
    assert!(dark > 0 && orange > 0 && white > 0);
}

#[test]
fn pattern_pixels_have_exact_values() {
    assert_eq!(pixel(&Texture::create_grass_texture(), 0, 0), (25, 160, 25));
    assert_eq!(pixel(&Texture::create_grass_texture(), 1, 0), (36, 179, 34));
    assert_eq!(pixel(&Texture::create_grass_texture(), 15, 1), (56, 214, 52));
    assert_eq!(pixel(&Texture::create_stone_texture(), 3, 4), (111, 105, 100));
    assert_eq!(pixel(&Texture::create_dirt_texture(), 1, 1), (158, 98, 44));
    assert_eq!(pixel(&Texture::create_obsidian_texture(), 7, 9), (49, 37, 57));
    assert_eq!(pixel(&Texture::create_sand_texture(), 31, 31), (241, 217, 159));
    assert_eq!(pixel(&Texture::create_leaves_texture(), 2, 3), (43, 154, 42));
}

#[test]
fn cactus_has_stripes_four_pixels_wide() {
    let texture = Texture::create_cactus_texture();
    assert_eq!(texture.width, 32);
    assert_eq!(texture.height, 32);
    assert_eq!(texture.data.len(), 32 * 32 * 3);
    for y in 0..32 {
        for x in 0..32 {
            let expected = if (x / 4) % 2 == 0 { (49, 158, 46) } else { (54, 168, 49) };
            assert_eq!(pixel(&texture, x, y), expected);
        }
    }
}

#[test]
fn from_pattern_builds_the_named_texture() {
    let a = Texture::from_pattern(Pattern::Stone);
    let b = Texture::create_stone_texture();
    assert_eq!(a.width, b.width);
    assert_eq!(a.height, b.height);
    assert_eq!(a.data, b.data);
    let fade = Texture::from_pattern(Pattern::Gradient { top: (0, 10, 255), bottom: (31, 10, 0) });
    assert_eq!(fade.width, 32);
    assert_eq!(pixel(&fade, 5, 0), (0, 10, 255));
    assert_eq!(pixel(&fade, 5, 31), (31, 10, 0));
    assert_eq!(pixel(&fade, 0, 7), (7, 10, 197));
}

#[test]
fn texel_reads_the_addressed_pixel() {
    let texture = Texture::create_grass_texture();
    assert_eq!(texture.texel(1, 0), Color::new(36, 179, 34));
    assert_eq!(texture.texel(15, 1), Color::new(56, 214, 52));
}

#[test]
fn texel_at_the_far_corner_stays_inside() {
    let texture = Texture::create_sand_texture();
    let last = texture.texel(31, 31);
    assert_eq!(last, Color::new(241, 217, 159));
    assert_eq!(texture.texel(32, 32), last);
    assert_eq!(texture.texel(32, 31), last);
    assert_eq!(texture.texel(31, 32), last);
    assert_eq!(texture.texel(u32::MAX, u32::MAX), last);
    assert_eq!(texture.texel(u32::MAX, 0), texture.texel(31, 0));
    assert_eq!(texture.texel(0, u32::MAX), texture.texel(0, 31));
}

#[test]
fn texel_of_an_empty_texture_is_magenta() {
    let none = Texture { width: 0, height: 0, data: vec![] };
    assert_eq!(none.texel(0, 0), Color::new(255, 0, 255));
    let flat = Texture { width: 4, height: 0, data: vec![1, 2, 3] };
    assert_eq!(flat.texel(0, 0), Color::new(255, 0, 255));
    let thin = Texture { width: 0, height: 4, data: vec![1, 2, 3] };
    assert_eq!(thin.texel(3, 3), Color::new(255, 0, 255));
}

#[test]
fn texel_past_short_data_is_magenta() {
    let texture = Texture { width: 2, height: 2, data: vec![10, 20, 30, 40, 50, 60, 70, 80] };
    assert_eq!(texture.texel(0, 0), Color::new(10, 20, 30));
    assert_eq!(texture.texel(1, 0), Color::new(40, 50, 60));
    assert_eq!(texture.texel(0, 1), Color::new(255, 0, 255));
    assert_eq!(texture.texel(1, 1), Color::new(255, 0, 255));
    assert_eq!(texture.texel(9, 9), Color::new(255, 0, 255));
}

#[test]
fn texel_of_a_huge_declared_size_does_not_overflow() {
    let texture = Texture { width: u32::MAX, height: u32::MAX, data: vec![1, 2, 3, 4, 5, 6] };
    assert_eq!(texture.texel(0, 0), Color::new(1, 2, 3));
    assert_eq!(texture.texel(1, 0), Color::new(4, 5, 6));
    assert_eq!(texture.texel(2, 0), Color::new(255, 0, 255));
    assert_eq!(texture.texel(u32::MAX, u32::MAX), Color::new(255, 0, 255));
}

#[test]
fn a_loaded_texture_is_kept() {
    let image = Texture { width: 1, height: 1, data: vec![9, 8, 7] };
    let kept = Texture::or_pattern(Some(image), Pattern::Grass);
    assert_eq!((kept.width, kept.height), (1, 1));
    assert_eq!(kept.data, vec![9, 8, 7]);
}

#[test]
fn a_missing_texture_falls_back_to_its_pattern() {
    let fallback = Texture::or_pattern(None, Pattern::Dirt);
    assert_eq!(fallback.data, Texture::create_dirt_texture().data);
    assert_eq!((fallback.width, fallback.height), (32, 32));
}

#[test]
fn crystal_pattern_is_flat() {
    let texture = Texture::from_pattern(Pattern::Crystal);
    assert_eq!((texture.width, texture.height), (32, 32));
    assert_eq!(texture.data.len(), 32 * 32 * 3);
    for y in 0..32 {
        for x in 0..32 {
            assert_eq!(pixel(&texture, x, y), (170, 210, 255));
        }
    }
}

#[test]
fn textures_are_selected_by_tag() {
    let tagged = |n: u8| Texture { width: 1, height: 1, data: vec![n, n, n] };
    let set = TextureSet {
        grass: tagged(1),
        dirt: tagged(2),
        stone: tagged(3),
        water: tagged(4),
        lava: tagged(5),
        obsidian: tagged(6),
        sand: tagged(7),
        wood: tagged(8),
        leaves: tagged(9),
        crystal: tagged(10),
        cactus: tagged(11),
    };
    let expected = [
        (MaterialType::Grass, 1),
        (MaterialType::Dirt, 2),
        (MaterialType::Stone, 3),
        (MaterialType::Water, 4),
        (MaterialType::Lava, 5),
        (MaterialType::Obsidian, 6),
        (MaterialType::Sand, 7),
        (MaterialType::Wood, 8),
        (MaterialType::Leaves, 9),
        (MaterialType::Crystal, 10),
        (MaterialType::Cactus, 11),
    ];
    for (tag, n) in expected {
        assert_eq!(set.select(tag).map(|t| t.data[0]), Some(n), "{:?}", tag);
    }
    assert!(set.select(MaterialType::Glass).is_none());
    assert!(set.select(MaterialType::Metal).is_none());
}
