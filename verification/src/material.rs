//! Surface materials.
//!
//! Every scalar optical quantity is a fixed-point number counted in
//! hundredths: a specular exponent of 15 is stored as `1500`, a refractive
//! index of 1.33 as `133`, and a weight of 0.85 as `85`.

use crate::color::Color;
use vstd::prelude::*;

verus! {

/// The closed set of material tags. Every per-material rule of the renderer
/// is a table over this type.
#[derive(Debug, Clone, Copy, PartialEq, Eq, Structural)]
pub enum MaterialType {
    Grass,
    Dirt,
    Stone,
    Water,
    Lava,
    Wood,
    Glass,
    Metal,
    Obsidian,
    Sand,
    Leaves,
    Crystal,
    Cactus,
}

impl MaterialType {
    /// Share of the base colour that a surface shows without any light, in hundredths.
    pub open spec fn spec_ambient_strength(self) -> u32 {
        match self {
            MaterialType::Grass => 50,
            MaterialType::Stone => 25,
            MaterialType::Dirt => 35,
            MaterialType::Water => 15,
            MaterialType::Lava => 80,
            MaterialType::Sand => 45,
            MaterialType::Leaves => 55,
            MaterialType::Obsidian => 20,
            _ => 30,
        }
    }

    #[verifier::when_used_as_spec(spec_ambient_strength)]
    pub fn ambient_strength(self) -> (strength: u32)
        ensures
            strength == self.spec_ambient_strength(),
    {
        match self {
            MaterialType::Grass => 50,
            MaterialType::Stone => 25,
            MaterialType::Dirt => 35,
            MaterialType::Water => 15,
            MaterialType::Lava => 80,
            MaterialType::Sand => 45,
            MaterialType::Leaves => 55,
            MaterialType::Obsidian => 20,
            _ => 30,
        }
    }

    /// Factor applied to every direct light contribution, in hundredths.
    pub open spec fn spec_surface_multiplier(self) -> u32 {
        match self {
            MaterialType::Grass => 140,
            MaterialType::Stone => 80,
            MaterialType::Dirt => 100,
            MaterialType::Water => 200,
            MaterialType::Lava => 30,
            MaterialType::Sand => 120,
            MaterialType::Leaves => 160,
            MaterialType::Obsidian => 110,
            _ => 100,
        }
    }

    #[verifier::when_used_as_spec(spec_surface_multiplier)]
    pub fn surface_multiplier(self) -> (factor: u32)
        ensures
            factor == self.spec_surface_multiplier(),
    {
        match self {
            MaterialType::Grass => 140,
            MaterialType::Stone => 80,
            MaterialType::Dirt => 100,
            MaterialType::Water => 200,
            MaterialType::Lava => 30,
            MaterialType::Sand => 120,
            MaterialType::Leaves => 160,
            MaterialType::Obsidian => 110,
            _ => 100,
        }
    }
}

/// Optical properties of a surface.
#[derive(Debug, Clone, Copy)]
pub struct Material {
    /// Flat colour, used where no texture applies.
    pub diffuse: Color,
    /// Specular exponent, in hundredths.
    pub specular: u32,
    /// `[diffuse_weight, transmit_weight]`, each in hundredths. The two are
    /// used independently and need not add up to one.
    pub albedo: [u32; 2],
    /// Refractive index, in hundredths.
    pub refractive_index: u32,
    /// Whether the surface is drawn with the texture of its tag.
    pub has_texture: bool,
    pub material_type: MaterialType,
}

/// Two materials compare equal when tag and flat colour agree; the scalar
/// properties take no part.
impl PartialEq for Material {
    fn eq(&self, other: &Self) -> (equal: bool) {
        self.material_type == other.material_type && self.diffuse == other.diffuse
    }
}

impl vstd::std_specs::cmp::PartialEqSpecImpl for Material {
    open spec fn obeys_eq_spec() -> bool {
        true
    }

    open spec fn eq_spec(&self, other: &Self) -> bool {
        self.material_type == other.material_type && self.diffuse == other.diffuse
    }
}

impl Material {
    /// The material every preset is built from: the given colour and tag,
    /// fully diffuse, no highlight, refractive index one.
    pub open spec fn plain(
        diffuse: Color,
        has_texture: bool,
        material_type: MaterialType,
    ) -> Material {
        Material {
            diffuse,
            specular: 0,
            albedo: [100, 0],
            refractive_index: 100,
            has_texture,
            material_type,
        }
    }

    /// A preset, spelled out field by field.
    pub open spec fn preset(
        r: u8,
        g: u8,
        b: u8,
        specular: u32,
        diffuse_weight: u32,
        transmit_weight: u32,
        refractive_index: u32,
        has_texture: bool,
        material_type: MaterialType,
    ) -> Material {
        Material {
            diffuse: Color { r, g, b },
            specular,
            albedo: [diffuse_weight, transmit_weight],
            refractive_index,
            has_texture,
            material_type,
        }
    }

    pub open spec fn spec_is_emissive(&self) -> bool {
        self.material_type == MaterialType::Lava
    }

    pub open spec fn spec_is_transparent(&self) -> bool {
        self.material_type == MaterialType::Glass || self.material_type == MaterialType::Water
    }

    pub open spec fn spec_is_reflective(&self) -> bool {
        self.specular > 5000 || self.material_type == MaterialType::Water || self.material_type
            == MaterialType::Metal || self.material_type == MaterialType::Obsidian
    }

    pub open spec fn spec_emission_intensity(&self) -> u32 {
        if self.material_type == MaterialType::Lava {
            40
        } else {
            0
        }
    }

    pub open spec fn spec_emission_color(&self) -> Color {
        if self.material_type == MaterialType::Lava {
            Color { r: 255, g: 150, b: 50 }
        } else {
            Color { r: 0, g: 0, b: 0 }
        }
    }

    /// Only lava gives off light of its own.
    #[verifier::when_used_as_spec(spec_is_emissive)]
    pub fn is_emissive(&self) -> (emissive: bool)
        ensures
            emissive == self.spec_is_emissive(),
    {
        matches!(self.material_type, MaterialType::Lava)
    }

    /// Glass and water let light through.
    #[verifier::when_used_as_spec(spec_is_transparent)]
    pub fn is_transparent(&self) -> (transparent: bool)
        ensures
            transparent == self.spec_is_transparent(),
    {
        matches!(self.material_type, MaterialType::Glass | MaterialType::Water)
    }

    /// A surface mirrors its surroundings when its specular exponent exceeds
    /// 50, or when it is water, metal or obsidian.
    #[verifier::when_used_as_spec(spec_is_reflective)]
    pub fn is_reflective(&self) -> (reflective: bool)
        ensures
            reflective == self.spec_is_reflective(),
    {
        self.specular > 5000 || matches!(
            self.material_type,
            MaterialType::Water | MaterialType::Metal | MaterialType::Obsidian
        )
    }

    /// Strength of the emitted light, in hundredths.
    #[verifier::when_used_as_spec(spec_emission_intensity)]
    pub fn emission_intensity(&self) -> (intensity: u32)
        ensures
            intensity == self.spec_emission_intensity(),
    {
        match self.material_type {
            MaterialType::Lava => 40,
            _ => 0,
        }
    }

    #[verifier::when_used_as_spec(spec_emission_color)]
    pub fn emission_color(&self) -> (color: Color)
        ensures
            color == self.spec_emission_color(),
    {
        match self.material_type {
            MaterialType::Lava => Color::new(255, 150, 50),
            _ => Color::black(),
        }
    }
}

impl Material {
    fn build(
        r: u8,
        g: u8,
        b: u8,
        specular: u32,
        diffuse_weight: u32,
        transmit_weight: u32,
        refractive_index: u32,
        has_texture: bool,
        material_type: MaterialType,
    ) -> (m: Material)
        ensures
            m == Material::preset(
                r,
                g,
                b,
                specular,
                diffuse_weight,
                transmit_weight,
                refractive_index,
                has_texture,
                material_type,
            ),
    {
        Material {
            diffuse: Color::new(r, g, b),
            specular,
            albedo: [diffuse_weight, transmit_weight],
            refractive_index,
            has_texture,
            material_type,
        }
    }

    /// An untextured stone-tagged material of the given colour.
    pub fn new(diffuse: Color) -> (m: Material)
        ensures
            m == Material::plain(diffuse, false, MaterialType::Stone),
    {
        Material {
            diffuse,
            specular: 0,
            albedo: [100, 0],
            refractive_index: 100,
            has_texture: false,
            material_type: MaterialType::Stone,
        }
    }

    /// A textured material of the given colour and tag.
    pub fn with_texture(diffuse: Color, material_type: MaterialType) -> (m: Material)
        ensures
            m == Material::plain(diffuse, true, material_type),
    {
        Material {
            diffuse,
            specular: 0,
            albedo: [100, 0],
            refractive_index: 100,
            has_texture: true,
            material_type,
        }
    }

    pub open spec fn spec_grass_top() -> Material {
        Material::preset(50, 180, 50, 800, 85, 15, 100, true, MaterialType::Grass)
    }

    /// Sunlit grass that caps the forest columns.
    #[verifier::when_used_as_spec(spec_grass_top)]
    pub fn grass_top() -> (m: Material)
        ensures
            m == Self::spec_grass_top(),
    {
        Self::build(50, 180, 50, 800, 85, 15, 100, true, MaterialType::Grass)
    }

    pub open spec fn spec_dirt_layer() -> Material {
        Material::preset(160, 100, 50, 300, 90, 10, 100, true, MaterialType::Dirt)
    }

    /// Soil directly below the grass.
    #[verifier::when_used_as_spec(spec_dirt_layer)]
    pub fn dirt_layer() -> (m: Material)
        ensures
            m == Self::spec_dirt_layer(),
    {
        Self::build(160, 100, 50, 300, 90, 10, 100, true, MaterialType::Dirt)
    }

    pub open spec fn spec_stone_layer() -> Material {
        Material::preset(90, 90, 95, 1500, 70, 30, 100, true, MaterialType::Stone)
    }

    /// Bedrock; also the fill of the cave and the roof plate.
    #[verifier::when_used_as_spec(spec_stone_layer)]
    pub fn stone_layer() -> (m: Material)
        ensures
            m == Self::spec_stone_layer(),
    {
        Self::build(90, 90, 95, 1500, 70, 30, 100, true, MaterialType::Stone)
    }

    pub open spec fn spec_water_surface() -> Material {
        Material::preset(30, 110, 220, 10000, 60, 40, 133, true, MaterialType::Water)
    }

    /// Oasis water: mirror-like and see-through.
    #[verifier::when_used_as_spec(spec_water_surface)]
    pub fn water_surface() -> (m: Material)
        ensures
            m == Self::spec_water_surface(),
    {
        Self::build(30, 110, 220, 10000, 60, 40, 133, true, MaterialType::Water)
    }

    pub open spec fn spec_lava_surface() -> Material {
        Material::preset(255, 80, 0, 1500, 80, 20, 100, true, MaterialType::Lava)
    }

    /// Glowing lava.
    #[verifier::when_used_as_spec(spec_lava_surface)]
    pub fn lava_surface() -> (m: Material)
        ensures
            m == Self::spec_lava_surface(),
    {
        Self::build(255, 80, 0, 1500, 80, 20, 100, true, MaterialType::Lava)
    }

    pub open spec fn spec_obsidian_block() -> Material {
        Material::preset(20, 18, 30, 5000, 80, 20, 100, true, MaterialType::Obsidian)
    }

    /// Dark volcanic glass; reflective by its tag.
    #[verifier::when_used_as_spec(spec_obsidian_block)]
    pub fn obsidian_block() -> (m: Material)
        ensures
            m == Self::spec_obsidian_block(),
    {
        Self::build(20, 18, 30, 5000, 80, 20, 100, true, MaterialType::Obsidian)
    }

    pub open spec fn spec_stone_wall() -> Material {
        Material::preset(105, 105, 105, 500, 90, 10, 100, true, MaterialType::Stone)
    }

    /// Dressed stone, used for the floor.
    #[verifier::when_used_as_spec(spec_stone_wall)]
    pub fn stone_wall() -> (m: Material)
        ensures
            m == Self::spec_stone_wall(),
    {
        Self::build(105, 105, 105, 500, 90, 10, 100, true, MaterialType::Stone)
    }

    pub open spec fn spec_wood_planks() -> Material {
        Material::preset(139, 90, 43, 1000, 90, 10, 100, true, MaterialType::Wood)
    }

    /// Sawn planks.
    #[verifier::when_used_as_spec(spec_wood_planks)]
    pub fn wood_planks() -> (m: Material)
        ensures
            m == Self::spec_wood_planks(),
    {
        Self::build(139, 90, 43, 1000, 90, 10, 100, true, MaterialType::Wood)
    }

    pub open spec fn spec_leaves_block() -> Material {
        Material::preset(60, 160, 70, 1000, 90, 10, 100, true, MaterialType::Leaves)
    }

    /// Tree canopy.
    #[verifier::when_used_as_spec(spec_leaves_block)]
    pub fn leaves_block() -> (m: Material)
        ensures
            m == Self::spec_leaves_block(),
    {
        Self::build(60, 160, 70, 1000, 90, 10, 100, true, MaterialType::Leaves)
    }

    pub open spec fn spec_wood_block() -> Material {
        Material::preset(140, 100, 60, 1000, 90, 10, 100, true, MaterialType::Wood)
    }

    /// Tree trunk.
    #[verifier::when_used_as_spec(spec_wood_block)]
    pub fn wood_block() -> (m: Material)
        ensures
            m == Self::spec_wood_block(),
    {
        Self::build(140, 100, 60, 1000, 90, 10, 100, true, MaterialType::Wood)
    }

    pub open spec fn spec_sand_top() -> Material {
        Material::preset(235, 220, 170, 1000, 90, 10, 100, true, MaterialType::Sand)
    }

    /// Desert sand.
    #[verifier::when_used_as_spec(spec_sand_top)]
    pub fn sand_top() -> (m: Material)
        ensures
            m == Self::spec_sand_top(),
    {
        Self::build(235, 220, 170, 1000, 90, 10, 100, true, MaterialType::Sand)
    }

    pub open spec fn spec_crystal_block() -> Material {
        Material::preset(180, 220, 255, 11000, 20, 80, 145, true, MaterialType::Crystal)
    }

    /// Pale blue crystal with a sharp highlight.
    #[verifier::when_used_as_spec(spec_crystal_block)]
    pub fn crystal_block() -> (m: Material)
        ensures
            m == Self::spec_crystal_block(),
    {
        Self::build(180, 220, 255, 11000, 20, 80, 145, true, MaterialType::Crystal)
    }

    pub open spec fn spec_clear_glass() -> Material {
        Material::preset(255, 255, 255, 12500, 10, 90, 150, false, MaterialType::Glass)
    }

    /// Untextured clear glass.
    #[verifier::when_used_as_spec(spec_clear_glass)]
    pub fn clear_glass() -> (m: Material)
        ensures
            m == Self::spec_clear_glass(),
    {
        Self::build(255, 255, 255, 12500, 10, 90, 150, false, MaterialType::Glass)
    }

    pub open spec fn spec_cactus_block() -> Material {
        Material::preset(80, 170, 80, 500, 95, 5, 100, true, MaterialType::Cactus)
    }

    /// Cactus flesh.
    #[verifier::when_used_as_spec(spec_cactus_block)]
    pub fn cactus_block() -> (m: Material)
        ensures
            m == Self::spec_cactus_block(),
    {
        Self::build(80, 170, 80, 500, 95, 5, 100, true, MaterialType::Cactus)
    }

    pub open spec fn spec_metal_surface() -> Material {
        Material::preset(192, 192, 192, 10000, 40, 60, 100, false, MaterialType::Metal)
    }

    /// Untextured polished metal.
    #[verifier::when_used_as_spec(spec_metal_surface)]
    pub fn metal_surface() -> (m: Material)
        ensures
            m == Self::spec_metal_surface(),
    {
        Self::build(192, 192, 192, 10000, 40, 60, 100, false, MaterialType::Metal)
    }
}

} // verus!
