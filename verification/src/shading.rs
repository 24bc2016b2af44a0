//! The decisions of the ray caster.
//!
//! Casting a ray is a walk through three states. With no depth left, the
//! ray takes the colour of the sky. Otherwise it is traced: the nearest hit
//! is found, and a ray that strikes nothing takes the colour of the sky too.
//! A ray that strikes a surface is shaded, and shading may cast up to two
//! further rays, each with one unit of depth less.
//!
//! The arithmetic on colours and directions is left to the numeric layer.
//! What is decided here is which texture gives the base colour, which
//! constants weight the light, which lights are tested for shadow, which
//! further rays are cast, and how their colours are mixed.

use crate::color::Color;
use crate::hit::HitObject;
use crate::material::{Material, MaterialType};
use crate::single::{clamp_unit, clamped, ge, is_nan, le, less, lt, ONE, ZERO};
use crate::texture::TextureSet;
use vstd::arithmetic::power2::{lemma_pow2_pos, lemma_pow2_unfold, pow2};
use vstd::prelude::*;

verus! {

/// Depth with which the rays through the pixels start.
pub const MAX_DEPTH: u32 = 5;

/// How the colours of the further rays enter the colour of a surface.
///
/// With `kr` the reflectance of the surface, between 0 and 1, and `t` its
/// transmit weight:
/// - `Opaque`: the shaded colour alone;
/// - `Mirror`: `(1 - kr) * shaded + kr * reflected`;
/// - `Transparent`: `(1 - t) * shaded + kr * t * reflected + (1 - kr) * t * refracted`.
#[derive(Debug, Clone, Copy, PartialEq, Eq, Structural)]
pub enum Blend {
    Opaque,
    Mirror,
    Transparent,
}

/// Light that a surface gives off by itself. It adds
/// `color * intensity * 2` to the shaded colour.
#[derive(Debug, Clone, Copy, PartialEq, Eq, Structural)]
pub struct Emission {
    pub color: Color,
    /// In hundredths.
    pub intensity: u32,
}

/// Everything that shading one hit depends on, besides the geometry.
#[derive(Debug, Clone, Copy, PartialEq, Eq, Structural)]
pub struct ShadingPlan {
    /// The texture that gives the base colour, named by its tag; `None`
    /// for the flat colour of the material.
    pub texture: Option<MaterialType>,
    /// Ambient strength, in hundredths.
    pub ambient: u32,
    /// The light that the surface gives off, if any.
    pub emission: Option<Emission>,
    /// Factor on every direct light contribution, in hundredths.
    pub surface: u32,
    /// How many lights, counted from the first, are tested for shadow:
    /// the first one alone, and on water none.
    pub shadow_lights: usize,
    /// Depth of the reflected ray, if one is cast.
    pub reflect: Option<u32>,
    /// Depth of the refracted ray, if one is cast. Total internal
    /// reflection can still leave it out.
    pub refract: Option<u32>,
    pub blend: Blend,
    /// Transmit weight `t` of the material, in hundredths.
    pub transmit: u32,
}

/// A cube shows the texture of its tag if its material asks for one; glass
/// and metal never do, and neither does the floor.
pub open spec fn texture_choice(material: Material, object: HitObject) -> Option<MaterialType> {
    if object is Cube && material.has_texture && material.material_type != MaterialType::Glass
        && material.material_type != MaterialType::Metal {
        Some(material.material_type)
    } else {
        None
    }
}

pub open spec fn blend_mode(material: Material) -> Blend {
    if material.is_transparent() {
        Blend::Transparent
    } else if material.is_reflective() {
        Blend::Mirror
    } else {
        Blend::Opaque
    }
}

/// The plan for a hit on `object`, which has the given material, by a ray
/// of the given depth.
pub open spec fn shading_plan(material: Material, object: HitObject, depth: u32) -> ShadingPlan {
    ShadingPlan {
        texture: texture_choice(material, object),
        ambient: material.material_type.ambient_strength(),
        emission: if material.is_emissive() {
            Some(
                Emission {
                    color: material.emission_color(),
                    intensity: material.emission_intensity(),
                },
            )
        } else {
            None
        },
        surface: material.material_type.surface_multiplier(),
        shadow_lights: if material.material_type != MaterialType::Water {
            1
        } else {
            0
        },
        reflect: if material.is_reflective() {
            Some((depth - 1) as u32)
        } else {
            None
        },
        refract: if material.is_transparent() {
            Some((depth - 1) as u32)
        } else {
            None
        },
        blend: blend_mode(material),
        transmit: material.albedo[1],
    }
}

/// The side from which a ray meets a surface.
#[derive(Debug, Clone, Copy, PartialEq, Eq, Structural)]
pub enum Side {
    /// From outside: the ray runs against the normal.
    Entering,
    /// From inside. The refractive indices change places and the normal
    /// is turned round.
    Exiting,
}

/// A ray enters where the cosine between its direction and the normal is
/// below zero.
pub open spec fn side_of(cosine: u32) -> Side {
    if lt(cosine, ZERO) {
        Side::Entering
    } else {
        Side::Exiting
    }
}

/// Tells whether a ray enters or leaves. `cosine` is the single-precision
/// pattern of the cosine between the direction of the ray and the normal.
pub fn refraction_side(cosine: u32) -> (side: Side)
    ensures
        side == side_of(cosine),
{
    if less(cosine, ZERO) {
        Side::Entering
    } else {
        Side::Exiting
    }
}

/// Tells whether a ray is reflected back whole: the discriminant of the
/// law of refraction is below zero, and no refracted ray is cast.
pub fn is_total_reflection(discriminant: u32) -> (total: bool)
    ensures
        total == lt(discriminant, ZERO),
{
    less(discriminant, ZERO)
}

/// The reflectance that enters a blend: the approximated one, held to the
/// range from zero to one.
pub fn reflectance(approximated: u32) -> (kr: u32)
    ensures
        kr == clamped(approximated, ZERO, ONE),
        !is_nan(approximated) ==> ge(kr, ZERO) && le(kr, ONE),
        is_nan(approximated) ==> kr == approximated,
{
    clamp_unit(approximated)
}

/// Whether the ray ends at once, in the colour of the sky.
pub fn is_terminal(depth: u32) -> (terminal: bool)
    ensures
        terminal == (depth == 0),
{
    depth == 0
}

/// Draws up the plan for shading a hit. A ray without depth is never
/// shaded, so the depth is at least 1.
pub fn plan_shading(material: &Material, object: HitObject, depth: u32) -> (plan: ShadingPlan)
    requires
        depth > 0,
    ensures
        plan == shading_plan(*material, object, depth),
{
    let on_cube = match object {
        HitObject::Cube(_) => true,
        HitObject::Floor => false,
    };
    let texture = if on_cube && material.has_texture {
        match material.material_type {
            MaterialType::Glass | MaterialType::Metal => None,
            tag => Some(tag),
        }
    } else {
        None
    };
    let emission = if material.is_emissive() {
        Some(
            Emission { color: material.emission_color(), intensity: material.emission_intensity() },
        )
    } else {
        None
    };
    let shadow_lights: usize = match material.material_type {
        MaterialType::Water => 0,
        _ => 1,
    };
    let reflect = if material.is_reflective() {
        Some(depth - 1)
    } else {
        None
    };
    let refract = if material.is_transparent() {
        Some(depth - 1)
    } else {
        None
    };
    let blend = if material.is_transparent() {
        Blend::Transparent
    } else if material.is_reflective() {
        Blend::Mirror
    } else {
        Blend::Opaque
    };
    ShadingPlan {
        texture,
        ambient: material.material_type.ambient_strength(),
        emission,
        surface: material.material_type.surface_multiplier(),
        shadow_lights,
        reflect,
        refract,
        blend,
        transmit: material.albedo[1],
    }
}

/// Every texture that a plan names is in the set.
pub proof fn lemma_planned_texture_is_in_the_set(
    material: Material,
    object: HitObject,
    depth: u32,
    set: TextureSet,
)
    ensures
        shading_plan(material, object, depth).texture matches Some(tag) ==> set.spec_select(tag)
            is Some,
{
}

/// The colours that a blend mixes come from rays that the plan casts: a
/// mirror has its reflected ray, and a transparent surface its refracted
/// ray. An opaque surface casts none.
pub proof fn lemma_blend_has_its_rays(material: Material, object: HitObject, depth: u32)
    ensures
        ({
            let plan = shading_plan(material, object, depth);
            match plan.blend {
                Blend::Opaque => plan.reflect is None && plan.refract is None,
                Blend::Mirror => plan.reflect is Some && plan.refract is None,
                Blend::Transparent => plan.refract is Some,
            }
        }),
{
}

/// The calls that casting one ray gives rise to.
pub enum CastTree {
    /// The ray took the colour of the sky: it had no depth left, or it
    /// struck nothing.
    Sky,
    /// The ray struck a surface of this material and was shaded, with
    /// these further rays.
    Surface {
        material: Material,
        reflected: Option<Box<CastTree>>,
        refracted: Option<Box<CastTree>>,
    },
}

impl CastTree {
    /// The tree is one that the shading plans allow for a ray of this
    /// depth: a ray without depth is not shaded; a shaded surface casts a
    /// reflected ray exactly if it is reflective, and a refracted ray only
    /// if it is transparent; both have one unit of depth less.
    pub open spec fn follows_plans(self, depth: u32) -> bool
        decreases self,
    {
        match self {
            CastTree::Sky => true,
            CastTree::Surface { material, reflected, refracted } => {
                &&& depth > 0
                &&& match reflected {
                    Some(ray) => material.is_reflective() && ray.follows_plans((depth - 1) as u32),
                    None => !material.is_reflective(),
                }
                &&& match refracted {
                    Some(ray) => material.is_transparent() && ray.follows_plans((depth - 1) as u32),
                    None => true,
                }
            },
        }
    }

    /// Number of calls in the tree, the first one included.
    pub open spec fn calls(self) -> nat
        decreases self,
    {
        match self {
            CastTree::Sky => 1,
            CastTree::Surface { material, reflected, refracted } => 1 + (match reflected {
                Some(ray) => ray.calls(),
                None => 0,
            }) + (match refracted {
                Some(ray) => ray.calls(),
                None => 0,
            }),
        }
    }

    /// Number of calls that trace their ray against the scene: all but
    /// those that start without depth.
    pub open spec fn traced(self, depth: u32) -> nat
        decreases self,
    {
        if depth == 0 {
            0
        } else {
            match self {
                CastTree::Sky => 1,
                CastTree::Surface { material, reflected, refracted } => 1 + (match reflected {
                    Some(ray) => ray.traced((depth - 1) as u32),
                    None => 0,
                }) + (match refracted {
                    Some(ray) => ray.traced((depth - 1) as u32),
                    None => 0,
                }),
            }
        }
    }
}

/// Casting a ray of depth `depth` ends. Whatever the materials are, it
/// traces fewer than `2^depth` rays against the scene, the first one
/// included; at most `2^depth` calls start without depth and take the
/// colour of the sky at once; and so it makes fewer than `2^(depth + 1)`
/// calls in all.
pub proof fn lemma_cast_is_bounded(tree: CastTree, depth: u32)
    requires
        tree.follows_plans(depth),
    ensures
        tree.traced(depth) + 1 <= pow2(depth as nat),
        tree.traced(depth) <= tree.calls() <= tree.traced(depth) + pow2(depth as nat),
        tree.calls() + 1 <= pow2((depth + 1) as nat),
    decreases tree,
{
    lemma_pow2_pos(depth as nat);
    lemma_pow2_unfold((depth + 1) as nat);
    match tree {
        CastTree::Sky => {
            if depth > 0 {
                lemma_pow2_unfold(depth as nat);
                lemma_pow2_pos((depth - 1) as nat);
            }
        },
        CastTree::Surface { material, reflected, refracted } => {
            lemma_pow2_unfold(depth as nat);
            lemma_pow2_pos((depth - 1) as nat);
            match reflected {
                Some(ray) => {
                    lemma_cast_is_bounded(*ray, (depth - 1) as u32);
                },
                None => {},
            }
            match refracted {
                Some(ray) => {
                    lemma_cast_is_bounded(*ray, (depth - 1) as u32);
                },
                None => {},
            }
        },
    }
}

} // verus!
