//! Verified core of a ray tracer that draws a diorama of cubes.
//!
//! The library holds whatever is decided rather than calculated: the scene
//! on its grid (`terrain`, `scene`, `placement`, `bounds`), the materials
//! and the plan for shading a hit (`material`, `shading`), the tests of a
//! ray against boxes and planes and the choice among the hits (`slab`,
//! `hit`, `axis`), textures and the sky (`texture`, `decode`, `skybox`), and
//! the image with its counters (`color`, `framebuffer`, `stats`).
//!
//! Arithmetic on directions, distances and light is single-precision
//! arithmetic and is left to the program that draws. Such numbers cross
//! the border as their bit patterns, which the library compares exactly as
//! the numbers compare (`single`); optical quantities of materials are
//! counted in hundredths.

pub mod axis;
pub mod bounds;
pub mod color;
pub mod decode;
pub mod framebuffer;
pub mod hit;
pub mod material;
pub mod placement;
pub mod scene;
pub mod shading;
pub mod single;
pub mod slab;
pub mod skybox;
pub mod stats;
pub mod terrain;
pub mod texture;
