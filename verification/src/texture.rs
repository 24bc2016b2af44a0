//! Textures: images of three bytes per pixel, row by row, and the
//! procedural patterns that stand in for image files.
//!
//! Every pattern is defined in whole numbers. Where a pattern mixes two
//! noise terms `a / m` and `w * b / n`, the mix is kept as a numerator over
//! the common denominator, capped at one, and a channel is a base value
//! plus the rounded-down share of its range.

use crate::color::Color;
use crate::material::MaterialType;
use vstd::prelude::*;

verus! {

/// An image: `width * height` pixels of red, green and blue bytes.
#[derive(Debug, Clone)]
pub struct Texture {
    pub width: u32,
    pub height: u32,
    pub data: Vec<u8>,
}

/// The procedural patterns.
#[derive(Debug, Clone, Copy)]
pub enum Pattern {
    Grass,
    Cactus,
    Stone,
    Dirt,
    Lava,
    Obsidian,
    Sand,
    Leaves,
    /// A single pale blue.
    Crystal,
    /// Rows fade from `top` in the first row to `bottom` in the last.
    Gradient { top: (u8, u8, u8), bottom: (u8, u8, u8) },
}

/// The textures of a scene, one for every material tag that can show one.
#[derive(Debug, Clone)]
pub struct TextureSet {
    pub grass: Texture,
    pub dirt: Texture,
    pub stone: Texture,
    pub water: Texture,
    pub lava: Texture,
    pub obsidian: Texture,
    pub sand: Texture,
    pub wood: Texture,
    pub leaves: Texture,
    pub crystal: Texture,
    pub cactus: Texture,
}

impl TextureSet {
    /// The texture that belongs to a tag. Glass and metal have none.
    pub open spec fn spec_select(&self, tag: MaterialType) -> Option<Texture> {
        match tag {
            MaterialType::Grass => Some(self.grass),
            MaterialType::Dirt => Some(self.dirt),
            MaterialType::Stone => Some(self.stone),
            MaterialType::Water => Some(self.water),
            MaterialType::Lava => Some(self.lava),
            MaterialType::Obsidian => Some(self.obsidian),
            MaterialType::Sand => Some(self.sand),
            MaterialType::Wood => Some(self.wood),
            MaterialType::Leaves => Some(self.leaves),
            MaterialType::Crystal => Some(self.crystal),
            MaterialType::Cactus => Some(self.cactus),
            MaterialType::Glass => None,
            MaterialType::Metal => None,
        }
    }

    /// Looks up the texture of a tag.
    pub fn select(&self, tag: MaterialType) -> (texture: Option<&Texture>)
        ensures
            match texture {
                Some(found) => self.spec_select(tag) == Some(*found),
                None => self.spec_select(tag) is None,
            },
    {
        match tag {
            MaterialType::Grass => Some(&self.grass),
            MaterialType::Dirt => Some(&self.dirt),
            MaterialType::Stone => Some(&self.stone),
            MaterialType::Water => Some(&self.water),
            MaterialType::Lava => Some(&self.lava),
            MaterialType::Obsidian => Some(&self.obsidian),
            MaterialType::Sand => Some(&self.sand),
            MaterialType::Wood => Some(&self.wood),
            MaterialType::Leaves => Some(&self.leaves),
            MaterialType::Crystal => Some(&self.crystal),
            MaterialType::Cactus => Some(&self.cactus),
            MaterialType::Glass => None,
            MaterialType::Metal => None,
        }
    }
}

/// Side length of the material patterns.
pub const PATTERN_SIZE: u32 = 32;

/// The colour shown where a texture has no data.
pub open spec fn missing() -> Color {
    Color { r: 255, g: 0, b: 255 }
}

/// The pixel at column `x` of row `y` in image data of the given width.
pub open spec fn pixel_of(data: Seq<u8>, width: int, x: int, y: int) -> Color {
    let i = (y * width + x) * 3;
    Color { r: data[i], g: data[i + 1], b: data[i + 2] }
}

pub open spec fn at_most(a: int, b: int) -> int {
    if a <= b {
        a
    } else {
        b
    }
}

/// `base` plus the share `part / whole` of `range`, rounded down.
pub open spec fn shade(base: int, range: int, part: int, whole: int) -> u8 {
    (base + range * part / whole) as u8
}

pub open spec fn grass_pixel(x: int, y: int) -> Color {
    let a = (x * 17 + y * 13) % 16;
    let b = (x * 7 + y * 11) % 8;
    let c = at_most(5 * a + 3 * b, 80);
    Color { r: shade(25, 35, c, 80), g: shade(160, 60, c, 80), b: shade(25, 30, c, 80) }
}

pub open spec fn cactus_pixel(x: int, y: int) -> Color {
    let stripe: int = if (x / 4) % 2 == 0 {
        18
    } else {
        28
    };
    Color { r: (40 + stripe / 2) as u8, g: (140 + stripe) as u8, b: (40 + stripe / 3) as u8 }
}

pub open spec fn stone_pixel(x: int, y: int) -> Color {
    let a = (x * 23 + y * 19) % 32;
    let b = (x * 7 + y * 13) % 16;
    let c = at_most(5 * a + 4 * b, 160);
    let gray = shade(70, 40, c, 160);
    let variation = shade(0, 15, c, 160);
    Color { r: (gray + variation) as u8, g: (gray + variation / 2) as u8, b: gray }
}

pub open spec fn dirt_pixel(x: int, y: int) -> Color {
    let a = (x * 13 + y * 17) % 24;
    let b = (x * 29 + y * 7) % 16;
    let c = at_most(4 * a + 3 * b, 96);
    Color { r: shade(140, 50, c, 96), g: shade(85, 35, c, 96), b: shade(35, 25, c, 96) }
}

/// Lava is white-hot above an intensity of 0.7, orange above 0.4, and dark
/// red below.
pub open spec fn lava_pixel(x: int, y: int) -> Color {
    let a = (x * 31 + y * 17) % 32;
    let b = (x * 13 + y * 29) % 16;
    let i = at_most(5 * a + 6 * b, 160);
    if i > 112 {
        Color { r: 255, g: 255, b: shade(150, 105, i, 160) }
    } else if i > 64 {
        Color { r: 255, g: shade(120, 135, i, 160), b: 30 }
    } else {
        Color { r: shade(180, 75, i, 160), g: 20, b: 0 }
    }
}

pub open spec fn obsidian_pixel(x: int, y: int) -> Color {
    let a = (x * 43 + y * 23) % 16;
    let b = (x * 17 + y * 31) % 8;
    let c = at_most(5 * a + 2 * b, 80);
    let tint: int = if c > 64 {
        20
    } else {
        5
    };
    Color {
        r: shade(15 + tint * 6 / 10, 25, c, 80),
        g: shade(15, 25, c, 80),
        b: shade(15 + tint, 25, c, 80),
    }
}

pub open spec fn sand_pixel(x: int, y: int) -> Color {
    let a = (x * 17 + y * 9) % 16;
    let b = (x * 5 + y * 13) % 8;
    let t = at_most(240 + 7 * a + 6 * b, 400);
    Color { r: shade(210, 40, t, 400), g: shade(190, 35, t, 400), b: shade(140, 25, t, 400) }
}

pub open spec fn leaves_pixel(x: int, y: int) -> Color {
    let n = (x * 23 + y * 31) % 32;
    Color { r: shade(30, 40, n, 32), g: shade(120, 100, n, 32), b: shade(30, 35, n, 32) }
}

/// One channel of row `y` of a gradient over `size` rows: the value that
/// lies `y / (size - 1)` of the way from `top` to `bottom`, rounded down.
pub open spec fn gradient_channel(top: u8, bottom: u8, y: int, size: int) -> u8 {
    ((top * (size - 1 - y) + bottom * y) / (size - 1)) as u8
}

pub open spec fn gradient_pixel(
    top: (u8, u8, u8),
    bottom: (u8, u8, u8),
    y: int,
    size: int,
) -> Color {
    Color {
        r: gradient_channel(top.0, bottom.0, y, size),
        g: gradient_channel(top.1, bottom.1, y, size),
        b: gradient_channel(top.2, bottom.2, y, size),
    }
}

/// The colour of a pattern at column `x` of row `y`, on a square of side `size`.
pub open spec fn pattern_pixel(pattern: Pattern, size: int, x: int, y: int) -> Color {
    match pattern {
        Pattern::Grass => grass_pixel(x, y),
        Pattern::Cactus => cactus_pixel(x, y),
        Pattern::Stone => stone_pixel(x, y),
        Pattern::Dirt => dirt_pixel(x, y),
        Pattern::Lava => lava_pixel(x, y),
        Pattern::Obsidian => obsidian_pixel(x, y),
        Pattern::Sand => sand_pixel(x, y),
        Pattern::Leaves => leaves_pixel(x, y),
        Pattern::Crystal => Color { r: 170, g: 210, b: 255 },
        Pattern::Gradient { top, bottom } => gradient_pixel(top, bottom, y, size),
    }
}

impl Texture {
    /// The data holds exactly the pixels of the image.
    pub open spec fn wf(&self) -> bool {
        self.data@.len() == self.width * self.height * 3
    }

    pub open spec fn pixel(&self, x: int, y: int) -> Color {
        pixel_of(self.data@, self.width as int, x, y)
    }

    /// The texture is the square of side `size` that shows `pattern`.
    pub open spec fn shows(&self, pattern: Pattern, size: int) -> bool {
        &&& self.width == size
        &&& self.height == size
        &&& self.wf()
        &&& forall|x: int, y: int|
            0 <= x < size && 0 <= y < size ==> #[trigger] pixel_of(
                self.data@,
                self.width as int,
                x,
                y,
            ) == pattern_pixel(pattern, size, x, y)
    }

    /// The colour at a column and a row, each held to the last one of the
    /// image; the colour for missing data where the image is empty or its
    /// data ends before that pixel.
    pub open spec fn spec_texel(&self, column: u32, row: u32) -> Color {
        if self.width == 0 || self.height == 0 {
            missing()
        } else {
            let x = at_most(column as int, self.width - 1);
            let y = at_most(row as int, self.height - 1);
            if (y * self.width + x) * 3 + 2 < self.data@.len() {
                self.pixel(x, y)
            } else {
                missing()
            }
        }
    }

    /// Reads one pixel. No column and no row, however large, reaches past
    /// the data.
    pub fn texel(&self, column: u32, row: u32) -> (color: Color)
        ensures
            color == self.spec_texel(column, row),
    {
        if self.width == 0 || self.height == 0 {
            return Color::new(255, 0, 255);
        }
        let x: u32 = if column < self.width {
            column
        } else {
            self.width - 1
        };
        let y: u32 = if row < self.height {
            row
        } else {
            self.height - 1
        };
        let width: u128 = self.width as u128;
        assert(y * width <= 0xFFFF_FFFF * 0xFFFF_FFFF) by (nonlinear_arith)
            requires
                0 <= y <= 0xFFFF_FFFF,
                0 <= width <= 0xFFFF_FFFF,
        ;
        let row_start: u128 = y as u128 * width;
        let index: u128 = (row_start + x as u128) * 3;
        if index + 2 < self.data.len() as u128 {
            let i: usize = index as usize;
            Color::new(self.data[i], self.data[i + 1], self.data[i + 2])
        } else {
            Color::new(255, 0, 255)
        }
    }

    fn pattern_color(pattern: Pattern, size: u32, x: u32, y: u32) -> (color: Color)
        requires
            2 <= size <= 4096,
            x < size,
            y < size,
        ensures
            color == pattern_pixel(pattern, size as int, x as int, y as int),
    {
        match pattern {
            Pattern::Grass => {
                let a: u32 = (x * 17 + y * 13) % 16;
                let b: u32 = (x * 7 + y * 11) % 8;
                let mix: u32 = 5 * a + 3 * b;
                let c: u32 = if mix <= 80 {
                    mix
                } else {
                    80
                };
                Color::new(
                    (25 + 35 * c / 80) as u8,
                    (160 + 60 * c / 80) as u8,
                    (25 + 30 * c / 80) as u8,
                )
            },
            Pattern::Cactus => {
                let stripe: u32 = if (x / 4) % 2 == 0 {
                    18
                } else {
                    28
                };
                Color::new((40 + stripe / 2) as u8, (140 + stripe) as u8, (40 + stripe / 3) as u8)
            },
            Pattern::Stone => {
                let a: u32 = (x * 23 + y * 19) % 32;
                let b: u32 = (x * 7 + y * 13) % 16;
                let mix: u32 = 5 * a + 4 * b;
                let c: u32 = if mix <= 160 {
                    mix
                } else {
                    160
                };
                let gray: u32 = 70 + 40 * c / 160;
                let variation: u32 = 15 * c / 160;
                Color::new((gray + variation) as u8, (gray + variation / 2) as u8, gray as u8)
            },
            Pattern::Dirt => {
                let a: u32 = (x * 13 + y * 17) % 24;
                let b: u32 = (x * 29 + y * 7) % 16;
                let mix: u32 = 4 * a + 3 * b;
                let c: u32 = if mix <= 96 {
                    mix
                } else {
                    96
                };
                Color::new(
                    (140 + 50 * c / 96) as u8,
                    (85 + 35 * c / 96) as u8,
                    (35 + 25 * c / 96) as u8,
                )
            },
            Pattern::Lava => {
                let a: u32 = (x * 31 + y * 17) % 32;
                let b: u32 = (x * 13 + y * 29) % 16;
                let mix: u32 = 5 * a + 6 * b;
                let i: u32 = if mix <= 160 {
                    mix
                } else {
                    160
                };
                if i > 112 {
                    Color::new(255, 255, (150 + 105 * i / 160) as u8)
                } else if i > 64 {
                    Color::new(255, (120 + 135 * i / 160) as u8, 30)
                } else {
                    Color::new((180 + 75 * i / 160) as u8, 20, 0)
                }
            },
            Pattern::Obsidian => {
                let a: u32 = (x * 43 + y * 23) % 16;
                let b: u32 = (x * 17 + y * 31) % 8;
                let mix: u32 = 5 * a + 2 * b;
                let c: u32 = if mix <= 80 {
                    mix
                } else {
                    80
                };
                let tint: u32 = if c > 64 {
                    20
                } else {
                    5
                };
                Color::new(
                    (15 + tint * 6 / 10 + 25 * c / 80) as u8,
                    (15 + 25 * c / 80) as u8,
                    (15 + tint + 25 * c / 80) as u8,
                )
            },
            Pattern::Sand => {
                let a: u32 = (x * 17 + y * 9) % 16;
                let b: u32 = (x * 5 + y * 13) % 8;
                let t: u32 = 240 + 7 * a + 6 * b;
                Color::new(
                    (210 + 40 * t / 400) as u8,
                    (190 + 35 * t / 400) as u8,
                    (140 + 25 * t / 400) as u8,
                )
            },
            Pattern::Leaves => {
                let n: u32 = (x * 23 + y * 31) % 32;
                Color::new(
                    (30 + 40 * n / 32) as u8,
                    (120 + 100 * n / 32) as u8,
                    (30 + 35 * n / 32) as u8,
                )
            },
            Pattern::Crystal => Color::new(170, 210, 255),
            Pattern::Gradient { top, bottom } => Color::new(
                Self::fade(top.0, bottom.0, y, size),
                Self::fade(top.1, bottom.1, y, size),
                Self::fade(top.2, bottom.2, y, size),
            ),
        }
    }

    fn fade(top: u8, bottom: u8, y: u32, size: u32) -> (value: u8)
        requires
            2 <= size <= 4096,
            y < size,
        ensures
            value == gradient_channel(top, bottom, y as int, size as int),
            top <= bottom ==> top <= value <= bottom,
            bottom <= top ==> bottom <= value <= top,
    {
        let last: u32 = size - 1;
        assert(top * (last - y) <= 255 * 4095 && bottom * y <= 255 * 4095) by (nonlinear_arith)
            requires
                top <= 255,
                bottom <= 255,
                0 <= y <= last,
                last <= 4095,
        ;
        let from_top: u32 = top as u32 * (last - y);
        let from_bottom: u32 = bottom as u32 * y;
        assert(from_top + from_bottom <= 255 * last) by (nonlinear_arith)
            requires
                from_top == top * (last - y),
                from_bottom == bottom * y,
                top <= 255,
                bottom <= 255,
                0 <= y <= last,
        ;
        assert(top <= bottom ==> top * last <= from_top + from_bottom <= bottom * last)
            by (nonlinear_arith)
            requires
                from_top == top * (last - y),
                from_bottom == bottom * y,
                0 <= y <= last,
        ;
        assert(bottom <= top ==> bottom * last <= from_top + from_bottom <= top * last)
            by (nonlinear_arith)
            requires
                from_top == top * (last - y),
                from_bottom == bottom * y,
                0 <= y <= last,
        ;
        let value: u32 = (from_top + from_bottom) / last;
        assert(value <= 255 && (top <= bottom ==> top <= value <= bottom) && (bottom <= top
            ==> bottom <= value <= top)) by (nonlinear_arith)
            requires
                value == (from_top + from_bottom) / (last as int),
                last > 0,
                from_top + from_bottom <= 255 * last,
                top <= bottom ==> top * last <= from_top + from_bottom <= bottom * last,
                bottom <= top ==> bottom * last <= from_top + from_bottom <= top * last,
        ;
        value as u8
    }

    /// Paints a pattern onto a square texture.
    pub(crate) fn paint(pattern: Pattern, size: u32) -> (texture: Texture)
        requires
            2 <= size <= 4096,
        ensures
            texture.shows(pattern, size as int),
    {
        let mut data: Vec<u8> = Vec::new();
        let mut y: u32 = 0;
        while y < size
            invariant
                2 <= size <= 4096,
                y <= size,
                data@.len() == y * size * 3,
                forall|i: int, j: int|
                    0 <= i < size && 0 <= j < y ==> #[trigger] pixel_of(data@, size as int, i, j)
                        == pattern_pixel(pattern, size as int, i, j),
            decreases size - y,
        {
            let mut x: u32 = 0;
            while x < size
                invariant
                    2 <= size <= 4096,
                    y < size,
                    x <= size,
                    data@.len() == (y * size + x) * 3,
                    forall|i: int, j: int|
                        0 <= i < size && 0 <= j < y ==> #[trigger] pixel_of(
                            data@,
                            size as int,
                            i,
                            j,
                        ) == pattern_pixel(pattern, size as int, i, j),
                    forall|i: int|
                        0 <= i < x ==> #[trigger] pixel_of(data@, size as int, i, y as int)
                            == pattern_pixel(pattern, size as int, i, y as int),
                decreases size - x,
            {
                let color = Self::pattern_color(pattern, size, x, y);
                let ghost before = data@;
                data.push(color.r);
                data.push(color.g);
                data.push(color.b);
                proof {
                    assert forall|i: int, j: int|
                        0 <= i < size && 0 <= j < y implies #[trigger] pixel_of(
                        data@,
                        size as int,
                        i,
                        j,
                    ) == pattern_pixel(pattern, size as int, i, j) by {
                        Self::lemma_pixel_index(size as int, i, j, x as int, y as int);
                        assert(pixel_of(before, size as int, i, j) == pattern_pixel(
                            pattern,
                            size as int,
                            i,
                            j,
                        ));
                    }
                    assert forall|i: int| 0 <= i < x + 1 implies #[trigger] pixel_of(
                        data@,
                        size as int,
                        i,
                        y as int,
                    ) == pattern_pixel(pattern, size as int, i, y as int) by {
                        if i < x {
                            assert(pixel_of(before, size as int, i, y as int) == pattern_pixel(
                                pattern,
                                size as int,
                                i,
                                y as int,
                            ));
                        }
                    }
                }
                x += 1;
            }
            proof {
                assert((y * size + size) * 3 == (y + 1) * size * 3) by (nonlinear_arith);
            }
            y += 1;
        }
        proof {
            assert(y * size * 3 == size * size * 3);
            assert(size * size <= 4096 * 4096) by (nonlinear_arith)
                requires
                    size <= 4096,
            ;
        }
        Texture { width: size, height: size, data }
    }

    /// A pixel of an earlier row ends before a pixel of a later row begins.
    proof fn lemma_pixel_index(size: int, i: int, j: int, x: int, y: int)
        requires
            0 <= i < size,
            0 <= j < y,
            0 <= x,
        ensures
            (j * size + i) * 3 + 2 < (y * size + x) * 3,
    {
        assert(j * size + size <= y * size) by (nonlinear_arith)
            requires
                j + 1 <= y,
                size > 0,
        ;
    }

    /// Builds the texture of a pattern at its usual size.
    pub fn from_pattern(pattern: Pattern) -> (texture: Texture)
        ensures
            texture.shows(pattern, PATTERN_SIZE as int),
    {
        Self::paint(pattern, PATTERN_SIZE)
    }

    /// The texture that was loaded, or the pattern that stands in for it
    /// where none could be loaded.
    pub fn or_pattern(loaded: Option<Texture>, pattern: Pattern) -> (texture: Texture)
        ensures
            match loaded {
                Some(image) => texture == image,
                None => texture.shows(pattern, PATTERN_SIZE as int),
            },
    {
        match loaded {
            Some(image) => image,
            None => Self::paint(pattern, PATTERN_SIZE),
        }
    }

    pub fn create_grass_texture() -> (texture: Texture)
        ensures
            texture.shows(Pattern::Grass, 32),
    {
        Self::paint(Pattern::Grass, PATTERN_SIZE)
    }

    pub fn create_cactus_texture() -> (texture: Texture)
        ensures
            texture.shows(Pattern::Cactus, 32),
    {
        Self::paint(Pattern::Cactus, PATTERN_SIZE)
    }

    pub fn create_stone_texture() -> (texture: Texture)
        ensures
            texture.shows(Pattern::Stone, 32),
    {
        Self::paint(Pattern::Stone, PATTERN_SIZE)
    }

    pub fn create_dirt_texture() -> (texture: Texture)
        ensures
            texture.shows(Pattern::Dirt, 32),
    {
        Self::paint(Pattern::Dirt, PATTERN_SIZE)
    }

    pub fn create_lava_texture() -> (texture: Texture)
        ensures
            texture.shows(Pattern::Lava, 32),
    {
        Self::paint(Pattern::Lava, PATTERN_SIZE)
    }

    pub fn create_obsidian_texture() -> (texture: Texture)
        ensures
            texture.shows(Pattern::Obsidian, 32),
    {
        Self::paint(Pattern::Obsidian, PATTERN_SIZE)
    }

    pub fn create_sand_texture() -> (texture: Texture)
        ensures
            texture.shows(Pattern::Sand, 32),
    {
        Self::paint(Pattern::Sand, PATTERN_SIZE)
    }

    pub fn create_leaves_texture() -> (texture: Texture)
        ensures
            texture.shows(Pattern::Leaves, 32),
    {
        Self::paint(Pattern::Leaves, PATTERN_SIZE)
    }
}

/// Reading a pixel of a well-formed, non-empty texture never falls back to
/// the colour for missing data: whatever the column and the row, the pixel
/// read is the one at the nearest column and row of the image.
pub proof fn lemma_texel_in_bounds(texture: Texture, column: u32, row: u32)
    requires
        texture.wf(),
        texture.width > 0,
        texture.height > 0,
    ensures
        texture.spec_texel(column, row) == texture.pixel(
            at_most(column as int, texture.width - 1),
            at_most(row as int, texture.height - 1),
        ),
        (at_most(row as int, texture.height - 1) * texture.width + at_most(
            column as int,
            texture.width - 1,
        )) * 3 + 2 < texture.data@.len(),
{
    let x = at_most(column as int, texture.width - 1);
    let y = at_most(row as int, texture.height - 1);
    let w = texture.width as int;
    let h = texture.height as int;
    assert(y * w + w <= h * w) by (nonlinear_arith)
        requires
            y + 1 <= h,
            w > 0,
    ;
    assert(w * h * 3 == h * w * 3) by (nonlinear_arith);
}

} // verus!
