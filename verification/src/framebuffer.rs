//! The image being drawn: one packed `0x00RRGGBB` value per pixel, row by
//! row from the top.

use crate::color::Color;
use vstd::prelude::*;

verus! {

pub struct Framebuffer {
    pub width: usize,
    pub height: usize,
    pub buffer: Vec<u32>,
    /// The colour that `point` draws with.
    pub current_color: Color,
}

impl Framebuffer {
    /// The buffer holds exactly one value per pixel.
    pub open spec fn wf(&self) -> bool {
        self.buffer@.len() == self.width * self.height
    }

    /// Whether `point` has a pixel to draw at `(x, y)`.
    pub open spec fn holds(&self, x: usize, y: usize) -> bool {
        x < self.width && y < self.height && y * self.width + x < self.buffer.len()
    }

    /// A black image of the given size; the drawing colour is white.
    pub fn new(width: usize, height: usize) -> (fb: Framebuffer)
        requires
            width * height <= usize::MAX,
        ensures
            fb.wf(),
            fb.width == width,
            fb.height == height,
            fb.buffer@ == Seq::new((width * height) as nat, |i: int| 0u32),
            fb.current_color == (Color { r: 255, g: 255, b: 255 }),
    {
        let count: usize = width * height;
        let mut buffer: Vec<u32> = Vec::new();
        let mut i: usize = 0;
        while i < count
            invariant
                i <= count,
                buffer@ == Seq::new(i as nat, |k: int| 0u32),
            decreases count - i,
        {
            buffer.push(0);
            i += 1;
        }
        Framebuffer { width, height, buffer, current_color: Color::white() }
    }

    /// Paints every pixel black. Size and drawing colour stay.
    pub fn clear(&mut self)
        ensures
            final(self).buffer@ == Seq::new(old(self).buffer@.len(), |i: int| 0u32),
            final(self).width == old(self).width,
            final(self).height == old(self).height,
            final(self).current_color == old(self).current_color,
            old(self).wf() ==> final(self).wf(),
    {
        let count: usize = self.buffer.len();
        let mut i: usize = 0;
        while i < count
            invariant
                i <= count,
                self.buffer@.len() == count,
                self.width == old(self).width,
                self.height == old(self).height,
                self.current_color == old(self).current_color,
                forall|k: int| 0 <= k < i ==> self.buffer@[k] == 0u32,
            decreases count - i,
        {
            self.buffer.set(i, 0);
            i += 1;
        }
    }

    pub fn set_current_color(&mut self, color: Color)
        ensures
            final(self).current_color == color,
            final(self).buffer@ == old(self).buffer@,
            final(self).width == old(self).width,
            final(self).height == old(self).height,
            old(self).wf() ==> final(self).wf(),
    {
        self.current_color = color;
    }

    /// Draws the pixel at column `x` of row `y` in the current colour.
    /// A point outside the image is not drawn.
    pub fn point(&mut self, x: usize, y: usize)
        ensures
            old(self).holds(x, y) ==> final(self).buffer@ == old(self).buffer@.update(
                y * old(self).width + x,
                old(self).current_color.packed() as u32,
            ),
            !old(self).holds(x, y) ==> final(self).buffer@ == old(self).buffer@,
            final(self).width == old(self).width,
            final(self).height == old(self).height,
            final(self).current_color == old(self).current_color,
            old(self).wf() ==> final(self).wf(),
    {
        if x < self.width && y < self.height {
            match y.checked_mul(self.width) {
                Some(row_start) => match row_start.checked_add(x) {
                    Some(index) => {
                        if index < self.buffer.len() {
                            let value = self.current_color.to_hex();
                            self.buffer.set(index, value);
                        }
                    },
                    None => {},
                },
                None => {},
            }
        }
    }
}

/// In a well-formed frame buffer, every point inside the image has its
/// pixel, so `point` draws exactly the points with `x < width` and
/// `y < height`.
pub proof fn lemma_point_inside_is_held(fb: Framebuffer, x: usize, y: usize)
    requires
        fb.wf(),
    ensures
        fb.holds(x, y) == (x < fb.width && y < fb.height),
{
    if x < fb.width && y < fb.height {
        assert(y * fb.width + fb.width <= fb.height * fb.width) by (nonlinear_arith)
            requires
                y + 1 <= fb.height,
                fb.width >= 0,
        ;
        assert(fb.height * fb.width == fb.width * fb.height) by (nonlinear_arith);
    }
}

} // verus!
