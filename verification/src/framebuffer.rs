//! The render target: a row-major `width` x `height` buffer of packed
//! `0xRRGGBB` pixels.

use vstd::prelude::*;

verus! {

use crate::color::{Color, hex_of};

/// A row-major pixel buffer; the pixel at column `x`, row `y` sits at index
/// `y * width + x` and holds a packed `0xRRGGBB` value.
pub struct Framebuffer {
    width: usize,
    height: usize,
    buffer: Vec<u32>,
}

impl Framebuffer {
    /// The buffer holds exactly one packed pixel per grid cell. Every
    /// constructor establishes this and every method keeps it.
    pub closed spec fn wf(self) -> bool {
        self.buffer@.len() == self.width * self.height
    }

    pub closed spec fn spec_width(self) -> usize {
        self.width
    }

    pub closed spec fn spec_height(self) -> usize {
        self.height
    }

    /// All pixels, row-major.
    pub closed spec fn pixels(self) -> Seq<u32> {
        self.buffer@
    }

    /// The packed pixel at column `x`, row `y`.
    pub open spec fn pixel(self, x: int, y: int) -> u32 {
        self.pixels()[y * self.spec_width() + x]
    }

    /// A buffer of the given size with every pixel zeroed (black).
    pub fn new(width: usize, height: usize) -> (fb: Framebuffer)
        requires
            width * height <= usize::MAX,
        ensures
            fb.wf(),
            fb.spec_width() == width,
            fb.spec_height() == height,
            fb.pixels() == Seq::new((width * height) as nat, |i: int| 0u32),
    {
        let n = width * height;
        let mut buffer: Vec<u32> = Vec::new();
        let mut i: usize = 0;
        while i < n
            invariant
                i <= n,
                buffer@.len() == i,
                forall|j: int| 0 <= j < i ==> buffer@[j] == 0u32,
            decreases n - i,
        {
            buffer.push(0);
            i = i + 1;
        }
        let fb = Framebuffer { width, height, buffer };
        proof {
            assert(fb.pixels() =~= Seq::new((width * height) as nat, |i: int| 0u32));
        }
        fb
    }

    pub fn width(&self) -> (w: usize)
        ensures
            w == self.spec_width(),
    {
        self.width
    }

    pub fn height(&self) -> (h: usize)
        ensures
            h == self.spec_height(),
    {
        self.height
    }

    /// Zeroes every pixel; the size stays what it was.
    pub fn clear(&mut self)
        requires
            old(self).wf(),
        ensures
            final(self).wf(),
            final(self).spec_width() == old(self).spec_width(),
            final(self).spec_height() == old(self).spec_height(),
            final(self).pixels() == Seq::new(old(self).pixels().len(), |i: int| 0u32),
    {
        let n = self.buffer.len();
        let mut i: usize = 0;
        while i < n
            invariant
                i <= n,
                self.width == old(self).width,
                self.height == old(self).height,
                self.buffer@.len() == n,
                n == self.width * self.height,
                forall|j: int| 0 <= j < i ==> self.buffer@[j] == 0u32,
            decreases n - i,
        {
            self.buffer.set(i, 0);
            i = i + 1;
        }
        proof {
            assert(self.pixels() =~= Seq::new(old(self).pixels().len(), |i: int| 0u32));
        }
    }

    /// Writes one color at column `x`, row `y`, packed as `0xRRGGBB`; every
    /// other pixel keeps its value.
    pub fn set_pixel(&mut self, x: usize, y: usize, color: Color)
        requires
            old(self).wf(),
            x < old(self).spec_width(),
            y < old(self).spec_height(),
        ensures
            final(self).wf(),
            final(self).spec_width() == old(self).spec_width(),
            final(self).spec_height() == old(self).spec_height(),
            final(self).pixels() == old(self).pixels().update(
                y * old(self).spec_width() + x,
                hex_of(color) as u32,
            ),
    {
        proof {
            vstd::std_specs::vec::axiom_spec_len(&self.buffer);
            assert(0 <= y * self.width + x < self.width * self.height) by (nonlinear_arith)
                requires
                    0 <= x < self.width,
                    0 <= y < self.height,
            ;
        }
        let hex = color.to_hex();
        self.buffer.set(y * self.width + x, hex);
    }

    /// Replaces row `y` with the given packed pixels; every other row keeps
    /// its values.
    pub fn set_row(&mut self, y: usize, row: &[u32])
        requires
            old(self).wf(),
            y < old(self).spec_height(),
            row@.len() == old(self).spec_width(),
        ensures
            final(self).wf(),
            final(self).spec_width() == old(self).spec_width(),
            final(self).spec_height() == old(self).spec_height(),
            final(self).pixels().len() == old(self).pixels().len(),
            forall|i: int|
                0 <= i < old(self).pixels().len() ==> final(self).pixels()[i] == if y
                    * old(self).spec_width() <= i < (y + 1) * old(self).spec_width() {
                    row@[i - y * old(self).spec_width()]
                } else {
                    old(self).pixels()[i]
                },
    {
        proof {
            vstd::std_specs::vec::axiom_spec_len(&self.buffer);
            assert(y * self.width + self.width <= self.width * self.height) by (nonlinear_arith)
                requires
                    0 <= y < self.height,
                    0 <= self.width,
            ;
        }
        let base = y * self.width;
        let mut x: usize = 0;
        while x < self.width
            invariant
                x <= self.width,
                base == y * self.width,
                base + self.width <= self.buffer@.len(),
                self.buffer@.len() <= usize::MAX,
                self.width == old(self).width,
                self.height == old(self).height,
                row@.len() == self.width,
                self.buffer@.len() == old(self).buffer@.len(),
                forall|i: int|
                    0 <= i < self.buffer@.len() ==> self.buffer@[i] == if base <= i < base + x {
                        row@[i - base]
                    } else {
                        old(self).buffer@[i]
                    },
            decreases self.width - x,
        {
            self.buffer.set(base + x, row[x]);
            x = x + 1;
        }
        proof {
            assert((y + 1) * self.width == y * self.width + self.width) by (nonlinear_arith);
        }
    }

    /// The packed pixel at column `x`, row `y`.
    pub fn get_pixel(&self, x: usize, y: usize) -> (p: u32)
        requires
            self.wf(),
            x < self.spec_width(),
            y < self.spec_height(),
        ensures
            p == self.pixel(x as int, y as int),
    {
        proof {
            vstd::std_specs::vec::axiom_spec_len(&self.buffer);
            assert(0 <= y * self.width + x < self.width * self.height) by (nonlinear_arith)
                requires
                    0 <= x < self.width,
                    0 <= y < self.height,
            ;
        }
        self.buffer[y * self.width + x]
    }

    /// Borrows the whole buffer, row-major packed pixels.
    pub fn data(&self) -> (d: &Vec<u32>)
        ensures
            d@ == self.pixels(),
    {
        &self.buffer
    }
}

} // verus!
