//! Monochrome drawing surfaces and their presentation encoding.
//!
//! A surface is a fixed-size one-bit-per-pixel bitmap, sized once from
//! platform-reported geometry and never resized.  The main surface is
//! presented to the physical display by expanding every bit into a
//! fixed true-color pixel (on maps to black, off to white) and writing
//! one channel-plane's worth of the resulting byte stream into the
//! memory-mapped framebuffer region; the toolbar surface may first be
//! color-inverted, controlled by a user setting.

use vstd::prelude::*;

verus! {

/// The channel value written for a lit bit.
pub const ON_BYTE: u8 = 0;

/// The channel value written for an unlit bit.
pub const OFF_BYTE: u8 = 255;

/// One byte of the true-color stream of a surface: pixel `i / 4`,
/// channel `i % 4`.  The alpha channel is always opaque; the three
/// color channels are black for a lit bit and white for an unlit one.
pub open spec fn spec_rgba_byte(pixels: Seq<bool>, i: int) -> u8 {
    if i % 4 == 3 {
        255
    } else if pixels[i / 4] {
        ON_BYTE
    } else {
        OFF_BYTE
    }
}

/// A fixed-size monochrome drawing surface, stored row-major.
pub struct Surface {
    width: usize,
    height: usize,
    pixels: Vec<bool>,
}

impl Surface {
    /// The pixel store always covers exactly the fixed geometry.
    pub closed spec fn wf(self) -> bool {
        self.pixels@.len() == self.width * self.height
    }

    pub closed spec fn spec_width(self) -> usize {
        self.width
    }

    pub closed spec fn spec_height(self) -> usize {
        self.height
    }

    /// The bitmap, row-major: bit `y * width + x` is pixel `(x, y)`.
    pub closed spec fn spec_pixels(self) -> Seq<bool> {
        self.pixels@
    }

    /// A cleared surface of the platform-reported geometry.
    pub fn new(width: usize, height: usize) -> (r: Surface)
        requires
            width * height <= usize::MAX,
        ensures
            r.wf(),
            r.spec_width() == width,
            r.spec_height() == height,
            r.spec_pixels() == Seq::new((width * height) as nat, |i: int| false),
    {
        proof {
            assert(width * height >= 0) by (nonlinear_arith);
        }
        let total: usize = width * height;
        let mut pixels: Vec<bool> = Vec::new();
        let mut i: usize = 0;
        while i < total
            invariant
                i <= total,
                pixels@.len() == i,
                forall|j: int| 0 <= j < i ==> !pixels@[j],
            decreases total - i,
        {
            pixels.push(false);
            i = i + 1;
        }
        let r = Surface { width, height, pixels };
        proof {
            assert(r.spec_pixels() =~= Seq::new((width * height) as nat, |i: int| false));
        }
        r
    }

    /// The fixed width of the surface.
    pub fn width(&self) -> (r: usize)
        ensures
            r == self.spec_width(),
    {
        self.width
    }

    /// The fixed height of the surface.
    pub fn height(&self) -> (r: usize)
        ensures
            r == self.spec_height(),
    {
        self.height
    }

    /// Turns every pixel off, as the toolbar redraw does before drawing
    /// fresh content.
    pub fn clear(&mut self)
        requires
            old(self).wf(),
        ensures
            final(self).wf(),
            final(self).spec_width() == old(self).spec_width(),
            final(self).spec_height() == old(self).spec_height(),
            final(self).spec_pixels() == Seq::new(old(self).spec_pixels().len(), |i: int| false),
    {
        let total: usize = self.pixels.len();
        let mut i: usize = 0;
        while i < total
            invariant
                i <= total,
                self.width == old(self).width,
                self.height == old(self).height,
                self.pixels@.len() == total,
                forall|j: int| 0 <= j < i ==> !self.pixels@[j],
            decreases total - i,
        {
            self.pixels[i] = false;
            i = i + 1;
        }
        proof {
            assert(self.pixels@ =~= Seq::new(old(self).pixels@.len(), |i: int| false));
        }
    }

    /// Writes one pixel.
    pub fn set_pixel(&mut self, x: usize, y: usize, on: bool)
        requires
            old(self).wf(),
            x < old(self).spec_width(),
            y < old(self).spec_height(),
        ensures
            final(self).wf(),
            final(self).spec_width() == old(self).spec_width(),
            final(self).spec_height() == old(self).spec_height(),
            final(self).spec_pixels() == old(self).spec_pixels().update(
                y * old(self).spec_width() + x,
                on,
            ),
    {
        let total: usize = self.pixels.len();
        proof {
            assert(y * self.width + x < self.width * self.height) by (nonlinear_arith)
                requires
                    x < self.width,
                    y < self.height,
            ;
            assert(y * self.width + x < total);
        }
        let index: usize = y * self.width + x;
        self.pixels[index] = on;
    }

    /// Reads one pixel.
    pub fn get_pixel(&self, x: usize, y: usize) -> (r: bool)
        requires
            self.wf(),
            x < self.spec_width(),
            y < self.spec_height(),
        ensures
            r == self.spec_pixels()[y * self.spec_width() + x],
    {
        let total: usize = self.pixels.len();
        proof {
            assert(y * self.width + x < self.width * self.height) by (nonlinear_arith)
                requires
                    x < self.width,
                    y < self.height,
            ;
            assert(y * self.width + x < total);
        }
        let index: usize = y * self.width + x;
        self.pixels[index]
    }

    /// Flips every pixel, the optional color-inversion transform that a
    /// user setting applies to the toolbar surface before presentation.
    pub fn invert(&mut self)
        requires
            old(self).wf(),
        ensures
            final(self).wf(),
            final(self).spec_width() == old(self).spec_width(),
            final(self).spec_height() == old(self).spec_height(),
            final(self).spec_pixels() == Seq::new(
                old(self).spec_pixels().len(),
                |i: int| !old(self).spec_pixels()[i],
            ),
    {
        let total: usize = self.pixels.len();
        let mut i: usize = 0;
        while i < total
            invariant
                i <= total,
                self.width == old(self).width,
                self.height == old(self).height,
                self.pixels@.len() == total,
                total == old(self).pixels@.len(),
                forall|j: int| 0 <= j < i ==> self.pixels@[j] == !old(self).pixels@[j],
                forall|j: int| i <= j < total ==> self.pixels@[j] == old(self).pixels@[j],
            decreases total - i,
        {
            let flipped = !self.pixels[i];
            self.pixels[i] = flipped;
            i = i + 1;
        }
        proof {
            assert(self.pixels@ =~= Seq::new(
                old(self).pixels@.len(),
                |i: int| !old(self).pixels@[i],
            ));
        }
    }

    /// Expands the bitmap into the true-color byte stream that backs the
    /// physical display: four channel bytes per pixel, black for lit
    /// bits, white for unlit ones, alpha opaque.
    pub fn encode_rgba(&self) -> (r: Vec<u8>)
        requires
            self.wf(),
            4 * self.spec_pixels().len() <= usize::MAX,
        ensures
            r@.len() == 4 * self.spec_pixels().len(),
            forall|i: int| 0 <= i < r@.len() ==> r@[i] == spec_rgba_byte(self.spec_pixels(), i),
    {
        let total: usize = self.pixels.len();
        let mut bytes: Vec<u8> = Vec::new();
        let mut p: usize = 0;
        while p < total
            invariant
                p <= total,
                total == self.pixels@.len(),
                4 * total <= usize::MAX,
                self.wf(),
                bytes@.len() == 4 * p,
                forall|i: int|
                    0 <= i < bytes@.len() ==> bytes@[i] == spec_rgba_byte(self.spec_pixels(), i),
            decreases total - p,
        {
            let channel: u8 = if self.pixels[p] {
                ON_BYTE
            } else {
                OFF_BYTE
            };
            bytes.push(channel);
            bytes.push(channel);
            bytes.push(channel);
            bytes.push(255);
            p = p + 1;
        }
        bytes
    }

    /// The exact byte range that one presentation writes into the
    /// memory-mapped framebuffer region: the first channel-plane's worth
    /// (one byte per pixel) of the true-color stream.
    pub fn present_plane(&self) -> (r: Vec<u8>)
        requires
            self.wf(),
            4 * self.spec_pixels().len() <= usize::MAX,
        ensures
            r@.len() == self.spec_pixels().len(),
            forall|i: int| 0 <= i < r@.len() ==> r@[i] == spec_rgba_byte(self.spec_pixels(), i),
    {
        let mut bytes = self.encode_rgba();
        bytes.truncate(self.pixels.len());
        bytes
    }
}

} // verus!
