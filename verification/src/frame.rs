//! RGBA image buffers with an explicit row stride.
//!
//! A frame is stored row-major in one flat allocation.  Rows may be
//! padded: `stride` is the distance, in pixels, between the starts of
//! consecutive rows, and may exceed the visible `width`.  Every accessor
//! proves that it stays inside the allocation and that it reads or
//! writes exactly the addressed pixel, so a full rectification pass can
//! show that each destination pixel is written exactly once and that
//! rows are disjoint regions.

use vstd::prelude::*;

use crate::pixel::Rgba;

verus! {

/// A rectangular RGBA image with row padding allowed.
pub struct Frame {
    /// Visible pixels per row.
    pub width: usize,
    /// Number of rows.
    pub height: usize,
    /// Pixels between consecutive row starts; at least `width`.
    pub stride: usize,
    /// Flat row-major storage of `stride * height` pixels.
    pub data: Vec<Rgba>,
}

/// A pixel's position within a padded row-major layout, as an offset
/// into the flat storage.
pub open spec fn pixel_index(y: int, x: int, stride: int) -> int {
    y * stride + x
}

/// Every visible pixel of the layout falls inside the allocation.
proof fn lemma_pixel_index_in_range(y: int, x: int, width: int, height: int, stride: int)
    requires
        0 <= y < height,
        0 <= x < width,
        width <= stride,
    ensures
        0 <= pixel_index(y, x, stride) < stride * height,
{
    assert(0 <= y * stride) by (nonlinear_arith)
        requires
            0 <= y,
            0 <= stride,
    ;
    assert(y * stride + x < (y + 1) * stride) by (nonlinear_arith)
        requires
            0 <= x < stride,
    ;
    assert((y + 1) * stride <= height * stride) by (nonlinear_arith)
        requires
            y + 1 <= height,
            0 <= stride,
    ;
    assert(height * stride == stride * height) by (nonlinear_arith);
}

/// Distinct visible pixels of the layout occupy distinct offsets, so a
/// write to one pixel cannot alias another.
proof fn lemma_pixel_index_injective(
    y1: int,
    x1: int,
    y2: int,
    x2: int,
    width: int,
    stride: int,
)
    requires
        0 <= x1 < width,
        0 <= x2 < width,
        width <= stride,
        0 <= y1,
        0 <= y2,
        !(y1 == y2 && x1 == x2),
    ensures
        pixel_index(y1, x1, stride) != pixel_index(y2, x2, stride),
{
    if y1 == y2 {
        assert(y1 * stride + x1 != y2 * stride + x2);
    } else if y1 < y2 {
        lemma_row_starts_ordered(y1, x1, y2, x2, stride);
    } else {
        lemma_row_starts_ordered(y2, x2, y1, x1, stride);
    }
}

/// A pixel of an earlier row sits strictly before any pixel of a later
/// row: rows are disjoint ranges of the flat storage.
proof fn lemma_row_starts_ordered(y1: int, x1: int, y2: int, x2: int, stride: int)
    requires
        0 <= x1 < stride,
        0 <= x2,
        0 <= y1 < y2,
    ensures
        pixel_index(y1, x1, stride) < pixel_index(y2, x2, stride),
{
    assert(y1 * stride + x1 < (y1 + 1) * stride) by (nonlinear_arith)
        requires
            0 <= x1 < stride,
    ;
    assert((y1 + 1) * stride <= y2 * stride) by (nonlinear_arith)
        requires
            y1 + 1 <= y2,
            0 <= stride,
    ;
}

impl Frame {
    /// The buffer is consistent with its dimensions: rows are at least
    /// `width` pixels apart and the allocation holds exactly
    /// `stride * height` pixels.
    pub open spec fn wf(self) -> bool {
        &&& self.width <= self.stride
        &&& self.stride * self.height <= usize::MAX
        &&& self.data@.len() == self.stride * self.height
    }

    /// The pixel stored at row `y`, column `x`.
    pub open spec fn pix(self, y: int, x: int) -> Rgba
        recommends
            self.wf(),
            0 <= y < self.height,
            0 <= x < self.width,
    {
        self.data@[pixel_index(y, x, self.stride as int)]
    }

    /// Allocates a frame of the given dimensions with every pixel (and
    /// all row padding) set to the transparent zero pixel.
    pub fn new(width: usize, height: usize, stride: usize) -> (frame: Frame)
        requires
            width <= stride,
            stride * height <= usize::MAX,
        ensures
            frame.wf(),
            frame.width == width,
            frame.height == height,
            frame.stride == stride,
            forall|y: int, x: int|
                0 <= y < height && 0 <= x < width ==> frame.pix(y, x).is_zero(),
    {
        let total: usize = stride * height;
        let mut data: Vec<Rgba> = Vec::new();
        let mut i: usize = 0;
        while i < total
            invariant
                i <= total,
                data@.len() == i,
                forall|j: int| 0 <= j < i ==> data@[j].is_zero(),
            decreases total - i,
        {
            data.push(Rgba::transparent());
            i = i + 1;
        }
        let frame = Frame { width, height, stride, data };
        proof {
            assert forall|y: int, x: int|
                0 <= y < height && 0 <= x < width implies frame.pix(y, x).is_zero() by {
                lemma_pixel_index_in_range(y, x, width as int, height as int, stride as int);
            }
        }
        frame
    }

    /// Wraps an existing flat pixel buffer, accepting it exactly when it
    /// is consistent with the given dimensions.
    pub fn from_pixels(width: usize, height: usize, stride: usize, data: Vec<Rgba>) -> (r: Option<Frame>)
        ensures
            r is Some <==> (width <= stride && data@.len() == stride * height),
            r matches Some(frame) ==> {
                &&& frame.wf()
                &&& frame.width == width
                &&& frame.height == height
                &&& frame.stride == stride
                &&& frame.data@ == data@
            },
    {
        let n: usize = data.len();
        if width <= stride {
            if let Some(total) = stride.checked_mul(height) {
                if n == total {
                    return Some(Frame { width, height, stride, data });
                }
            }
        }
        None
    }

    /// Reads the pixel at row `y`, column `x`.
    pub fn get(&self, y: usize, x: usize) -> (p: Rgba)
        requires
            self.wf(),
            y < self.height,
            x < self.width,
        ensures
            p == self.pix(y as int, x as int),
    {
        proof {
            lemma_pixel_index_in_range(
                y as int,
                x as int,
                self.width as int,
                self.height as int,
                self.stride as int,
            );
        }
        let idx: usize = y * self.stride + x;
        self.data[idx]
    }

    /// Writes the pixel at row `y`, column `x`, leaving every other
    /// visible pixel (and the dimensions) unchanged.
    pub fn set(&mut self, y: usize, x: usize, p: Rgba)
        requires
            old(self).wf(),
            y < old(self).height,
            x < old(self).width,
        ensures
            final(self).wf(),
            final(self).width == old(self).width,
            final(self).height == old(self).height,
            final(self).stride == old(self).stride,
            final(self).pix(y as int, x as int) == p,
            forall|yy: int, xx: int|
                0 <= yy < old(self).height && 0 <= xx < old(self).width
                    && !(yy == y && xx == x)
                    ==> final(self).pix(yy, xx) == old(self).pix(yy, xx),
    {
        proof {
            lemma_pixel_index_in_range(
                y as int,
                x as int,
                self.width as int,
                self.height as int,
                self.stride as int,
            );
        }
        let idx: usize = y * self.stride + x;
        self.data.set(idx, p);
        proof {
            assert forall|yy: int, xx: int|
                0 <= yy < old(self).height && 0 <= xx < old(self).width
                    && !(yy == y && xx == x)
                    implies self.pix(yy, xx) == old(self).pix(yy, xx) by {
                lemma_pixel_index_in_range(
                    yy,
                    xx,
                    self.width as int,
                    self.height as int,
                    self.stride as int,
                );
                lemma_pixel_index_injective(
                    yy,
                    xx,
                    y as int,
                    x as int,
                    self.width as int,
                    self.stride as int,
                );
            }
        }
    }

    /// Gathers the four neighbouring source pixels of a bilinear
    /// footprint whose top-left corner is `(iu, iv)`: top-left,
    /// top-right, bottom-left, bottom-right.
    pub fn gather_quad(&self, iu: usize, iv: usize) -> (q: (Rgba, Rgba, Rgba, Rgba))
        requires
            self.wf(),
            iu + 1 < self.width,
            iv + 1 < self.height,
        ensures
            q.0 == self.pix(iv as int, iu as int),
            q.1 == self.pix(iv as int, iu as int + 1),
            q.2 == self.pix(iv as int + 1, iu as int),
            q.3 == self.pix(iv as int + 1, iu as int + 1),
    {
        (
            self.get(iv, iu),
            self.get(iv, iu + 1),
            self.get(iv + 1, iu),
            self.get(iv + 1, iu + 1),
        )
    }

    /// Overwrites row `y` with the given pixels, leaving every other row
    /// unchanged: rows are disjoint destination regions.
    pub fn store_row(&mut self, y: usize, row: &Vec<Rgba>)
        requires
            old(self).wf(),
            y < old(self).height,
            row@.len() == old(self).width,
        ensures
            final(self).wf(),
            final(self).width == old(self).width,
            final(self).height == old(self).height,
            final(self).stride == old(self).stride,
            forall|x: int| 0 <= x < old(self).width ==> final(self).pix(y as int, x) == row@[x],
            forall|yy: int, xx: int|
                0 <= yy < old(self).height && 0 <= xx < old(self).width && yy != y
                    ==> final(self).pix(yy, xx) == old(self).pix(yy, xx),
    {
        let mut x: usize = 0;
        while x < self.width
            invariant
                self.wf(),
                self.width == old(self).width,
                self.height == old(self).height,
                self.stride == old(self).stride,
                y < self.height,
                row@.len() == self.width,
                x <= self.width,
                forall|xx: int| 0 <= xx < x ==> self.pix(y as int, xx) == row@[xx],
                forall|yy: int, xx: int|
                    0 <= yy < self.height && 0 <= xx < self.width && yy != y
                        ==> self.pix(yy, xx) == old(self).pix(yy, xx),
            decreases self.width - x,
        {
            let p = row[x];
            self.set(y, x, p);
            x = x + 1;
        }
    }

    /// Fills the whole frame from one pixel row per destination row.
    /// Afterwards every visible pixel holds exactly the value supplied
    /// for it: a full pass writes each destination pixel exactly once.
    pub fn render_rows(&mut self, rows: &Vec<Vec<Rgba>>)
        requires
            old(self).wf(),
            rows@.len() == old(self).height,
            forall|y: int| 0 <= y < old(self).height ==> rows@[y]@.len() == old(self).width,
        ensures
            final(self).wf(),
            final(self).width == old(self).width,
            final(self).height == old(self).height,
            final(self).stride == old(self).stride,
            forall|y: int, x: int|
                0 <= y < old(self).height && 0 <= x < old(self).width
                    ==> final(self).pix(y, x) == rows@[y]@[x],
    {
        let mut y: usize = 0;
        while y < self.height
            invariant
                self.wf(),
                self.width == old(self).width,
                self.height == old(self).height,
                self.stride == old(self).stride,
                y <= self.height,
                rows@.len() == self.height,
                forall|yy: int| 0 <= yy < self.height ==> rows@[yy]@.len() == self.width,
                forall|yy: int, x: int|
                    0 <= yy < y && 0 <= x < self.width ==> self.pix(yy, x) == rows@[yy]@[x],
            decreases self.height - y,
        {
            let row = &rows[y];
            self.store_row(y, row);
            y = y + 1;
        }
    }
}

} // verus!
