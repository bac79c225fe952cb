//! A CPU-side colour buffer: a row-major grid of colour vectors that
//! the cast loops fill and a display sink later consumes.

use vstd::prelude::*;

use crate::vec3::Vec3;

verus! {

pub struct CPUBuffer {
    pub data: Vec<Vec3>,
    pub width: u32,
    pub height: u32,
}

/// Whether the buffer holds one colour per pixel.
pub open spec fn spec_buf_wf(b: CPUBuffer) -> bool {
    b.data@.len() == b.width as int * b.height as int
}

/// The row-major index of pixel `(x, y)`.
pub open spec fn spec_buf_idx(width: int, x: int, y: int) -> int {
    x + y * width
}

/// Distinct in-bounds pixel coordinates have distinct row-major
/// indices.
pub proof fn lemma_buf_idx_injective(width: int, x1: int, y1: int, x2: int, y2: int)
    requires
        0 <= x1 < width,
        0 <= x2 < width,
        0 <= y1,
        0 <= y2,
        spec_buf_idx(width, x1, y1) == spec_buf_idx(width, x2, y2),
    ensures
        x1 == x2 && y1 == y2,
{
    assert(x1 == x2 && y1 == y2) by (nonlinear_arith)
        requires
            0 <= x1 < width,
            0 <= x2 < width,
            0 <= y1,
            0 <= y2,
            x1 + y1 * width == x2 + y2 * width,
    ;
}

/// An in-bounds pixel's row-major index lies inside the buffer.
pub proof fn lemma_buf_idx_bound(width: int, height: int, x: int, y: int)
    requires
        0 <= x < width,
        0 <= y < height,
    ensures
        0 <= spec_buf_idx(width, x, y) < width * height,
{
    assert(0 <= x + y * width < width * height) by (nonlinear_arith)
        requires
            0 <= x < width,
            0 <= y < height,
    ;
}

impl CPUBuffer {
    /// A black buffer of the given dimensions.
    pub fn new(width: u32, height: u32) -> (r: CPUBuffer)
        requires
            width as int * height as int <= u32::MAX,
        ensures
            r.width == width,
            r.height == height,
            spec_buf_wf(r),
            forall|q: int| 0 <= q < r.data@.len() ==> r.data@[q]@ == (0int, 0int, 0int),
    {
        proof {
            assert(width as int * height as int >= 0) by (nonlinear_arith);
        }
        let len: u32 = width * height;
        let mut data: Vec<Vec3> = Vec::new();
        let mut i: u32 = 0;
        while i < len
            invariant
                i <= len,
                data@.len() == i as int,
                forall|q: int| 0 <= q < i as int ==> data@[q]@ == (0int, 0int, 0int),
            decreases len - i,
        {
            data.push(Vec3::zero());
            i = i + 1;
        }
        CPUBuffer { data, width, height }
    }

    /// The colour at pixel `(x, y)`.
    pub fn get(&self, x: u32, y: u32) -> (r: Vec3)
        requires
            spec_buf_wf(*self),
            x < self.width,
            y < self.height,
        ensures
            r == self.data@[spec_buf_idx(self.width as int, x as int, y as int)],
    {
        let n = self.data.len();
        proof {
            lemma_buf_idx_bound(self.width as int, self.height as int, x as int, y as int);
            assert((y as int) * (self.width as int) <= spec_buf_idx(
                self.width as int,
                x as int,
                y as int,
            ));
        }
        self.data[x as usize + y as usize * self.width as usize]
    }

    /// Writes the colour at pixel `(x, y)`.
    pub fn set(&mut self, x: u32, y: u32, color: Vec3)
        requires
            spec_buf_wf(*old(self)),
            x < old(self).width,
            y < old(self).height,
        ensures
            final(self).width == old(self).width,
            final(self).height == old(self).height,
            spec_buf_wf(*final(self)),
            final(self).data@ == old(self).data@.update(
                spec_buf_idx(old(self).width as int, x as int, y as int),
                color,
            ),
    {
        let n = self.data.len();
        proof {
            lemma_buf_idx_bound(self.width as int, self.height as int, x as int, y as int);
            assert((y as int) * (self.width as int) <= spec_buf_idx(
                self.width as int,
                x as int,
                y as int,
            ));
        }
        let idx: usize = x as usize + y as usize * self.width as usize;
        self.data[idx] = color;
    }
}

} // verus!
