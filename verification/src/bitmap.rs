//! Row-major pixel buffer.
//!
//! Pixels are addressed with `y` growing upward:
//!
//! ```text
//! +ve y
//! ^
//! |
//! |
//! 0 --------> +ve x
//! ```
//!
//! Internally row `height - 1 - y` of the backing vector holds the pixels
//! of image row `y`, so the first stored row is the top of the image.

use vstd::prelude::*;

use crate::types::Size;

verus! {

/// A fixed-size image, generic in the pixel type.
#[derive(Debug)]
pub struct Bitmap<T> {
    size: Size,
    // pixels are stored in a row-major order, top row first
    data: Vec<T>,
}

impl<T: Copy> Bitmap<T> {
    /// The backing vector holds exactly one element per pixel.
    pub closed spec fn wf(self) -> bool {
        &&& self.data@.len() == self.size.width * self.size.height
        &&& self.size.width * self.size.height <= u32::MAX
    }

    pub closed spec fn spec_size(&self) -> Size {
        self.size
    }

    /// Position of pixel `(x, y)` in the backing vector.
    pub closed spec fn pos(self, x: int, y: int) -> int {
        (self.size.height - 1 - y) * self.size.width + x
    }

    /// The pixel at `(x, y)`, counting rows from the bottom.
    pub closed spec fn pixel(self, x: int, y: int) -> T {
        self.data@[self.pos(x, y)]
    }

    pub fn new(size: Size, fill: T) -> (r: Self)
        requires
            size.width * size.height <= u32::MAX,
        ensures
            r.wf(),
            r.spec_size() == size,
            forall|x: int, y: int|
                0 <= x < size.width && 0 <= y < size.height ==> r.pixel(x, y) == fill,
    {
        let area = size.area() as usize;
        let mut data: Vec<T> = Vec::new();
        let mut i: usize = 0;
        while i < area
            invariant
                i <= area,
                area == size.width * size.height,
                data@.len() == i,
                forall|k: int| 0 <= k < i ==> data@[k] == fill,
            decreases area - i,
        {
            data.push(fill);
            i = i + 1;
        }
        let r = Self { size, data };
        proof {
            assert forall|x: int, y: int|
                0 <= x < size.width && 0 <= y < size.height implies r.pixel(x, y) == fill by {
                lemma_row_major_bound(
                    size.width as int,
                    size.height as int,
                    x,
                    size.height - 1 - y,
                );
            }
        }
        r
    }

    #[verifier::when_used_as_spec(spec_size)]
    pub fn size(&self) -> (r: Size)
        ensures
            r == self.spec_size(),
    {
        self.size
    }

    pub fn width(&self) -> (r: u32)
        ensures
            r == self.spec_size().width,
    {
        self.size.width
    }

    pub fn height(&self) -> (r: u32)
        ensures
            r == self.spec_size().height,
    {
        self.size.height
    }

    pub fn get(&self, x: u32, y: u32) -> (r: T)
        requires
            self.wf(),
            x < self.spec_size().width,
            y < self.spec_size().height,
        ensures
            r == self.pixel(x as int, y as int),
    {
        proof {
            lemma_row_major_bound(
                self.size.width as int,
                self.size.height as int,
                x as int,
                self.size.height - 1 - y,
            );
        }
        self.data[Self::index(self.size.width, self.size.height, x, y)]
    }

    pub fn set(&mut self, x: u32, y: u32, color: T)
        requires
            old(self).wf(),
            x < old(self).spec_size().width,
            y < old(self).spec_size().height,
        ensures
            final(self).wf(),
            final(self).spec_size() == old(self).spec_size(),
            final(self).pixel(x as int, y as int) == color,
            forall|px: int, py: int|
                0 <= px < old(self).spec_size().width && 0 <= py < old(self).spec_size().height
                    && !(px == x && py == y) ==> final(self).pixel(px, py) == old(self).pixel(
                    px,
                    py,
                ),
    {
        proof {
            lemma_row_major_bound(
                self.size.width as int,
                self.size.height as int,
                x as int,
                self.size.height - 1 - y,
            );
        }
        let i = Self::index(self.size.width, self.size.height, x, y);
        self.data.set(i, color);
        proof {
            assert forall|px: int, py: int|
                0 <= px < self.spec_size().width && 0 <= py < self.spec_size().height
                    && !(px == x && py == y) implies self.pixel(px, py) == old(self).pixel(
                px,
                py,
            ) by {
                lemma_row_major_bound(
                    self.size.width as int,
                    self.size.height as int,
                    px,
                    self.size.height - 1 - py,
                );
                lemma_pos_injective(
                    self.size.width as int,
                    self.size.height as int,
                    px,
                    py,
                    x as int,
                    y as int,
                );
            }
        }
    }

    #[inline(always)]
    fn index(width: u32, height: u32, x: u32, y: u32) -> (r: usize)
        requires
            x < width,
            y < height,
            width * height <= u32::MAX,
        ensures
            r == (height - 1 - y) * width + x,
    {
        let row: u32 = height - y - 1;
        proof {
            lemma_row_major_bound(width as int, height as int, x as int, row as int);
        }
        (row * width + x) as usize
    }
}

/// With `x` in range and `row` a stored-row number in range, the row-major
/// position lies inside the buffer.
proof fn lemma_row_major_bound(width: int, height: int, x: int, row: int)
    by (nonlinear_arith)
    requires
        0 <= x < width,
        0 <= row < height,
    ensures
        0 <= row * width + x,
        row * width + x < width * height,
{
}

/// Distinct pixel coordinates map to distinct positions.
proof fn lemma_pos_injective(width: int, height: int, ax: int, ay: int, bx: int, by: int)
    by (nonlinear_arith)
    requires
        0 <= ax < width,
        0 <= ay < height,
        0 <= bx < width,
        0 <= by < height,
        !(ax == bx && ay == by),
    ensures
        (height - 1 - ay) * width + ax != (height - 1 - by) * width + bx,
{
}

} // verus!
