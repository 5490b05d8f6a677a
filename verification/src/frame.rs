use vstd::prelude::*;
use vstd::arithmetic::div_mod::lemma_fundamental_div_mod_converse;
use crate::color::{packed, Color};

verus! {

/// A CPU-owned frame buffer: a `width * scale` by `height * scale` grid of
/// packed pixels, stored row-major. Logical pixel `(x, y)` occupies the
/// `scale * scale` block of buffer cells whose corner is
/// `(x * scale, y * scale)`.
pub struct Frame {
    pub width: u32,
    pub height: u32,
    pub scale: u32,
    pub buffer: Vec<u32>,
}

/// Does buffer cell `(sx, sy)` belong to the block of logical pixel
/// `(x, y)` at the given scale?
pub open spec fn in_block(x: u32, y: u32, scale: u32, sx: int, sy: int) -> bool {
    x * scale <= sx < (x + 1) * scale && y * scale <= sy < (y + 1) * scale
}

/// The logical pixel row or column that buffer cell row or column `s`
/// belongs to.
pub open spec fn cell_pixel(scale: u32, s: int) -> int {
    s / scale as int
}

impl Frame {
    /// Number of buffer cells per row.
    pub open spec fn row_len(self) -> int {
        self.width as int * self.scale as int
    }

    /// Number of buffer rows.
    pub open spec fn col_len(self) -> int {
        self.height as int * self.scale as int
    }

    /// The buffer index of cell `(sx, sy)`.
    pub open spec fn sidx(self, sx: int, sy: int) -> int {
        sx + sy * self.row_len()
    }

    /// The cell `(sx, sy)` of the buffer.
    pub open spec fn pix(self, sx: int, sy: int) -> u32 {
        self.buffer[self.sidx(sx, sy)]
    }

    /// Well-formedness: a positive scale, index arithmetic that fits `u32`,
    /// and a buffer of exactly the right length.
    pub open spec fn wf(self) -> bool {
        &&& self.scale >= 1
        &&& self.row_len() <= u32::MAX
        &&& self.col_len() <= u32::MAX
        &&& self.row_len() * self.col_len() <= u32::MAX
        &&& self.buffer.len() == self.row_len() * self.col_len()
    }

    /// The dimension fields of `self` and `other` agree.
    pub open spec fn same_dims(self, other: Frame) -> bool {
        &&& self.width == other.width
        &&& self.height == other.height
        &&& self.scale == other.scale
        &&& self.buffer.len() == other.buffer.len()
    }

    /// Create a frame of the given dimensions with every cell zero
    /// (opaque black).
    pub fn new(width: u32, height: u32, scale: u32) -> (f: Frame)
        requires
            scale >= 1,
            width as int * scale as int <= u32::MAX,
            height as int * scale as int <= u32::MAX,
            (width as int * scale as int) * (height as int * scale as int) <= u32::MAX,
        ensures
            f.wf(),
            f.width == width,
            f.height == height,
            f.scale == scale,
            forall|i: int| 0 <= i < f.buffer.len() ==> f.buffer[i] == 0u32,
    {
        let row: u32 = width * scale;
        let col: u32 = height * scale;
        let n: u32 = row * col;
        let mut buffer: Vec<u32> = Vec::new();
        let mut i: u32 = 0;
        while i < n
            invariant
                i <= n,
                buffer.len() == i,
                forall|j: int| 0 <= j < i ==> buffer[j] == 0u32,
            decreases n - i,
        {
            buffer.push(0u32);
            i = i + 1;
        }
        Frame { width, height, scale, buffer }
    }

    /// Reset every cell to zero (opaque black). Clearing between frames is
    /// the caller's responsibility; rendering only overwrites covered
    /// pixels.
    pub fn clear(&mut self)
        requires
            old(self).wf(),
        ensures
            final(self).wf(),
            final(self).same_dims(*old(self)),
            forall|i: int| 0 <= i < final(self).buffer.len() ==> final(self).buffer[i] == 0u32,
    {
        let n: usize = self.buffer.len();
        let mut i: usize = 0;
        while i < n
            invariant
                i <= n,
                n == self.buffer.len(),
                n == old(self).buffer.len(),
                self.width == old(self).width,
                self.height == old(self).height,
                self.scale == old(self).scale,
                forall|j: int| 0 <= j < i ==> self.buffer[j] == 0u32,
            decreases n - i,
        {
            self.buffer.set(i, 0u32);
            i = i + 1;
        }
    }

    /// Write logical pixel `(x, y)`: overwrite its whole `scale * scale`
    /// block with the packed color. The coordinates must be in range; this
    /// is the contract-checked unchecked write path.
    pub fn set_pixel(&mut self, x: u32, y: u32, color: Color)
        requires
            old(self).wf(),
            x < old(self).width,
            y < old(self).height,
        ensures
            final(self).wf(),
            final(self).same_dims(*old(self)),
            forall|sx: int, sy: int|
                #![trigger final(self).pix(sx, sy)]
                #![trigger old(self).pix(sx, sy)]
                0 <= sx < old(self).row_len() && 0 <= sy < old(self).col_len() ==> final(self).pix(
                    sx,
                    sy,
                ) == (if in_block(x, y, old(self).scale, sx, sy) {
                    packed(color)
                } else {
                    old(self).pix(sx, sy)
                }),
    {
        let p: u32 = color.pack();
        let row: u32 = self.width * self.scale;
        let col: u32 = self.height * self.scale;
        proof {
            lemma_block_in_row(x as int, self.scale as int, self.width as int);
            lemma_block_in_row(y as int, self.scale as int, self.height as int);
        }
        let x0: u32 = x * self.scale;
        let y0: u32 = y * self.scale;
        let xe: u32 = x0 + self.scale;
        let ye: u32 = y0 + self.scale;
        let mut sx: u32 = x0;
        while sx < xe
            invariant
                old(self).wf(),
                self.wf(),
                self.same_dims(*old(self)),
                x < self.width,
                y < self.height,
                row == self.row_len(),
                col == self.col_len(),
                x0 == x * self.scale,
                y0 == y * self.scale,
                xe == x0 + self.scale,
                ye == y0 + self.scale,
                xe <= row,
                ye <= col,
                x0 <= sx <= xe,
                p == packed(color),
                forall|s: int, t: int|
                    #![trigger self.pix(s, t)]
                    0 <= s < row && 0 <= t < col ==> self.pix(s, t) == (if x0 <= s < sx && y0 <= t
                        < ye {
                        p
                    } else {
                        old(self).pix(s, t)
                    }),
            decreases xe - sx,
        {
            let mut sy: u32 = y0;
            while sy < ye
                invariant
                    old(self).wf(),
                    self.wf(),
                    self.same_dims(*old(self)),
                    row == self.row_len(),
                    col == self.col_len(),
                    x0 <= sx < xe <= row,
                    y0 <= sy <= ye <= col,
                    p == packed(color),
                    forall|s: int, t: int|
                        #![trigger self.pix(s, t)]
                        0 <= s < row && 0 <= t < col ==> self.pix(s, t) == (if (x0 <= s < sx && y0
                            <= t < ye) || (s == sx && y0 <= t < sy) {
                            p
                        } else {
                            old(self).pix(s, t)
                        }),
                decreases ye - sy,
            {
                proof {
                    lemma_sidx_bounds(row as int, col as int, sx as int, sy as int);
                }
                let i: usize = sx as usize + (sy as usize) * (row as usize);
                let ghost prev = *self;
                self.buffer.set(i, p);
                proof {
                    assert forall|s: int, t: int| 0 <= s < row && 0 <= t < col && !(s == sx && t
                        == sy) implies #[trigger] self.pix(s, t) == prev.pix(s, t) by {
                        lemma_sidx_bounds(row as int, col as int, s, t);
                        if s + t * row == i {
                            lemma_sidx_injective(row as int, s, t, sx as int, sy as int);
                        }
                    }
                }
                sy = sy + 1;
            }
            sx = sx + 1;
        }
    }

    /// Bounds-checked pixel write: silently skip coordinates outside
    /// `[0, width) x [0, height)`, otherwise write as `set_pixel` does.
    pub fn try_set_pixel(&mut self, x: u32, y: u32, color: Color)
        requires
            old(self).wf(),
        ensures
            final(self).wf(),
            final(self).same_dims(*old(self)),
            forall|sx: int, sy: int|
                #![trigger final(self).pix(sx, sy)]
                #![trigger old(self).pix(sx, sy)]
                0 <= sx < old(self).row_len() && 0 <= sy < old(self).col_len() ==> final(self).pix(
                    sx,
                    sy,
                ) == (if x < old(self).width && y < old(self).height && in_block(
                    x,
                    y,
                    old(self).scale,
                    sx,
                    sy,
                ) {
                    packed(color)
                } else {
                    old(self).pix(sx, sy)
                }),
    {
        if x >= self.width || y >= self.height {
            return ;
        }
        self.set_pixel(x, y, color);
    }
}

/// A block that starts at column `x < cells` ends inside the row:
/// `(x + 1) * scale <= cells * scale`.
pub proof fn lemma_block_in_row(x: int, scale: int, cells: int)
    by (nonlinear_arith)
    requires
        0 <= x < cells,
        scale >= 1,
    ensures
        x * scale >= 0,
        (x + 1) * scale == x * scale + scale,
        (x + 1) * scale <= cells * scale,
{
}

/// Row-major cell indices stay inside the buffer.
pub proof fn lemma_sidx_bounds(row: int, col: int, s: int, t: int)
    by (nonlinear_arith)
    requires
        0 <= s < row,
        0 <= t < col,
    ensures
        0 <= s + t * row,
        s + t * row < row * col,
{
}

/// Row-major cell indexing is injective on cells inside one row width.
pub proof fn lemma_sidx_injective(row: int, s1: int, t1: int, s2: int, t2: int)
    by (nonlinear_arith)
    requires
        0 <= s1 < row,
        0 <= s2 < row,
        s1 + t1 * row == s2 + t2 * row,
    ensures
        s1 == s2,
        t1 == t2,
{
}

/// A buffer cell lies in the block of exactly the logical pixel obtained by
/// dividing its coordinates by the scale.
pub proof fn lemma_in_block_div(x: u32, y: u32, scale: u32, sx: int, sy: int)
    requires
        scale >= 1,
        0 <= sx,
        0 <= sy,
    ensures
        in_block(x, y, scale, sx, sy) <==> (sx / scale as int == x && sy / scale as int == y),
{
    assert((x as int + 1) * scale == x as int * scale + scale && x as int * scale == scale as int
        * x) by (nonlinear_arith);
    assert((y as int + 1) * scale == y as int * scale + scale && y as int * scale == scale as int
        * y) by (nonlinear_arith);
    if in_block(x, y, scale, sx, sy) {
        lemma_fundamental_div_mod_converse(sx, scale as int, x as int, sx - x * scale);
        lemma_fundamental_div_mod_converse(sy, scale as int, y as int, sy - y * scale);
    }
    if sx / scale as int == x && sy / scale as int == y {
        vstd::arithmetic::div_mod::lemma_fundamental_div_mod(sx, scale as int);
        vstd::arithmetic::div_mod::lemma_fundamental_div_mod(sy, scale as int);
        vstd::arithmetic::div_mod::lemma_mod_division_less_than_divisor(sx, scale as int);
        vstd::arithmetic::div_mod::lemma_mod_division_less_than_divisor(sy, scale as int);
    }
}

} // verus!
