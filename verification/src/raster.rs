use vstd::prelude::*;
use crate::color::{packed, Color};
use crate::frame::{cell_pixel, lemma_in_block_div, Frame};
use crate::fx::{COORD_LIMIT, FX_ONE};

verus! {

/// A screen-space point in fixed-point pixel units (16 fractional bits),
/// origin at the top-left, x growing right and y growing down. Produced
/// transiently by projection.
#[derive(Clone, Copy, PartialEq, Eq, Structural)]
pub struct Point2 {
    pub x: i64,
    pub y: i64,
}

impl Point2 {
    /// Coordinates small enough that all edge-function arithmetic fits in
    /// an `i128`. Projection only produces such points.
    pub open spec fn bounded(self) -> bool {
        &&& -COORD_LIMIT <= self.x <= COORD_LIMIT
        &&& -COORD_LIMIT <= self.y <= COORD_LIMIT
    }
}

/// The fixed-point coordinate of the center of pixel column or row `p`.
pub open spec fn center_fx(p: int) -> int {
    p * (FX_ONE as int)
}

/// The edge function of the directed edge `a -> b` at point `(px, py)`:
/// positive when the point lies strictly to the left of the edge.
pub open spec fn edge_s(a: Point2, b: Point2, px: int, py: int) -> int {
    (b.x - a.x) * (py - a.y) - (b.y - a.y) * (px - a.x)
}

/// Screen-space winding test: does the triangle `v0, v1, v2` wind
/// counter-clockwise (the front-facing orientation)?
pub open spec fn is_ccw_s(v0: Point2, v1: Point2, v2: Point2) -> bool {
    (v2.y - v0.y) * (v1.x - v0.x) > (v1.y - v0.y) * (v2.x - v0.x)
}

/// A point is inside the triangle iff all three edge functions are
/// strictly positive: points exactly on an edge belong to no triangle.
pub open spec fn inside_s(v0: Point2, v1: Point2, v2: Point2, px: int, py: int) -> bool {
    &&& edge_s(v0, v1, px, py) > 0
    &&& edge_s(v1, v2, px, py) > 0
    &&& edge_s(v2, v0, px, py) > 0
}

/// The smaller of `a` and `b`.
pub open spec fn min2_s(a: i64, b: i64) -> i64 {
    if a <= b {
        a
    } else {
        b
    }
}

/// The larger of `a` and `b`.
pub open spec fn max2_s(a: i64, b: i64) -> i64 {
    if a >= b {
        a
    } else {
        b
    }
}

/// The least of three coordinates.
pub open spec fn min3_s(a: i64, b: i64, c: i64) -> i64 {
    min2_s(a, min2_s(b, c))
}

/// The greatest of three coordinates.
pub open spec fn max3_s(a: i64, b: i64, c: i64) -> i64 {
    max2_s(a, max2_s(b, c))
}

/// The pixel index of a fixed-point coordinate, as the bounding-box
/// computation sees it: truncated toward zero and saturated into
/// `[0, u32::MAX]`.
pub open spec fn pixel_coord(v: i64) -> int {
    if v < 0 {
        0
    } else if v as int / (FX_ONE as int) > u32::MAX {
        u32::MAX as int
    } else {
        v as int / (FX_ONE as int)
    }
}

/// Is pixel `(px, py)` covered by the triangle: inside the scanned
/// bounding box, center strictly inside all three edges, and within the
/// frame bounds `[0, w) x [0, h)`.
pub open spec fn covers(v0: Point2, v1: Point2, v2: Point2, w: u32, h: u32, px: int, py: int) -> bool {
    &&& pixel_coord(min3_s(v0.x, v1.x, v2.x)) <= px < pixel_coord(max3_s(v0.x, v1.x, v2.x))
    &&& pixel_coord(min3_s(v0.y, v1.y, v2.y)) <= py < pixel_coord(max3_s(v0.y, v1.y, v2.y))
    &&& inside_s(v0, v1, v2, center_fx(px), center_fx(py))
    &&& 0 <= px < w
    &&& 0 <= py < h
}

/// Does drawing the triangle write pixel `(px, py)`: the triangle must
/// pass the winding cull and cover the pixel.
pub open spec fn tri_writes(v0: Point2, v1: Point2, v2: Point2, w: u32, h: u32, px: int, py: int) -> bool {
    is_ccw_s(v0, v1, v2) && covers(v0, v1, v2, w, h, px, py)
}

/// Winding test; back-facing (or degenerate) triangles fail it.
pub fn is_ccw(v0: Point2, v1: Point2, v2: Point2) -> (r: bool)
    requires
        v0.bounded(),
        v1.bounded(),
        v2.bounded(),
    ensures
        r == is_ccw_s(v0, v1, v2),
{
    let dy20: i128 = v2.y as i128 - v0.y as i128;
    let dx10: i128 = v1.x as i128 - v0.x as i128;
    let dy10: i128 = v1.y as i128 - v0.y as i128;
    let dx20: i128 = v2.x as i128 - v0.x as i128;
    proof {
        assert(-0x4000000000000000000000000 <= dy20 * dx10 <= 0x4000000000000000000000000
            && -0x4000000000000000000000000 <= dy10 * dx20
            <= 0x4000000000000000000000000) by (nonlinear_arith)
            requires
                -0x2000000000000 <= dy20 <= 0x2000000000000,
                -0x2000000000000 <= dx10 <= 0x2000000000000,
                -0x2000000000000 <= dy10 <= 0x2000000000000,
                -0x2000000000000 <= dx20 <= 0x2000000000000,
        ;
    }
    let a: i128 = dy20 * dx10;
    let b: i128 = dy10 * dx20;
    a > b
}

/// Evaluate one edge function at a pixel center and compare with zero.
fn edge_gt0(a: Point2, b: Point2, pcx: i64, pcy: i64) -> (r: bool)
    requires
        a.bounded(),
        b.bounded(),
        -2 * COORD_LIMIT <= pcx <= 2 * COORD_LIMIT,
        -2 * COORD_LIMIT <= pcy <= 2 * COORD_LIMIT,
    ensures
        r == (edge_s(a, b, pcx as int, pcy as int) > 0),
{
    let ex: i128 = b.x as i128 - a.x as i128;
    let fy: i128 = pcy as i128 - a.y as i128;
    let ey: i128 = b.y as i128 - a.y as i128;
    let fx: i128 = pcx as i128 - a.x as i128;
    proof {
        assert(-0x6000000000000000000000000 <= ex * fy <= 0x6000000000000000000000000
            && -0x6000000000000000000000000 <= ey * fx
            <= 0x6000000000000000000000000) by (nonlinear_arith)
            requires
                -0x2000000000000 <= ex <= 0x2000000000000,
                -0x3000000000000 <= fy <= 0x3000000000000,
                -0x2000000000000 <= ey <= 0x2000000000000,
                -0x3000000000000 <= fx <= 0x3000000000000,
        ;
    }
    let d1: i128 = ex * fy;
    let d2: i128 = ey * fx;
    d1 - d2 > 0
}

/// The smaller of two coordinates.
pub fn min2(a: i64, b: i64) -> (r: i64)
    ensures
        r == min2_s(a, b),
{
    if a <= b {
        a
    } else {
        b
    }
}

/// The larger of two coordinates.
pub fn max2(a: i64, b: i64) -> (r: i64)
    ensures
        r == max2_s(a, b),
{
    if a >= b {
        a
    } else {
        b
    }
}

/// Truncate a fixed-point coordinate to a pixel index, saturating into
/// `[0, u32::MAX]`.
pub fn pixel_floor(v: i64) -> (p: u32)
    ensures
        p as int == pixel_coord(v),
{
    if v < 0 {
        0
    } else {
        let q: u64 = (v as u64) / (FX_ONE as u64);
        if q > u32::MAX as u64 {
            u32::MAX
        } else {
            q as u32
        }
    }
}

impl Frame {
    /// Rasterize a triangle given by three screen-space points: cull it if
    /// it does not wind counter-clockwise, otherwise fill every pixel of
    /// its bounding box whose center lies strictly inside all three edges,
    /// skipping pixels outside the frame.
    pub fn draw_triangle(&mut self, v0: Point2, v1: Point2, v2: Point2, color: Color)
        requires
            old(self).wf(),
            v0.bounded(),
            v1.bounded(),
            v2.bounded(),
        ensures
            final(self).wf(),
            final(self).same_dims(*old(self)),
            forall|sx: int, sy: int|
                #![trigger final(self).pix(sx, sy)]
                #![trigger old(self).pix(sx, sy)]
                0 <= sx < old(self).row_len() && 0 <= sy < old(self).col_len() ==> final(self).pix(
                    sx,
                    sy,
                ) == (if tri_writes(
                    v0,
                    v1,
                    v2,
                    old(self).width,
                    old(self).height,
                    cell_pixel(old(self).scale, sx),
                    cell_pixel(old(self).scale, sy),
                ) {
                    packed(color)
                } else {
                    old(self).pix(sx, sy)
                }),
    {
        if !is_ccw(v0, v1, v2) {
            return ;
        }
        let w: u32 = self.width;
        let h: u32 = self.height;
        let scale: u32 = self.scale;
        let lox: u32 = pixel_floor(min2(v0.x, min2(v1.x, v2.x)));
        let hix: u32 = pixel_floor(max2(v0.x, max2(v1.x, v2.x)));
        let loy: u32 = pixel_floor(min2(v0.y, min2(v1.y, v2.y)));
        let hiy: u32 = pixel_floor(max2(v0.y, max2(v1.y, v2.y)));
        let mut py: u32 = loy;
        while py < hiy
            invariant
                old(self).wf(),
                self.wf(),
                self.same_dims(*old(self)),
                v0.bounded(),
                v1.bounded(),
                v2.bounded(),
                is_ccw_s(v0, v1, v2),
                w == self.width,
                h == self.height,
                scale == self.scale,
                lox as int == pixel_coord(min3_s(v0.x, v1.x, v2.x)),
                hix as int == pixel_coord(max3_s(v0.x, v1.x, v2.x)),
                loy as int == pixel_coord(min3_s(v0.y, v1.y, v2.y)),
                hiy as int == pixel_coord(max3_s(v0.y, v1.y, v2.y)),
                loy <= py <= hiy,
                forall|sx: int, sy: int|
                    #![trigger self.pix(sx, sy)]
                    0 <= sx < old(self).row_len() && 0 <= sy < old(self).col_len()
                        ==> self.pix(sx, sy) == (if tri_writes(
                        v0,
                        v1,
                        v2,
                        w,
                        h,
                        cell_pixel(scale, sx),
                        cell_pixel(scale, sy),
                    ) && cell_pixel(scale, sy) < py {
                        packed(color)
                    } else {
                        old(self).pix(sx, sy)
                    }),
            decreases hiy - py,
        {
            let pcy: i64 = (py as i64) * FX_ONE;
            let mut px: u32 = lox;
            while px < hix
                invariant
                    old(self).wf(),
                    self.wf(),
                    self.same_dims(*old(self)),
                    v0.bounded(),
                    v1.bounded(),
                    v2.bounded(),
                    is_ccw_s(v0, v1, v2),
                    w == self.width,
                    h == self.height,
                    scale == self.scale,
                    lox as int == pixel_coord(min3_s(v0.x, v1.x, v2.x)),
                    hix as int == pixel_coord(max3_s(v0.x, v1.x, v2.x)),
                    loy as int == pixel_coord(min3_s(v0.y, v1.y, v2.y)),
                    hiy as int == pixel_coord(max3_s(v0.y, v1.y, v2.y)),
                    loy <= py < hiy,
                    lox <= px <= hix,
                    pcy as int == center_fx(py as int),
                    forall|sx: int, sy: int|
                        #![trigger self.pix(sx, sy)]
                        0 <= sx < old(self).row_len() && 0 <= sy < old(self).col_len()
                            ==> self.pix(sx, sy) == (if tri_writes(
                            v0,
                            v1,
                            v2,
                            w,
                            h,
                            cell_pixel(scale, sx),
                            cell_pixel(scale, sy),
                        ) && (cell_pixel(scale, sy) < py || (cell_pixel(scale, sy) == py
                            && cell_pixel(scale, sx) < px)) {
                            packed(color)
                        } else {
                            old(self).pix(sx, sy)
                        }),
                decreases hix - px,
            {
                let pcx: i64 = (px as i64) * FX_ONE;
                let e0: bool = edge_gt0(v0, v1, pcx, pcy);
                let e1: bool = edge_gt0(v1, v2, pcx, pcy);
                let e2: bool = edge_gt0(v2, v0, pcx, pcy);
                if e0 && e1 && e2 {
                    let ghost prev = *self;
                    self.try_set_pixel(px, py, color);
                    proof {
                        assert forall|sx: int, sy: int|
                            0 <= sx < old(self).row_len() && 0 <= sy < old(
                                self,
                            ).col_len() implies #[trigger] self.pix(sx, sy) == (if tri_writes(
                            v0,
                            v1,
                            v2,
                            w,
                            h,
                            cell_pixel(scale, sx),
                            cell_pixel(scale, sy),
                        ) && (cell_pixel(scale, sy) < py || (cell_pixel(scale, sy) == py
                            && cell_pixel(scale, sx) < px + 1)) {
                            packed(color)
                        } else {
                            old(self).pix(sx, sy)
                        }) by {
                            lemma_in_block_div(px, py, scale, sx, sy);
                            assert(prev.pix(sx, sy) == (if tri_writes(
                                v0,
                                v1,
                                v2,
                                w,
                                h,
                                cell_pixel(scale, sx),
                                cell_pixel(scale, sy),
                            ) && (cell_pixel(scale, sy) < py || (cell_pixel(scale, sy) == py
                                && cell_pixel(scale, sx) < px)) {
                                packed(color)
                            } else {
                                old(self).pix(sx, sy)
                            }));
                        }
                    }
                } else {
                    proof {
                        assert(!inside_s(v0, v1, v2, center_fx(px as int), center_fx(py as int)));
                        assert forall|sx: int, sy: int|
                            0 <= sx < old(self).row_len() && 0 <= sy < old(
                                self,
                            ).col_len() implies #[trigger] self.pix(sx, sy) == (if tri_writes(
                            v0,
                            v1,
                            v2,
                            w,
                            h,
                            cell_pixel(scale, sx),
                            cell_pixel(scale, sy),
                        ) && (cell_pixel(scale, sy) < py || (cell_pixel(scale, sy) == py
                            && cell_pixel(scale, sx) < px + 1)) {
                            packed(color)
                        } else {
                            old(self).pix(sx, sy)
                        }) by {}
                    }
                }
                px = px + 1;
            }
            py = py + 1;
        }
    }
}

} // verus!
