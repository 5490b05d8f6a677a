use vstd::prelude::*;
use crate::geom::Mat4;
use crate::raster::{
    center_fx, edge_s, inside_s, is_ccw_s, max3_s, min3_s, pixel_coord, tri_writes, Point2,
};
use crate::scene::{painted_pix, Triangle};

verus! {

/// The projected triangle's pixel bounding box has no pixel in common
/// with the frame `[0, w) x [0, h)`.
pub open spec fn bbox_misses_frame(v0: Point2, v1: Point2, v2: Point2, w: u32, h: u32) -> bool {
    ||| pixel_coord(max3_s(v0.x, v1.x, v2.x)) <= 0
    ||| pixel_coord(min3_s(v0.x, v1.x, v2.x)) >= w
    ||| pixel_coord(max3_s(v0.y, v1.y, v2.y)) <= 0
    ||| pixel_coord(min3_s(v0.y, v1.y, v2.y)) >= h
}

/// A triangle whose projected bounding box lies entirely outside the
/// frame writes no pixel at all.
pub proof fn lemma_offscreen_triangle_writes_nothing(
    v0: Point2,
    v1: Point2,
    v2: Point2,
    w: u32,
    h: u32,
    px: int,
    py: int,
)
    requires
        bbox_misses_frame(v0, v1, v2, w, h),
    ensures
        !tri_writes(v0, v1, v2, w, h, px, py),
{
}

/// A scene all of whose triangles miss the frame leaves every buffer
/// cell exactly as it was.
pub proof fn lemma_offscreen_scene_preserves_buffer(
    ts: Seq<Triangle>,
    m: Mat4,
    w: u32,
    h: u32,
    scale: u32,
    sx: int,
    sy: int,
    base: u32,
)
    requires
        forall|k: int|
            0 <= k < ts.len() ==> bbox_misses_frame(
                crate::geom::project_s(m, #[trigger] ts[k].v0, w, h),
                crate::geom::project_s(m, ts[k].v1, w, h),
                crate::geom::project_s(m, ts[k].v2, w, h),
                w,
                h,
            ),
    ensures
        painted_pix(ts, m, w, h, scale, sx, sy, base) == base,
    decreases ts.len(),
{
    if ts.len() > 0 {
        assert(ts[ts.len() - 1] == ts.last());
        lemma_offscreen_scene_preserves_buffer(ts.drop_last(), m, w, h, scale, sx, sy, base);
    }
}

/// Every pixel a triangle writes lies inside its projected pixel
/// bounding box, with its center strictly inside all three edges. (The
/// converse does not hold in general: a thin triangle with all vertices
/// inside the frame may still enclose no pixel center and fill nothing.)
pub proof fn lemma_writes_within_bbox(
    v0: Point2,
    v1: Point2,
    v2: Point2,
    w: u32,
    h: u32,
    px: int,
    py: int,
)
    requires
        tri_writes(v0, v1, v2, w, h, px, py),
    ensures
        pixel_coord(min3_s(v0.x, v1.x, v2.x)) <= px < pixel_coord(max3_s(v0.x, v1.x, v2.x)),
        pixel_coord(min3_s(v0.y, v1.y, v2.y)) <= py < pixel_coord(max3_s(v0.y, v1.y, v2.y)),
        inside_s(v0, v1, v2, center_fx(px), center_fx(py)),
        0 <= px < w,
        0 <= py < h,
{
}

/// Winding-order cull: a triangle and its reverse-winding twin can never
/// both pass the counter-clockwise test, and one that fails it writes no
/// pixel.
pub proof fn lemma_winding_cull(
    v0: Point2,
    v1: Point2,
    v2: Point2,
    w: u32,
    h: u32,
    px: int,
    py: int,
)
    ensures
        !(is_ccw_s(v0, v1, v2) && is_ccw_s(v0, v2, v1)),
        !is_ccw_s(v0, v1, v2) ==> !tri_writes(v0, v1, v2, w, h, px, py),
{
}

/// Reversing a directed edge negates its edge function.
pub proof fn lemma_edge_antisymmetric(a: Point2, b: Point2, px: int, py: int)
    by (nonlinear_arith)
    ensures
        edge_s(b, a, px, py) == -edge_s(a, b, px, py),
{
}

/// A pixel whose center lies exactly on the edge shared by two adjacent
/// triangles — one traversing it `a -> b`, the other `b -> a` — belongs
/// to neither: both edge functions are zero and the strict inside test
/// excludes the pixel from both. This is the documented seam behavior of
/// the half-open fill rule.
pub proof fn lemma_shared_edge_pixel_unowned(
    a: Point2,
    b: Point2,
    c: Point2,
    d: Point2,
    w: u32,
    h: u32,
    px: int,
    py: int,
)
    requires
        edge_s(a, b, center_fx(px), center_fx(py)) == 0,
    ensures
        !tri_writes(a, b, c, w, h, px, py),
        !tri_writes(b, a, d, w, h, px, py),
{
    lemma_edge_antisymmetric(a, b, center_fx(px), center_fx(py));
}

/// Paint order: appending a triangle to a scene repaints exactly the
/// pixels that triangle writes, and leaves every other cell to the
/// earlier triangles — later triangles overwrite earlier ones, with no
/// depth test.
pub proof fn lemma_paint_order_last_wins(
    ts: Seq<Triangle>,
    t: Triangle,
    m: Mat4,
    w: u32,
    h: u32,
    scale: u32,
    sx: int,
    sy: int,
    base: u32,
)
    ensures
        painted_pix(ts.push(t), m, w, h, scale, sx, sy, base) == (if tri_writes(
            crate::geom::project_s(m, t.v0, w, h),
            crate::geom::project_s(m, t.v1, w, h),
            crate::geom::project_s(m, t.v2, w, h),
            w,
            h,
            crate::frame::cell_pixel(scale, sx),
            crate::frame::cell_pixel(scale, sy),
        ) {
            crate::color::packed(t.color)
        } else {
            painted_pix(ts, m, w, h, scale, sx, sy, base)
        }),
{
    assert(ts.push(t).last() == t);
    assert(ts.push(t).drop_last() =~= ts);
}

/// Rendering is deterministic: the color a cell ends up with depends
/// only on the triangles, the matrix, the frame dimensions and the
/// cell's prior content. Rendering an unchanged scene twice over equally
/// cleared buffers therefore produces identical buffers.
pub proof fn lemma_render_deterministic(
    ts: Seq<Triangle>,
    m: Mat4,
    w: u32,
    h: u32,
    scale: u32,
    sx: int,
    sy: int,
    base1: u32,
    base2: u32,
)
    requires
        base1 == base2,
    ensures
        painted_pix(ts, m, w, h, scale, sx, sy, base1) == painted_pix(
            ts,
            m,
            w,
            h,
            scale,
            sx,
            sy,
            base2,
        ),
{
}

} // verus!
