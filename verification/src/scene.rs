use vstd::prelude::*;
use crate::color::{packed, Color};
use crate::frame::{cell_pixel, Frame};
use crate::geom::{mat_mul_s, pose_inverse_s, pose_mat_s, project_point, project_s, Mat4, Point3, Quat};
use crate::raster::tri_writes;

verus! {

/// A triangle: three world-space vertices and a fill color. Geometry is
/// fixed at scene-setup time; only the camera moves between frames.
#[derive(Clone, Copy)]
pub struct Triangle {
    pub v0: Point3,
    pub v1: Point3,
    pub v2: Point3,
    pub color: Color,
}

/// A camera: a projection matrix (fixed at creation) and a mutable pose,
/// a position and a rotation. The view matrix is the inverse of the pose
/// transform `translate(position) * rotate(rotation)`.
#[derive(Clone, Copy)]
pub struct Camera {
    pub projection: Mat4,
    pub position: Point3,
    pub rotation: Quat,
}

impl Camera {
    /// The pose matrix of the camera: its rotation and translation taken
    /// together as one transform.
    pub fn get_view_mat(&self) -> (r: Mat4)
        ensures
            r == pose_mat_s(self.rotation, self.position),
    {
        Mat4::from_rotation_translation(self.rotation, self.position)
    }

    /// The combined view-projection matrix: the projection composed with
    /// the closed-form inverse of the pose.
    pub open spec fn view_projection_s(self) -> Mat4 {
        mat_mul_s(self.projection, pose_inverse_s(self.rotation, self.position))
    }

    /// Compute the view-projection matrix.
    pub fn view_projection(&self) -> (r: Mat4)
        ensures
            r == self.view_projection_s(),
    {
        self.projection.mul(&Mat4::pose_inverse(self.rotation, self.position))
    }
}

/// The color of buffer cell `(sx, sy)` after painting the triangles of
/// `ts`, in order, over a buffer whose cell held `base`: the last triangle
/// whose projection writes the cell's pixel wins; if none does, the cell
/// keeps `base`.
pub open spec fn painted_pix(
    ts: Seq<Triangle>,
    m: Mat4,
    w: u32,
    h: u32,
    scale: u32,
    sx: int,
    sy: int,
    base: u32,
) -> u32
    decreases ts.len(),
{
    if ts.len() == 0 {
        base
    } else {
        let t = ts.last();
        let p0 = project_s(m, t.v0, w, h);
        let p1 = project_s(m, t.v1, w, h);
        let p2 = project_s(m, t.v2, w, h);
        if tri_writes(p0, p1, p2, w, h, cell_pixel(scale, sx), cell_pixel(scale, sy)) {
            packed(t.color)
        } else {
            painted_pix(ts.drop_last(), m, w, h, scale, sx, sy, base)
        }
    }
}

/// A scene: one camera and an ordered sequence of triangles. The order is
/// the paint order — later triangles overwrite earlier ones at shared
/// pixels; there is no depth test.
pub struct Scene {
    pub camera: Camera,
    pub triangles: Vec<Triangle>,
}

impl Scene {
    /// Render the scene into a frame: compute the view-projection matrix
    /// once, then project and rasterize every triangle in paint order.
    /// Every cell of the frame ends up holding exactly what `painted_pix`
    /// says: the color of the last triangle covering its pixel, or its
    /// old content where no triangle covers it.
    pub fn render(&self, frame: &mut Frame)
        requires
            old(frame).wf(),
        ensures
            final(frame).wf(),
            final(frame).same_dims(*old(frame)),
            forall|sx: int, sy: int|
                #![trigger final(frame).pix(sx, sy)]
                #![trigger old(frame).pix(sx, sy)]
                0 <= sx < old(frame).row_len() && 0 <= sy < old(frame).col_len()
                    ==> final(frame).pix(sx, sy) == painted_pix(
                    self.triangles@,
                    self.camera.view_projection_s(),
                    old(frame).width,
                    old(frame).height,
                    old(frame).scale,
                    sx,
                    sy,
                    old(frame).pix(sx, sy),
                ),
    {
        let mat: Mat4 = self.camera.view_projection();
        let w: u32 = frame.width;
        let h: u32 = frame.height;
        let scale: u32 = frame.scale;
        let n: usize = self.triangles.len();
        let mut i: usize = 0;
        while i < n
            invariant
                old(frame).wf(),
                frame.wf(),
                frame.same_dims(*old(frame)),
                w == frame.width,
                h == frame.height,
                scale == frame.scale,
                i <= n,
                n == self.triangles.len(),
                mat == self.camera.view_projection_s(),
                forall|sx: int, sy: int|
                    #![trigger frame.pix(sx, sy)]
                    0 <= sx < old(frame).row_len() && 0 <= sy < old(frame).col_len() ==> frame.pix(
                        sx,
                        sy,
                    ) == painted_pix(
                        self.triangles@.subrange(0, i as int),
                        mat,
                        w,
                        h,
                        scale,
                        sx,
                        sy,
                        old(frame).pix(sx, sy),
                    ),
            decreases n - i,
        {
            let t: Triangle = self.triangles[i];
            let p0 = project_point(&mat, t.v0, w, h);
            let p1 = project_point(&mat, t.v1, w, h);
            let p2 = project_point(&mat, t.v2, w, h);
            let ghost prev = *frame;
            frame.draw_triangle(p0, p1, p2, t.color);
            proof {
                let pre = self.triangles@.subrange(0, i as int);
                let cur = self.triangles@.subrange(0, i as int + 1);
                assert(cur.drop_last() =~= pre);
                assert(cur.last() == t);
                assert forall|sx: int, sy: int|
                    0 <= sx < old(frame).row_len() && 0 <= sy < old(frame).col_len()
                        implies #[trigger] frame.pix(sx, sy) == painted_pix(
                    cur,
                    mat,
                    w,
                    h,
                    scale,
                    sx,
                    sy,
                    old(frame).pix(sx, sy),
                ) by {
                    assert(prev.pix(sx, sy) == painted_pix(
                        pre,
                        mat,
                        w,
                        h,
                        scale,
                        sx,
                        sy,
                        old(frame).pix(sx, sy),
                    ));
                }
            }
            i = i + 1;
        }
        proof {
            assert(self.triangles@.subrange(0, n as int) =~= self.triangles@);
        }
    }
}

} // verus!
