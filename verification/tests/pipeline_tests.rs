use softrender::color::Color;
use softrender::frame::Frame;
use softrender::fx::FX_ONE;
use softrender::geom::{Mat4, Point3, Quat};
use softrender::raster::pixel_floor;
use softrender::scene::{Camera, Scene, Triangle};

fn fx(v: f32) -> i64 {
    (v as f64 * FX_ONE as f64).round() as i64
}

fn to_float(v: i64) -> f64 {
    v as f64 / FX_ONE as f64
}

fn identity() -> Mat4 {
    Mat4 {
        m00: FX_ONE,
        m01: 0,
        m02: 0,
        m03: 0,
        m10: 0,
        m11: FX_ONE,
        m12: 0,
        m13: 0,
        m20: 0,
        m21: 0,
        m22: FX_ONE,
        m23: 0,
        m30: 0,
        m31: 0,
        m32: 0,
        m33: FX_ONE,
    }
}

fn mat_from_glam(m: glam::Mat4) -> Mat4 {
    let a = m.to_cols_array();
    // glam stores columns; entry (row r, column c) is a[c * 4 + r]
    Mat4 {
        m00: fx(a[0]),
        m01: fx(a[4]),
        m02: fx(a[8]),
        m03: fx(a[12]),
        m10: fx(a[1]),
        m11: fx(a[5]),
        m12: fx(a[9]),
        m13: fx(a[13]),
        m20: fx(a[2]),
        m21: fx(a[6]),
        m22: fx(a[10]),
        m23: fx(a[14]),
        m30: fx(a[3]),
        m31: fx(a[7]),
        m32: fx(a[11]),
        m33: fx(a[15]),
    }
}

fn mat_entries(m: &Mat4) -> [i64; 16] {
    [
        m.m00, m.m01, m.m02, m.m03, m.m10, m.m11, m.m12, m.m13, m.m20, m.m21, m.m22, m.m23, m.m30,
        m.m31, m.m32, m.m33,
    ]
}

fn quat_from_glam(q: glam::Quat) -> Quat {
    Quat { x: fx(q.x), y: fx(q.y), z: fx(q.z), w: fx(q.w) }
}

fn point3(x: f32, y: f32, z: f32) -> Point3 {
    Point3 { x: fx(x), y: fx(y), z: fx(z) }
}

fn red() -> Color {
    Color { r: 255, g: 0, b: 0 }
}

/// The camera of the reference scene: 90 degree vertical field of view,
/// 400 x 300 buffer, near plane 0.1, position (0, 0, 1.5), pitched 0.4
/// radians about the x axis.
fn scenario_camera(pitch: f32) -> (Camera, glam::Mat4) {
    let proj = glam::Mat4::perspective_infinite_rh(90f32.to_radians(), 400.0 / 300.0, 0.1);
    let rot = glam::Quat::from_euler(glam::EulerRot::XYZ, pitch, 0.0, 0.0);
    let pos = glam::Vec3::new(0.0, 0.0, 1.5);
    let cam = Camera {
        projection: mat_from_glam(proj),
        position: point3(0.0, 0.0, 1.5),
        rotation: quat_from_glam(rot),
    };
    let vp = proj * glam::Mat4::from_rotation_translation(rot, pos).inverse();
    (cam, vp)
}

#[test]
fn project_identity_matrix_maps_ndc_to_pixels() {
    let m = identity();
    let center = softrender::geom::project_point(&m, point3(0.0, 0.0, 0.0), 400, 300);
    assert_eq!(center.x, 200 * FX_ONE);
    assert_eq!(center.y, 150 * FX_ONE);
    // +x goes right, +y goes up on screen (the y flip)
    let p = softrender::geom::project_point(&m, point3(0.5, 0.5, 0.0), 400, 300);
    assert_eq!(p.x, 400 * FX_ONE);
    assert_eq!(p.y, 0);
}

#[test]
fn behind_camera_point_projects_far_off_screen() {
    // with the identity matrix, clip w is the fixed 1.0 of the point, so
    // force a non-positive w with a matrix whose last row negates z
    let mut m = identity();
    m.m33 = 0;
    m.m32 = -FX_ONE;
    let p = softrender::geom::project_point(&m, point3(0.0, 0.0, 1.0), 400, 300);
    assert!(p.x < -(1 << 40));
    assert!(p.y < -(1 << 40));
    let mut f = Frame::new(16, 16, 1);
    f.draw_triangle(p, p, p, red());
    assert!(f.buffer.iter().all(|&c| c == 0));
}

#[test]
fn rotation_matrix_matches_reference_library() {
    let q = glam::Quat::from_euler(glam::EulerRot::XYZ, 0.4, -0.7, 1.1);
    let mine = softrender::geom::rot_mat(quat_from_glam(q));
    let reference = mat_from_glam(glam::Mat4::from_quat(q));
    for (a, b) in mat_entries(&mine).iter().zip(mat_entries(&reference).iter()) {
        assert!((to_float(*a) - to_float(*b)).abs() < 0.001, "{a} vs {b}");
    }
}

#[test]
fn pose_inverse_matches_reference_inverse() {
    let q = glam::Quat::from_euler(glam::EulerRot::XYZ, 0.4, 0.0, 0.0);
    let t = glam::Vec3::new(0.25, -1.0, 1.5);
    let mine = Mat4::pose_inverse(quat_from_glam(q), point3(0.25, -1.0, 1.5));
    let reference = mat_from_glam(glam::Mat4::from_rotation_translation(q, t).inverse());
    for (a, b) in mat_entries(&mine).iter().zip(mat_entries(&reference).iter()) {
        assert!((to_float(*a) - to_float(*b)).abs() < 0.001, "{a} vs {b}");
    }
    // the pose matrix itself matches the reference composition
    let cam = Camera {
        projection: identity(),
        position: point3(0.25, -1.0, 1.5),
        rotation: quat_from_glam(q),
    };
    let pose = cam.get_view_mat();
    let pose_ref = mat_from_glam(glam::Mat4::from_rotation_translation(q, t));
    for (a, b) in mat_entries(&pose).iter().zip(mat_entries(&pose_ref).iter()) {
        assert!((to_float(*a) - to_float(*b)).abs() < 0.001, "{a} vs {b}");
    }
}

#[test]
fn projection_tracks_reference_within_a_pixel() {
    let (cam, vp_ref) = scenario_camera(0.4);
    let vp = cam.view_projection();
    for &(x, y, z) in
        &[(-0.5f32, 0.5f32, 0.0f32), (-0.5, -0.5, 0.0), (0.5, -0.5, 0.0), (0.2, 0.3, -0.4)]
    {
        let mine = softrender::geom::project_point(&vp, point3(x, y, z), 400, 300);
        let ndc = vp_ref.project_point3(glam::Vec3::new(x, y, z));
        let sx = ndc.x * 400.0 + 200.0;
        let sy = -ndc.y * 300.0 + 150.0;
        assert!((to_float(mine.x) - sx as f64).abs() < 1.0, "{} vs {sx}", to_float(mine.x));
        assert!((to_float(mine.y) - sy as f64).abs() < 1.0, "{} vs {sy}", to_float(mine.y));
    }
}

#[test]
fn reference_scene_renders_centered_triangle_and_marker() {
    let (cam, _) = scenario_camera(0.4);
    let scene = Scene {
        camera: cam,
        triangles: vec![Triangle {
            v0: point3(-0.5, -0.5, 0.0),
            v1: point3(-0.5, 0.5, 0.0),
            v2: point3(0.5, -0.5, 0.0),
            color: red(),
        }],
    };
    let mut f = Frame::new(400, 300, 1);
    scene.render(&mut f);
    f.set_pixel(399, 299, Color { r: 0, g: 255, b: 0 });

    // the filled region is a non-empty set of red pixels inside the
    // projected bounding box
    let vp = scene.camera.view_projection();
    let t = &scene.triangles[0];
    let p0 = softrender::geom::project_point(&vp, t.v0, 400, 300);
    let p1 = softrender::geom::project_point(&vp, t.v1, 400, 300);
    let p2 = softrender::geom::project_point(&vp, t.v2, 400, 300);
    let lox = pixel_floor(p0.x.min(p1.x).min(p2.x));
    let hix = pixel_floor(p0.x.max(p1.x).max(p2.x));
    let loy = pixel_floor(p0.y.min(p1.y).min(p2.y));
    let hiy = pixel_floor(p0.y.max(p1.y).max(p2.y));
    let mut reds = 0u64;
    let mut sum_x = 0u64;
    for sy in 0..300u32 {
        for sx in 0..400u32 {
            match f.buffer[(sx + sy * 400) as usize] {
                0x00FF0000 => {
                    reds += 1;
                    sum_x += sx as u64;
                    assert!(sx >= lox && sx < hix && sy >= loy && sy < hiy);
                }
                0x0000FF00 => assert_eq!((sx, sy), (399, 299)),
                0 => {}
                other => panic!("unexpected pixel value {other:#x} at ({sx}, {sy})"),
            }
        }
    }
    assert!(reds > 1000, "only {reds} red pixels");
    // the region sits roughly centered horizontally
    let centroid_x = sum_x / reds;
    assert!((100..300).contains(&centroid_x), "centroid at column {centroid_x}");
    // the diagnostic marker is pure green regardless of coverage
    assert_eq!(f.buffer[399 + 299 * 400], 0x0000FF00);
}

#[test]
fn render_is_deterministic_on_cleared_buffers() {
    let (cam, _) = scenario_camera(0.4);
    let scene = Scene {
        camera: cam,
        triangles: vec![
            Triangle {
                v0: point3(-0.5, -0.5, 0.0),
                v1: point3(-0.5, 0.5, 0.0),
                v2: point3(0.5, -0.5, 0.0),
                color: red(),
            },
            Triangle {
                v0: point3(0.5, 0.5, 0.0),
                v1: point3(-0.2, 0.2, 0.0),
                v2: point3(-0.5, -0.5, 0.0),
                color: Color { r: 255, g: 204, b: 180 },
            },
        ],
    };
    let mut f1 = Frame::new(400, 300, 1);
    let mut f2 = Frame::new(400, 300, 1);
    scene.render(&mut f1);
    scene.render(&mut f2);
    assert_eq!(f1.buffer, f2.buffer);
    // rendering again over a freshly cleared buffer reproduces the frame
    let first = f1.buffer.clone();
    f1.clear();
    scene.render(&mut f1);
    assert_eq!(f1.buffer, first);
    assert!(f1.buffer.iter().any(|&p| p != 0));
}
