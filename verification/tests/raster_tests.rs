use softrender::color::Color;
use softrender::frame::Frame;
use softrender::fx::{fxadd, fxdiv, fxmul, fxneg, FX_ONE};
use softrender::raster::{is_ccw, pixel_floor, Point2};

fn px(v: i64) -> i64 {
    v * FX_ONE
}

fn red() -> Color {
    Color { r: 255, g: 0, b: 0 }
}

fn blue() -> Color {
    Color { r: 0, g: 0, b: 255 }
}

#[test]
fn color_pack_matches_big_endian_bytes() {
    let c = Color { r: 255, g: 204, b: 180 };
    assert_eq!(c.pack(), u32::from_be_bytes([0, 255, 204, 180]));
    assert_eq!(red().pack(), 0x00FF0000);
    assert_eq!(Color { r: 0, g: 255, b: 0 }.pack(), 0x0000FF00);
    assert_eq!(Color { r: 0, g: 0, b: 0 }.pack(), 0);
}

#[test]
fn fixed_point_ops_exact_values() {
    assert_eq!(fxmul(3 * FX_ONE, 2 * FX_ONE), 6 * FX_ONE);
    assert_eq!(fxmul(-FX_ONE / 2, FX_ONE / 2), -FX_ONE / 4);
    // truncation toward zero on a small negative product (floor would give -1)
    assert_eq!(fxmul(-3, 3), 0);
    assert_eq!(fxdiv(-3 * FX_ONE, 2 * FX_ONE), -3 * FX_ONE / 2);
    assert_eq!(fxadd(i64::MAX, i64::MAX), i64::MAX);
    assert_eq!(fxmul(i64::MAX, i64::MAX), i64::MAX);
    assert_eq!(fxneg(i64::MIN), i64::MAX);
    assert_eq!(pixel_floor(-5), 0);
    assert_eq!(pixel_floor(7 * FX_ONE + 123), 7);
    assert_eq!(pixel_floor(i64::MAX), u32::MAX);
}

#[test]
fn frame_new_clear_and_set_pixel() {
    let mut f = Frame::new(4, 3, 1);
    assert_eq!(f.buffer.len(), 12);
    assert!(f.buffer.iter().all(|&p| p == 0));
    f.set_pixel(1, 2, red());
    for sy in 0..3 {
        for sx in 0..4 {
            let want = if (sx, sy) == (1, 2) { 0x00FF0000 } else { 0 };
            assert_eq!(f.buffer[(sx + sy * 4) as usize], want);
        }
    }
    f.clear();
    assert!(f.buffer.iter().all(|&p| p == 0));
}

#[test]
fn try_set_pixel_skips_out_of_bounds() {
    let mut f = Frame::new(4, 3, 1);
    f.try_set_pixel(4, 0, red());
    f.try_set_pixel(0, 3, red());
    f.try_set_pixel(u32::MAX, u32::MAX, red());
    assert!(f.buffer.iter().all(|&p| p == 0));
    f.try_set_pixel(3, 2, red());
    assert_eq!(f.buffer[3 + 2 * 4], 0x00FF0000);
}

#[test]
fn set_pixel_fills_whole_scaled_block() {
    let mut f = Frame::new(3, 2, 2);
    assert_eq!(f.buffer.len(), 24);
    f.set_pixel(1, 0, red());
    for sy in 0..4 {
        for sx in 0..6 {
            let inside = (2..4).contains(&sx) && (0..2).contains(&sy);
            let want = if inside { 0x00FF0000 } else { 0 };
            assert_eq!(f.buffer[(sx + sy * 6) as usize], want);
        }
    }
}

#[test]
fn draw_triangle_fills_exact_pixel_set() {
    let mut f = Frame::new(8, 8, 1);
    let v0 = Point2 { x: px(1), y: px(1) };
    let v1 = Point2 { x: px(6), y: px(1) };
    let v2 = Point2 { x: px(1), y: px(6) };
    assert!(is_ccw(v0, v1, v2));
    f.draw_triangle(v0, v1, v2, red());
    // strictly inside all three edges: x >= 2, y >= 2, x + y <= 6
    let expected = [(2, 2), (3, 2), (4, 2), (2, 3), (3, 3), (2, 4)];
    for sy in 0..8i64 {
        for sx in 0..8i64 {
            let want = if expected.contains(&(sx, sy)) { 0x00FF0000 } else { 0 };
            assert_eq!(f.buffer[(sx + sy * 8) as usize], want, "pixel ({sx}, {sy})");
        }
    }
}

#[test]
fn reverse_winding_twin_is_culled() {
    let v0 = Point2 { x: px(1), y: px(1) };
    let v1 = Point2 { x: px(6), y: px(1) };
    let v2 = Point2 { x: px(1), y: px(6) };
    // at most one of the two orderings passes the cull test
    assert!(is_ccw(v0, v1, v2));
    assert!(!is_ccw(v0, v2, v1));
    let mut f = Frame::new(8, 8, 1);
    f.draw_triangle(v0, v2, v1, red());
    assert!(f.buffer.iter().all(|&p| p == 0), "culled triangle wrote pixels");
    // the other ordering writes its region
    f.draw_triangle(v0, v1, v2, red());
    assert!(f.buffer.iter().any(|&p| p == 0x00FF0000));
}

#[test]
fn offscreen_triangle_writes_nothing() {
    let mut f = Frame::new(8, 8, 1);
    // entirely above and left of the frame
    f.draw_triangle(
        Point2 { x: px(-10), y: px(-10) },
        Point2 { x: px(-4), y: px(-10) },
        Point2 { x: px(-10), y: px(-4) },
        red(),
    );
    // entirely right of the frame
    f.draw_triangle(
        Point2 { x: px(20), y: px(1) },
        Point2 { x: px(28), y: px(1) },
        Point2 { x: px(20), y: px(7) },
        red(),
    );
    // entirely below the frame
    f.draw_triangle(
        Point2 { x: px(1), y: px(20) },
        Point2 { x: px(7), y: px(20) },
        Point2 { x: px(1), y: px(28) },
        red(),
    );
    assert!(f.buffer.iter().all(|&p| p == 0));
}

#[test]
fn shared_edge_pixel_belongs_to_neither() {
    // two adjacent triangles sharing the vertical edge x = 3: pixel
    // centers on the edge stay background (the documented seam rule)
    let a = Point2 { x: px(3), y: px(0) };
    let b = Point2 { x: px(3), y: px(8) };
    let c = Point2 { x: px(0), y: px(4) };
    let d = Point2 { x: px(6), y: px(4) };
    let mut f = Frame::new(8, 8, 1);
    f.draw_triangle(a, b, c, red());
    f.draw_triangle(b, a, d, blue());
    for sy in 0..8usize {
        assert_eq!(f.buffer[3 + sy * 8], 0, "seam pixel (3, {sy}) was written");
    }
    // both triangles did draw on their own side
    assert!(f.buffer.iter().any(|&p| p == 0x00FF0000));
    assert!(f.buffer.iter().any(|&p| p == 0x000000FF));
    for sy in 0..8usize {
        for sx in 0..3usize {
            assert_ne!(f.buffer[sx + sy * 8], 0x000000FF, "blue leaked past the seam");
        }
        for sx in 4..8usize {
            assert_ne!(f.buffer[sx + sy * 8], 0x00FF0000, "red leaked past the seam");
        }
    }
}

#[test]
fn draw_triangle_at_scale_two_fills_blocks() {
    let mut f = Frame::new(8, 8, 2);
    let v0 = Point2 { x: px(1), y: px(1) };
    let v1 = Point2 { x: px(6), y: px(1) };
    let v2 = Point2 { x: px(1), y: px(6) };
    f.draw_triangle(v0, v1, v2, red());
    let expected = [(2, 2), (3, 2), (4, 2), (2, 3), (3, 3), (2, 4)];
    for sy in 0..16i64 {
        for sx in 0..16i64 {
            let want = if expected.contains(&(sx / 2, sy / 2)) { 0x00FF0000 } else { 0 };
            assert_eq!(f.buffer[(sx + sy * 16) as usize], want, "cell ({sx}, {sy})");
        }
    }
}

#[test]
fn bounding_box_contains_all_written_pixels() {
    let v0 = Point2 { x: px(2) + 1000, y: px(1) + 40000 };
    let v1 = Point2 { x: px(7) - 3000, y: px(2) };
    let v2 = Point2 { x: px(3), y: px(7) - 1 };
    let (v0, v1, v2) = if is_ccw(v0, v1, v2) { (v0, v1, v2) } else { (v0, v2, v1) };
    let mut f = Frame::new(8, 8, 1);
    f.draw_triangle(v0, v1, v2, red());
    let lox = pixel_floor(v0.x.min(v1.x).min(v2.x)) as usize;
    let hix = pixel_floor(v0.x.max(v1.x).max(v2.x)) as usize;
    let loy = pixel_floor(v0.y.min(v1.y).min(v2.y)) as usize;
    let hiy = pixel_floor(v0.y.max(v1.y).max(v2.y)) as usize;
    let mut filled: u32 = 0;
    for sy in 0..8usize {
        for sx in 0..8usize {
            if f.buffer[sx + sy * 8] != 0 {
                filled += 1;
                assert!(sx >= lox && sx < hix && sy >= loy && sy < hiy);
            }
        }
    }
    assert!(filled > 0);
}
