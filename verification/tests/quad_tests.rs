use framekit::quad::{compute_scale, FullscreenQuad};
use framekit::viewport::Viewport;

#[test]
fn square_content_in_wide_viewport_stretches_y() {
    // Content aspect 1:1, viewport 16:9: before viewport correction the
    // scale is (1, 1); the wide viewport stretches Y by 16/9. Normalized to
    // the dominant axis this is the (0.5625, 1.0) pair: x/y == 9/16.
    let s = compute_scale(1, 1, 16, 9);
    assert_eq!((s.x_num, s.x_den), (1, 1));
    assert_eq!((s.y_num, s.y_den), (16, 9));
    let x = s.x_num as f64 / s.x_den as f64;
    let y = s.y_num as f64 / s.y_den as f64;
    assert!((x / y - 0.5625).abs() < 1e-12);
}

#[test]
fn scale_ratio_equals_content_aspect_over_viewport_aspect() {
    let cases: [(u32, u32, u32, u32); 4] = [
        (1, 1, 16, 9),    // square content, wide viewport
        (400, 300, 300, 400), // wide content, tall viewport
        (300, 400, 16, 9),    // tall content, wide viewport
        (300, 400, 9, 16),    // tall content, tall viewport
    ];
    for (cw, ch, vw, vh) in cases {
        let s = compute_scale(cw, ch, vw, vh);
        // x/y == (cw/ch) / (vw/vh), cross-multiplied to stay exact.
        let lhs = s.x_num as u128 * s.y_den as u128 * (ch as u128 * vw as u128);
        let rhs = s.y_num as u128 * s.x_den as u128 * (cw as u128 * vh as u128);
        assert_eq!(lhs, rhs);
    }
}

#[test]
fn dominant_axis_never_exceeds_unit_scale() {
    let cases: [(u32, u32, u32, u32); 3] = [(1, 1, 16, 9), (100, 50, 20, 80), (7, 13, 13, 7)];
    for (cw, ch, vw, vh) in cases {
        let s = compute_scale(cw, ch, vw, vh);
        if vw >= vh {
            assert!(s.x_num <= s.x_den);
        } else {
            assert!(s.y_num <= s.y_den);
        }
    }
}

#[test]
fn quad_buffer_scales_source_positions() {
    let viewport = Viewport::new(16, 9, true);
    let quad = FullscreenQuad::new(&viewport).unwrap();
    // Square default content in a 16:9 viewport: x scaled by 1, y by 16/9.
    // Source corner (1, 1) is stored as (2, 2) in half units.
    let first = &quad.buffer[0];
    assert_eq!((first.position.x.num, first.position.x.den), (2, 2));
    assert_eq!((first.position.y.num, first.position.y.den), (2 * 16, 2 * 9));
}

#[test]
fn resize_twice_is_bit_identical() {
    let mut viewport = Viewport::new(800, 600, true);
    let mut quad = FullscreenQuad::new(&viewport).unwrap();

    viewport.resize(1024, 768);
    quad.resize_to_viewport(&viewport);
    let after_first = quad.buffer.clone();

    quad.resize_to_viewport(&viewport);
    assert_eq!(after_first, quad.buffer);
}

#[test]
fn resize_to_a_different_viewport_changes_the_buffer() {
    let mut viewport = Viewport::new(800, 600, true);
    let mut quad = FullscreenQuad::new(&viewport).unwrap();
    let before = quad.buffer.clone();

    viewport.resize(600, 800);
    quad.resize_to_viewport(&viewport);
    assert_ne!(before, quad.buffer);

    // The source model is untouched: coming back to the original viewport
    // reproduces the original buffer exactly.
    viewport.resize(800, 600);
    quad.resize_to_viewport(&viewport);
    assert_eq!(before, quad.buffer);
}
