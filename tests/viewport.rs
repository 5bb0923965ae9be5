use hdr_test::viewport::{full_viewport, viewport_16_9, ScissorRect, Viewport, VIEWPORT_UNITS};

fn px(units: u64) -> f64 {
    units as f64 / VIEWPORT_UNITS as f64
}

#[test]
fn pillarbox_wide_window() {
    let (v, s) = viewport_16_9(2000, 1000);
    assert_eq!(v.y, 0);
    assert_eq!(px(v.height), 1000.0);
    assert!((px(v.width) - 1777.777).abs() < 0.01);
    assert!((px(v.x) - 111.111).abs() < 0.01);
    assert_eq!(s, ScissorRect { left: 111, top: 0, right: 1888, bottom: 1000 });
}

#[test]
fn letterbox_square_window() {
    let (v, s) = viewport_16_9(1000, 1000);
    assert_eq!(v.x, 0);
    assert_eq!(px(v.width), 1000.0);
    assert_eq!(px(v.height), 562.5);
    assert_eq!(px(v.y), 218.75);
    assert_eq!(s, ScissorRect { left: 0, top: 218, right: 1000, bottom: 781 });
}

#[test]
fn exact_16_9_window_fills() {
    let (v, _) = viewport_16_9(1920, 1080);
    assert_eq!(v, Viewport { x: 0, y: 0, width: 1920 * 288, height: 1080 * 288 });
}

#[test]
fn full_window_viewport() {
    let (v, s) = full_viewport(800, 600);
    assert_eq!(v, Viewport { x: 0, y: 0, width: 800 * 288, height: 600 * 288 });
    assert_eq!(s, ScissorRect { left: 0, top: 0, right: 800, bottom: 600 });
}
