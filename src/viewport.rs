//! Viewport and scissor computation, exact in integers.
use vstd::prelude::*;

verus! {

/// Viewport coordinates are held in units of 1/288 pixel. 288 is a multiple
/// of 9, 16, 18 and 32, so every value of the 16:9 fit is a whole number of
/// units and nothing is rounded.
pub const VIEWPORT_UNITS: u64 = 288;

/// A viewport rectangle; every field is in units of 1/`VIEWPORT_UNITS` pixel.
#[derive(Clone, Copy, Debug, PartialEq, Eq, Structural)]
pub struct Viewport {
    pub x: u64,
    pub y: u64,
    pub width: u64,
    pub height: u64,
}

/// A scissor rectangle in whole pixels.
#[derive(Clone, Copy, Debug, PartialEq, Eq, Structural)]
pub struct ScissorRect {
    pub left: u64,
    pub top: u64,
    pub right: u64,
    pub bottom: u64,
}

/// The window is wider than 16:9 (w/h > 16/9), so the picture is pillarboxed.
pub open spec fn is_pillarbox(width: u32, height: u32) -> bool {
    9 * width > 16 * height
}

/// The largest centred 16:9 rectangle inside a `width` x `height` window,
/// in 1/288 pixel units: full height with side bars when the window is
/// wider than 16:9, full width with top and bottom bars otherwise.
pub open spec fn fit_16_9(width: u32, height: u32) -> Viewport {
    if is_pillarbox(width, height) {
        Viewport { x: (144 * width - 256 * height) as u64, y: 0, width: (512 * height) as u64, height: (288 * height) as u64 }
    } else {
        Viewport { x: 0, y: (144 * height - 81 * width) as u64, width: (288 * width) as u64, height: (162 * width) as u64 }
    }
}

/// The whole window as a viewport, in 1/288 pixel units.
pub open spec fn full_window(width: u32, height: u32) -> Viewport {
    Viewport { x: 0, y: 0, width: (288 * width) as u64, height: (288 * height) as u64 }
}

/// The pixel rectangle a viewport covers, each edge truncated to a whole pixel.
pub open spec fn scissor_of(v: Viewport) -> ScissorRect {
    ScissorRect {
        left: v.x / 288,
        top: v.y / 288,
        right: ((v.x + v.width) / 288) as u64,
        bottom: ((v.y + v.height) / 288) as u64,
    }
}

/// The 16:9 viewport of a `width` x `height` window and its scissor.
/// The viewport keeps the 16:9 aspect, fills one dimension of the window
/// and is centred in the other.
pub fn viewport_16_9(width: u32, height: u32) -> (r: (Viewport, ScissorRect))
    ensures
        r.0 == fit_16_9(width, height),
        r.1 == scissor_of(r.0),
        r.0.width * 9 == r.0.height * 16,
        2 * r.0.x + r.0.width == 288 * width,
        2 * r.0.y + r.0.height == 288 * height,
        is_pillarbox(width, height) ==> r.0.height == 288 * height,
        !is_pillarbox(width, height) ==> r.0.width == 288 * width,
{
    let w = width as u64;
    let h = height as u64;
    let v = if 9 * w > 16 * h {
        Viewport { x: 144 * w - 256 * h, y: 0, width: 512 * h, height: 288 * h }
    } else {
        Viewport { x: 0, y: 144 * h - 81 * w, width: 288 * w, height: 162 * w }
    };
    (v, scissor_for(v))
}

/// The viewport and scissor covering the whole `width` x `height` window.
pub fn full_viewport(width: u32, height: u32) -> (r: (Viewport, ScissorRect))
    ensures
        r.0 == full_window(width, height),
        r.1 == (ScissorRect { left: 0, top: 0, right: width as u64, bottom: height as u64 }),
{
    let v = Viewport { x: 0, y: 0, width: 288 * width as u64, height: 288 * height as u64 };
    (v, scissor_for(v))
}

/// The scissor rectangle of a viewport.
pub fn scissor_for(v: Viewport) -> (r: ScissorRect)
    requires
        v.x + v.width <= u64::MAX,
        v.y + v.height <= u64::MAX,
    ensures
        r == scissor_of(v),
{
    ScissorRect { left: v.x / 288, top: v.y / 288, right: (v.x + v.width) / 288, bottom: (v.y + v.height) / 288 }
}

} // verus!
