//! The Overlay Renderer's geometry and the surface model: the stroke of the
//! rounded rectangle painted into the per-pixel-alpha buffer, the fixed
//! border color, and the show/hide state of the compositor surface.

use vstd::prelude::*;
use crate::controller::RenderParams;

verus! {

/// Border color `#8dbcff`, fully opaque, as 8-bit channels. With full alpha
/// the premultiplied channels equal the straight ones.
pub const BORDER_RED: u8 = 141;

pub const BORDER_GREEN: u8 = 188;

pub const BORDER_BLUE: u8 = 255;

pub const BORDER_ALPHA: u8 = 255;

/// The rounded-rectangle stroke to paint into a `width` by `height` buffer,
/// in half-pixel units so that the half-stroke inset stays exact in
/// integers: a coordinate `c2` here means `c2 / 2` pixels.
///
/// The stroke is centered on its path, so the path is inset by half the
/// stroke width from the buffer edges to keep the painted border inside the
/// buffer. The corner radius is used as requested, not reduced for the
/// inset: that is the intended visual, not an oversight.
#[derive(Clone, Copy, PartialEq, Eq, Structural, Debug)]
pub struct StrokeGeometry {
    pub left2: i64,
    pub top2: i64,
    pub right2: i64,
    pub bottom2: i64,
    pub radius2: i64,
    pub stroke_width2: i64,
}

/// The stroke geometry for a buffer of `width` by `height` pixels, a border
/// `border_width` pixels thick and a corner radius of `radius` pixels.
pub open spec fn spec_stroke_geometry(
    width: int,
    height: int,
    border_width: int,
    radius: int,
) -> StrokeGeometry {
    StrokeGeometry {
        left2: border_width as i64,
        top2: border_width as i64,
        right2: (2 * width - border_width) as i64,
        bottom2: (2 * height - border_width) as i64,
        radius2: (2 * radius) as i64,
        stroke_width2: (2 * border_width) as i64,
    }
}

/// Computes the stroke path: inset by half the border width from the buffer
/// edges on every side, stroked at the full border width, with the radius
/// as requested.
pub fn stroke_geometry(width: i32, height: i32, border_width: i32, radius: i32) -> (g:
    StrokeGeometry)
    requires
        border_width >= 0,
        radius >= 0,
    ensures
        g == spec_stroke_geometry(width as int, height as int, border_width as int, radius as int),
{
    StrokeGeometry {
        left2: border_width as i64,
        top2: border_width as i64,
        right2: 2 * (width as i64) - (border_width as i64),
        bottom2: 2 * (height as i64) - (border_width as i64),
        radius2: 2 * (radius as i64),
        stroke_width2: 2 * (border_width as i64),
    }
}

/// The mutable attributes of the single compositor surface: whether it is
/// composited, and where it sits. Position and size change only on a render;
/// hiding keeps them, so the operation is cheap and idempotent.
#[derive(Clone, Copy, PartialEq, Eq, Structural, Debug)]
pub struct SurfaceState {
    pub visible: bool,
    pub x: i32,
    pub y: i32,
    pub width: i32,
    pub height: i32,
}

/// The state after a hide: invisible, everything else kept.
pub open spec fn spec_hide(s: SurfaceState) -> SurfaceState {
    SurfaceState { visible: false, ..s }
}

/// The state after a successful render: visible at the decision's target
/// rectangle, with the decision's buffer size.
pub open spec fn spec_shown(p: RenderParams) -> SurfaceState {
    SurfaceState {
        visible: true,
        x: p.target.left,
        y: p.target.top,
        width: p.width,
        height: p.height,
    }
}

impl SurfaceState {
    /// The surface as it exists right after startup: created but not yet
    /// composited anywhere.
    pub fn new() -> (s: SurfaceState)
        ensures
            s == (SurfaceState { visible: false, x: 0, y: 0, width: 0, height: 0 }),
    {
        SurfaceState { visible: false, x: 0, y: 0, width: 0, height: 0 }
    }

    /// Takes the surface out of the composited state without destroying it.
    pub fn hide_overlay(&mut self)
        ensures
            *final(self) == spec_hide(*old(self)),
    {
        self.visible = false;
    }

    /// Records a successful render at the decision's rectangle.
    pub fn apply_render(&mut self, p: &RenderParams)
        ensures
            *final(self) == spec_shown(*p),
    {
        self.visible = true;
        self.x = p.target.left;
        self.y = p.target.top;
        self.width = p.width;
        self.height = p.height;
    }
}

/// Hiding is idempotent: a second hide changes nothing, and the surface
/// stays where it was.
pub proof fn lemma_hide_idempotent(s: SurfaceState)
    ensures
        spec_hide(spec_hide(s)) == spec_hide(s),
        spec_hide(s).visible == false,
        spec_hide(s).x == s.x,
        spec_hide(s).y == s.y,
        spec_hide(s).width == s.width,
        spec_hide(s).height == s.height,
{
}

} // verus!
