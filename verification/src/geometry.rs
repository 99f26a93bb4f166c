//! Rectangles in screen coordinates, monitor exemption checks, and DPI
//! scaling of configured pixel lengths.

use vstd::prelude::*;

verus! {

/// A rectangle in screen coordinates. `left`/`top` is the upper-left corner,
/// `right`/`bottom` the lower-right, as the window manager reports them.
#[derive(Clone, Copy, PartialEq, Eq, Structural, Debug)]
pub struct Rect {
    pub left: i32,
    pub top: i32,
    pub right: i32,
    pub bottom: i32,
}

/// A monitor's full rectangle and its work area (the part not covered by
/// persistent shell chrome such as a taskbar).
#[derive(Clone, Copy, PartialEq, Eq, Structural, Debug)]
pub struct MonitorInfo {
    pub monitor: Rect,
    pub work: Rect,
}

/// Clamps a mathematical integer into the `i32` range.
pub open spec fn sat_i32(v: int) -> int {
    if v < i32::MIN as int {
        i32::MIN as int
    } else if v > i32::MAX as int {
        i32::MAX as int
    } else {
        v
    }
}

/// The bounds the overlay surface occupies: `r` grown by `amount` on every
/// side, each coordinate clamped to the `i32` range.
pub open spec fn spec_inflate(r: Rect, amount: int) -> Rect {
    Rect {
        left: sat_i32(r.left - amount) as i32,
        top: sat_i32(r.top - amount) as i32,
        right: sat_i32(r.right + amount) as i32,
        bottom: sat_i32(r.bottom + amount) as i32,
    }
}

/// True when the window's resolved bounds coincide exactly with the
/// monitor's full rectangle (fullscreen) or its work area (maximized).
pub open spec fn fills_monitor(bounds: Rect, mi: MonitorInfo) -> bool {
    bounds == mi.monitor || bounds == mi.work
}

fn clamp_to_i32(v: i64) -> (r: i32)
    ensures
        r as int == sat_i32(v as int),
{
    if v < i32::MIN as i64 {
        i32::MIN
    } else if v > i32::MAX as i64 {
        i32::MAX
    } else {
        v as i32
    }
}

impl Rect {
    /// This rectangle grown by `amount` pixels on all four sides.
    pub fn inflate(&self, amount: i32) -> (r: Rect)
        requires
            amount >= 0,
        ensures
            r == spec_inflate(*self, amount as int),
    {
        Rect {
            left: clamp_to_i32(self.left as i64 - amount as i64),
            top: clamp_to_i32(self.top as i64 - amount as i64),
            right: clamp_to_i32(self.right as i64 + amount as i64),
            bottom: clamp_to_i32(self.bottom as i64 + amount as i64),
        }
    }

    /// Horizontal extent, clamped to the `i32` range.
    pub fn width(&self) -> (w: i32)
        ensures
            w as int == sat_i32(self.right - self.left),
    {
        clamp_to_i32(self.right as i64 - self.left as i64)
    }

    /// Vertical extent, clamped to the `i32` range.
    pub fn height(&self) -> (h: i32)
        ensures
            h as int == sat_i32(self.bottom - self.top),
    {
        clamp_to_i32(self.bottom as i64 - self.top as i64)
    }
}

/// The overlay rectangle always contains the window bounds it was grown from.
pub proof fn lemma_inflate_contains(r: Rect, amount: int)
    requires
        amount >= 0,
    ensures
        spec_inflate(r, amount).left <= r.left,
        spec_inflate(r, amount).top <= r.top,
        spec_inflate(r, amount).right >= r.right,
        spec_inflate(r, amount).bottom >= r.bottom,
{
}

/// Whether `bounds` fills the monitor or its work area; such windows are
/// exempt from decoration.
pub fn is_monitor_exempt(bounds: &Rect, mi: &MonitorInfo) -> (r: bool)
    ensures
        r == fills_monitor(*bounds, *mi),
{
    *bounds == mi.monitor || *bounds == mi.work
}

/// The platform's baseline DPI: a window at this DPI renders at scale 1.
pub const REFERENCE_DPI: u32 = 96;

/// `ceil(px * dpi / 96)`, clamped to the `i32` range: a configured pixel
/// length scaled to the window's DPI, as the renderer will use it.
pub open spec fn scaled_len(px: int, dpi: int) -> int
    recommends
        px >= 0,
        dpi >= 0,
{
    sat_i32((px * dpi + (REFERENCE_DPI - 1)) / REFERENCE_DPI as int)
}

/// Scales a configured pixel length by the window's DPI, rounding up.
pub fn scale_for_dpi(px: i32, dpi: u32) -> (r: i32)
    requires
        px >= 0,
    ensures
        r as int == scaled_len(px as int, dpi as int),
{
    proof {
        assert(0 <= px as int * dpi as int <= 0x7fffffffi64 * 0xffffffffi64) by (nonlinear_arith)
            requires
                0 <= px <= 0x7fffffff,
                0 <= dpi <= 0xffffffff,
        ;
    }
    let prod: i64 = px as i64 * dpi as i64;
    clamp_to_i32((prod + (REFERENCE_DPI as i64 - 1)) / REFERENCE_DPI as i64)
}

} // verus!
