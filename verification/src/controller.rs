//! The Overlay Controller: on every qualifying desktop event it re-evaluates
//! the foreground window against the Ignore Matcher and the Geometry
//! Resolver and decides whether the overlay surface is hidden or shown, and
//! with what rectangle, stroke width and corner radius.

use vstd::prelude::*;
use crate::geometry::{Rect, MonitorInfo, sat_i32, spec_inflate, fills_monitor, scaled_len,
    scale_for_dpi, is_monitor_exempt};
use crate::matcher::{OverlayConfig, spec_is_exempt};

verus! {

/// Everything the controller reads of the foreground window, resolved once
/// per event so that the exemption check and the render use the same bounds.
pub struct WindowSnapshot {
    pub class_name: String,
    pub title: String,
    pub is_visible: bool,
    pub is_maximized: bool,
    /// The extended frame bounds when the compositor reports them, the plain
    /// window rectangle otherwise.
    pub bounds: Rect,
    /// The window's monitor, when the query succeeded; `None` degrades to
    /// treating the window as non-exempt.
    pub monitor: Option<MonitorInfo>,
    pub dpi: u32,
}

/// What the renderer is invoked with when the overlay is shown.
#[derive(Clone, Copy, PartialEq, Eq, Structural, Debug)]
pub struct RenderParams {
    /// The screen rectangle the surface occupies: the window bounds grown by
    /// the scaled border width on every side.
    pub target: Rect,
    /// Buffer width, `target.right - target.left` clamped to `i32`.
    pub width: i32,
    /// Buffer height, `target.bottom - target.top` clamped to `i32`.
    pub height: i32,
    /// The configured border width scaled to the window's DPI, rounded up.
    pub border_width: i32,
    /// The scaled corner radius; zero for a maximized window.
    pub radius: i32,
}

/// The controller's verdict for one event.
#[derive(Clone, Copy, PartialEq, Eq, Structural, Debug)]
pub enum OverlayDecision {
    Hide,
    Show(RenderParams),
}

/// The render parameters for a window that qualifies for a border.
pub open spec fn spec_render_params(config: OverlayConfig, snap: WindowSnapshot) -> RenderParams {
    let bw = scaled_len(config.border_width as int, snap.dpi as int);
    let radius = if snap.is_maximized {
        0
    } else {
        scaled_len(config.corner_radius as int, snap.dpi as int)
    };
    let target = spec_inflate(snap.bounds, bw);
    RenderParams {
        target,
        width: sat_i32(target.right - target.left) as i32,
        height: sat_i32(target.bottom - target.top) as i32,
        border_width: bw as i32,
        radius: radius as i32,
    }
}

/// The decision for a resolved foreground window: hide when it is invisible,
/// exempt by class or pattern, or fills its monitor or work area; otherwise
/// show a border at the DPI-scaled width and radius.
pub open spec fn spec_decide(config: OverlayConfig, snap: WindowSnapshot) -> OverlayDecision {
    if !snap.is_visible {
        OverlayDecision::Hide
    } else if spec_is_exempt(config.spec_patterns(), snap.class_name@, snap.title@) {
        OverlayDecision::Hide
    } else if snap.monitor matches Some(mi) && fills_monitor(snap.bounds, mi) {
        OverlayDecision::Hide
    } else {
        OverlayDecision::Show(spec_render_params(config, snap))
    }
}

/// The decision when the foreground window may be absent: no foreground
/// window means the overlay hides.
pub open spec fn spec_decide_opt(config: OverlayConfig, snap: Option<WindowSnapshot>) -> OverlayDecision {
    match snap {
        Some(s) => spec_decide(config, s),
        None => OverlayDecision::Hide,
    }
}

/// Re-evaluates one event: the executable decision, equal to `spec_decide_opt`.
pub fn decide(config: &OverlayConfig, snap: &Option<WindowSnapshot>) -> (d: OverlayDecision)
    requires
        config.border_width >= 0,
        config.corner_radius >= 0,
    ensures
        d == spec_decide_opt(*config, *snap),
{
    let s = match snap {
        Some(s) => s,
        None => {
            return OverlayDecision::Hide;
        },
    };
    if !s.is_visible {
        return OverlayDecision::Hide;
    }
    if config.is_exempt(s.class_name.as_str(), s.title.as_str()) {
        return OverlayDecision::Hide;
    }
    match &s.monitor {
        Some(mi) => {
            if is_monitor_exempt(&s.bounds, mi) {
                return OverlayDecision::Hide;
            }
        },
        None => {},
    }
    let bw = scale_for_dpi(config.border_width, s.dpi);
    let radius: i32 = if s.is_maximized {
        0
    } else {
        scale_for_dpi(config.corner_radius, s.dpi)
    };
    let target = s.bounds.inflate(bw);
    OverlayDecision::Show(
        RenderParams {
            target,
            width: target.width(),
            height: target.height(),
            border_width: bw,
            radius,
        },
    )
}

/// The two event classes the controller reacts to.
#[derive(Clone, Copy, PartialEq, Eq, Structural, Debug)]
pub enum OverlayEvent {
    /// The OS reported a new foreground window.
    ForegroundChanged,
    /// Some window moved or resized.
    LocationChanged,
}

/// Whether an event triggers re-evaluation: a foreground change always does;
/// a location change only for the current foreground window, and never for
/// the overlay's own surface.
pub open spec fn spec_should_reevaluate(
    event: OverlayEvent,
    event_window: u64,
    foreground_window: u64,
    overlay_window: u64,
) -> bool {
    match event {
        OverlayEvent::ForegroundChanged => true,
        OverlayEvent::LocationChanged => event_window == foreground_window && event_window
            != overlay_window,
    }
}

/// Filters one delivered event; only a `true` result leads to `decide`.
pub fn should_reevaluate(
    event: OverlayEvent,
    event_window: u64,
    foreground_window: u64,
    overlay_window: u64,
) -> (r: bool)
    ensures
        r == spec_should_reevaluate(event, event_window, foreground_window, overlay_window),
{
    match event {
        OverlayEvent::ForegroundChanged => true,
        OverlayEvent::LocationChanged => event_window == foreground_window && event_window
            != overlay_window,
    }
}

/// The controller's visible/hidden cycle.
#[derive(Clone, Copy, PartialEq, Eq, Structural, Debug)]
pub enum OverlayState {
    Hidden,
    Shown(RenderParams),
}

/// The state a decision leaves the controller in.
pub open spec fn spec_apply(d: OverlayDecision) -> OverlayState {
    match d {
        OverlayDecision::Hide => OverlayState::Hidden,
        OverlayDecision::Show(p) => OverlayState::Shown(p),
    }
}

/// The controller proper: the immutable configuration and the current state.
pub struct Controller {
    pub config: OverlayConfig,
    pub state: OverlayState,
}

impl Controller {
    /// The initial state is `Hidden`.
    pub fn new(config: OverlayConfig) -> (c: Controller)
        ensures
            c.config == config,
            c.state == OverlayState::Hidden,
    {
        Controller { config, state: OverlayState::Hidden }
    }

    /// Re-evaluates one qualifying event: decides from the snapshot, records
    /// the new state, and returns the decision for the caller to act on
    /// (hide the surface, or render with the returned parameters).
    pub fn update(&mut self, snap: &Option<WindowSnapshot>) -> (d: OverlayDecision)
        requires
            old(self).config.border_width >= 0,
            old(self).config.corner_radius >= 0,
        ensures
            d == spec_decide_opt(old(self).config, *snap),
            final(self).state == spec_apply(d),
            final(self).config == old(self).config,
    {
        let d = decide(&self.config, snap);
        self.state = match d {
            OverlayDecision::Hide => OverlayState::Hidden,
            OverlayDecision::Show(p) => OverlayState::Shown(p),
        };
        d
    }
}

/// A window that fills its monitor's full rectangle or work area is never
/// decorated: the decision is `Hide`, whatever border width and radius are
/// configured.
pub proof fn lemma_fullscreen_always_hidden(config: OverlayConfig, snap: WindowSnapshot)
    requires
        snap.monitor matches Some(mi) && (snap.bounds == mi.monitor || snap.bounds == mi.work),
    ensures
        spec_decide(config, snap) is Hide,
        spec_apply(spec_decide(config, snap)) == OverlayState::Hidden,
{
}

/// The overlay rectangle always contains the window bounds it decorates.
pub proof fn lemma_overlay_rect_contains_bounds(config: OverlayConfig, snap: WindowSnapshot)
    requires
        config.border_width >= 0,
        spec_decide(config, snap) is Show,
    ensures
        spec_decide(config, snap) matches OverlayDecision::Show(p) ==> {
            &&& p.target.left <= snap.bounds.left
            &&& p.target.top <= snap.bounds.top
            &&& p.target.right >= snap.bounds.right
            &&& p.target.bottom >= snap.bounds.bottom
        },
{
    vstd::arithmetic::mul::lemma_mul_nonnegative(config.border_width as int, snap.dpi as int);
    crate::geometry::lemma_inflate_contains(
        snap.bounds,
        scaled_len(config.border_width as int, snap.dpi as int),
    );
}

/// For a shown window the stroke width is `ceil(border_width * dpi / 96)`
/// and the radius is zero when maximized, `ceil(corner_radius * dpi / 96)`
/// otherwise (each clamped to the `i32` range).
pub proof fn lemma_shown_scaling(config: OverlayConfig, snap: WindowSnapshot)
    requires
        spec_decide(config, snap) is Show,
    ensures
        spec_decide(config, snap) matches OverlayDecision::Show(p) ==> {
            &&& p.border_width == scaled_len(config.border_width as int, snap.dpi as int)
            &&& p.radius == if snap.is_maximized {
                0int
            } else {
                scaled_len(config.corner_radius as int, snap.dpi as int)
            }
            &&& p.target == spec_inflate(snap.bounds, p.border_width as int)
        },
{
}

} // verus!
