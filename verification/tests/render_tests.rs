use glint::controller::{decide, OverlayDecision, RenderParams};
use glint::geometry::Rect;
use glint::matcher::OverlayConfig;
use glint::render::{
    stroke_geometry, SurfaceState, BORDER_ALPHA, BORDER_BLUE, BORDER_GREEN, BORDER_RED,
};

fn shown_params() -> RenderParams {
    RenderParams {
        target: Rect { left: 97, top: 97, right: 503, bottom: 403 },
        width: 406,
        height: 306,
        border_width: 3,
        radius: 0,
    }
}

#[test]
fn stroke_is_inset_by_half_the_border_width() {
    // A 406 by 306 buffer with a 3 px border: the path sits 1.5 px
    // (3 half-pixel units) in from every edge, stroked 3 px wide.
    let g = stroke_geometry(406, 306, 3, 0);
    assert_eq!(g.left2, 3);
    assert_eq!(g.top2, 3);
    assert_eq!(g.right2, 2 * 406 - 3);
    assert_eq!(g.bottom2, 2 * 306 - 3);
    assert_eq!(g.stroke_width2, 6);
    assert_eq!(g.radius2, 0);
}

#[test]
fn radius_is_used_unreduced() {
    // The corner radius is not shrunk to compensate for the inset.
    let g = stroke_geometry(100, 80, 4, 9);
    assert_eq!(g.left2, 4);
    assert_eq!(g.right2, 196);
    assert_eq!(g.bottom2, 156);
    assert_eq!(g.radius2, 18);
    assert_eq!(g.stroke_width2, 8);
}

#[test]
fn zero_border_strokes_the_buffer_edge() {
    let g = stroke_geometry(50, 40, 0, 2);
    assert_eq!(g.left2, 0);
    assert_eq!(g.top2, 0);
    assert_eq!(g.right2, 100);
    assert_eq!(g.bottom2, 80);
    assert_eq!(g.stroke_width2, 0);
}

#[test]
fn border_color_is_opaque_light_blue() {
    // #8dbcff at full alpha.
    assert_eq!(BORDER_RED, 0x8d);
    assert_eq!(BORDER_GREEN, 0xbc);
    assert_eq!(BORDER_BLUE, 0xff);
    assert_eq!(BORDER_ALPHA, 0xff);
}

#[test]
fn render_then_hide_twice_is_idempotent() {
    let mut s = SurfaceState::new();
    assert!(!s.visible);
    s.apply_render(&shown_params());
    assert!(s.visible);
    assert_eq!((s.x, s.y, s.width, s.height), (97, 97, 406, 306));
    s.hide_overlay();
    let after_first = s;
    assert!(!s.visible);
    s.hide_overlay();
    assert_eq!(s, after_first);
    // Hiding keeps the position and size for the next show.
    assert_eq!((s.x, s.y, s.width, s.height), (97, 97, 406, 306));
}

#[test]
fn decision_and_stroke_agree_on_buffer_size() {
    let sources: Vec<String> = Vec::new();
    let c = OverlayConfig::from_parts(Some(3), Some(0), &sources);
    let s = glint::controller::WindowSnapshot {
        class_name: "AppWindow".to_string(),
        title: "hello".to_string(),
        is_visible: true,
        is_maximized: false,
        bounds: Rect { left: 100, top: 100, right: 500, bottom: 400 },
        monitor: None,
        dpi: 96,
    };
    match decide(&c, &Some(s)) {
        OverlayDecision::Show(p) => {
            let g = stroke_geometry(p.width, p.height, p.border_width, p.radius);
            assert_eq!(g.right2 - g.left2, 2 * p.width as i64 - 2 * p.border_width as i64);
            assert_eq!(g.bottom2 - g.top2, 2 * p.height as i64 - 2 * p.border_width as i64);
        }
        d => panic!("expected Show, got {:?}", d),
    }
}
