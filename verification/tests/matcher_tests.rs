use glint::matcher::{CompiledPattern, OverlayConfig};

fn config(width: Option<i64>, radius: Option<i64>, patterns: &[&str]) -> OverlayConfig {
    let sources: Vec<String> = patterns.iter().map(|s| s.to_string()).collect();
    OverlayConfig::from_parts(width, radius, &sources)
}

#[test]
fn system_classes_always_exempt() {
    let c = config(Some(3), Some(8), &[]);
    assert!(c.is_exempt("Windows.UI.Core.CoreWindow", "Search"));
    assert!(c.is_exempt("Shell_TrayWnd", ""));
    assert!(c.is_exempt("Shell_SecondaryTrayWnd", ""));
    assert!(c.is_exempt("Progman", "Program Manager"));
    assert!(c.is_exempt("WorkerW", ""));
}

#[test]
fn system_classes_exempt_regardless_of_patterns() {
    // Patterns that match nothing relevant do not stop the built-in list.
    let c = config(None, None, &["^never-matches-anything$"]);
    assert!(c.is_exempt("Shell_TrayWnd", "any title at all"));
    assert!(c.is_exempt("Progman", ""));
}

#[test]
fn system_class_match_must_be_exact() {
    let c = config(None, None, &[]);
    assert!(!c.is_exempt("Shell_TrayWnd2", ""));
    assert!(!c.is_exempt("shell_traywnd", ""));
    assert!(!c.is_exempt("Notepad", "Shell_TrayWnd"));
}

#[test]
fn pattern_matches_probe_text() {
    let c = config(None, None, &["Notepad"]);
    assert!(c.is_exempt("Notepad", "untitled - Notepad"));
    assert!(!c.is_exempt("CabinetWClass", "Documents"));
}

#[test]
fn probe_text_is_title_space_class() {
    // Anchored pattern over the whole probe text: title first, one space,
    // then the class name.
    let c = config(None, None, &["^untitled - Notepad Notepad$"]);
    assert!(c.is_exempt("Notepad", "untitled - Notepad"));
    assert!(!c.is_exempt("Notepad", "untitled - Notepad "));
}

#[test]
fn pattern_can_match_class_part() {
    let c = config(None, None, &["Console$"]);
    assert!(c.is_exempt("CASCADIA_HOSTING_WINDOW_Console", "shell"));
    assert!(!c.is_exempt("ConsoleX", "shell"));
}

#[test]
fn invalid_pattern_is_dropped_and_never_matches() {
    let c = config(None, None, &["(", "Notepad"]);
    // The unclosed group is dropped at load time; the valid one is kept.
    assert_eq!(c.patterns.len(), 1);
    assert!(!c.is_exempt("SomeClass", "(title with parens"));
    assert!(c.is_exempt("Notepad", ""));
}

#[test]
fn all_patterns_invalid_means_no_exemption() {
    let c = config(None, None, &["(", "[", "a{1000000}"]);
    assert_eq!(c.patterns.len(), 0);
    assert!(!c.is_exempt("AnyClass", "any title"));
}

#[test]
fn compile_reports_validity() {
    assert!(CompiledPattern::compile("^a+b*$").is_some());
    assert!(CompiledPattern::compile("foo(bar").is_none());
}

#[test]
fn compiled_pattern_searches_anywhere() {
    let p = CompiledPattern::compile("bc").unwrap();
    assert!(p.matches("abcd"));
    assert!(!p.matches("acbd"));
}

#[test]
fn settings_default_when_absent() {
    let c = config(None, None, &[]);
    assert_eq!(c.border_width, 3);
    assert_eq!(c.corner_radius, 0);
}

#[test]
fn settings_taken_when_representable() {
    let c = config(Some(7), Some(12), &[]);
    assert_eq!(c.border_width, 7);
    assert_eq!(c.corner_radius, 12);
    let z = config(Some(0), Some(0), &[]);
    assert_eq!(z.border_width, 0);
    assert_eq!(z.corner_radius, 0);
}

#[test]
fn settings_default_when_unrepresentable() {
    let c = config(Some(-1), Some(-20), &[]);
    assert_eq!(c.border_width, 3);
    assert_eq!(c.corner_radius, 0);
    let big = config(Some(i64::MAX), Some((i32::MAX as i64) + 1), &[]);
    assert_eq!(big.border_width, 3);
    assert_eq!(big.corner_radius, 0);
    let edge = config(Some(i32::MAX as i64), None, &[]);
    assert_eq!(edge.border_width, i32::MAX);
}
