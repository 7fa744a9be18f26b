use stepler_platform::model::{Capabilities, ReplacementPlan, TextContext, TextRange};
use stepler_platform::platform::PlatformError;
use stepler_platform::web_replacement::{
    fast_preflight_error, fast_selection_extendable, fast_selection_matches, missing_selection_units,
    preview_for_error, web_apply_preflight, web_apply_route, web_replan_failed, web_selection_head,
    web_selection_replacement, WebApplyRoute,
};

fn context(app_id: &str, control_id: &str, text: &str, selection: Option<TextRange>) -> TextContext {
    TextContext {
        app_id: String::from(app_id),
        window_id: String::from("hwnd:A"),
        control_id: String::from(control_id),
        text_snapshot: String::from(text),
        caret_range: TextRange::caret(text.len()),
        selection_range: selection,
        capabilities: Capabilities::default(),
    }
}

fn plan(text: &str, expected: &str, replacement: &str) -> ReplacementPlan {
    let start = text.find(expected).unwrap();
    ReplacementPlan {
        range: TextRange::new(start, start + expected.len()),
        replacement_text: String::from(replacement),
        reason: String::from("test"),
        expected_before_text: String::from(expected),
    }
}

#[test]
fn previews_escape_line_breaks_and_cut_long_text() {
    assert_eq!(preview_for_error("a\r\nb", 40), "a\\r\\nb");
    assert_eq!(preview_for_error("abcdef", 3), "abc...");
    assert_eq!(preview_for_error("привет", 6), "привет");
}

#[test]
fn apply_routes_follow_the_capture() {
    let route = |control: &str, selection: Option<TextRange>| {
        web_apply_route(&context("Chrome/Chrome", control, "x", selection))
    };
    assert_eq!(route("web-keyboard-rocket-active-line-selection:hwnd:1", None), WebApplyRoute::RocketActiveLine);
    assert_eq!(
        route("web-keyboard-selection-selected:hwnd:1", Some(TextRange::new(0, 1))),
        WebApplyRoute::TypeOverSelection
    );
    assert_eq!(route("web-keyboard-captured-left-selection:hwnd:1", None), WebApplyRoute::CapturedLeft);
    assert_eq!(route("web-keyboard-rocket-fast-selection:hwnd:1", None), WebApplyRoute::Fast { rocket: true });
    assert_eq!(route("web-keyboard-fast-line-selection:hwnd:1", None), WebApplyRoute::Fast { rocket: false });
    assert_eq!(route("web-keyboard-selection:hwnd:1", None), WebApplyRoute::Select { precise: true });
    assert_eq!(route("web-keyboard-left:hwnd:1", None), WebApplyRoute::Select { precise: false });
    let sticky = context(
        "ApplicationFrameWindow/Windows.UI.Input.InputSite.WindowClass",
        "web-keyboard-line-selection:hwnd:1",
        "x",
        None,
    );
    assert_eq!(web_apply_route(&sticky), WebApplyRoute::StickyLine);
}

#[test]
fn apply_preflight_names_each_refusal() {
    let text = "hello ghbdtn";
    let good = context("A/B", "web-keyboard-selection:hwnd:1", text, None);
    assert_eq!(web_apply_preflight(&good, &plan(text, "ghbdtn", "привет")).unwrap(), (String::from("ghbdtn"), 0xA));

    let mut bad_range = plan(text, "ghbdtn", "привет");
    bad_range.range = TextRange::new(0, 99);
    assert_eq!(
        web_apply_preflight(&good, &bad_range).unwrap_err(),
        PlatformError::ReplacementUnavailableReason(String::from("web_keyboard_preflight invalid_range"))
    );

    let mut mismatch = plan(text, "ghbdtn", "привет");
    mismatch.expected_before_text = String::from("other");
    assert_eq!(
        web_apply_preflight(&good, &mismatch).unwrap_err(),
        PlatformError::ReplacementUnavailableReason(String::from(
            "web_keyboard_preflight plan_expected=other actual_range=ghbdtn"
        ))
    );

    let no_window = TextContext { window_id: String::from("nope"), ..good };
    assert_eq!(
        web_apply_preflight(&no_window, &plan(text, "ghbdtn", "привет")).unwrap_err(),
        PlatformError::ReplacementUnavailableReason(String::from("web_keyboard_preflight invalid_hwnd"))
    );
}

#[test]
fn selection_replacement_rewrites_the_whole_text_unless_the_range_ends_it() {
    let text = "ghbdtn vbh";
    let ctx = context("A/B", "web-keyboard-selection:hwnd:1", text, None);

    assert_eq!(
        web_selection_replacement(&ctx, &plan(text, "ghbdtn", "привет"), "ghbdtn").unwrap(),
        (String::from("привет vbh"), String::from(text))
    );
    assert_eq!(
        web_selection_replacement(&ctx, &plan(text, "vbh", "мир"), "vbh").unwrap(),
        (String::from("мир"), String::from("vbh"))
    );
}

#[test]
fn short_selections_are_widened_by_missing_units() {
    assert_eq!(missing_selection_units("bdtn", "ghbdtn"), Some(2));
    assert_eq!(missing_selection_units("ghbdtn", "ghbdtn"), None);
    assert_eq!(missing_selection_units("n", "0123456789n"), None);
    assert_eq!(missing_selection_units("", "abc"), None);
    assert_eq!(missing_selection_units("xyz", "abc"), None);
}

#[test]
fn selection_heads_are_kept_or_refused() {
    assert_eq!(web_selection_head(Some("ghbdtn"), "ghbdtn", "ghbdtn", false).unwrap(), "");
    assert_eq!(web_selection_head(Some("1. ghbdtn"), "ghbdtn", "ghbdtn", false).unwrap(), "1. ");
    assert_eq!(
        web_selection_head(Some("1. ghbdtn"), "ghbdtn", "ghbdtn", true).unwrap_err(),
        PlatformError::ReplacementUnavailableReason(String::from(
            "web_keyboard_preflight expected=ghbdtn actual=1. ghbdtn"
        ))
    );
    assert_eq!(
        web_selection_head(None, "ghbdtn", "ghbdtn", false).unwrap_err(),
        PlatformError::ReplacementUnavailableReason(String::from(
            "web_keyboard_preflight expected=ghbdtn actual=<none>"
        ))
    );
}

#[test]
fn fast_profile_checks() {
    assert!(fast_selection_matches(Some("abc"), "abc"));
    assert!(!fast_selection_matches(None, "abc"));
    assert!(fast_selection_extendable(Some("bc"), "abc"));
    assert!(!fast_selection_extendable(Some("abc"), "abc"));
    assert!(!fast_selection_extendable(Some(""), "abc"));
    assert_eq!(
        fast_preflight_error("abc", None),
        PlatformError::ReplacementUnavailableReason(String::from(
            "web_keyboard_fast_preflight expected=abc actual=<none>"
        ))
    );
    assert_eq!(
        web_replan_failed(true, "NoTextToReplace", "a\nb"),
        PlatformError::ReplacementUnavailableReason(String::from(
            "web_keyboard_sticky_line_replan_failed error=NoTextToReplace selected=a\\nb"
        ))
    );
}
