use stepler_platform::script_output::uia_focus_diagnostics_from_output;
use stepler_platform::hotkeys::WindowsHotkeyListener;
use stepler_platform::platform::HotkeyListener;
use stepler_platform::encoding::decode_utf16le_base64;
use stepler_platform::web_replacement::{fast_preflight_extension, fast_preflight_outcome, fast_preflight_reselect};
use stepler_platform::hotkeys::{VK_F11, VK_F12};
use stepler_platform::keyboard_input::{embedded_terminal_forward_key, should_forward_embedded_terminal_hotkey};
use stepler_platform::diagnostics::{method_diagnostics, surface_diagnostics, ContextDiagnostics};
use stepler_platform::encoding::{decode_base64, encode_base64};
use stepler_platform::hotkeys::{KeyboardControlAction, STEPLER_INJECTED_CONTROL_MAGIC, VK_APPS, VK_LCONTROL};
use stepler_platform::keyboard_input::{keyboard_control_request_events, KeyboardInputMode};
use stepler_platform::layout::{window_layout_poll, WindowLayoutPoll};
use stepler_platform::model::{CorrectionMode, ReplacementPlan, TextContext, TextRange};
use stepler_platform::offsets::{
    adjusted_cursor_after_replacement, byte_offset_to_edit_offset, edit_offset_to_byte_offset,
};
use stepler_platform::platform::{ForegroundTarget, MethodProbe};
use stepler_platform::model::MethodId;
use stepler_platform::probes::{windows_method_probes, ProbeEnvironment};
use stepler_platform::resolver::{MethodResolver, ResolveTraceOutcome};
use stepler_platform::surface::{default_probe_policies, default_surface_policies, surface_policy_for};
use stepler_platform::target_facts::target_facts;
use stepler_platform::web_replacement::{
    web_replaces_entire, web_select_after_copy, web_select_extension, web_select_timing, WebSelectCopy,
};

fn target(app_class: &str, focused_class: &str, title: &str, process_name: Option<&str>) -> ForegroundTarget {
    ForegroundTarget {
        app_class: app_class.to_owned(),
        focused_class: focused_class.to_owned(),
        title: title.to_owned(),
        process_name: process_name.map(str::to_owned),
        window_id: String::from("hwnd:1"),
        control_id: String::from("hwnd:2"),
    }
}

fn no_env() -> ProbeEnvironment {
    ProbeEnvironment {
        xterm_browser_selection_enabled: false,
        xterm_textarea_focused: false,
        terminal_app_marker_active: false,
    }
}

#[test]
fn probe_table_splits_the_known_methods() {
    let all = stepler_platform::all_method_ids();
    let surfaces: Vec<_> = default_surface_policies().into_iter().map(|p| p.surface).collect();
    let probes = default_probe_policies(false);
    assert_eq!(probes.iter().map(|p| p.surface).collect::<Vec<_>>(), surfaces);
    for policy in probes {
        for method in &all {
            let probed = policy.probe_methods.contains(method);
            let suppressed = policy.suppressed_methods.contains(method);
            assert!(probed != suppressed, "{:?} {:?}", policy.surface, method);
            if probed {
                let preferred = surface_policy_for(policy.surface);
                assert!(preferred.pause_methods.context_methods.contains(method)
                    || preferred.scrolllock_methods.context_methods.contains(method));
            }
        }
    }
}

#[test]
fn facts_ignore_ascii_case() {
    let lower = target("chrome_widgetwin_1", "chrome_renderwidgethosthwnd", "jira - confluence", Some("telegram"));
    let upper = target("CHROME_WIDGETWIN_1", "Chrome_RenderWidgetHostHWND", "JIRA - Confluence", Some("TELEGRAM"));
    let facts = target_facts(&lower);
    assert_eq!(target_facts(&upper), facts);
    assert!(facts.is_fast_browser_title);
    assert!(facts.is_telegram_technical_target);
    assert!(facts.is_browser_like_technical_target);
}

#[test]
fn trace_accepts_exactly_what_resolve_chooses() {
    let notepad = target("Notepad", "Edit", "notes.txt - Notepad", Some("notepad"));
    let probes = windows_method_probes(&notepad, &no_env(), false);
    let resolver = MethodResolver::new(default_surface_policies());
    for mode in [CorrectionMode::Pause, CorrectionMode::ScrollLock] {
        let decision = resolver.resolve_for_mode(&notepad, &probes, mode).unwrap();
        let trace = resolver.trace_for_mode(&notepad, &probes, mode);
        assert_eq!(trace.len(), probes.len());
        let accepted: Vec<_> = trace.iter().filter(|e| e.outcome == ResolveTraceOutcome::Accepted).collect();
        assert_eq!(accepted.len(), 1);
        assert_eq!(accepted[0].method, decision.context_method);
        assert_eq!(accepted[0].replacement_method, Some(decision.context_method));
        assert!(trace.iter().all(|e| e.mode == mode));
    }
    let nothing = vec![MethodProbe::unsupported(MethodId::WordCom, "no word")];
    assert!(resolver.resolve_for_mode(&notepad, &nothing, CorrectionMode::Pause).is_err());
    let trace = resolver.trace_for_mode(&notepad, &nothing, CorrectionMode::Pause);
    assert_eq!(trace[0].outcome, ResolveTraceOutcome::UnsupportedProbe);
}

#[test]
fn edit_offsets_convert_and_stop_at_the_end() {
    let text = "a\r\nпривет 🌍";
    let end = text.len();
    let edit = byte_offset_to_edit_offset(text, end).unwrap();
    assert!(edit <= end);
    assert_eq!(edit_offset_to_byte_offset(text, edit), Some(end));
    assert_eq!(byte_offset_to_edit_offset(text, 2), None);
    assert_eq!(edit_offset_to_byte_offset("a привет 🌍", 999), None);
}

#[test]
fn base64_skips_spaces_and_refuses_bad_bytes() {
    assert_eq!(encode_base64(b"abcd").len(), 8);
    assert_eq!(decode_base64("YW Jj\nZA=="), Ok(b"abcd".to_vec()));
    assert!(decode_base64("YW*j").is_err());
    assert!(decode_base64("YQ==YQ==").is_err());
    assert_eq!(decode_base64("YQ== =\n"), Ok(b"a".to_vec()));
}

#[test]
fn keyboard_control_requests_press_and_release_the_control_key() {
    let events = keyboard_control_request_events(KeyboardControlAction::SwitchToRussian);
    assert_eq!(events.len(), 2);
    assert_eq!(events[0].vk, VK_LCONTROL);
    assert!(!events[0].key_up && events[1].key_up);
    assert_eq!(events[0].mode, KeyboardInputMode::VirtualKey);
    assert_eq!(events[1].extra_info, STEPLER_INJECTED_CONTROL_MAGIC as usize);
    assert_eq!(keyboard_control_request_events(KeyboardControlAction::SwitchToNext)[0].vk, VK_APPS);
}

#[test]
fn window_layout_polls_five_times() {
    assert_eq!(window_layout_poll(0, false), WindowLayoutPoll::Wait(40));
    assert_eq!(window_layout_poll(1, true), WindowLayoutPoll::Verified);
    assert_eq!(window_layout_poll(1, false), WindowLayoutPoll::RepostAndWait(120));
    assert_eq!(window_layout_poll(4, false), WindowLayoutPoll::RepostAndWait(900));
    assert_eq!(window_layout_poll(5, false), WindowLayoutPoll::RepostAndGiveUp);
}

#[test]
fn web_select_route_retries_precise_copies_once() {
    assert_eq!(web_select_timing(true), (50, 650));
    assert_eq!(web_select_timing(false), (35, 450));
    assert_eq!(web_select_after_copy(true, false, None, "abc"), WebSelectCopy::Retry);
    assert_eq!(
        web_select_after_copy(true, true, None, "abc"),
        WebSelectCopy::Selected(Some(String::from("abc")))
    );
    assert_eq!(web_select_after_copy(false, false, None, "abc"), WebSelectCopy::Selected(None));
    assert_eq!(
        web_select_after_copy(true, false, Some(String::from("bc")), "abc"),
        WebSelectCopy::Selected(Some(String::from("bc")))
    );
    assert_eq!(web_select_extension(Some("bc"), "abc", "abc", false), Some(1));
    assert_eq!(web_select_extension(Some("bc"), "abc", "abc", true), None);
    assert_eq!(web_select_extension(Some("abc"), "abc", "abc", false), None);

    let context = TextContext::new("hello world");
    let plan = |end: usize| ReplacementPlan {
        range: TextRange::new(6, end),
        replacement_text: String::from("x"),
        reason: String::new(),
        expected_before_text: String::new(),
    };
    assert!(!web_replaces_entire(&context, &plan(11)));
    assert!(web_replaces_entire(&context, &plan(8)));
}

#[test]
fn caret_before_a_reversed_range_stays() {
    assert_eq!(adjusted_cursor_after_replacement(2, TextRange::new(5, 3), 4), 2);
    assert_eq!(adjusted_cursor_after_replacement(7, TextRange::new(3, 5), 4), 9);
}

#[test]
fn method_diagnostics_record_the_whole_surface() {
    let notepad = target("Notepad", "Edit", "notes.txt - Notepad", Some("notepad"));
    let report = method_diagnostics(&notepad, 1, 2, None, &no_env(), false, None, ContextDiagnostics::Skipped);
    assert_eq!(report.surface, surface_diagnostics(&notepad));
    assert!(!report.surface.evidence.is_empty());
}

#[test]
fn uia_focus_reports_read_their_fields() {
    let report = "ok=1\r\nname=Terminal input\r\nclass_name=xterm-helper-textarea\r\nhas_keyboard_focus=1\r\nis_keyboard_focusable=0\r\n";
    let focus = uia_focus_diagnostics_from_output(report).unwrap();
    assert_eq!(focus.name, "Terminal input");
    assert_eq!(focus.class_name, "xterm-helper-textarea");
    assert_eq!(focus.control_type, "");
    assert!(focus.has_keyboard_focus);
    assert!(!focus.is_keyboard_focusable);
    assert_eq!(
        uia_focus_diagnostics_from_output("ok=0\n"),
        Err(stepler_platform::platform::PlatformError::ReplacementUnavailable)
    );
}

#[test]
fn listener_runs_after_its_last_start() {
    let mut listener = WindowsHotkeyListener::default();
    assert!(!listener.is_running());
    assert_eq!(listener.start(), Ok(()));
    assert_eq!(listener.start(), Ok(()));
    assert!(listener.is_running());
    assert_eq!(listener.stop(), Ok(()));
    assert!(!listener.is_running());
}

#[test]
fn ill_formed_utf16_is_named_in_the_error() {
    let lone_surrogate = encode_base64(&[0x00, 0xD8]);
    let error = decode_utf16le_base64(&lone_surrogate).unwrap_err();
    assert!(error.starts_with("invalid UTF-16LE text: "));
}

#[test]
fn fast_preflight_reselects_extends_and_decides() {
    assert_eq!(fast_preflight_reselect(Some("abc"), "abc"), None);
    assert_eq!(fast_preflight_reselect(Some("x"), "a🌍"), Some(3));
    assert_eq!(fast_preflight_extension(Some("bc"), "abc"), Some(1));
    assert_eq!(fast_preflight_extension(Some("abc"), "abc"), None);
    assert_eq!(fast_preflight_extension(None, "abc"), None);
    assert_eq!(fast_preflight_outcome(Some("abc"), "abc"), Ok(()));
    assert!(fast_preflight_outcome(None, "abc").is_err());
}

#[test]
fn embedded_terminal_forwarding_needs_the_text_area() {
    assert!(should_forward_embedded_terminal_hotkey(true, "Codex", "xterm-helper-textarea"));
    assert!(!should_forward_embedded_terminal_hotkey(false, "Codex", "xterm-helper-textarea"));
    assert!(!should_forward_embedded_terminal_hotkey(true, "Notepad", "xterm-helper-textarea"));
    assert!(!should_forward_embedded_terminal_hotkey(true, "Codex", "Edit"));
    assert_eq!(embedded_terminal_forward_key(CorrectionMode::Pause), VK_F11);
    assert_eq!(embedded_terminal_forward_key(CorrectionMode::ScrollLock), VK_F12);
}
