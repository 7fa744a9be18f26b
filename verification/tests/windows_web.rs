use stepler_platform::diagnostics::hotkey_failure_trace_summary_for_target;
use stepler_platform::model::{Capabilities, CorrectionMode, MethodId, ReplacementPlan, TextContext, TextRange};
use stepler_platform::platform::{ForegroundTarget, PlatformError};
use stepler_platform::probes::{
    allow_uia_document_caret_fallback, is_browser_like_target, is_telegram_target,
    is_web_keyboard_technical_target, probe_method_by_id, windows_method_probes,
    windows_runtime_probe_methods, ProbeEnvironment,
};
use stepler_platform::surface::{classify_surface, probe_plan_for, web_keyboard_profile_for_surface, WebKeyboardProfile};
use stepler_platform::web_keyboard::{
    accepted_fast_web_selection_prefix, is_plausible_web_field_text, is_web_keyboard_line_context,
    shifted_web_selection_prefix, web_keyboard_allows_captured_left_for_title,
    web_keyboard_allows_captured_left_text_for_surface, web_keyboard_allows_fast_line_apply_for_title,
    web_keyboard_allows_relaxed_line_preflight_for_title, web_keyboard_captured_left_context,
    web_keyboard_control_prefix, web_keyboard_fast_context, web_keyboard_profile_is_fast,
    web_keyboard_profile_is_rocket, web_keyboard_rocket_active_line_context,
    web_keyboard_rocket_fast_context, web_keyboard_timing_profile, web_keyboard_uses_precise_range_apply,
};
use stepler_platform::web_replacement::{
    finish_web_replan, web_keyboard_captured_left_replacement_text,
    web_keyboard_captured_left_should_retry_selection, web_keyboard_context,
    web_keyboard_sticky_line_replacement_text, WebReplacementStep,
};

fn no_env() -> ProbeEnvironment {
    ProbeEnvironment {
        xterm_browser_selection_enabled: false,
        xterm_textarea_focused: false,
        terminal_app_marker_active: false,
    }
}

fn target(app_class: &str, focused_class: &str, title: &str, process_name: Option<&str>) -> ForegroundTarget {
    ForegroundTarget {
        app_class: String::from(app_class),
        focused_class: String::from(focused_class),
        title: String::from(title),
        process_name: process_name.map(String::from),
        window_id: String::from("hwnd:1"),
        control_id: String::from("hwnd:2"),
    }
}

fn probe_ids(target: &ForegroundTarget) -> Vec<MethodId> {
    windows_method_probes(target, &no_env(), false)
        .iter()
        .map(|probe| probe.method_id)
        .collect::<Vec<_>>()
}

fn sticky_notes() -> ForegroundTarget {
    target(
        "ApplicationFrameWindow",
        "Windows.UI.Input.InputSite.WindowClass",
        "Sticky Notes",
        Some("Microsoft.Notes"),
    )
}

fn web_context(app_id: &str, control_id: &str, text: &str) -> TextContext {
    TextContext {
        app_id: String::from(app_id),
        window_id: String::from("hwnd:1"),
        control_id: String::from(control_id),
        text_snapshot: String::from(text),
        caret_range: TextRange::caret(text.len()),
        selection_range: None,
        capabilities: Capabilities::default(),
    }
}

fn plan(text: &str, expected: &str, replacement: &str, reason: &str) -> ReplacementPlan {
    let start = text.rfind(expected).unwrap();
    ReplacementPlan {
        range: TextRange::new(start, start + expected.len()),
        replacement_text: String::from(replacement),
        reason: String::from(reason),
        expected_before_text: String::from(expected),
    }
}

fn web_keyboard_fast_profile_title_matches(title: &str) -> bool {
    let target = ForegroundTarget {
        app_class: String::from("Chrome_WidgetWin_1"),
        focused_class: String::from("Chrome_WidgetWin_1"),
        title: title.to_owned(),
        process_name: None,
        window_id: String::new(),
        control_id: String::new(),
    };
    web_keyboard_profile_is_fast(web_keyboard_profile_for_surface(classify_surface(&target).kind), true)
}

fn web_keyboard_rocket_fast_profile_title_matches(title: &str) -> bool {
    let target = ForegroundTarget {
        app_class: String::from("Chrome_WidgetWin_1"),
        focused_class: String::from("Chrome_WidgetWin_1"),
        title: title.to_owned(),
        process_name: None,
        window_id: String::new(),
        control_id: String::new(),
    };
    web_keyboard_profile_is_rocket(web_keyboard_profile_for_surface(classify_surface(&target).kind), true)
}

#[test]
fn sticky_notes_runtime_stack_keeps_web_keyboard_as_late_fallback() {
    let method_ids = windows_runtime_probe_methods(&sticky_notes(), false);

    assert!(method_ids.contains(&MethodId::UiAutomationDocumentText));
    assert!(method_ids.contains(&MethodId::WebKeyboardSelection));
    assert!(method_ids.contains(&MethodId::UiAutomationEditableText));
    assert_eq!(method_ids[0], MethodId::UiAutomationDocumentText);
    assert_eq!(method_ids[1], MethodId::WebKeyboardSelection);
}

#[test]
fn sticky_notes_probe_stack_is_not_terminal() {
    let method_ids = probe_ids(&sticky_notes());

    assert!(method_ids.contains(&MethodId::UiAutomationDocumentText));
    assert!(method_ids.contains(&MethodId::WebKeyboardSelection));
    assert!(!method_ids.contains(&MethodId::TerminalClipboardShortcut));
    assert!(!method_ids.contains(&MethodId::XtermKeyboardSelection));
}

#[test]
fn fast_web_keyboard_target_uses_probe_plan_runtime_stack() {
    let target = target("Chrome_WidgetWin_1", "Chrome_WidgetWin_1", "Codex", Some("Codex"));

    let method_ids = probe_ids(&target);
    let plan_method_ids = probe_plan_for(&target, false).probe_methods;
    let runtime_method_ids = windows_runtime_probe_methods(&target, false);

    assert_eq!(
        plan_method_ids,
        vec![MethodId::WebKeyboardSelection, MethodId::UiAutomationEditableText]
    );
    assert_eq!(runtime_method_ids, plan_method_ids);
    assert_eq!(method_ids, runtime_method_ids);
    assert_eq!(method_ids.first(), Some(&MethodId::WebKeyboardSelection));
    assert!(method_ids.contains(&MethodId::UiAutomationEditableText));
    assert!(!method_ids.contains(&MethodId::UiAutomationDocumentText));
    assert!(!method_ids.contains(&MethodId::UiAutomationText));
}

#[test]
fn rocket_chat_search_runtime_stack_prefers_uia_editable_before_keyboard() {
    let target = target("Chrome_WidgetWin_1", "Chrome_WidgetWin_1", "No unread messages", Some("Rocket.Chat"));

    assert_eq!(
        probe_ids(&target),
        vec![MethodId::UiAutomationEditableText, MethodId::WebKeyboardSelection]
    );
}

#[test]
fn outlook_runtime_stacks_do_not_include_generic_fallbacks() {
    let cases = [
        (
            target("rctrl_renwnd32", "_WwG", "Untitled - Message", Some("OUTLOOK")),
            vec![MethodId::WordCom],
        ),
        (
            target("rctrl_renwnd32", "Edit", "Outlook", Some("OUTLOOK")),
            vec![MethodId::Win32EditMessages],
        ),
        (
            target(
                "rctrl_renwnd32",
                "SUPERGRID",
                "Inbox - Zimbra - Alexey Andreev - Outlook",
                Some("OUTLOOK"),
            ),
            vec![MethodId::Win32EditMessages, MethodId::WordCom],
        ),
    ];

    for (target, expected) in cases {
        let method_ids = windows_runtime_probe_methods(&target, false);

        assert_eq!(method_ids, expected);
        assert!(!method_ids.contains(&MethodId::UiAutomationEditableText));
        assert!(!method_ids.contains(&MethodId::UiAutomationDocumentText));
        assert!(!method_ids.contains(&MethodId::UiAutomationText));
        assert!(!method_ids.contains(&MethodId::TerminalClipboardShortcut));
        assert!(!method_ids.contains(&MethodId::ClipboardSelection));
        assert!(!method_ids.contains(&MethodId::SendInput));
    }
}

#[test]
fn qwen_terminal_probe_stack_is_xterm_only() {
    let target = target(
        "CASCADIA_HOSTING_WINDOW_CLASS",
        "Windows.UI.Input.InputSite.WindowClass",
        "stepler-terminal-app qwen",
        Some("WindowsTerminal"),
    );

    let method_ids = probe_ids(&target);

    assert_eq!(method_ids, vec![MethodId::XtermKeyboardSelection]);
    assert!(!method_ids.contains(&MethodId::TerminalClipboardShortcut));
}

#[test]
fn web_keyboard_fast_context_is_line_compatible() {
    assert!(web_keyboard_fast_context("web-keyboard-fast-selection:hwnd:1"));
    assert!(web_keyboard_fast_context("web-keyboard-fast-line-selection:hwnd:1"));
    assert!(is_web_keyboard_line_context("web-keyboard-fast-line-selection:hwnd:1"));
    assert!(!web_keyboard_fast_context("web-keyboard-line-selection:hwnd:1"));
    assert!(web_keyboard_rocket_fast_context("web-keyboard-rocket-fast-selection:hwnd:1"));
    assert!(web_keyboard_fast_context("web-keyboard-rocket-fast-line-selection:hwnd:1"));
    assert!(is_web_keyboard_line_context("web-keyboard-rocket-fast-line-selection:hwnd:1"));
    assert!(web_keyboard_rocket_active_line_context(
        "web-keyboard-rocket-active-line-selection:hwnd:1"
    ));
}

#[test]
fn web_keyboard_captured_left_context_uses_dedicated_apply_path() {
    let control_id = "web-keyboard-captured-left-selection:hwnd:1";

    assert!(web_keyboard_captured_left_context(control_id));
    assert!(!web_keyboard_fast_context(control_id));
    assert!(!is_web_keyboard_line_context(control_id));
    assert!(!web_keyboard_rocket_fast_context(control_id));
    assert!(!web_keyboard_rocket_active_line_context(control_id));
}

#[test]
fn web_keyboard_captured_left_title_policy_blocks_confluence_wiki() {
    let wiki = "Security features - Chips - GS-Labs Wiki — Mozilla Firefox";
    let confluence = "Edit page - Confluence - Mozilla Firefox";
    assert!(!web_keyboard_allows_captured_left_for_title(wiki));
    assert!(!web_keyboard_allows_fast_line_apply_for_title(wiki));
    assert!(!web_keyboard_allows_relaxed_line_preflight_for_title(wiki));
    assert!(!web_keyboard_allows_captured_left_for_title(confluence));
    assert!(!web_keyboard_allows_fast_line_apply_for_title(confluence));
    assert!(!web_keyboard_allows_relaxed_line_preflight_for_title(confluence));
    assert!(web_keyboard_allows_captured_left_for_title("Codex"));
    assert!(web_keyboard_allows_fast_line_apply_for_title("Codex"));
    assert!(web_keyboard_allows_relaxed_line_preflight_for_title("Codex"));
    assert!(web_keyboard_allows_captured_left_for_title("ABC-123 - Jira - Google Chrome"));
    assert!(web_keyboard_allows_fast_line_apply_for_title("ABC-123 - Jira - Google Chrome"));
    assert!(web_keyboard_allows_relaxed_line_preflight_for_title(
        "ABC-123 - Jira - Google Chrome"
    ));
}

#[test]
fn web_keyboard_captured_left_text_policy_blocks_multiline_browser_selection() {
    assert!(web_keyboard_allows_captured_left_text_for_surface(
        "Chrome_WidgetWin_1",
        "Chrome_WidgetWin_1",
        "3 ,thb dct"
    ));
    assert!(!web_keyboard_allows_captured_left_text_for_surface(
        "Chrome_WidgetWin_1",
        "Chrome_WidgetWin_1",
        "v2\n3 ,thb dct"
    ));
    assert!(web_keyboard_allows_captured_left_text_for_surface(
        "ApplicationFrameWindow",
        "Windows.UI.Input.InputSite.WindowClass",
        "Когда pfdbcytn cyjdf\r\nbcgjkmpeq outlookhaging.md"
    ));
}

#[test]
fn web_keyboard_precise_range_apply_is_confluence_line_only() {
    let wiki = "Security features - Chips - GS-Labs Wiki — Mozilla Firefox";
    assert!(web_keyboard_uses_precise_range_apply(wiki, "web-keyboard-fast-line-selection:hwnd:1", true));
    assert!(!web_keyboard_uses_precise_range_apply(wiki, "web-keyboard-fast-line-selection:hwnd:1", false));
    assert!(!web_keyboard_uses_precise_range_apply(wiki, "web-keyboard-selection-selected:hwnd:1", true));
    assert!(!web_keyboard_uses_precise_range_apply(
        "ABC-123 - Jira - Google Chrome",
        "web-keyboard-fast-line-selection:hwnd:1",
        true
    ));
}

#[test]
fn web_keyboard_captured_left_context_trims_trailing_line_breaks_before_planning() {
    let context = web_keyboard_context(
        "ApplicationFrameWindow",
        "Windows.UI.Input.InputSite.WindowClass",
        0x1,
        0x2,
        "web-keyboard-captured-left-selection",
        String::from("\r\nbcgjkmpeq outlookhaging.md\r\n"),
        false,
    );

    assert_eq!(context.text_snapshot, "\r\nbcgjkmpeq outlookhaging.md");
    assert_eq!(context.caret_range, TextRange::caret(context.text_snapshot.len()));
    assert_eq!(context.control_id, "web-keyboard-captured-left-selection:hwnd:2");
    assert_eq!(context.app_id, "ApplicationFrameWindow/Windows.UI.Input.InputSite.WindowClass");
    assert_eq!(context.selection_range, None);
}

#[test]
fn web_keyboard_captured_left_replans_expanded_preflight_selection() {
    let context = web_context(
        "Chrome_WidgetWin_1/Chrome_WidgetWin_1",
        "web-keyboard-captured-left-selection:hwnd:2",
        "jnftn",
    );
    let original_plan = plan("jnftn", "jnftn", "отает", "scrolllock_phrase");

    let step = web_keyboard_captured_left_replacement_text(&context, &original_plan, "ну теперь то hf,jnftn")
        .unwrap();
    let WebReplacementStep::Replan { text, mode, suffix } = step else {
        panic!("expected a fresh plan of the selection");
    };
    assert_eq!(text, "ну теперь то hf,jnftn");
    assert_eq!(mode, CorrectionMode::ScrollLock);
    assert_eq!(suffix, "");

    let replanned = plan(&text, "hf,jnftn", "работает", "scrolllock_phrase");
    let (replacement_text, actual_before_text) = finish_web_replan(&text, &suffix, &replanned).unwrap();

    assert_eq!(actual_before_text, "hf,jnftn");
    assert_eq!(replacement_text, "ну теперь то работает");
}

#[test]
fn web_keyboard_captured_left_scrolllock_rejects_multiline_preflight_prefix() {
    let context = web_context(
        "MozillaWindowClass/MozillaWindowClass",
        "web-keyboard-captured-left-selection:hwnd:2",
        "jnftn",
    );
    let plan = plan("jnftn", "jnftn", "отает", "scrolllock_phrase");

    let error = web_keyboard_captured_left_replacement_text(&context, &plan, "Confluence table above\r\nhf,jnftn")
        .unwrap_err();

    assert!(matches!(
        error,
        PlatformError::ReplacementUnavailableReason(reason)
            if reason.starts_with("web_keyboard_captured_left_preflight multiline_prefix")
    ));
}

#[test]
fn web_keyboard_captured_left_retries_short_suffix_selection() {
    let context = web_context(
        "MozillaWindowClass/MozillaWindowClass",
        "web-keyboard-captured-left-selection:hwnd:2",
        "z cjplfk",
    );

    assert!(web_keyboard_captured_left_should_retry_selection(&context, "cjplfk"));
    assert!(!web_keyboard_captured_left_should_retry_selection(&context, "z cjplfk"));
    assert!(!web_keyboard_captured_left_should_retry_selection(&context, "abc"));
}

#[test]
fn web_keyboard_captured_left_pause_rejects_non_whitespace_preflight_prefix() {
    let text = "\r\nbcgjkmpeq outlookhaging.md";
    let context = web_context(
        "ApplicationFrameWindow/Windows.UI.Input.InputSite.WindowClass",
        "web-keyboard-captured-left-selection:hwnd:2",
        text,
    );
    let plan = plan(text, "bcgjkmpeq", "используй", "pause_word");

    let error = web_keyboard_captured_left_replacement_text(
        &context,
        &plan,
        "Напиши мне, и лучше сразу пришли вывод:\r\nbcgjkmpeq outlookhaging.md",
    )
    .unwrap_err();

    assert!(matches!(
        error,
        PlatformError::ReplacementUnavailableReason(reason)
            if reason.starts_with("web_keyboard_captured_left_preflight non_whitespace_prefix")
    ));
}

#[test]
fn web_keyboard_captured_left_trims_trailing_line_breaks_for_sticky_notes() {
    let context = web_context(
        "ApplicationFrameWindow/Windows.UI.Input.InputSite.WindowClass",
        "web-keyboard-captured-left-selection:hwnd:2",
        ". \r\nbcgjkpeq outlookhaging.md\r\n",
    );
    let core = ". \r\nbcgjkpeq outlookhaging.md";
    let step = web_keyboard_captured_left_replacement_text(
        &context,
        &plan(core, "bcgjkpeq", "исползуй", "pause_word"),
        ". \r\nbcgjkpeq outlookhaging.md\r\n",
    )
    .unwrap();
    let WebReplacementStep::Replan { text, mode, suffix } = step else {
        panic!("the body without its line breaks is planned afresh");
    };
    assert_eq!(text, core);
    assert_eq!(mode, CorrectionMode::Pause);
    assert_eq!(suffix, "\r\n");

    let replanned = plan(&text, "bcgjkpeq", "исползуй", "pause_word");
    let (replacement_text, actual_before_text) = finish_web_replan(&text, &suffix, &replanned).unwrap();

    assert_eq!(actual_before_text, "bcgjkpeq");
    assert_eq!(replacement_text, ". \r\nисползуй outlookhaging.md\r\n");
}

#[test]
fn web_keyboard_sticky_line_replans_expanded_selection() {
    let line = "Когда pfdbcytn cyjdf, главное не перезапускать Outlook сразу.  ";
    let context = web_context(
        "ApplicationFrameWindow/Windows.UI.Input.InputSite.WindowClass",
        "web-keyboard-line-selection:hwnd:2",
        line,
    );
    let plan = plan(line, "pfdbcytn cyjdf,", "зависнет сноваб", "scrolllock_phrase");
    let selected_text = "Предыдущая строка\r\nКогда pfdbcytn cyjdf, главное не перезапускать Outlook сразу.  ";

    let step = web_keyboard_sticky_line_replacement_text(&context, &plan, selected_text).unwrap();
    let WebReplacementStep::Replan { text, mode, suffix } = step else {
        panic!("the whole selected line is planned afresh");
    };
    assert_eq!(text, selected_text);
    assert_eq!(mode, CorrectionMode::ScrollLock);

    let replanned = plan_for(&text, "pfdbcytn cyjdf,", "зависнет сноваб");
    let (replacement_text, actual_before_text) = finish_web_replan(&text, &suffix, &replanned).unwrap();

    assert_eq!(actual_before_text, "pfdbcytn cyjdf,");
    assert_eq!(
        replacement_text,
        "Предыдущая строка\r\nКогда зависнет сноваб главное не перезапускать Outlook сразу.  "
    );
}

fn plan_for(text: &str, expected: &str, replacement: &str) -> ReplacementPlan {
    plan(text, expected, replacement, "scrolllock_phrase")
}

#[test]
fn rocket_active_line_context_does_not_mark_technical_selection_as_user_selection() {
    let context = web_keyboard_context(
        "Chrome_WidgetWin_1",
        "Chrome_RenderWidgetHostHWND",
        0x1,
        0x2,
        "web-keyboard-rocket-active-line-selection",
        String::from("hello ghbdtn"),
        false,
    );

    assert_eq!(context.selection_range, None);
    assert_eq!(context.caret_range, TextRange::caret("hello ghbdtn".len()));
}

#[test]
fn web_keyboard_fast_profile_matches_checked_web_apps() {
    assert!(web_keyboard_fast_profile_title_matches("[CTP-11796] GS-Labs JIRA - Mozilla Firefox"));
    assert!(web_keyboard_fast_profile_title_matches("CVE - Chips - GS-Labs Wiki - Google Chrome"));
    assert!(web_keyboard_fast_profile_title_matches("Нет непрочитанных сообщений"));
    assert!(web_keyboard_rocket_fast_profile_title_matches("Нет непрочитанных сообщений"));
    assert!(web_keyboard_fast_profile_title_matches("2 unread messages - general - GS.Chat"));
    assert!(web_keyboard_fast_profile_title_matches("Codex"));
}

#[test]
fn web_keyboard_timing_profiles_are_profile_specific() {
    let standard = web_keyboard_timing_profile(WebKeyboardProfile::Standard, true);
    let fast = web_keyboard_timing_profile(WebKeyboardProfile::Fast, true);
    let rocket = web_keyboard_timing_profile(WebKeyboardProfile::RocketSearch, true);

    assert_ne!(standard.selected_timeout_ms, fast.selected_timeout_ms);
    assert_eq!(fast, rocket);
    assert!(fast.selected_timeout_ms < standard.selected_timeout_ms);
    assert!(fast.clipboard_timeout_ms < standard.clipboard_timeout_ms);
}

#[test]
fn web_keyboard_control_prefixes_follow_profile_only() {
    assert_eq!(
        web_keyboard_control_prefix("web-keyboard-selection", WebKeyboardProfile::Standard, true),
        "web-keyboard-selection"
    );
    assert_eq!(
        web_keyboard_control_prefix("web-keyboard-selection", WebKeyboardProfile::Fast, true),
        "web-keyboard-fast-selection"
    );
    assert_eq!(
        web_keyboard_control_prefix("web-keyboard-line-selection", WebKeyboardProfile::Fast, true),
        "web-keyboard-fast-line-selection"
    );
    assert_eq!(
        web_keyboard_control_prefix("web-keyboard-selection", WebKeyboardProfile::RocketSearch, true),
        "web-keyboard-rocket-fast-selection"
    );
    assert_eq!(
        web_keyboard_control_prefix("web-keyboard-line-selection", WebKeyboardProfile::RocketSearch, true),
        "web-keyboard-rocket-fast-line-selection"
    );
}

#[test]
fn web_keyboard_technical_target_does_not_expand_unknown_runtime_stack() {
    let target = target("SomeCustomWindow", "SomeCustomControl", "Custom", Some("custom"));

    assert!(!is_web_keyboard_technical_target(&target));
    assert_eq!(
        probe_ids(&target),
        vec![
            MethodId::UiAutomationEditableText,
            MethodId::UiAutomationDocumentText,
            MethodId::UiAutomationText,
        ]
    );
    let plan = probe_plan_for(&target, false);
    assert!(plan.suppressed_methods.contains(&MethodId::ClipboardSelection));
    assert!(plan.suppressed_methods.contains(&MethodId::SendInput));
    assert!(plan.suppressed_methods.contains(&MethodId::WebKeyboardSelection));
}

#[test]
fn excel_cell_editor_gets_only_the_explicit_keyboard_selection_stack() {
    let editor = target("XLMAIN", "EXCEL6", "Book1 - Excel", Some("EXCEL"));

    assert!(is_web_keyboard_technical_target(&editor));
    assert_eq!(probe_ids(&editor), vec![MethodId::WebKeyboardSelection]);

    let workbook = ForegroundTarget {
        focused_class: String::from("EXCEL7"),
        ..editor
    };
    assert!(!is_web_keyboard_technical_target(&workbook));
    assert!(!probe_ids(&workbook).contains(&MethodId::WebKeyboardSelection));
}

#[test]
fn hotkey_failure_trace_summary_includes_probe_and_resolver_boundaries() {
    let target = target("SomeCustomWindow", "SomeCustomControl", "Custom", Some("custom"));

    let summary = hotkey_failure_trace_summary_for_target(
        &target,
        &no_env(),
        false,
        CorrectionMode::Pause,
        "Platform(ReplacementUnavailable)",
    );

    assert!(summary.contains("surface=Unknown"));
    assert!(summary.contains("mode=Pause"));
    assert!(summary.contains("probe_plan=["));
    assert!(summary.contains("runtime=["));
    assert!(summary.contains("probes=["));
    assert!(summary.contains("probe_none=["));
    assert!(summary.contains("suppressed=["));
    assert!(summary.contains("policy_skipped=["));
    assert!(summary.contains("final=operation_failed:Platform(ReplacementUnavailable)"));
}

#[test]
fn web_keyboard_rejects_browser_document_dump_as_field_text() {
    assert!(is_plausible_web_field_text("gjkt"));
    assert!(is_plausible_web_field_text("secure OTP"));
    assert!(!is_plausible_web_field_text(
        "2 unread messages - general\nSkip to main content\ngit"
    ));
    assert!(!is_plausible_web_field_text(&"a".repeat(513)));
}

#[test]
fn shifted_web_selection_prefix_accepts_safe_editor_prefixes() {
    let shifted = |selected: &str, expected: &str| shifted_web_selection_prefix(selected, expected);
    assert_eq!(shifted(" ghbqltncz ", "ghbqltncz ").as_deref(), Some(" "));
    assert_eq!(shifted("1. ыуьпкфз", "ыуьпкфз").as_deref(), Some("1. "));
    assert_eq!(shifted("  12. ыуьпкфз", "ыуьпкфз").as_deref(), Some("  12. "));
    assert_eq!(shifted("xghbqltncz ", "ghbqltncz ").as_deref(), Some("x"));
    assert_eq!(shifted(" ghbqltncz !", "ghbqltncz ").as_deref(), None);
    assert_eq!(shifted("openVAS - ыуьпкфз", "ыуьпкфз").as_deref(), Some("openVAS - "));
    assert_eq!(shifted("jo, Api rk.x ", "rk.x ").as_deref(), Some("jo, Api "));
    assert_eq!(shifted("строка выше\nыуьпкфз", "ыуьпкфз").as_deref(), None);
}

#[test]
fn fast_web_selection_prefix_preserves_safe_editor_prefixes() {
    assert_eq!(
        accepted_fast_web_selection_prefix(Some(" (c,jh "), "(c,jh "),
        Some(String::from(" "))
    );
    assert_eq!(
        accepted_fast_web_selection_prefix(Some("1. ыуьпкфз"), "ыуьпкфз"),
        Some(String::from("1. "))
    );
    assert_eq!(
        accepted_fast_web_selection_prefix(Some("jo, Api rk.x "), "rk.x "),
        Some(String::from("jo, Api "))
    );
    assert_eq!(
        accepted_fast_web_selection_prefix(Some("(c,jh "), "(c,jh "),
        Some(String::new())
    );
    assert_eq!(
        accepted_fast_web_selection_prefix(Some("x(c,jh "), "(c,jh "),
        Some(String::from("x"))
    );
}

#[test]
fn yandex_chrome_widget_is_browser_like() {
    let target = target("Chrome_Yandex_WidgetWin_1", "Chrome_Yandex_WidgetWin_1", "OneDrive", Some("browser"));

    assert!(is_browser_like_target(&target));
    assert!(probe_method_by_id(MethodId::WebKeyboardSelection, &target, &no_env()).is_some());
    let method_ids = probe_ids(&target);
    assert!(!method_ids.contains(&MethodId::ClipboardSelection));
    assert!(!method_ids.contains(&MethodId::SendInput));
}

#[test]
fn telegram_qt_window_uses_keyboard_selection_probe() {
    let target = target("Qt51518QWindowIcon", "Qt51518QWindowIcon", "Contact @ username", Some("Telegram"));

    assert!(is_telegram_target(&target));
    assert!(probe_method_by_id(MethodId::WebKeyboardSelection, &target, &no_env()).is_some());
    let method_ids = probe_ids(&target);
    assert!(!method_ids.contains(&MethodId::ClipboardSelection));
    assert!(!method_ids.contains(&MethodId::SendInput));
}

#[test]
fn uia_text_method_does_not_probe_known_special_controls() {
    let edit = target("Notepad", "Edit", "", None);
    let terminal = target("CASCADIA_HOSTING_WINDOW_CLASS", "Windows.UI.Input.InputSite.WindowClass", "", None);

    assert!(probe_method_by_id(MethodId::UiAutomationText, &edit, &no_env()).is_none());
    assert!(probe_method_by_id(MethodId::UiAutomationText, &terminal, &no_env()).is_none());
}

#[test]
fn generic_risky_methods_do_not_probe_browser_like_controls() {
    let target = target("Chrome_WidgetWin_1", "Chrome_RenderWidgetHostHWND", "Confluence", Some("chrome"));

    let method_ids = probe_ids(&target);

    assert!(!method_ids.contains(&MethodId::UiAutomationText));
    assert!(!method_ids.contains(&MethodId::ClipboardSelection));
    assert!(!method_ids.contains(&MethodId::SendInput));
}

#[test]
fn browser_like_document_text_selection_is_safe_but_caret_fallback_is_blocked() {
    let target = target("Chrome_WidgetWin_1", "Chrome_WidgetWin_1", "Browser-like editor", Some("chrome"));

    assert_eq!(
        probe_method_by_id(MethodId::UiAutomationDocumentText, &target, &no_env()).map(|probe| probe.method_id),
        Some(MethodId::UiAutomationDocumentText)
    );
    assert!(!allow_uia_document_caret_fallback(&target));
    let method_ids = probe_ids(&target);
    assert!(!method_ids.contains(&MethodId::UiAutomationText));
    assert!(!method_ids.contains(&MethodId::ClipboardSelection));
    assert!(!method_ids.contains(&MethodId::SendInput));
}

#[test]
fn sticky_notes_document_text_allows_caret_fallback() {
    let target = sticky_notes();

    assert_eq!(
        probe_method_by_id(MethodId::UiAutomationDocumentText, &target, &no_env()).map(|probe| probe.method_id),
        Some(MethodId::UiAutomationDocumentText)
    );
    assert!(allow_uia_document_caret_fallback(&target));
}
