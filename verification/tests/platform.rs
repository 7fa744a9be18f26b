use stepler_platform::{
    adapter_contract, all_method_ids, split_preferences, web_keyboard_profile_for_surface,
    CorrectionMode, ForegroundTarget, MethodId, MethodProbe, MethodResolver, ProbeSafety,
    ResolveError, ResolveTraceOutcome, SurfaceKind, SurfacePolicy, WebKeyboardProfile,
};

#[test]
fn resolver_prefers_win32_edit_for_edit_controls() {
    let resolver = MethodResolver::default();
    let target = target("Notepad", "Edit");
    let probes = vec![
        MethodProbe::risky(MethodId::ClipboardSelection, "clipboard fallback"),
        MethodProbe::safe(MethodId::Win32EditMessages, "edit control"),
    ];

    let decision = resolver.resolve(&target, &probes).unwrap();

    assert_eq!(decision.context_method, MethodId::Win32EditMessages);
    assert_eq!(decision.replacement_method, MethodId::Win32EditMessages);
    assert_eq!(decision.safety, ProbeSafety::Safe);
}

#[test]
fn resolver_blocks_risky_terminal_clipboard_for_windows_terminal() {
    let resolver = MethodResolver::default();
    let target = target(
        "CASCADIA_HOSTING_WINDOW_CLASS",
        "Windows.UI.Input.InputSite.WindowClass",
    );
    let probes = vec![MethodProbe::risky(
        MethodId::TerminalClipboardShortcut,
        "terminal shortcut",
    )];

    let error = resolver.resolve(&target, &probes).unwrap_err();

    assert_eq!(
        error,
        ResolveError::ForbiddenByPolicy(MethodId::TerminalClipboardShortcut)
    );
}

#[test]
fn resolver_allows_terminal_clipboard_for_cmd_inside_windows_terminal() {
    let resolver = MethodResolver::default();
    let mut target = target(
        "CASCADIA_HOSTING_WINDOW_CLASS",
        "Windows.UI.Input.InputSite.WindowClass",
    );
    target.title = String::from("C:\\WINDOWS\\system32\\cmd.exe");
    let probes = vec![MethodProbe::risky(
        MethodId::TerminalClipboardShortcut,
        "terminal shortcut",
    )];

    let decision = resolver.resolve(&target, &probes).unwrap();

    assert_eq!(decision.context_method, MethodId::TerminalClipboardShortcut);
    assert_eq!(
        decision.replacement_method,
        MethodId::TerminalClipboardShortcut
    );
}

#[test]
fn resolver_forbids_generic_clipboard_for_browser_policy() {
    let resolver = MethodResolver::default();
    let target = target("Chrome_WidgetWin_1", "Chrome_RenderWidgetHostHWND");
    let probes = vec![MethodProbe::risky(
        MethodId::ClipboardSelection,
        "clipboard fallback",
    )];

    let error = resolver.resolve(&target, &probes).unwrap_err();

    assert_eq!(
        error,
        ResolveError::ForbiddenByPolicy(MethodId::ClipboardSelection)
    );
}

#[test]
fn resolver_trace_explains_policy_rejections_and_acceptance() {
    let resolver = MethodResolver::default();
    let mut target = target("Chrome_WidgetWin_1", "Chrome_WidgetWin_1");
    target.title = String::from("Codex");
    let probes = vec![
        MethodProbe::risky(MethodId::ClipboardSelection, "clipboard fallback"),
        MethodProbe::safe(MethodId::UiAutomationDocumentText, "uia document"),
        MethodProbe::safe(MethodId::WebKeyboardSelection, "web keyboard"),
    ];

    let trace = resolver.trace_for_mode(&target, &probes, CorrectionMode::Pause);

    assert_eq!(trace[0].method, MethodId::WebKeyboardSelection);
    assert_eq!(trace[0].outcome, ResolveTraceOutcome::Accepted);
    assert!(trace
        .iter()
        .any(|entry| entry.method == MethodId::UiAutomationDocumentText
            && entry.outcome == ResolveTraceOutcome::ForbiddenByPolicy));
    assert!(trace
        .iter()
        .any(|entry| entry.method == MethodId::ClipboardSelection
            && entry.outcome == ResolveTraceOutcome::ForbiddenByPolicy));
}

#[test]
fn resolver_prefers_word_com_for_word_policy() {
    let resolver = MethodResolver::default();
    let mut target = target("OpusApp", "_WwG");
    target.process_name = Some(String::from("WINWORD"));
    let probes = vec![
        MethodProbe::safe(MethodId::UiAutomationText, "uia fallback"),
        MethodProbe::safe(MethodId::WordCom, "word object model"),
    ];

    let decision = resolver.resolve(&target, &probes).unwrap();

    assert_eq!(decision.context_method, MethodId::WordCom);
    assert_eq!(decision.replacement_method, MethodId::WordCom);
}

#[test]
fn resolver_blocks_generic_clipboard_for_word_policy() {
    let resolver = MethodResolver::default();
    let target = target("OpusApp", "_WwG");
    let probes = vec![MethodProbe::risky(
        MethodId::ClipboardSelection,
        "clipboard fallback",
    )];

    let error = resolver.resolve(&target, &probes).unwrap_err();

    assert_eq!(
        error,
        ResolveError::ForbiddenByPolicy(MethodId::ClipboardSelection)
    );
}

#[test]
fn resolver_uses_xterm_keyboard_for_qwen_inside_windows_terminal() {
    let resolver = MethodResolver::default();
    let mut target = target(
        "CASCADIA_HOSTING_WINDOW_CLASS",
        "Windows.UI.Input.InputSite.WindowClass",
    );
    target.title = String::from("Qwen CLI");
    let probes = vec![
        MethodProbe::risky(MethodId::TerminalClipboardShortcut, "terminal shortcut"),
        MethodProbe::safe(MethodId::XtermKeyboardSelection, "xterm keyboard"),
    ];

    let decision = resolver.resolve(&target, &probes).unwrap();

    assert_eq!(decision.context_method, MethodId::XtermKeyboardSelection);
    assert_eq!(
        decision.replacement_method,
        MethodId::XtermKeyboardSelection
    );
}

#[test]
fn resolver_blocks_terminal_clipboard_for_qwen_inside_windows_terminal() {
    let resolver = MethodResolver::default();
    let mut target = target(
        "CASCADIA_HOSTING_WINDOW_CLASS",
        "Windows.UI.Input.InputSite.WindowClass",
    );
    target.title = String::from("Qwen CLI");
    let probes = vec![MethodProbe::risky(
        MethodId::TerminalClipboardShortcut,
        "terminal shortcut",
    )];

    let error = resolver.resolve(&target, &probes).unwrap_err();

    assert_eq!(
        error,
        ResolveError::ForbiddenByPolicy(MethodId::TerminalClipboardShortcut)
    );
}

#[test]
fn resolver_allows_xterm_keyboard_selection_inside_windows_terminal() {
    let resolver = MethodResolver::default();
    let mut target = target(
        "CASCADIA_HOSTING_WINDOW_CLASS",
        "Windows.UI.Input.InputSite.WindowClass",
    );
    target.title = String::from("Windows PowerShell");
    let probes = vec![MethodProbe::safe(
        MethodId::XtermKeyboardSelection,
        "xterm textarea keyboard selection with terminal copy/paste shortcuts",
    )];

    let decision = resolver.resolve(&target, &probes).unwrap();

    assert_eq!(decision.context_method, MethodId::XtermKeyboardSelection);
    assert_eq!(
        decision.replacement_method,
        MethodId::XtermKeyboardSelection
    );
}

#[test]
fn resolver_prefers_word_com_for_outlook_policy() {
    let resolver = MethodResolver::default();
    let mut target = target("rctrl_renwnd32", "_WwG");
    target.process_name = Some(String::from("OUTLOOK"));
    let probes = vec![
        MethodProbe::safe(MethodId::UiAutomationEditableText, "uia fallback"),
        MethodProbe::safe(MethodId::WordCom, "outlook word editor"),
    ];

    let decision = resolver.resolve(&target, &probes).unwrap();

    assert_eq!(decision.context_method, MethodId::WordCom);
    assert_eq!(decision.replacement_method, MethodId::WordCom);
}

#[test]
fn resolver_allows_win32_edit_for_outlook_search_policy() {
    let resolver = MethodResolver::default();
    let mut target = target("rctrl_renwnd32", "Edit");
    target.process_name = Some(String::from("OUTLOOK"));
    let probes = vec![MethodProbe::safe(
        MethodId::Win32EditMessages,
        "outlook search edit",
    )];

    let decision = resolver.resolve(&target, &probes).unwrap();

    assert_eq!(decision.context_method, MethodId::Win32EditMessages);
    assert_eq!(decision.replacement_method, MethodId::Win32EditMessages);
}

#[test]
fn resolver_forbids_uia_for_outlook_policy() {
    let resolver = MethodResolver::default();
    let mut target = target("rctrl_renwnd32", "SUPERGRID");
    target.process_name = Some(String::from("OUTLOOK"));
    let probes = vec![MethodProbe::safe(
        MethodId::UiAutomationEditableText,
        "uia fallback",
    )];

    let error = resolver.resolve(&target, &probes).unwrap_err();

    assert_eq!(
        error,
        ResolveError::ForbiddenByPolicy(MethodId::UiAutomationEditableText)
    );
}

#[test]
fn resolver_prefers_web_keyboard_for_browser_like_classes() {
    let resolver = MethodResolver::default();
    let target = target("Chrome_WidgetWin_1", "Chrome_WidgetWin_1");
    let probes = vec![
        MethodProbe::safe(MethodId::XtermKeyboardSelection, "xterm keyboard"),
        MethodProbe::safe(MethodId::WebKeyboardSelection, "web keyboard"),
        MethodProbe::safe(MethodId::UiAutomationDocumentText, "document selection"),
        MethodProbe::safe(MethodId::UiAutomationText, "uia text"),
        MethodProbe::safe(MethodId::UiAutomationEditableText, "editable text"),
    ];

    let decision = resolver.resolve(&target, &probes).unwrap();

    assert_eq!(decision.context_method, MethodId::WebKeyboardSelection);
    assert_eq!(decision.replacement_method, MethodId::WebKeyboardSelection);
}

#[test]
fn resolver_allows_uia_document_for_yandex_browser_policy() {
    let resolver = MethodResolver::default();
    let target = target("Chrome_Yandex_WidgetWin_1", "Chrome_Yandex_WidgetWin_1");
    let probes = vec![MethodProbe::safe(
        MethodId::UiAutomationDocumentText,
        "document text",
    )];

    let decision = resolver.resolve(&target, &probes).unwrap();

    assert_eq!(decision.context_method, MethodId::UiAutomationDocumentText);
    assert_eq!(
        decision.replacement_method,
        MethodId::UiAutomationDocumentText
    );
}

#[test]
fn resolver_forbids_uia_document_for_browser_policy() {
    let resolver = MethodResolver::default();
    let target = target("Chrome_WidgetWin_1", "Chrome_WidgetWin_1");
    let probes = vec![MethodProbe::safe(
        MethodId::UiAutomationDocumentText,
        "document selection",
    )];

    let error = resolver.resolve(&target, &probes).unwrap_err();

    assert_eq!(
        error,
        ResolveError::ForbiddenByPolicy(MethodId::UiAutomationDocumentText)
    );
}

#[test]
fn resolver_prefers_keyboard_selection_for_telegram_policy() {
    let resolver = MethodResolver::default();
    let mut target = target("Qt51518QWindowIcon", "Qt51518QWindowIcon");
    target.process_name = Some(String::from("Telegram"));
    let probes = vec![
        MethodProbe::safe(MethodId::UiAutomationEditableText, "editable text"),
        MethodProbe::safe(MethodId::WebKeyboardSelection, "keyboard selection"),
    ];

    let decision = resolver.resolve(&target, &probes).unwrap();

    assert_eq!(decision.context_method, MethodId::WebKeyboardSelection);
    assert_eq!(decision.replacement_method, MethodId::WebKeyboardSelection);
}

#[test]
fn resolver_prefers_uia_document_text_for_sticky_notes_policy() {
    let resolver = MethodResolver::default();
    let mut target = target("ApplicationFrameWindow", "Windows.UI.Core.CoreWindow");
    target.title = String::from("Sticky Notes");
    target.process_name = Some(String::from("Microsoft.Notes"));
    let probes = vec![
        MethodProbe::safe(MethodId::UiAutomationEditableText, "editable text"),
        MethodProbe::safe(MethodId::UiAutomationDocumentText, "document text"),
        MethodProbe::safe(MethodId::WebKeyboardSelection, "keyboard selection"),
    ];

    let decision = resolver.resolve(&target, &probes).unwrap();

    assert_eq!(decision.context_method, MethodId::UiAutomationDocumentText);
    assert_eq!(
        decision.replacement_method,
        MethodId::UiAutomationDocumentText
    );
}

#[test]
fn resolver_contracts_keep_fallbacks_inside_surface_boundaries() {
    let resolver = MethodResolver::default();

    let mut browser = target("Chrome_WidgetWin_1", "Chrome_WidgetWin_1");
    browser.title = String::from("Codex");
    let decision = resolver
        .resolve(
            &browser,
            &[MethodProbe::safe(
                MethodId::UiAutomationEditableText,
                "editable fallback",
            )],
        )
        .unwrap();
    assert_eq!(decision.surface.kind, SurfaceKind::FastBrowserEditor);
    assert_eq!(decision.context_method, MethodId::UiAutomationEditableText);

    let mut sticky = target(
        "ApplicationFrameWindow",
        "Windows.UI.Input.InputSite.WindowClass",
    );
    sticky.title = String::from("Sticky Notes");
    sticky.process_name = Some(String::from("Microsoft.Notes"));
    let decision = resolver
        .resolve(
            &sticky,
            &[MethodProbe::safe(
                MethodId::WebKeyboardSelection,
                "keyboard fallback",
            )],
        )
        .unwrap();
    assert_eq!(decision.surface.kind, SurfaceKind::StickyNotes);
    assert_eq!(decision.context_method, MethodId::WebKeyboardSelection);
    assert_eq!(decision.replacement_method, MethodId::WebKeyboardSelection);

    let mut outlook_shell = target("rctrl_renwnd32", "SUPERGRID");
    outlook_shell.process_name = Some(String::from("OUTLOOK"));
    let error = resolver
        .resolve(
            &outlook_shell,
            &[MethodProbe::safe(
                MethodId::UiAutomationEditableText,
                "wrong outlook fallback",
            )],
        )
        .unwrap_err();
    assert_eq!(
        error,
        ResolveError::ForbiddenByPolicy(MethodId::UiAutomationEditableText)
    );

    let terminal = target(
        "CASCADIA_HOSTING_WINDOW_CLASS",
        "Windows.UI.Input.InputSite.WindowClass",
    );
    let error = resolver
        .resolve(
            &terminal,
            &[MethodProbe::risky(
                MethodId::TerminalClipboardShortcut,
                "terminal shortcut",
            )],
        )
        .unwrap_err();
    assert_eq!(
        error,
        ResolveError::ForbiddenByPolicy(MethodId::TerminalClipboardShortcut)
    );
}

#[test]
fn web_keyboard_profiles_are_derived_from_surface_kind() {
    assert_eq!(
        web_keyboard_profile_for_surface(SurfaceKind::BrowserEditor),
        WebKeyboardProfile::Standard
    );
    assert_eq!(
        web_keyboard_profile_for_surface(SurfaceKind::FastBrowserEditor),
        WebKeyboardProfile::Fast
    );
    assert_eq!(
        web_keyboard_profile_for_surface(SurfaceKind::RocketChatEditor),
        WebKeyboardProfile::RocketSearch
    );
}

#[test]
fn adapter_contracts_cover_all_methods() {
    for method in &all_method_ids() {
        assert_eq!(adapter_contract(*method).method, *method);
    }
}

#[test]
fn adapter_contracts_mark_risky_and_clipboard_boundaries() {
    assert!(adapter_contract(MethodId::TerminalClipboardShortcut).risky);
    assert!(adapter_contract(MethodId::TerminalClipboardShortcut).uses_clipboard);
    assert!(adapter_contract(MethodId::ClipboardSelection).risky);
    assert!(adapter_contract(MethodId::ClipboardSelection).uses_clipboard);
    assert!(adapter_contract(MethodId::SendInput).risky);
    assert!(!adapter_contract(MethodId::SendInput).uses_clipboard);

    assert!(adapter_contract(MethodId::WebKeyboardSelection).uses_clipboard);
    assert!(!adapter_contract(MethodId::WebKeyboardSelection).risky);
    assert!(adapter_contract(MethodId::XtermKeyboardSelection).uses_clipboard);
    assert!(!adapter_contract(MethodId::XtermKeyboardSelection).risky);
    assert!(!adapter_contract(MethodId::Win32EditMessages).uses_clipboard);
}

#[test]
fn adapter_contracts_capture_selection_and_caret_capabilities() {
    let win32 = adapter_contract(MethodId::Win32EditMessages);
    assert!(win32.can_read_selection);
    assert!(win32.can_read_caret);
    assert!(win32.can_replace_range_before_caret);

    let clipboard = adapter_contract(MethodId::ClipboardSelection);
    assert!(clipboard.can_read_selection);
    assert!(!clipboard.can_read_caret);
    assert!(clipboard.can_replace_selection);
    assert!(!clipboard.can_replace_range_before_caret);

    let send_input = adapter_contract(MethodId::SendInput);
    assert!(!send_input.can_read_selection);
    assert!(!send_input.can_read_caret);
    assert!(send_input.can_replace_selection);
    assert!(!send_input.can_replace_range_before_caret);
}

#[test]
fn resolver_can_use_different_method_preferences_for_pause_and_scrolllock() {
    let resolver = MethodResolver::new(vec![SurfacePolicy {
        surface: SurfaceKind::Win32Edit,
        pause_methods: split_preferences(
            vec![MethodId::Win32EditMessages],
            vec![MethodId::Win32EditMessages],
        ),
        scrolllock_methods: split_preferences(
            vec![MethodId::WebKeyboardSelection],
            vec![MethodId::WebKeyboardSelection],
        ),
        forbidden_methods: vec![],
        allow_risky_methods: false,
    }]);
    let target = target("Notepad", "Edit");
    let probes = vec![
        MethodProbe::safe(MethodId::Win32EditMessages, "win32 edit"),
        MethodProbe::safe(MethodId::WebKeyboardSelection, "keyboard selection"),
    ];

    let pause = resolver
        .resolve_for_mode(&target, &probes, CorrectionMode::Pause)
        .unwrap();
    let scrolllock = resolver
        .resolve_for_mode(&target, &probes, CorrectionMode::ScrollLock)
        .unwrap();

    assert_eq!(pause.context_method, MethodId::Win32EditMessages);
    assert_eq!(scrolllock.context_method, MethodId::WebKeyboardSelection);
}

fn target(app_class: &str, focused_class: &str) -> ForegroundTarget {
    ForegroundTarget {
        app_class: app_class.to_owned(),
        focused_class: focused_class.to_owned(),
        title: String::new(),
        process_name: None,
        window_id: String::from("hwnd:1"),
        control_id: String::from("hwnd:2"),
    }
}
