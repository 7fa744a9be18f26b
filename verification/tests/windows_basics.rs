use stepler_platform::hotkeys::WindowsHotkeyListener;
use stepler_platform::ids::parse_hwnd_id;
use stepler_platform::model::{
    context_replacement_method, Capabilities, MethodBinding, MethodId, ReplacementPlan, TextContext,
    TextRange,
};
use stepler_platform::offsets::win32_adjusted_caret_after_replacement;
use stepler_platform::platform::{ForegroundTarget, HotkeyListener, PlatformError, ProbeSafety};
use stepler_platform::probes::{is_supported_edit_class, probe_method_by_id, ProbeEnvironment};
use stepler_platform::replacement::apply_replacement_method;
use stepler_platform::terminal::{
    is_classic_console_class, is_cmd_terminal_title, is_codex_embedded_terminal_host_title,
    is_psreadline_passthrough_terminal_class, is_ssh_remote_adapter_title, is_ssh_terminal_title,
    is_supported_terminal_class, terminal_class_needs_conservative_suppression,
    terminal_passthrough_for_window, TerminalPassthrough,
};

fn no_env() -> ProbeEnvironment {
    ProbeEnvironment {
        xterm_browser_selection_enabled: false,
        xterm_textarea_focused: false,
        terminal_app_marker_active: false,
    }
}

fn target(
    app_class: &str,
    focused_class: &str,
    title: &str,
    process_name: Option<&str>,
    control_id: &str,
) -> ForegroundTarget {
    ForegroundTarget {
        app_class: String::from(app_class),
        focused_class: String::from(focused_class),
        title: String::from(title),
        process_name: process_name.map(String::from),
        window_id: String::from("hwnd:1"),
        control_id: String::from(control_id),
    }
}

#[test]
fn skeleton_hotkey_listener_tracks_running_state() {
    let mut listener = WindowsHotkeyListener::default();

    assert!(!listener.is_running());

    listener.start().unwrap();
    assert!(listener.is_running());

    listener.stop().unwrap();
    assert!(!listener.is_running());
}

#[test]
fn context_id_parser_rejects_invalid_ids() {
    assert_eq!(parse_hwnd_id("nope"), None);
    assert_eq!(parse_hwnd_id("hwnd:"), None);
    assert_eq!(parse_hwnd_id("hwnd:XYZ"), None);
    assert_eq!(parse_hwnd_id("hwnd:1A"), Some(0x1A));
}

#[test]
fn supported_edit_class_is_allowlisted() {
    assert!(is_supported_edit_class("Edit"));
    assert!(is_supported_edit_class("RICHEDIT50W"));
    assert!(is_supported_edit_class("RichEditD2DPT"));
    assert!(!is_supported_edit_class("ConsoleWindowClass"));
    assert!(!is_supported_edit_class("Notepad"));
}

#[test]
fn supported_terminal_class_is_allowlisted() {
    assert!(is_supported_terminal_class(
        "CASCADIA_HOSTING_WINDOW_CLASS",
        "Windows.UI.Input.InputSite.WindowClass"
    ));
    assert!(is_supported_terminal_class(
        "ConsoleWindowClass",
        "ConsoleWindowClass"
    ));
    assert!(!is_supported_terminal_class("Notepad", "Edit"));
    assert!(!is_supported_terminal_class(
        "ApplicationFrameWindow",
        "Windows.UI.Input.InputSite.WindowClass"
    ));
}

#[test]
fn classic_console_class_requires_foreground_and_focus_console() {
    assert!(is_classic_console_class(
        "ConsoleWindowClass",
        "ConsoleWindowClass"
    ));
    assert!(!is_classic_console_class(
        "CASCADIA_HOSTING_WINDOW_CLASS",
        "Windows.UI.Input.InputSite.WindowClass"
    ));
}

#[test]
fn classic_console_is_not_psreadline_passthrough_terminal() {
    assert!(is_psreadline_passthrough_terminal_class(
        "CASCADIA_HOSTING_WINDOW_CLASS",
        "Windows.UI.Input.InputSite.WindowClass"
    ));
    assert!(!is_psreadline_passthrough_terminal_class(
        "ApplicationFrameWindow",
        "Windows.UI.Input.InputSite.WindowClass"
    ));
    assert!(!is_psreadline_passthrough_terminal_class(
        "ConsoleWindowClass",
        "ConsoleWindowClass"
    ));
}

#[test]
fn classic_console_does_not_need_conservative_suppression() {
    assert!(!terminal_class_needs_conservative_suppression(
        "ConsoleWindowClass",
        "ConsoleWindowClass"
    ));
}

#[test]
fn windows_terminal_needs_conservative_suppression() {
    assert!(terminal_class_needs_conservative_suppression(
        "CASCADIA_HOSTING_WINDOW_CLASS",
        "Windows.UI.Input.InputSite.WindowClass"
    ));
}

#[test]
fn cmd_terminal_title_is_detected() {
    assert!(is_cmd_terminal_title("C:\\WINDOWS\\system32\\cmd.exe"));
    assert!(!is_cmd_terminal_title("PowerShell 7 (x64)"));
}

#[test]
fn ssh_terminal_title_is_detected_without_matching_powershell() {
    assert!(is_ssh_terminal_title("vpnuser"));
    assert!(is_ssh_terminal_title("root@host"));
    assert!(is_ssh_terminal_title("ssh user@host"));
    assert!(is_ssh_remote_adapter_title(
        "stepler-remote-ready vpnuser@host:~"
    ));
    assert!(!is_ssh_terminal_title("Windows PowerShell"));
    assert!(!is_ssh_terminal_title("PowerShell"));
    assert!(!is_ssh_terminal_title("PowerShell 7 (x64)"));
    assert!(!is_ssh_terminal_title("C:\\WINDOWS\\system32\\cmd.exe"));
}

#[test]
fn terminal_passthrough_keeps_only_local_powershell_forwardable() {
    let app = "CASCADIA_HOSTING_WINDOW_CLASS";
    let focus = "Windows.UI.Input.InputSite.WindowClass";
    assert_eq!(
        terminal_passthrough_for_window(app, focus, "Windows PowerShell"),
        TerminalPassthrough::PsReadLine
    );
    assert_eq!(
        terminal_passthrough_for_window(app, focus, "PowerShell"),
        TerminalPassthrough::PsReadLine
    );
    assert_eq!(
        terminal_passthrough_for_window(app, focus, "stepler-remote-ready vpnuser@host:~"),
        TerminalPassthrough::SshRemote
    );
    assert_eq!(
        terminal_passthrough_for_window(app, focus, "vpnuser"),
        TerminalPassthrough::Ssh
    );
    assert_eq!(
        terminal_passthrough_for_window(app, focus, "PowerShell ssh user@host"),
        TerminalPassthrough::Ssh
    );
    assert_eq!(
        terminal_passthrough_for_window(app, focus, "Qwen CLI"),
        TerminalPassthrough::TerminalApp
    );
    assert_eq!(
        terminal_passthrough_for_window(app, focus, "stepler-terminal-app qwen"),
        TerminalPassthrough::TerminalApp
    );
    assert_eq!(
        terminal_passthrough_for_window(app, focus, ""),
        TerminalPassthrough::UnknownTerminal
    );
    assert_eq!(
        terminal_passthrough_for_window(
            "Qt51518QWindowIcon",
            "Qt51518QWindowIcon",
            "\u{200e}Contact Name @ \u{200e}username"
        ),
        TerminalPassthrough::NoPassthrough
    );
}

#[test]
fn codex_embedded_terminal_host_titles_are_allowlisted() {
    assert!(is_codex_embedded_terminal_host_title("Codex"));
    assert!(is_codex_embedded_terminal_host_title("ChatGPT"));
    assert!(!is_codex_embedded_terminal_host_title(
        "ChatGPT - Google Chrome"
    ));
    assert!(!is_codex_embedded_terminal_host_title("Windows PowerShell"));
}

#[test]
fn context_capabilities_carry_method_binding() {
    let capabilities = Capabilities {
        can_replace_directly: true,
        can_read_selection: true,
        can_read_caret: true,
        method_binding: Some(MethodBinding::new(
            MethodId::Win32EditMessages,
            vec![MethodId::Win32EditMessages],
        )),
    };

    let binding = capabilities.method_binding.unwrap();
    assert_eq!(binding.context_method, MethodId::Win32EditMessages);
    assert_eq!(binding.replace_methods, vec![MethodId::Win32EditMessages]);
}

fn console_context(binding: Option<MethodBinding>) -> TextContext {
    TextContext {
        app_id: String::from("ConsoleWindowClass"),
        window_id: String::from("hwnd:1"),
        control_id: String::from("terminal-console:hwnd:1"),
        text_snapshot: String::from("пше"),
        caret_range: TextRange::caret("пше".len()),
        selection_range: None,
        capabilities: Capabilities {
            can_replace_directly: false,
            can_read_selection: false,
            can_read_caret: false,
            method_binding: binding,
        },
    }
}

#[test]
fn context_replacement_method_uses_first_bound_replace_method() {
    let context = console_context(Some(MethodBinding::new(
        MethodId::ConsoleBuffer,
        vec![MethodId::ConsoleBuffer],
    )));

    assert_eq!(
        context_replacement_method(&context),
        Some(MethodId::ConsoleBuffer)
    );
}

#[test]
fn apply_replacement_requires_method_binding() {
    let context = TextContext {
        app_id: String::from("Notepad"),
        window_id: String::from("hwnd:1"),
        control_id: String::from("hwnd:2"),
        text_snapshot: String::from("k.,jdm"),
        caret_range: TextRange::caret("k.,jdm".len()),
        selection_range: None,
        capabilities: Capabilities {
            can_replace_directly: true,
            can_read_selection: true,
            can_read_caret: true,
            method_binding: None,
        },
    };

    let error = apply_replacement_method(&context).unwrap_err();

    assert_eq!(
        error,
        PlatformError::ReplacementUnavailableReason(String::from("missing_method_binding"))
    );
}

#[test]
fn apply_replacement_does_not_guess_terminal_adapter_without_binding() {
    let context = console_context(None);

    let error = apply_replacement_method(&context).unwrap_err();

    assert_eq!(
        error,
        PlatformError::ReplacementUnavailableReason(String::from("missing_method_binding"))
    );
}

#[test]
fn production_like_test_contexts_have_method_binding() {
    let contexts = [
        TextContext {
            app_id: String::from("Notepad"),
            window_id: String::from("hwnd:1"),
            control_id: String::from("hwnd:2"),
            text_snapshot: String::from("k.,jdm"),
            caret_range: TextRange::caret("k.,jdm".len()),
            selection_range: None,
            capabilities: Capabilities {
                can_replace_directly: true,
                can_read_selection: true,
                can_read_caret: true,
                method_binding: Some(MethodBinding::new(
                    MethodId::Win32EditMessages,
                    vec![MethodId::Win32EditMessages],
                )),
            },
        },
        console_context(Some(MethodBinding::new(
            MethodId::ConsoleBuffer,
            vec![MethodId::ConsoleBuffer],
        ))),
        TextContext {
            app_id: String::from("Chrome_WidgetWin_1/Chrome_RenderWidgetHostHWND"),
            window_id: String::from("hwnd:1"),
            control_id: String::from("web-keyboard-selection:hwnd:2"),
            text_snapshot: String::from("ghbdtn"),
            caret_range: TextRange::caret("ghbdtn".len()),
            selection_range: None,
            capabilities: Capabilities {
                can_replace_directly: false,
                can_read_selection: true,
                can_read_caret: true,
                method_binding: Some(MethodBinding::new(
                    MethodId::WebKeyboardSelection,
                    vec![MethodId::WebKeyboardSelection],
                )),
            },
        },
    ];

    for context in contexts {
        assert!(
            context.capabilities.method_binding.is_some(),
            "{} should carry method binding",
            context.control_id
        );
    }
}

#[test]
fn win32_edit_method_probes_supported_edit_controls() {
    let target = target("Notepad", "Edit", "", None, "hwnd:2");

    let probe = probe_method_by_id(MethodId::Win32EditMessages, &target, &no_env()).unwrap();

    assert_eq!(probe.method_id, MethodId::Win32EditMessages);
    assert_eq!(probe.safety, ProbeSafety::Safe);
}

#[test]
fn win32_edit_method_probes_outlook_richedit_controls() {
    let target = target(
        "rctrl_renwnd32",
        "RICHEDIT60W",
        "Inbox - Outlook",
        Some("OUTLOOK"),
        "hwnd:2",
    );

    assert_eq!(
        probe_method_by_id(MethodId::Win32EditMessages, &target, &no_env()).map(|probe| probe.method_id),
        Some(MethodId::Win32EditMessages)
    );
}

#[test]
fn win32_edit_method_still_probes_outlook_plain_edit_controls() {
    let target = target("rctrl_renwnd32", "Edit", "Inbox - Outlook", Some("OUTLOOK"), "hwnd:2");

    assert_eq!(
        probe_method_by_id(MethodId::Win32EditMessages, &target, &no_env()).map(|probe| probe.method_id),
        Some(MethodId::Win32EditMessages)
    );
}

#[test]
fn win32_edit_adjusts_caret_after_replacement_before_caret() {
    let text = "house вальс gjkt long привет мир";
    let expected = "gjkt";
    let start = text.find(expected).unwrap();
    let end = start + expected.len();
    let context = TextContext::new(text).with_caret(TextRange::caret(text.len()));
    let plan = ReplacementPlan {
        range: TextRange::new(start, end),
        replacement_text: String::from("поле"),
        reason: String::from("test"),
        expected_before_text: String::from(expected),
    };

    let adjusted = win32_adjusted_caret_after_replacement(&context, &plan);

    assert_eq!(adjusted, "house вальс поле long привет мир".len());
}

#[test]
fn console_buffer_method_probes_classic_console() {
    let target = target("ConsoleWindowClass", "ConsoleWindowClass", "", None, "hwnd:1");

    let probe = probe_method_by_id(MethodId::ConsoleBuffer, &target, &no_env()).unwrap();

    assert_eq!(probe.method_id, MethodId::ConsoleBuffer);
    assert_eq!(probe.safety, ProbeSafety::Safe);
}

#[test]
fn terminal_clipboard_method_probes_windows_terminal_as_risky() {
    let target = target(
        "CASCADIA_HOSTING_WINDOW_CLASS",
        "Windows.UI.Input.InputSite.WindowClass",
        "",
        None,
        "hwnd:2",
    );

    let probe = probe_method_by_id(MethodId::TerminalClipboardShortcut, &target, &no_env()).unwrap();

    assert_eq!(probe.method_id, MethodId::TerminalClipboardShortcut);
    assert_eq!(probe.safety, ProbeSafety::Risky);
    assert!(probe.requires_clipboard);
}

#[test]
fn ssh_terminal_method_probes_ssh_title_as_unsupported() {
    let target = target(
        "CASCADIA_HOSTING_WINDOW_CLASS",
        "Windows.UI.Input.InputSite.WindowClass",
        "vpnuser",
        None,
        "hwnd:2",
    );

    let probe = probe_method_by_id(MethodId::SshTerminal, &target, &no_env()).unwrap();

    assert_eq!(probe.method_id, MethodId::SshTerminal);
    assert_eq!(probe.safety, ProbeSafety::Unsupported);
    assert!(!probe.requires_clipboard);
}

#[test]
fn clipboard_selection_method_probes_unknown_controls_as_risky() {
    let target = target("CustomAppWindow", "CustomTextSurface", "", None, "hwnd:2");

    let probe = probe_method_by_id(MethodId::ClipboardSelection, &target, &no_env()).unwrap();

    assert_eq!(probe.method_id, MethodId::ClipboardSelection);
    assert_eq!(probe.safety, ProbeSafety::Risky);
    assert!(probe.requires_clipboard);
}

#[test]
fn send_input_method_probes_unknown_controls_as_risky_without_clipboard() {
    let target = target("CustomAppWindow", "CustomTextSurface", "", None, "hwnd:2");

    let probe = probe_method_by_id(MethodId::SendInput, &target, &no_env()).unwrap();

    assert_eq!(probe.method_id, MethodId::SendInput);
    assert_eq!(probe.safety, ProbeSafety::Risky);
    assert!(!probe.requires_clipboard);
}

#[test]
fn uia_text_method_probes_unknown_non_special_controls() {
    let target = target(
        "ApplicationFrameWindow",
        "Windows.UI.Core.CoreWindow",
        "Settings",
        None,
        "hwnd:2",
    );

    let probe = probe_method_by_id(MethodId::UiAutomationText, &target, &no_env()).unwrap();

    assert_eq!(probe.method_id, MethodId::UiAutomationText);
    assert_eq!(probe.safety, ProbeSafety::Safe);
}

#[test]
fn uia_editable_text_method_probes_browser_like_controls_as_strict_fallback() {
    let target = target(
        "Chrome_WidgetWin_1",
        "Chrome_RenderWidgetHostHWND",
        "Confluence",
        Some("chrome"),
        "hwnd:2",
    );

    let probe = probe_method_by_id(MethodId::UiAutomationEditableText, &target, &no_env()).unwrap();

    assert_eq!(probe.method_id, MethodId::UiAutomationEditableText);
    assert_eq!(probe.safety, ProbeSafety::Safe);
}

#[test]
fn uia_document_text_method_probes_browser_like_controls() {
    let target = target("MozillaWindowClass", "MozillaWindowClass", "Confluence", Some("firefox"), "hwnd:2");

    let probe = probe_method_by_id(MethodId::UiAutomationDocumentText, &target, &no_env()).unwrap();

    assert_eq!(probe.method_id, MethodId::UiAutomationDocumentText);
    assert_eq!(probe.safety, ProbeSafety::Safe);
    assert!(!probe.requires_clipboard);
}

#[test]
fn web_keyboard_selection_method_probes_browser_like_controls() {
    let target = target("MozillaWindowClass", "MozillaWindowClass", "Confluence", Some("firefox"), "hwnd:2");

    let probe = probe_method_by_id(MethodId::WebKeyboardSelection, &target, &no_env()).unwrap();

    assert_eq!(probe.method_id, MethodId::WebKeyboardSelection);
    assert_eq!(probe.safety, ProbeSafety::Safe);
    assert!(probe.requires_clipboard);
}
