use stepler_platform::hook::{
    CtrlKeys, HookEffect, HookEvent, HookSettings, KeyboardControlHookState, PauseSurface,
};
use stepler_platform::hotkeys::{
    loop_message, release_modifier_keys, KeyboardControlAction, LoopMessage, VK_F13, VK_LCONTROL,
    VK_LSHIFT, VK_PAUSE, VK_RCONTROL, WM_HOTKEY, WM_STEPLER_HOTKEY_RECEIVED, WM_STEPLER_KEYBOARD_CONTROL,
};
use stepler_platform::keyboard_input::{select_left_events, ssh_terminal_sequence};
use stepler_platform::layout::{
    begin_layout_change, LayoutFocus, LayoutObservation, LayoutStep, LayoutTransport,
    PendingLayoutSwitch,
};
use stepler_platform::model::{CorrectionMode, MethodId, ReplacementPlan, TextContext, TextRange};
use stepler_platform::platform::PlatformError;
use stepler_platform::selection_methods::{
    console_clear_outcome, console_context, console_input_from_row, console_replacement_text,
    terminal_clipboard_context, terminal_copied_text, terminal_replacement_text, xterm_apply_plan,
    xterm_context, TerminalSelectionKind,
};
use stepler_platform::surface::WebKeyboardProfile;
use stepler_platform::terminal::TerminalPassthrough;
use stepler_platform::web_capture::{
    web_capture_after_copy, web_capture_after_plan_check, web_capture_copy_request,
    web_capture_start, WebCaptureConfig, WebCaptureOutcome, WebCaptureStage, WebCaptureState,
    WebSelect,
};

fn standard(scrolllock: bool, ctrl_a_fallback: bool) -> WebCaptureConfig {
    WebCaptureConfig {
        profile: WebKeyboardProfile::Standard,
        fast_enabled: true,
        scrolllock,
        ctrl_a_fallback,
    }
}

fn next_state(outcome: WebCaptureOutcome) -> (WebCaptureState, u64) {
    match outcome {
        WebCaptureOutcome::Continue { state, pause_ms } => (state, pause_ms),
        other => panic!("expected another step, got {other:?}"),
    }
}

fn plan(start: usize, end: usize, expected: &str, replacement: &str) -> ReplacementPlan {
    ReplacementPlan {
        range: TextRange::new(start, end),
        replacement_text: replacement.to_owned(),
        reason: String::from("layout"),
        expected_before_text: expected.to_owned(),
    }
}

#[test]
fn web_capture_walks_both_rounds_before_giving_up() {
    let config = standard(false, false);
    let mut state = web_capture_start();
    let mut seen = Vec::new();
    loop {
        let request = web_capture_copy_request(config, state);
        seen.push((state.attempt, state.stage, request.select));
        match web_capture_after_copy(config, state, None) {
            WebCaptureOutcome::Continue { state: next, .. } => state = next,
            WebCaptureOutcome::Exhausted => break,
            other => panic!("nothing was copied, got {other:?}"),
        }
    }
    assert_eq!(
        seen,
        vec![
            (0, WebCaptureStage::Selected, WebSelect::Current),
            (0, WebCaptureStage::LineLeft, WebSelect::LineLeft),
            (0, WebCaptureStage::LeftRetry, WebSelect::LeftWords),
            (1, WebCaptureStage::Selected, WebSelect::Current),
            (1, WebCaptureStage::LineLeft, WebSelect::LineLeft),
        ]
    );
}

#[test]
fn web_capture_waits_with_the_profile_timings() {
    let config = standard(false, false);
    let first = web_capture_start();
    assert_eq!(web_capture_copy_request(config, first).timeout_ms, 220);
    let (line, pause) = next_state(web_capture_after_copy(config, first, None));
    assert_eq!(pause, 0);
    assert_eq!(web_capture_copy_request(config, line).timeout_ms, 450);
    let (retry, pause) = next_state(web_capture_after_copy(config, line, None));
    assert_eq!(retry.stage, WebCaptureStage::LeftRetry);
    assert_eq!(pause, 80);
    let (second, pause) = next_state(web_capture_after_copy(config, retry, None));
    assert_eq!(second, WebCaptureState { attempt: 1, stage: WebCaptureStage::Selected });
    assert_eq!(pause, 180);

    let fast = WebCaptureConfig { profile: WebKeyboardProfile::Fast, ..config };
    assert_eq!(web_capture_copy_request(fast, first).timeout_ms, 120);
    let field = WebCaptureState { attempt: 1, stage: WebCaptureStage::FieldAll };
    assert_eq!(web_capture_copy_request(fast, field).timeout_ms, 320);
}

#[test]
fn web_capture_keeps_a_plausible_selection() {
    let config = standard(false, false);
    let outcome = web_capture_after_copy(config, web_capture_start(), Some(String::from("ghbdtn")));
    assert_eq!(
        outcome,
        WebCaptureOutcome::Captured {
            prefix: String::from("web-keyboard-selection-selected"),
            text: String::from("ghbdtn"),
            has_selection: true,
        }
    );
    let blank = web_capture_after_copy(config, web_capture_start(), Some(String::from("  ")));
    assert!(matches!(blank, WebCaptureOutcome::Continue { .. }));
}

#[test]
fn web_capture_line_prefix_follows_the_profile() {
    let line = WebCaptureState { attempt: 0, stage: WebCaptureStage::LineLeft };
    let fast = WebCaptureConfig { profile: WebKeyboardProfile::Fast, ..standard(false, false) };
    match web_capture_after_copy(fast, line, Some(String::from("ghbdtn vbh"))) {
        WebCaptureOutcome::Captured { prefix, has_selection, .. } => {
            assert_eq!(prefix, "web-keyboard-fast-line-selection");
            assert!(!has_selection);
        }
        other => panic!("expected a context, got {other:?}"),
    }
    let rocket = WebCaptureConfig { profile: WebKeyboardProfile::RocketSearch, ..fast };
    match web_capture_after_copy(rocket, line, Some(String::from("ghbdtn"))) {
        WebCaptureOutcome::Captured { prefix, .. } => {
            assert_eq!(prefix, "web-keyboard-rocket-active-line-selection")
        }
        other => panic!("expected a context, got {other:?}"),
    }
}

#[test]
fn web_capture_scrolllock_words_go_to_the_planner_first() {
    let config = standard(true, true);
    let (left, _) = next_state(web_capture_after_copy(config, web_capture_start(), None));
    assert_eq!(left.stage, WebCaptureStage::ScrollLockLeft);
    assert_eq!(web_capture_copy_request(config, left).select, WebSelect::LeftWords);
    let outcome = web_capture_after_copy(config, left, Some(String::from("ghbdtn")));
    assert_eq!(outcome, WebCaptureOutcome::CheckPlan { text: String::from("ghbdtn") });
    match web_capture_after_plan_check(config, left, String::from("ghbdtn"), true) {
        WebCaptureOutcome::Captured { prefix, has_selection, .. } => {
            assert_eq!(prefix, "web-keyboard-captured-left-selection");
            assert!(!has_selection);
        }
        other => panic!("expected a context, got {other:?}"),
    }
    let (field, pause) =
        next_state(web_capture_after_plan_check(config, left, String::from("ghbdtn"), false));
    assert_eq!(field.stage, WebCaptureStage::ScrollLockFieldAll);
    assert_eq!(pause, 0);
}

fn window_focus() -> LayoutFocus {
    LayoutFocus {
        foreground: 0x100,
        transport: LayoutTransport::WindowMessage,
        focused: Some(0x200),
        focused_class: String::from("Edit"),
        foreground_process_id: Some(7),
        focused_process_id: Some(7),
        hwnd_hint: Some(0x300),
        hint_process_id: Some(7),
        installed_layout_count: 2,
    }
}

fn observation(now_ms: u64, layout: isize) -> LayoutObservation {
    LayoutObservation {
        foreground: 0x100,
        focused: Some(0x200),
        foreground_process_id: Some(7),
        focused_process_id: Some(7),
        dispatch_process_id: Some(7),
        current_layout: layout,
        now_ms,
    }
}

#[test]
fn window_layout_change_dispatches_until_verified() {
    let mut pending = begin_layout_change(&window_focus(), 0x0419_0419, 1_000).unwrap();
    match pending {
        PendingLayoutSwitch::Window(p) => {
            assert_eq!(p.dispatch_hwnd, 0x300);
            assert_eq!(p.dispatch_targets(), vec![0x300, 0x100, 0x200]);
        }
        other => panic!("expected a window switch, got {other:?}"),
    }
    assert!(pending.needs_dispatch(0x0409_0409));
    assert_eq!(pending.complete(&observation(1_010, 0x0409_0409)), LayoutStep::Wait);
    assert_eq!(pending.complete(&observation(1_080, 0x0409_0409)), LayoutStep::Dispatch);
    assert_eq!(pending.record_dispatch(true, 1_080), Ok(()));
    assert_eq!(pending.complete(&observation(1_090, 0x0409_0409)), LayoutStep::Wait);
    assert_eq!(pending.complete(&observation(1_100, 0x0419_0419)), LayoutStep::Verified);
    assert_eq!(
        pending.complete(&observation(1_400, 0x0409_0409)),
        LayoutStep::Failed(PlatformError::Unsupported)
    );
    assert_eq!(pending.record_dispatch(false, 1_100), Err(PlatformError::Unsupported));
}

#[test]
fn layout_change_aborts_when_the_focus_moves() {
    let pending = begin_layout_change(&window_focus(), 0x0419_0419, 1_000).unwrap();
    let moved = LayoutObservation { focused: Some(0x999), ..observation(1_010, 0x0419_0419) };
    assert_eq!(pending.complete(&moved), LayoutStep::Failed(PlatformError::ForegroundUnavailable));
}

#[test]
fn outlook_layout_change_needs_an_editable_focus_of_the_same_process() {
    let outlook = LayoutFocus {
        transport: LayoutTransport::OutlookSystemHotkey,
        focused_class: String::from("_WwG"),
        installed_layout_count: 9,
        ..window_focus()
    };
    match begin_layout_change(&outlook, 0x0409_0409, 5) {
        Ok(PendingLayoutSwitch::Outlook(p)) => {
            assert_eq!(p.max_dispatches, 6);
            assert_eq!(p.dispatch_count, 0);
        }
        other => panic!("expected an Outlook switch, got {other:?}"),
    }
    let other_process = LayoutFocus { focused_process_id: Some(8), ..outlook.clone() };
    assert_eq!(
        begin_layout_change(&other_process, 0x0409_0409, 5),
        Err(PlatformError::ForegroundUnavailable)
    );
    let ribbon = LayoutFocus { focused_class: String::from("NetUIHWND"), ..outlook };
    assert_eq!(begin_layout_change(&ribbon, 0x0409_0409, 5), Err(PlatformError::Unsupported));
}

fn settings() -> HookSettings {
    HookSettings {
        pause_enabled: true,
        scrolllock_enabled: true,
        ctrl_layout_enabled: true,
        menu_layout_enabled: true,
        caps_lock_disabled: false,
        insert_as_backspace: false,
    }
}

fn key(vk_code: u32, is_down: bool, now_ms: u64) -> HookEvent {
    HookEvent {
        vk_code,
        is_down,
        is_up: !is_down,
        injected: false,
        physical: CtrlKeys::released(),
        no_modifier_keys_down: true,
        now_ms,
    }
}

#[test]
fn hook_posts_pause_in_an_ordinary_window_and_swallows_it() {
    let mut state = KeyboardControlHookState::default();
    let surface = PauseSurface::Terminal {
        passthrough: TerminalPassthrough::NoPassthrough,
        conservative: false,
    };
    let down = state.hook_decision(&key(VK_PAUSE, true, 1_000), surface, &settings());
    assert_eq!(down.effects, vec![HookEffect::PostHotkey(CorrectionMode::Pause)]);
    assert!(!down.pass_to_next_hook);
    let up = state.hook_decision(&key(VK_PAUSE, false, 1_050), surface, &settings());
    assert!(up.effects.is_empty());
}

#[test]
fn hook_translates_pause_for_psreadline() {
    let mut state = KeyboardControlHookState::default();
    let surface = PauseSurface::Terminal {
        passthrough: TerminalPassthrough::PsReadLine,
        conservative: false,
    };
    let down = state.hook_decision(&key(VK_PAUSE, true, 1_000), surface, &settings());
    assert_eq!(
        down.effects,
        vec![
            HookEffect::PostReceived(CorrectionMode::Pause),
            HookEffect::ReleaseModifiers,
            HookEffect::SendVirtualKey(VK_F13),
        ]
    );
    assert!(!down.pass_to_next_hook);
}

#[test]
fn hook_reports_pause_it_cannot_serve_over_ssh() {
    let mut state = KeyboardControlHookState::default();
    let surface = PauseSurface::Terminal { passthrough: TerminalPassthrough::Ssh, conservative: true };
    let down = state.hook_decision(&key(VK_PAUSE, true, 1_000), surface, &settings());
    assert_eq!(
        down.effects,
        vec![
            HookEffect::PostReceived(CorrectionMode::Pause),
            HookEffect::PostUnsupported(CorrectionMode::Pause),
        ]
    );
}

#[test]
fn hook_forwards_pause_to_marked_ssh_sessions() {
    let mut state = KeyboardControlHookState::default();
    let surface = PauseSurface::Terminal { passthrough: TerminalPassthrough::SshRemote, conservative: true };
    let down = state.hook_decision(&key(VK_PAUSE, true, 1_000), surface, &settings());
    assert_eq!(
        down.effects,
        vec![
            HookEffect::PostReceived(CorrectionMode::Pause),
            HookEffect::SendSshSequence(CorrectionMode::Pause),
        ]
    );
    assert!(!down.pass_to_next_hook);
}

#[test]
fn hook_lone_ctrl_tap_posts_a_layout_action_unless_switched_off() {
    let mut state = KeyboardControlHookState::default();
    let surface = PauseSurface::QwenInput;
    let down = state.hook_decision(&key(VK_LCONTROL, true, 1_000), surface, &settings());
    assert!(down.effects.is_empty());
    assert!(down.pass_to_next_hook);
    let up = state.hook_decision(&key(VK_LCONTROL, false, 1_050), surface, &settings());
    assert_eq!(up.effects, vec![HookEffect::PostAction(KeyboardControlAction::SwitchToRussian)]);
    assert!(up.pass_to_next_hook);

    let off = HookSettings { ctrl_layout_enabled: false, ..settings() };
    let mut state = KeyboardControlHookState::default();
    state.hook_decision(&key(VK_LCONTROL, true, 5_000), surface, &off);
    let up = state.hook_decision(&key(VK_LCONTROL, false, 5_050), surface, &off);
    assert!(up.effects.is_empty());
}

#[test]
fn loop_messages_read_hotkeys_and_controls() {
    assert_eq!(loop_message(WM_HOTKEY, 2), Some(LoopMessage::Hotkey(CorrectionMode::ScrollLock)));
    assert_eq!(
        loop_message(WM_STEPLER_HOTKEY_RECEIVED, 1),
        Some(LoopMessage::Received(CorrectionMode::Pause))
    );
    assert_eq!(
        loop_message(WM_STEPLER_KEYBOARD_CONTROL, 3),
        Some(LoopMessage::Control(KeyboardControlAction::SwitchToNext))
    );
    assert_eq!(loop_message(WM_STEPLER_KEYBOARD_CONTROL, 4), None);
    assert_eq!(loop_message(0x0100, 1), None);
}

#[test]
fn modifier_release_skips_alt_keys_that_are_up() {
    let up = vec![false; 9];
    assert_eq!(
        release_modifier_keys(&up),
        vec![VK_LCONTROL, VK_RCONTROL, 0x11, VK_LSHIFT, 0xA1, 0x10]
    );
    let mut alt = vec![false; 9];
    alt[3] = true;
    assert_eq!(release_modifier_keys(&alt).len(), 7);
    assert_eq!(release_modifier_keys(&alt)[3], 0xA4);
}

#[test]
fn keyboard_selection_sends_pairs_then_releases_shift() {
    let events = select_left_events(2).unwrap();
    assert_eq!(events.len(), 5);
    assert!(!events[0].key_up);
    assert!(events[1].key_up);
    assert_eq!(events[4].vk, VK_LSHIFT);
    assert!(events[4].key_up);
    assert_eq!(select_left_events(0), Err(PlatformError::PreflightFailed));
    assert_eq!(select_left_events(513), Err(PlatformError::PreflightFailed));
}

#[test]
fn ssh_sequences_differ_by_mode() {
    assert_ne!(
        ssh_terminal_sequence(CorrectionMode::Pause),
        ssh_terminal_sequence(CorrectionMode::ScrollLock)
    );
}

#[test]
fn xterm_line_context_rewrites_the_whole_line() {
    let context = xterm_context("CASCADIA_HOSTING_WINDOW_CLASS", "", 0x10, 0x20, String::from("git ghbdtn vbh"), false);
    assert_eq!(context.control_id, "xterm-line-selection:hwnd:20");
    assert_eq!(context.capabilities.method_binding.as_ref().unwrap().replace_methods, vec![
        MethodId::XtermKeyboardSelection
    ]);
    let plan = plan(4, 10, "ghbdtn", "привет");
    let write = xterm_apply_plan(&context, &plan).unwrap();
    assert_eq!(write.replacement_text, "git привет vbh");
    assert_eq!(write.expected_selection.as_deref(), Some("git ghbdtn vbh"));
    assert!(write.select_line);
    assert_eq!(write.actual_before, "ghbdtn");

    let tail = xterm_apply_plan(&context, &plan_for_tail()).unwrap();
    assert_eq!(tail.replacement_text, "ым");
    assert_eq!(tail.expected_selection.as_deref(), Some("vbh"));
    assert!(!tail.select_line);

    let stale = plan_with_expected("ghbdtx");
    assert_eq!(xterm_apply_plan(&context, &stale), Err(PlatformError::PreflightFailed));
}

fn plan_for_tail() -> ReplacementPlan {
    plan(11, 14, "vbh", "ым")
}

fn plan_with_expected(expected: &str) -> ReplacementPlan {
    plan(4, 10, expected, "привет")
}

#[test]
fn xterm_selected_context_pastes_over_the_selection() {
    let context = xterm_context("CASCADIA_HOSTING_WINDOW_CLASS", "", 0x10, 0x20, String::from("ghbdtn"), true)
        .with_selection(Some(TextRange::new(0, 6)));
    let write = xterm_apply_plan(&context, &plan(0, 6, "ghbdtn", "привет")).unwrap();
    assert_eq!(write.replacement_text, "привет");
    assert_eq!(write.expected_selection, None);
    assert!(!write.select_line);
}

#[test]
fn terminal_contexts_record_their_selection_kind() {
    let context = terminal_clipboard_context(
        "CASCADIA_HOSTING_WINDOW_CLASS",
        "",
        0x10,
        0xAB,
        String::from("echo ghbdtn"),
        TerminalSelectionKind::PreviousWord,
    );
    assert_eq!(context.control_id, "terminal:hwnd:AB:word");
    assert_eq!(TerminalSelectionKind::from_control_id(&context.control_id), TerminalSelectionKind::PreviousWord);
    assert_eq!(
        terminal_replacement_text(&context, &plan(5, 11, "ghbdtn", "привет")),
        Ok(String::from("echo привет"))
    );
    assert_eq!(
        terminal_replacement_text(&context, &plan(5, 11, "ghbdtx", "привет")),
        Err(PlatformError::PreflightFailed)
    );
    assert_eq!(terminal_copied_text(Some(String::from("ghbdtn\r\n"))), Some(String::from("ghbdtn")));
    assert_eq!(terminal_copied_text(Some(String::from("\r\n"))), None);
}

#[test]
fn console_rows_give_the_input_after_the_prompt() {
    let row: Vec<u16> = "PS C:\\> ghbdtn   ".encode_utf16().collect();
    assert_eq!(console_input_from_row(&row, 14, row.len()), Ok(String::from("ghbdtn")));
    assert_eq!(console_input_from_row(&row, 8, row.len()), Err(PlatformError::ReplacementUnavailable));

    let context = console_context("ConsoleWindowClass", "ConsoleWindowClass", 0x10, 0x10, String::from("ghbdtn"));
    assert_eq!(context.control_id, "terminal-console:hwnd:10");
    let edit = plan(0, 6, "ghbdtn", "привет");
    assert_eq!(console_replacement_text(&context, "ghbdtn", &edit), Ok(String::from("привет")));
    assert_eq!(
        console_replacement_text(&context, "ghbdtn!", &edit),
        Err(PlatformError::PreflightFailed)
    );
    assert_eq!(console_clear_outcome(Ok(String::from("  "))), Some(Ok(())));
    assert_eq!(console_clear_outcome(Ok(String::from("x"))), None);
    assert_eq!(
        console_clear_outcome(Err(PlatformError::ReplacementUnavailable)),
        Some(Ok(()))
    );
    assert_eq!(
        console_clear_outcome(Err(PlatformError::PreflightFailed)),
        Some(Err(PlatformError::PreflightFailed))
    );
}

#[test]
fn text_context_builder_keeps_the_text() {
    let context = TextContext::new("abc");
    assert_eq!(context.text_snapshot, "abc");
}
