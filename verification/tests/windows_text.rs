use stepler_platform::clipboard::{
    clipboard_format_uses_hglobal, clipboard_snapshot_for_text_probe_restore, CF_BITMAP, CF_ENHMETAFILE,
    CF_UNICODETEXT,
};
use stepler_platform::encoding::{
    decode_utf16le_base64, encode_utf16le_base64, le_bytes_to_utf16, string_to_null_terminated_utf16,
    utf16_to_le_bytes, utf16_until_nul_to_string,
};
use stepler_platform::hook::{should_ignore_keyboard_hook_event, CtrlKeys, KeyboardControlHookState};
use stepler_platform::hotkeys::{
    KeyboardControlAction, VK_C, VK_CANCEL, VK_CONTROL, VK_END, VK_HOME, VK_INSERT, VK_LCONTROL, VK_LWIN,
    VK_PAUSE, VK_RCONTROL, VK_RIGHT,
};
use stepler_platform::ids::parse_word_com_base;
use stepler_platform::keyboard_input::{
    keyboard_scan_code, keyboard_unicode, keyboard_virtual_key, KEYEVENTF_EXTENDEDKEY, KEYEVENTF_SCANCODE,
    KEYEVENTF_UNICODE,
};
use stepler_platform::layout::{
    find_layout_by_language, find_layout_by_primary_language, is_outlook_editable_focus_class,
    layout_transport_for_surface, LayoutTransport, WindowsLayoutSwitcher,
};
use stepler_platform::model::{CorrectionMode, TextRange};
use stepler_platform::offsets::{
    byte_offset_to_edit_offset, edit_offset_to_byte_offset, replace_range_text, slice_by_range,
};
use stepler_platform::platform::{ClipboardFormatSnapshot, ClipboardSnapshot, PlatformError};
use stepler_platform::terminal::{
    console_input_from_prompt_line, looks_like_hotkeyhandler_marker, TerminalPauseHandling,
};

const NOW: u64 = 10_000;

fn up() -> CtrlKeys {
    CtrlKeys::released()
}

#[test]
fn english_primary_language_matches_us_and_uk_variants() {
    assert_eq!(find_layout_by_primary_language(&[0x0419, 0x0809], 0x0009), Some(0x0809));
    assert_eq!(find_layout_by_primary_language(&[0x0409, 0x0419], 0x0009), Some(0x0409));
}

#[test]
fn primary_language_match_preserves_windows_order_for_multiple_english_variants() {
    assert_eq!(
        find_layout_by_primary_language(&[0x0C09, 0x0809, 0x0409], 0x0009),
        Some(0x0C09)
    );
}

#[test]
fn primary_language_match_does_not_treat_russian_as_english() {
    assert_eq!(find_layout_by_primary_language(&[0x0419], 0x0009), None);
    assert_eq!(find_layout_by_language(&[0x0419], 0x0419), Some(0x0419));
}

#[test]
fn missing_english_layout_fails_closed() {
    let switcher = WindowsLayoutSwitcher::default();

    assert!(matches!(switcher.switch_to_english(), Err(PlatformError::Unsupported)));
}

#[test]
fn outlook_layout_surface_is_recognized() {
    assert_eq!(
        layout_transport_for_surface("rctrl_renwnd32", "_WwG", Some("OUTLOOK")),
        LayoutTransport::OutlookSystemHotkey
    );
}

#[test]
fn outlook_layout_allows_only_editable_focus_classes() {
    assert!(is_outlook_editable_focus_class("_WwG"));
    assert!(is_outlook_editable_focus_class("RICHEDIT60W"));
    assert!(is_outlook_editable_focus_class("RichEdit20WPT"));
    assert!(is_outlook_editable_focus_class("Edit"));
    assert!(!is_outlook_editable_focus_class("OutlookGrid"));
    assert!(!is_outlook_editable_focus_class("Button"));
}

#[test]
fn unrelated_editor_is_not_an_outlook_layout_surface() {
    assert_eq!(
        layout_transport_for_surface("Chrome_WidgetWin_1", "Chrome_RenderWidgetHostHWND", Some("chrome")),
        LayoutTransport::WindowMessage
    );
}

#[test]
fn word_com_control_id_carries_absolute_base() {
    assert_eq!(parse_word_com_base("word-com:42:hwnd:ABC"), Some(42));
    assert_eq!(parse_word_com_base("outlook-word-com:42:hwnd:ABC"), Some(42));
    assert_eq!(parse_word_com_base("word-com:nope:hwnd:ABC"), None);
}

#[test]
fn utf16le_base64_round_trips_word_text() {
    let encoded = encode_utf16le_base64("любовь");

    assert_eq!(encoded, "OwROBDEEPgQyBEwE");
    assert_eq!(decode_utf16le_base64(&encoded).unwrap(), "любовь");
}

#[test]
fn unsupported_control_error_keeps_diagnostic_classes() {
    let error = PlatformError::UnsupportedControl {
        app_class: String::from("Chrome_WidgetWin_1"),
        focused_class: String::from("Chrome_RenderWidgetHostHWND"),
    };

    assert_eq!(
        format!("{error:?}"),
        "UnsupportedControl { app_class: \"Chrome_WidgetWin_1\", focused_class: \"Chrome_RenderWidgetHostHWND\" }"
    );
}

#[test]
fn slice_by_range_uses_byte_offsets_and_checks_boundaries() {
    let text = "привет мир";

    assert_eq!(
        slice_by_range(text, TextRange::new(0, "привет".len())).as_deref(),
        Some("привет")
    );
    assert_eq!(slice_by_range(text, TextRange::new(1, 3)), None);
}

#[test]
fn replace_range_text_preserves_terminal_prefix() {
    let text = "echo ghbdtn vbh";
    let start = text.find("ghbdtn").unwrap();
    let end = text.len();

    assert_eq!(
        replace_range_text(text, TextRange::new(start, end), "привет мир"),
        Some(String::from("echo привет мир"))
    );
}

#[test]
fn console_prompt_line_parser_extracts_input() {
    assert_eq!(console_input_from_prompt_line("PS C:\\Users\\User> пше      "), "пше");
    assert_eq!(console_input_from_prompt_line("ghbdtn vbh"), "ghbdtn vbh");
}

#[test]
fn converts_offsets_between_utf16_and_utf8_boundaries() {
    let text = "a привет 🌍";
    let byte_offset = "a привет".len();
    let edit_offset = byte_offset_to_edit_offset(text, byte_offset).unwrap();

    assert_eq!(edit_offset_to_byte_offset(text, edit_offset), Some(byte_offset));
    assert_eq!(edit_offset_to_byte_offset(text, 999), None);
    assert_eq!(byte_offset_to_edit_offset(text, 3), None);
}

#[test]
fn converts_edit_offsets_with_crlf_counted_as_one_position() {
    let text = "one\r\ntwo\r\nвальс поле long ghbdtn vbh";
    let ghbdtn_start = text.find("ghbdtn").unwrap();
    let ghbdtn_end = ghbdtn_start + "ghbdtn".len();

    let edit_start = byte_offset_to_edit_offset(text, ghbdtn_start).unwrap();
    let edit_end = byte_offset_to_edit_offset(text, ghbdtn_end).unwrap();

    assert!(edit_start < ghbdtn_start);
    assert!(edit_end < ghbdtn_end);
    assert_eq!(edit_offset_to_byte_offset(text, edit_start), Some(ghbdtn_start));
    assert_eq!(edit_offset_to_byte_offset(text, edit_end), Some(ghbdtn_end));
    assert_eq!(byte_offset_to_edit_offset(text, text.find('\n').unwrap()), None);
}

#[test]
fn clipboard_wide_string_round_trips_with_nul_terminator() {
    let wide = string_to_null_terminated_utf16("тест");

    assert_eq!(wide.last(), Some(&0));
    assert_eq!(utf16_until_nul_to_string(&wide), "тест");
}

#[test]
fn global_memory_bytes_round_up_to_even_utf16_size() {
    let wide = string_to_null_terminated_utf16("ab");
    let bytes = utf16_to_le_bytes(&wide);

    assert_eq!(bytes.len(), wide.len() * 2);
    assert_eq!(le_bytes_to_utf16(&bytes), wide);
}

#[test]
fn clipboard_snapshot_can_hold_multiple_formats() {
    let snapshot = ClipboardSnapshot {
        text: Some(String::from("hello")),
        sequence_number: Some(42),
        formats: vec![
            ClipboardFormatSnapshot {
                format: 1,
                bytes: vec![1, 2, 3],
            },
            ClipboardFormatSnapshot {
                format: CF_UNICODETEXT,
                bytes: utf16_to_le_bytes(&string_to_null_terminated_utf16("hello")),
            },
        ],
    };

    assert_eq!(snapshot.formats.len(), 2);
    assert_eq!(snapshot.text.as_deref(), Some("hello"));
}

#[test]
fn text_probe_restore_does_not_restore_non_text_clipboard_formats() {
    let snapshot = ClipboardSnapshot {
        text: None,
        sequence_number: Some(42),
        formats: vec![ClipboardFormatSnapshot {
            format: 8,
            bytes: vec![1, 2, 3, 4],
        }],
    };

    assert!(clipboard_snapshot_for_text_probe_restore(&snapshot).is_none());
}

#[test]
fn text_probe_restore_rebuilds_unicode_text_only_snapshot() {
    let snapshot = ClipboardSnapshot {
        text: Some(String::from("hello")),
        sequence_number: Some(42),
        formats: vec![
            ClipboardFormatSnapshot {
                format: CF_UNICODETEXT,
                bytes: utf16_to_le_bytes(&string_to_null_terminated_utf16("hello")),
            },
            ClipboardFormatSnapshot {
                format: 8,
                bytes: vec![1, 2, 3, 4],
            },
        ],
    };

    let restore_snapshot = clipboard_snapshot_for_text_probe_restore(&snapshot).unwrap();

    assert_eq!(restore_snapshot.text.as_deref(), Some("hello"));
    assert_eq!(restore_snapshot.formats.len(), 1);
    assert_eq!(restore_snapshot.formats[0].format, CF_UNICODETEXT);
}

#[test]
fn clipboard_hglobal_filter_skips_gdi_handle_formats() {
    assert!(!clipboard_format_uses_hglobal(CF_BITMAP));
    assert!(!clipboard_format_uses_hglobal(CF_ENHMETAFILE));
    assert!(clipboard_format_uses_hglobal(CF_UNICODETEXT));
}

#[test]
fn keyboard_control_action_message_ids_round_trip() {
    for action in [
        KeyboardControlAction::SwitchToRussian,
        KeyboardControlAction::SwitchToEnglish,
        KeyboardControlAction::SwitchToNext,
    ] {
        assert_eq!(KeyboardControlAction::from_message_id(action.message_id()), Some(action));
    }
    assert_eq!(KeyboardControlAction::from_message_id(99), None);
}

#[test]
fn keyboard_control_state_switches_only_on_single_ctrl() {
    let mut state = KeyboardControlHookState::default();

    assert_eq!(state.handle_key(VK_LCONTROL, true, false, NOW), None);
    assert_eq!(
        state.handle_key(VK_LCONTROL, false, true, NOW),
        Some(KeyboardControlAction::SwitchToRussian)
    );

    assert_eq!(state.handle_key(VK_RCONTROL, true, false, NOW), None);
    assert_eq!(state.handle_key(0x43, true, false, NOW), None);
    assert_eq!(state.handle_key(VK_RCONTROL, false, true, NOW), None);
}

#[test]
fn keyboard_control_state_ignores_orphan_ctrl_up() {
    let mut state = KeyboardControlHookState::default();

    assert_eq!(state.handle_key(VK_LCONTROL, false, true, NOW), None);
    assert_eq!(state.handle_key(VK_RCONTROL, false, true, NOW), None);
}

#[test]
fn keyboard_control_state_ignores_layout_controls_during_win_combo() {
    let mut state = KeyboardControlHookState::default();

    assert_eq!(state.handle_key(VK_LWIN, true, false, NOW), None);
    assert_eq!(state.handle_key(VK_LCONTROL, true, false, NOW), None);
    assert_eq!(state.handle_key(VK_LCONTROL, false, true, NOW), None);
    assert_eq!(state.handle_key(VK_LWIN, false, true, NOW), None);
    assert_eq!(state.handle_key(VK_LCONTROL, true, false, NOW), None);
    assert_eq!(state.handle_key(VK_LCONTROL, false, true, NOW), None);

    state.suspend_layout_controls_until = Some(NOW - 1);
    assert_eq!(state.handle_key(VK_LCONTROL, true, false, NOW), None);
    assert_eq!(
        state.handle_key(VK_LCONTROL, false, true, NOW),
        Some(KeyboardControlAction::SwitchToRussian)
    );
}

#[test]
fn keyboard_control_state_recovers_from_missing_win_key_up() {
    let mut state = KeyboardControlHookState::default();

    assert_eq!(state.handle_key(VK_LWIN, true, false, NOW), None);
    state.suspend_layout_controls_until = Some(NOW - 1);
    assert_eq!(state.handle_key(VK_LCONTROL, true, false, NOW), None);
    assert_eq!(
        state.handle_key(VK_LCONTROL, false, true, NOW),
        Some(KeyboardControlAction::SwitchToRussian)
    );
}

#[test]
fn keyboard_control_state_emits_correction_hotkey_once_until_key_up() {
    let mut state = KeyboardControlHookState::default();

    assert_eq!(
        state.handle_correction_hotkey(VK_PAUSE, true, false, up(), NOW),
        Some(CorrectionMode::Pause)
    );
    assert_eq!(state.handle_correction_hotkey(VK_PAUSE, false, true, up(), NOW), None);
    let mut state = KeyboardControlHookState::default();
    assert_eq!(
        state.handle_correction_hotkey(VK_CANCEL, true, false, up(), NOW),
        Some(CorrectionMode::Pause)
    );
}

#[test]
fn keyboard_control_state_recovers_from_missing_pause_key_up() {
    let mut state = KeyboardControlHookState::default();

    assert_eq!(
        state.handle_correction_hotkey(VK_PAUSE, true, false, up(), NOW),
        Some(CorrectionMode::Pause)
    );
    state.pause_down_at = Some(NOW - 800);
    state.last_pause_at = Some(NOW - 800);

    assert_eq!(
        state.handle_correction_hotkey(VK_PAUSE, true, false, up(), NOW),
        Some(CorrectionMode::Pause)
    );
}

#[test]
fn keyboard_control_state_maps_ctrl_pause_to_scrolllock_mode() {
    let mut state = KeyboardControlHookState::default();

    assert_eq!(state.handle_key(VK_LCONTROL, true, false, NOW), None);
    assert_eq!(state.handle_correction_hotkey(VK_PAUSE, true, false, up(), NOW), None);
    assert_eq!(state.handle_correction_hotkey(VK_PAUSE, false, true, up(), NOW), None);
    assert_eq!(state.handle_key(VK_LCONTROL, false, true, NOW), None);
    assert_eq!(state.take_pending_scroll_lock_if_released(), Some(CorrectionMode::ScrollLock));

    let mut state = KeyboardControlHookState::default();
    assert_eq!(state.handle_key(VK_RCONTROL, true, false, NOW), None);
    assert_eq!(state.handle_correction_hotkey(VK_CANCEL, true, false, up(), NOW), None);
    assert_eq!(state.handle_correction_hotkey(VK_CANCEL, false, true, up(), NOW), None);
    assert_eq!(state.handle_key(VK_RCONTROL, false, true, NOW), None);
    assert_eq!(state.take_pending_scroll_lock_if_released(), Some(CorrectionMode::ScrollLock));
}

#[test]
fn keyboard_control_state_marks_ctrl_pause_as_used_when_terminal_handles_it() {
    let mut state = KeyboardControlHookState::default();

    assert_eq!(state.handle_key(VK_LCONTROL, true, false, NOW), None);
    assert_eq!(
        state.handle_terminal_pause_key(VK_PAUSE, true, false, up(), NOW),
        TerminalPauseHandling::TranslateToF14
    );
    assert_eq!(
        state.handle_terminal_pause_key(VK_PAUSE, false, true, up(), NOW),
        TerminalPauseHandling::Suppress
    );
    assert_eq!(state.handle_key(VK_LCONTROL, false, true, NOW), None);

    let mut state = KeyboardControlHookState::default();
    assert_eq!(state.handle_key(VK_RCONTROL, true, false, NOW), None);
    assert_eq!(
        state.handle_terminal_pause_key(VK_CANCEL, true, false, up(), NOW),
        TerminalPauseHandling::TranslateToF14
    );
    assert_eq!(
        state.handle_terminal_pause_key(VK_CANCEL, false, true, up(), NOW),
        TerminalPauseHandling::Suppress
    );
    assert_eq!(state.handle_key(VK_RCONTROL, false, true, NOW), None);
}

#[test]
fn keyboard_control_state_maps_classic_console_ctrl_pause_immediately() {
    let mut state = KeyboardControlHookState::default();

    assert_eq!(state.handle_key(VK_LCONTROL, true, false, NOW), None);
    assert_eq!(
        state.handle_classic_console_pause_key(VK_CANCEL, true, false, up(), NOW),
        Some(CorrectionMode::ScrollLock)
    );
    assert_eq!(state.handle_classic_console_pause_key(VK_CANCEL, false, true, up(), NOW), None);
    assert_eq!(state.handle_key(VK_LCONTROL, false, true, NOW), None);
    assert_eq!(state.take_pending_scroll_lock_if_released(), None);
}

#[test]
fn keyboard_control_state_maps_classic_console_plain_pause_immediately() {
    let mut state = KeyboardControlHookState::default();

    assert_eq!(
        state.handle_classic_console_pause_key(VK_PAUSE, true, false, up(), NOW),
        Some(CorrectionMode::Pause)
    );
    assert_eq!(state.handle_classic_console_pause_key(VK_PAUSE, false, true, up(), NOW), None);
}

#[test]
fn keyboard_control_state_maps_plain_terminal_pause_to_psreadline_chord() {
    let mut state = KeyboardControlHookState::default();

    assert_eq!(
        state.handle_terminal_pause_key(VK_PAUSE, true, false, up(), NOW),
        TerminalPauseHandling::TranslateToF13
    );
    assert_eq!(
        state.handle_terminal_pause_key(VK_PAUSE, false, true, up(), NOW),
        TerminalPauseHandling::Suppress
    );
}

#[test]
fn keyboard_control_state_suppresses_scrolllock_companion_c_briefly() {
    let mut state = KeyboardControlHookState::default();

    assert_eq!(state.handle_key(VK_LCONTROL, true, false, NOW), None);
    assert_eq!(state.handle_correction_hotkey(VK_PAUSE, true, false, up(), NOW), None);
    assert!(state.should_suppress_companion_key(VK_C, NOW));
    assert!(state.should_suppress_companion_key(VK_C, NOW));
    assert!(state.should_suppress_companion_key(VK_HOME, NOW));
    assert!(state.should_suppress_companion_key(VK_RIGHT, NOW));
    assert!(!state.should_suppress_companion_key(VK_LCONTROL, NOW));
}

#[test]
fn injected_keyboard_events_are_not_interpreted_as_user_controls() {
    let _ = VK_CONTROL;
    assert!(should_ignore_keyboard_hook_event(true));
    assert!(!should_ignore_keyboard_hook_event(false));
}

#[test]
fn send_input_uses_scan_codes_for_keyboard_events() {
    let keyboard = keyboard_scan_code(VK_C, 0x2E, false, 0);

    assert_eq!(keyboard.vk, 0);
    assert_ne!(keyboard.scan, 0);
    assert_eq!(keyboard.flags & KEYEVENTF_SCANCODE, KEYEVENTF_SCANCODE);
}

#[test]
fn send_input_can_use_virtual_keys_for_terminal_shortcuts() {
    let keyboard = keyboard_virtual_key(VK_C, false, 0);

    assert_eq!(keyboard.vk, VK_C as u16);
    assert_eq!(keyboard.scan, 0);
    assert_eq!(keyboard.flags & KEYEVENTF_SCANCODE, 0);
}

#[test]
fn send_input_can_emit_unicode_units() {
    let keyboard = keyboard_unicode('я' as u16, false);

    assert_eq!(keyboard.vk, 0);
    assert_eq!(keyboard.scan, 'я' as u16);
    assert_eq!(keyboard.flags & KEYEVENTF_UNICODE, KEYEVENTF_UNICODE);
}

#[test]
fn hotkeyhandler_markers_are_not_user_selection_text() {
    assert!(looks_like_hotkeyhandler_marker(
        "__HKH_SELECTED_MARKER_cc58bf97238446389051bab0525c89da__"
    ));
    assert!(looks_like_hotkeyhandler_marker(
        "__HKH_LEFT_TEXT_MARKER_cc58bf97238446389051bab0525c89da__"
    ));
    assert!(!looks_like_hotkeyhandler_marker("k.,jdm"));
}

#[test]
fn send_input_marks_navigation_keys_as_extended() {
    for vk in [VK_HOME, VK_END, VK_INSERT] {
        let keyboard = keyboard_scan_code(vk, 0x47, false, 0);

        assert_eq!(
            keyboard.flags & KEYEVENTF_EXTENDEDKEY,
            KEYEVENTF_EXTENDEDKEY,
            "vk=0x{vk:X} must not be sent as a numpad key"
        );
    }
}
