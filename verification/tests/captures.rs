use stepler_platform::encoding::encode_utf16le_base64;
use stepler_platform::ids::{hwnd_id, parse_hwnd_id};
use stepler_platform::model::{MethodId, ReplacementPlan, TextContext, TextRange};
use stepler_platform::platform::PlatformError;
use stepler_platform::replacement::{
    apply_replacement_method, apply_result_from_output, report_confirms, uia_caret_range_request,
    uia_document_selection_plan_ok, uia_text_apply_request, word_com_apply_request,
};
use stepler_platform::script_output::{
    parse_key_value_lines, uia_document_context_from_output, uia_selection_geometry,
    uia_text_context_from_output, word_com_context_from_output,
};
use stepler_platform::text::title_contains;
use stepler_platform::win32_edit::{edit_text_preflight, win32_edit_app_id, win32_edit_context};

fn reason(error: PlatformError) -> String {
    match error {
        PlatformError::ReplacementUnavailableReason(reason) => reason,
        other => panic!("expected a reason, got {other:?}"),
    }
}

fn plan(text: &str, expected: &str, replacement: &str) -> ReplacementPlan {
    let start = text.find(expected).unwrap();
    ReplacementPlan {
        range: TextRange::new(start, start + expected.len()),
        replacement_text: String::from(replacement),
        reason: String::from("test"),
        expected_before_text: String::from(expected),
    }
}

#[test]
fn report_lines_keep_the_last_value_of_a_key() {
    let fields = parse_key_value_lines("ok = 1\r\nnoise\nkind=caret\nkind = selection \n");

    assert_eq!(
        fields,
        vec![
            (String::from("ok"), String::from("1")),
            (String::from("kind"), String::from("caret")),
            (String::from("kind"), String::from("selection")),
        ]
    );
}

#[test]
fn uia_text_report_builds_a_context_with_selection() {
    let output = format!(
        "ok=1\r\ncan_set_value=1\r\ntext_b64={}\r\nselection_start=1\r\nselection_end=3\r\ncaret=3\r\nruntime_id=42.7\r\n",
        encode_utf16le_base64("hello")
    );

    let context = uia_text_context_from_output(&output, 0x10, 0x20, "App", "Edit", true).unwrap();

    assert_eq!(context.app_id, "App/Edit");
    assert_eq!(context.window_id, "hwnd:10");
    assert_eq!(context.control_id, "uia:42.7:hwnd:20");
    assert_eq!(context.text_snapshot, "hello");
    assert_eq!(context.selection_range, Some(TextRange::new(1, 3)));
    assert_eq!(context.caret_range, TextRange::caret(3));
    assert!(context.capabilities.can_read_selection);
    let binding = context.capabilities.method_binding.unwrap();
    assert_eq!(binding.context_method, MethodId::UiAutomationEditableText);
    assert_eq!(binding.replace_methods, vec![MethodId::UiAutomationEditableText]);
}

#[test]
fn uia_text_report_counts_crlf_as_one_edit_position() {
    let output = format!(
        "ok=1\ncan_set_value=1\ntext_b64={}\ncaret=5\n",
        encode_utf16le_base64("ab\r\nпш")
    );

    let context = uia_text_context_from_output(&output, 1, 2, "A", "B", false).unwrap();

    assert_eq!(context.caret_range, TextRange::caret("ab\r\nпш".len()));
    assert_eq!(context.selection_range, None);
    assert_eq!(context.control_id, "uia:unknown:hwnd:2");
    assert_eq!(
        context.capabilities.method_binding.unwrap().context_method,
        MethodId::UiAutomationText
    );
}

#[test]
fn uia_text_report_errors_name_their_cause() {
    let text = encode_utf16le_base64("x");
    assert_eq!(
        reason(uia_text_context_from_output("", 1, 2, "A", "B", false).unwrap_err()),
        "uia_capture_failed"
    );
    assert_eq!(
        reason(uia_text_context_from_output("ok=0\nerror=no_focus", 1, 2, "A", "B", false).unwrap_err()),
        "no_focus"
    );
    assert_eq!(
        reason(uia_text_context_from_output("ok=1\ncan_set_value=0", 1, 2, "A", "B", false).unwrap_err()),
        "no_writable_value"
    );
    assert_eq!(
        reason(uia_text_context_from_output("ok=1\ncan_set_value=1\ntext_b64=%%", 1, 2, "A", "B", false).unwrap_err()),
        "missing_or_invalid_text"
    );
    assert_eq!(
        reason(uia_text_context_from_output("ok=1\ncan_set_value=1\ntext_b64=", 1, 2, "A", "B", false).unwrap_err()),
        "empty_text"
    );
    let ok = format!("ok=1\ncan_set_value=1\ntext_b64={text}");
    assert!(uia_text_context_from_output(&ok, 1, 2, "A", "B", false).is_ok());
}

#[test]
fn uia_geometry_prefers_the_selection_end_as_caret() {
    assert_eq!(uia_selection_geometry("hello", Some(4), Some(1), Some(0)), (1, Some(TextRange::new(4, 1))));
    assert_eq!(uia_selection_geometry("hello", Some(2), Some(2), None), (5, None));
    assert_eq!(uia_selection_geometry("hello", None, None, Some(99)), (5, None));
}

#[test]
fn uia_document_report_gives_selection_or_caret_context() {
    let text = encode_utf16le_base64("selected text");
    let selection = format!("ok=1\ntext_b64={text}\nruntime_id=7\n");
    let context = uia_document_context_from_output(&selection, 1, 2, "Chrome", "Doc").unwrap();
    assert_eq!(context.control_id, "uia-doc:7:hwnd:2");
    assert_eq!(context.selection_range, Some(TextRange::new(0, "selected text".len())));
    assert!(context.capabilities.can_read_selection);
    assert!(!context.capabilities.can_read_caret);

    let caret = format!("ok=1\nkind=caret\ntext_b64={text}\n");
    let context = uia_document_context_from_output(&caret, 1, 2, "Chrome", "Doc").unwrap();
    assert_eq!(context.control_id, "uia-doc-caret:unknown:hwnd:2");
    assert_eq!(context.selection_range, None);
    assert!(context.capabilities.can_read_caret);

    let blank = format!("ok=1\ntext_b64={}\n", encode_utf16le_base64(" \r\n"));
    assert_eq!(
        reason(uia_document_context_from_output(&blank, 1, 2, "A", "B").unwrap_err()),
        "empty_selection_text"
    );
    assert_eq!(
        reason(uia_document_context_from_output("ok=1\n", 1, 2, "A", "B").unwrap_err()),
        "missing_or_invalid_selection_text"
    );
    assert_eq!(
        reason(uia_document_context_from_output("ok=0", 1, 2, "A", "B").unwrap_err()),
        "uia_document_capture_failed"
    );
}

#[test]
fn word_report_carries_base_and_outlook_prefix() {
    let output = format!("ok=1\ntext_b64={}\nbase=120\nkind=selection\n", encode_utf16le_base64("ghbdtn"));

    let word = word_com_context_from_output(&output, 1, 2, "OpusApp", "_WwG", Some("WINWORD")).unwrap();
    assert_eq!(word.control_id, "word-com:120:hwnd:2");
    assert_eq!(word.selection_range, Some(TextRange::new(0, 6)));

    let outlook = word_com_context_from_output(&output, 1, 2, "rctrl_renwnd32", "_WwG", Some("OUTLOOK")).unwrap();
    assert_eq!(outlook.control_id, "outlook-word-com:120:hwnd:2");

    let no_base = format!("ok=1\ntext_b64={}\n", encode_utf16le_base64("ghbdtn"));
    assert_eq!(
        word_com_context_from_output(&no_base, 1, 2, "OpusApp", "_WwG", None).unwrap_err(),
        PlatformError::ReplacementUnavailable
    );
    assert_eq!(
        reason(word_com_context_from_output("ok=0", 1, 2, "OpusApp", "_WwG", None).unwrap_err()),
        "uia_capture_failed"
    );
}

#[test]
fn word_apply_request_counts_utf16_positions_from_base() {
    let text = "мир ghbdtn 🌍";
    let context = TextContext {
        control_id: String::from("word-com:100:hwnd:2"),
        ..TextContext::new(text).with_caret(TextRange::caret(text.len()))
    };
    let request = word_com_apply_request(&context, &plan(text, "ghbdtn", "привет!")).unwrap();

    assert!(!request.outlook);
    assert_eq!(request.start, 104);
    assert_eq!(request.end, 110);
    assert_eq!(request.caret, 100 + 13 + 1);
    assert_eq!(request.actual_before, "ghbdtn");
    assert_eq!(request.replacement_b64, encode_utf16le_base64("привет!"));

    let mut wrong = plan(text, "ghbdtn", "x");
    wrong.expected_before_text = String::from("other");
    assert_eq!(word_com_apply_request(&context, &wrong).unwrap_err(), PlatformError::PreflightFailed);
    let unbound = TextContext::new(text);
    assert_eq!(
        word_com_apply_request(&unbound, &plan(text, "ghbdtn", "x")).unwrap_err(),
        PlatformError::ReplacementUnavailable
    );
}

#[test]
fn uia_apply_requests_rewrite_the_whole_value() {
    let text = "a ghbdtn b";
    let context = TextContext {
        window_id: hwnd_id(0x1F),
        control_id: String::from("uia:5.6:hwnd:2"),
        ..TextContext::new(text)
    };
    let request = uia_text_apply_request(&context, &plan(text, "ghbdtn", "привет")).unwrap();

    assert_eq!(request.foreground, Some(0x1F));
    assert_eq!(request.runtime_id, "5.6");
    assert_eq!(request.replacement_b64, encode_utf16le_base64("a привет b"));
    assert_eq!(request.caret_utf16, 8);

    let document = TextContext {
        control_id: String::from("uia-doc-caret:9:hwnd:2"),
        ..context
    };
    let caret = uia_caret_range_request(&document, &plan(text, "ghbdtn", "привет")).unwrap();
    assert_eq!(caret.runtime_id, "9");
    assert_eq!(caret.start_delta, -8);
    assert_eq!(caret.end_delta, -2);
}

#[test]
fn document_selection_plans_must_cover_the_capture() {
    let context = TextContext::new("ghbdtn");
    assert!(uia_document_selection_plan_ok(&context, &plan("ghbdtn", "ghbdtn", "привет")));
    assert!(!uia_document_selection_plan_ok(&context, &plan("ghbdtn", "bdtn", "x")));
}

#[test]
fn script_results_report_the_text_after() {
    let output = format!("ok=1\nafter_b64={}\n", encode_utf16le_base64("привет"));
    let result = apply_result_from_output(&output, "after_b64", MethodId::WordCom, String::from("ghbdtn")).unwrap();

    assert!(result.applied);
    assert_eq!(result.method, "word-com");
    assert_eq!(result.actual_before_text.as_deref(), Some("ghbdtn"));
    assert_eq!(result.actual_after_text.as_deref(), Some("привет"));
    assert_eq!(
        apply_result_from_output("ok=0", "after_b64", MethodId::WordCom, String::new()).unwrap_err(),
        PlatformError::PreflightFailed
    );
    assert!(report_confirms("ok=1"));
    assert!(!report_confirms("ok=10"));
}

#[test]
fn unbound_ssh_contexts_cannot_apply() {
    let mut context = TextContext::new("x");
    context.capabilities.method_binding = Some(stepler_platform::model::MethodBinding::new(
        MethodId::SshTerminal,
        vec![MethodId::SshTerminal],
    ));
    assert_eq!(apply_replacement_method(&context).unwrap_err(), PlatformError::ReplacementUnavailable);
}

#[test]
fn win32_edit_contexts_convert_the_selection() {
    let context = win32_edit_context(1, 2, "rctrl_renwnd32", "RichEdit20WPT", String::from("ab\r\ncd"), Some((3, 5)));

    assert_eq!(context.app_id, "rctrl_renwnd32/RichEdit20WPT");
    assert_eq!(context.control_id, "hwnd:2");
    assert_eq!(context.selection_range, Some(TextRange::new(4, 6)));
    assert_eq!(context.caret_range, TextRange::caret(6));
    assert_eq!(win32_edit_app_id("Notepad", "Edit"), "Notepad");
    assert_eq!(
        edit_text_preflight("echo ghbdtn", &plan("echo ghbdtn", "ghbdtn", "x")).unwrap(),
        "ghbdtn"
    );
}

#[test]
fn hwnd_ids_read_back() {
    for hwnd in [0isize, 1, 0x1A2B, isize::MAX] {
        assert_eq!(parse_hwnd_id(&hwnd_id(hwnd)), Some(hwnd));
    }
}

#[test]
fn title_matching_ignores_unicode_case() {
    assert!(title_contains("Mozilla FIREFOX", "firefox"));
    assert!(title_contains("НЕТ НЕПРОЧИТАННЫХ СООБЩЕНИЙ", "нет непрочитанных"));
    assert!(!title_contains("Word", "excel"));
}
