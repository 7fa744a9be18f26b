use stepler_platform::model::{ReplacementPlan, TextRange};
use stepler_platform::offsets::{byte_offset_to_char, char_offset_to_byte};
use stepler_platform::remote::{apply_plan_to_line, plan_line_output, readline_context, ConversionResult, LineOutcome};

fn plan(line: &str, expected: &str, replacement: &str) -> ReplacementPlan {
    let start = line.find(expected).unwrap();
    ReplacementPlan {
        range: TextRange::new(start, start + expected.len()),
        replacement_text: String::from(replacement),
        reason: String::from("test"),
        expected_before_text: String::from(expected),
    }
}

#[test]
fn pause_converts_word_before_cursor() {
    let line = "echo ghbdtn";
    let result = apply_plan_to_line(line, line.len(), &plan(line, "ghbdtn", "привет")).expect("pause plan");

    assert_eq!(result.line, "echo привет");
    assert_eq!(result.point_byte, "echo привет".len());
}

#[test]
fn pause_accepts_trailing_space() {
    let line = "echo ltym/ ";
    let result = apply_plan_to_line(line, line.len(), &plan(line, "ltym/", "день.")).expect("pause plan");

    assert_eq!(result.line, "echo день. ");
    assert_eq!(result.point_byte, "echo день. ".len());
}

#[test]
fn scrolllock_converts_likely_phrase() {
    let line = "house dfkmc поле long привет мир";
    let result = apply_plan_to_line(line, line.len(), &plan(line, "dfkmc", "вальс")).expect("scrolllock plan");

    assert_eq!(result.line, "house вальс поле long привет мир");
    assert_eq!(result.point_byte, "house вальс поле long привет мир".len());
}

#[test]
fn output_is_base64_encoded_for_bash() {
    let converted = LineOutcome::Converted(ConversionResult {
        line: String::from("привет"),
        point_byte: "привет".len(),
    });
    let output = plan_line_output("ghbdtn", 6, &converted);

    assert_eq!(output, "ok\t6\t0L/RgNC40LLQtdGC");
}

#[test]
fn readline_char_point_is_converted_to_byte_offset() {
    let byte = char_offset_to_byte("пше git", 3).unwrap();

    assert_eq!(&"пше git"[..byte], "пше");
    assert_eq!(byte_offset_to_char("пше git", byte), 3);
}

#[test]
fn readline_context_holds_the_line_and_point() {
    let context = readline_context("пше git", "пше".len());

    assert_eq!(context.text_snapshot, "пше git");
    assert_eq!(context.caret_range, TextRange::caret("пше".len()));
    assert_eq!(context.app_id, "ssh-remote/bash");
    assert_eq!(context.control_id, "readline-line");
}

#[test]
fn mismatched_plan_leaves_the_line_alone() {
    let line = "echo ghbdtn";
    let mut wrong = plan(line, "ghbdtn", "привет");
    wrong.expected_before_text = String::from("other");

    assert_eq!(apply_plan_to_line(line, line.len(), &wrong), None);
}
