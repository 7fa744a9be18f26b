//! What the replacement scripts are handed and what their reports mean:
//! the checks made against a captured context before anything is written,
//! the positions sent to Word and UI Automation, and the result read back.
use vstd::prelude::*;
use crate::encoding::{encode_utf16, encode_utf16le_base64, spec_encode_base64, spec_utf16_to_le_bytes, utf16_units};
use crate::ids::{
    parse_hwnd_id, parse_uia_document_runtime_id, parse_uia_runtime_id, parse_word_com_base,
    spec_parse_hwnd_id, spec_parse_uia_document_runtime_id, spec_parse_uia_runtime_id,
    spec_parse_word_com_base,
};
use crate::model::{context_replacement_method, method_name, spec_context_replacement_method, MethodId, ReplacementPlan, TextContext, TextRange};
use crate::offsets::{
    byte_offset_to_utf16, is_char_boundary, lemma_utf16_offset_bounded, replace_range_text,
    slice_by_range, spec_byte_offset_to_utf16, spec_replace_range_text, spec_slice_by_range,
};
use crate::platform::{ApplyReplacementResult, PlatformError};
use crate::script_output::{field_value, parse_key_value_lines, report_field_is, report_text, spec_report_fields};
use crate::text::{has_prefix, str_eq, str_starts_with, utf16_len, utf8_len};

verus! {

/// The base64 UTF-16LE form in which scripts receive text.
pub open spec fn spec_b64(text: Seq<char>) -> Seq<char> {
    spec_encode_base64(spec_utf16_to_le_bytes(encode_utf16(text)))
}

/// A replacement for Word: document positions in UTF-16 units and the texts
/// the script checks and writes.
#[derive(Debug, Clone, PartialEq, Eq)]
pub struct WordApplyRequest {
    pub outlook: bool,
    pub start: usize,
    pub end: usize,
    pub caret: usize,
    pub expected_b64: String,
    pub replacement_b64: String,
    pub actual_before: String,
}

/// Where the caret goes after a Word replacement: behind the replaced text
/// when it stood at or after the range's end (moved by the change in
/// length, clamped to `0..=usize::MAX`), else where it was.
pub open spec fn word_target_caret(original: int, caret_end: usize, range_end: usize, delta: int) -> int {
    if caret_end >= range_end {
        let moved = original + delta;
        if moved < 0 {
            0
        } else if moved > usize::MAX {
            usize::MAX as int
        } else {
            moved
        }
    } else {
        original
    }
}

/// The change in UTF-16 length that a plan makes.
pub open spec fn plan_utf16_delta(plan: ReplacementPlan) -> int {
    encode_utf16(plan.replacement_text@).len() - encode_utf16(plan.expected_before_text@).len()
}

/// The text of the plan's range is what the plan expects there.
pub open spec fn plan_matches(context: TextContext, plan: ReplacementPlan) -> bool {
    spec_slice_by_range(context.text_snapshot@, plan.range) == Some(plan.expected_before_text@)
}

fn saturating_offset(original: usize, grow: usize, shrink: usize) -> (r: usize)
    ensures
        r == word_target_caret(original as int, 1, 0, grow - shrink),
{
    if grow >= shrink {
        original.saturating_add(grow - shrink)
    } else {
        original.saturating_sub(shrink - grow)
    }
}

/// The Word request for a plan (`WordComMethod::apply` up to the script).
pub fn word_com_apply_request(context: &TextContext, plan: &ReplacementPlan) -> (r: Result<
    WordApplyRequest,
    PlatformError,
>)
    requires
        context.caret_range.end >= utf8_len(context.text_snapshot@) || is_char_boundary(
            context.text_snapshot@,
            context.caret_range.end as int,
        ),
        spec_parse_word_com_base(context.control_id@) matches Some(b) ==> b + utf16_len(
            context.text_snapshot@,
        ) <= usize::MAX,
    ensures
        ({
            let t = context.text_snapshot@;
            match spec_parse_word_com_base(context.control_id@) {
                None => r matches Err(PlatformError::ReplacementUnavailable),
                Some(base) => if !plan_matches(*context, *plan) {
                    r matches Err(PlatformError::PreflightFailed)
                } else {
                    r matches Ok(q) && q.outlook == has_prefix(context.control_id@, "outlook-word-com:"@)
                        && q.start == base + spec_byte_offset_to_utf16(t, plan.range.start as int)
                        && q.end == base + spec_byte_offset_to_utf16(t, plan.range.end as int)
                        && q.caret == word_target_caret(
                        base + spec_byte_offset_to_utf16(t, context.caret_range.end as int),
                        context.caret_range.end,
                        plan.range.end,
                        plan_utf16_delta(*plan),
                    ) && q.expected_b64@ == spec_b64(plan.expected_before_text@) && q.replacement_b64@
                        == spec_b64(plan.replacement_text@) && q.actual_before@ == plan.expected_before_text@
                },
            }
        }),
{
    let base = match parse_word_com_base(context.control_id.as_str()) {
        Some(b) => b,
        None => {
            return Err(PlatformError::ReplacementUnavailable);
        },
    };
    let outlook = str_starts_with(context.control_id.as_str(), "outlook-word-com:");
    let text = context.text_snapshot.as_str();
    let actual_before = match slice_by_range(text, plan.range) {
        Some(s) => s,
        None => {
            return Err(PlatformError::PreflightFailed);
        },
    };
    if !str_eq(actual_before.as_str(), plan.expected_before_text.as_str()) {
        return Err(PlatformError::PreflightFailed);
    }
    proof {
        lemma_utf16_offset_bounded(text@, plan.range.start as int);
        lemma_utf16_offset_bounded(text@, plan.range.end as int);
        lemma_utf16_offset_bounded(text@, context.caret_range.end as int);
    }
    let start = base + byte_offset_to_utf16(text, plan.range.start);
    let end = base + byte_offset_to_utf16(text, plan.range.end);
    let original_caret = base + byte_offset_to_utf16(text, context.caret_range.end);
    let grow = utf16_units(plan.replacement_text.as_str()).len();
    let shrink = utf16_units(plan.expected_before_text.as_str()).len();
    let caret = if context.caret_range.end >= plan.range.end {
        saturating_offset(original_caret, grow, shrink)
    } else {
        original_caret
    };
    Ok(WordApplyRequest {
        outlook,
        start,
        end,
        caret,
        expected_b64: encode_utf16le_base64(plan.expected_before_text.as_str()),
        replacement_b64: encode_utf16le_base64(plan.replacement_text.as_str()),
        actual_before,
    })
}

/// A whole-value replacement through the UI Automation value pattern.
#[derive(Debug, Clone, PartialEq, Eq)]
pub struct UiaTextApplyRequest {
    pub foreground: Option<isize>,
    pub runtime_id: String,
    pub expected_b64: String,
    pub replacement_b64: String,
    pub caret_utf16: usize,
    pub actual_before: String,
}

/// The value-pattern request for a plan (`apply_uia_text_replacement` up to
/// the script): the whole new value, and the caret behind the inserted text.
pub fn uia_text_apply_request(context: &TextContext, plan: &ReplacementPlan) -> (r: Result<
    UiaTextApplyRequest,
    PlatformError,
>)
    requires
        utf16_len(context.text_snapshot@) + encode_utf16(plan.replacement_text@).len() <= usize::MAX,
    ensures
        ({
            let t = context.text_snapshot@;
            if !plan_matches(*context, *plan) {
                r matches Err(PlatformError::PreflightFailed)
            } else {
                match spec_parse_uia_runtime_id(context.control_id@) {
                    None => r matches Err(PlatformError::ReplacementUnavailable),
                    Some(id) => r matches Ok(q) && q.foreground == spec_parse_hwnd_id(context.window_id@)
                        && q.runtime_id@ == id && q.expected_b64@ == spec_b64(t) && q.replacement_b64@
                        == spec_b64(spec_replace_range_text(t, plan.range, plan.replacement_text@).unwrap())
                        && q.caret_utf16 == spec_byte_offset_to_utf16(t, plan.range.start as int)
                        + encode_utf16(plan.replacement_text@).len() && q.actual_before@
                        == plan.expected_before_text@,
                }
            }
        }),
{
    let text = context.text_snapshot.as_str();
    let actual_before = match slice_by_range(text, plan.range) {
        Some(s) => s,
        None => {
            return Err(PlatformError::PreflightFailed);
        },
    };
    if !str_eq(actual_before.as_str(), plan.expected_before_text.as_str()) {
        return Err(PlatformError::PreflightFailed);
    }
    let replacement = match replace_range_text(text, plan.range, plan.replacement_text.as_str()) {
        Some(s) => s,
        None => {
            return Err(PlatformError::PreflightFailed);
        },
    };
    let runtime_id = match parse_uia_runtime_id(context.control_id.as_str()) {
        Some(id) => id,
        None => {
            return Err(PlatformError::ReplacementUnavailable);
        },
    };
    proof {
        lemma_utf16_offset_bounded(text@, plan.range.start as int);
    }
    let caret_utf16 = byte_offset_to_utf16(text, plan.range.start) + utf16_units(
        plan.replacement_text.as_str(),
    ).len();
    Ok(UiaTextApplyRequest {
        foreground: parse_hwnd_id(context.window_id.as_str()),
        runtime_id,
        expected_b64: encode_utf16le_base64(text),
        replacement_b64: encode_utf16le_base64(replacement.as_str()),
        caret_utf16,
        actual_before,
    })
}

/// A selection of part of the text left of a document caret: the range as
/// offsets (in UTF-16 units, at most zero) from the caret.
#[derive(Debug, Clone, PartialEq, Eq)]
pub struct UiaCaretRangeRequest {
    pub foreground: Option<isize>,
    pub runtime_id: String,
    pub expected_b64: String,
    pub start_delta: isize,
    pub end_delta: isize,
    pub actual_before: String,
}

/// The caret-range selection request for a plan on a document context
/// captured left of the caret (`apply_caret_range` up to the script).
pub fn uia_caret_range_request(context: &TextContext, plan: &ReplacementPlan) -> (r: Result<
    UiaCaretRangeRequest,
    PlatformError,
>)
    requires
        utf16_len(context.text_snapshot@) <= isize::MAX,
    ensures
        ({
            let t = context.text_snapshot@;
            if !plan_matches(*context, *plan) {
                r matches Err(PlatformError::PreflightFailed)
            } else {
                match spec_parse_uia_document_runtime_id(context.control_id@) {
                    None => r matches Err(PlatformError::ReplacementUnavailable),
                    Some(id) => r matches Ok(q) && q.foreground == spec_parse_hwnd_id(context.window_id@)
                        && q.runtime_id@ == id && q.expected_b64@ == spec_b64(plan.expected_before_text@)
                        && q.start_delta == spec_byte_offset_to_utf16(t, plan.range.start as int)
                        - encode_utf16(t).len() && q.end_delta == spec_byte_offset_to_utf16(
                        t,
                        plan.range.end as int,
                    ) - encode_utf16(t).len() && q.actual_before@ == plan.expected_before_text@,
                }
            }
        }),
{
    let text = context.text_snapshot.as_str();
    let actual_before = match slice_by_range(text, plan.range) {
        Some(s) => s,
        None => {
            return Err(PlatformError::PreflightFailed);
        },
    };
    if !str_eq(actual_before.as_str(), plan.expected_before_text.as_str()) {
        return Err(PlatformError::PreflightFailed);
    }
    let runtime_id = match parse_uia_document_runtime_id(context.control_id.as_str()) {
        Some(id) => id,
        None => {
            return Err(PlatformError::ReplacementUnavailable);
        },
    };
    let left_len = utf16_units(text).len();
    proof {
        lemma_utf16_offset_bounded(text@, plan.range.start as int);
        lemma_utf16_offset_bounded(text@, plan.range.end as int);
        crate::encoding::lemma_encode_utf16_len(text@);
    }
    let start_utf16 = byte_offset_to_utf16(text, plan.range.start);
    let end_utf16 = byte_offset_to_utf16(text, plan.range.end);
    let start_delta = -((left_len - start_utf16) as isize);
    let end_delta = -((left_len - end_utf16) as isize);
    Ok(UiaCaretRangeRequest {
        foreground: parse_hwnd_id(context.window_id.as_str()),
        runtime_id,
        expected_b64: encode_utf16le_base64(plan.expected_before_text.as_str()),
        start_delta,
        end_delta,
        actual_before,
    })
}

/// A document context captured left of the caret rather than as a
/// selection.
pub open spec fn is_document_caret_context(context: TextContext) -> bool {
    has_prefix(context.control_id@, "uia-doc-caret:"@)
}

/// Whether a document selection plan may be typed over the selection: it
/// must replace the whole captured text, as captured.
pub fn uia_document_selection_plan_ok(context: &TextContext, plan: &ReplacementPlan) -> (r: bool)
    ensures
        r == (plan.range == (TextRange { start: 0, end: utf8_len(context.text_snapshot@) as usize })
            && plan.expected_before_text@ == context.text_snapshot@),
{
    let len = crate::text::byte_len(context.text_snapshot.as_str());
    plan.range.start == 0 && plan.range.end == len && str_eq(
        plan.expected_before_text.as_str(),
        context.text_snapshot.as_str(),
    )
}

/// The script's report confirms its step (`ok=1`).
pub fn report_confirms(output: &str) -> (r: bool)
    ensures
        r == (field_value(spec_report_fields(output@), "ok"@) == Some("1"@)),
{
    let fields = parse_key_value_lines(output);
    report_field_is(fields.as_slice(), "ok", "1")
}

/// The result of a replacement script: refused unless it confirms; the text
/// it reads back under `after_key`, when readable, is the text after.
pub fn apply_result_from_output(output: &str, after_key: &str, method: MethodId, actual_before: String) -> (r: Result<
    ApplyReplacementResult,
    PlatformError,
>)
    ensures
        ({
            let f = spec_report_fields(output@);
            if field_value(f, "ok"@) != Some("1"@) {
                r matches Err(PlatformError::PreflightFailed)
            } else {
                r matches Ok(a) && a.applied && a.retry_count == 0 && a.method@ == method_name(method)
                    && a.actual_before_text == Some(actual_before) && (match report_text(f, after_key@) {
                    Some(t) => a.actual_after_text matches Some(x) && x@ == t,
                    None => a.actual_after_text is None,
                })
            }
        }),
{
    let fields = parse_key_value_lines(output);
    let f = fields.as_slice();
    if !report_field_is(f, "ok", "1") {
        return Err(PlatformError::PreflightFailed);
    }
    let after = match crate::script_output::report_field(f, after_key) {
        Some(v) => match crate::encoding::decode_utf16le_base64(v.as_str()) {
            Ok(t) => Some(t),
            Err(_) => None,
        },
        None => None,
    };
    Ok(ApplyReplacementResult {
        applied: true,
        actual_before_text: Some(actual_before),
        actual_after_text: after,
        method: method.as_str().to_owned(),
        retry_count: 0,
    })
}


/// Methods that can apply a replacement on their own (SSH and PSReadLine
/// lines are rewritten by their own helpers).
pub open spec fn can_apply(method: MethodId) -> bool {
    !(method is SshTerminal || method is PsReadLine)
}

/// The method that applies a replacement to `context`
/// (`apply_replacement` before it dispatches): the first method of the
/// context's binding; refused without a binding, or for a method that
/// cannot apply.
pub fn apply_replacement_method(context: &TextContext) -> (r: Result<MethodId, PlatformError>)
    ensures
        match spec_context_replacement_method(*context) {
            Some(m) => if can_apply(m) {
                r == Ok::<MethodId, PlatformError>(m)
            } else {
                r matches Err(PlatformError::ReplacementUnavailable)
            },
            None => r matches Err(PlatformError::ReplacementUnavailableReason(x)) && x@ == "missing_method_binding"@,
        },
{
    match context_replacement_method(context) {
        Some(MethodId::SshTerminal) | Some(MethodId::PsReadLine) => Err(PlatformError::ReplacementUnavailable),
        Some(m) => Ok(m),
        None => Err(PlatformError::ReplacementUnavailableReason("missing_method_binding".to_owned())),
    }
}

} // verus!
