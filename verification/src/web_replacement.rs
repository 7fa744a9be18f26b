//! The text typed over a web selection: the context a keyboard capture
//! builds, and the replacement worked out from what was selected again at
//! apply time. Where the selection no longer matches the captured context,
//! the selected text has to be planned afresh; the planner's plan for it
//! is then taken as an argument.
use vstd::prelude::*;
use crate::ids::{hwnd_id, spec_hwnd_id};
use crate::model::{Capabilities, CorrectionMode, MethodBinding, MethodId, ReplacementPlan, TextContext, TextRange};
use crate::offsets::{replace_range_text, spec_replace_range_text};
use crate::platform::PlatformError;
use crate::text::{all_white, byte_len, chars_all_white, chars_of, concat, has_suffix, str_ends_with, str_eq, string_from_chars, string_from_range, utf8_len};
use crate::ids::{parse_hwnd_id, spec_parse_hwnd_id};
use crate::offsets::{slice_by_range, spec_slice_by_range};
use crate::encoding::{encode_utf16, utf16_units};
use crate::web_keyboard::{
    spec_shifted_web_selection_prefix, shifted_web_selection_prefix,
    spec_fast_context, spec_rocket_fast_context, spec_rocket_active_line_context, spec_captured_left_context,
    spec_line_context, spec_is_sticky_notes_context, web_keyboard_fast_context, web_keyboard_rocket_fast_context,
    web_keyboard_rocket_active_line_context, web_keyboard_captured_left_context, is_web_keyboard_line_context,
    is_sticky_notes_context,
    correction_mode_from_plan, normalize_web_keyboard_context_text, spec_correction_mode_from_plan,
    spec_normalize_web_keyboard_context_text, spec_split_trailing_line_breaks, split_trailing_line_breaks,
};

verus! {

/// A character as an error message shows it: line breaks escaped.
pub open spec fn escaped_char(c: char) -> Seq<char> {
    if c == '\r' {
        seq!['\\', 'r']
    } else if c == '\n' {
        seq!['\\', 'n']
    } else {
        seq![c]
    }
}

/// `s` with every carriage return and line feed escaped.
pub open spec fn escape_line_breaks(s: Seq<char>) -> Seq<char>
    decreases s.len(),
{
    if s.len() == 0 {
        Seq::empty()
    } else {
        escape_line_breaks(s.drop_last()) + escaped_char(s.last())
    }
}

/// The first `limit` characters of `text`, `...` when more follow, line
/// breaks escaped.
pub open spec fn spec_preview_for_error(text: Seq<char>, limit: usize) -> Seq<char> {
    if text.len() > limit {
        escape_line_breaks(text.take(limit as int) + seq!['.', '.', '.'])
    } else {
        escape_line_breaks(text)
    }
}

/// A short one-line rendering of `text` for error messages.
pub fn preview_for_error(text: &str, limit: usize) -> (r: String)
    ensures
        r@ == spec_preview_for_error(text@, limit),
{
    let v = chars_of(text);
    let mut shown: Vec<char> = Vec::new();
    let mut i: usize = 0;
    while i < v.len() && i < limit
        invariant
            i <= v.len(),
            i <= limit,
            shown@ == v@.take(i as int),
        decreases v.len() - i,
    {
        shown.push(v[i]);
        assert(v@.take(i + 1) == v@.take(i as int).push(v@[i as int]));
        i += 1;
    }
    if v.len() > limit {
        shown.push('.');
        shown.push('.');
        shown.push('.');
        assert(shown@ == v@.take(limit as int) + seq!['.', '.', '.']);
    } else {
        assert(v@.take(i as int) == v@);
    }
    let mut out: Vec<char> = Vec::new();
    let mut k: usize = 0;
    while k < shown.len()
        invariant
            k <= shown.len(),
            out@ == escape_line_breaks(shown@.take(k as int)),
        decreases shown.len() - k,
    {
        let c = shown[k];
        assert(shown@.take(k + 1).drop_last() == shown@.take(k as int));
        if c == '\r' {
            out.push('\\');
            out.push('r');
        } else if c == '\n' {
            out.push('\\');
            out.push('n');
        } else {
            out.push(c);
        }
        k += 1;
    }
    assert(shown@.take(shown.len() as int) == shown@);
    string_from_chars(out.as_slice())
}

/// The context that a web keyboard capture builds from the copied text.
pub open spec fn is_web_keyboard_context(
    c: TextContext,
    app_class: Seq<char>,
    focused_class: Seq<char>,
    foreground: isize,
    focused: isize,
    control_prefix: Seq<char>,
    text: Seq<char>,
    has_selection: bool,
) -> bool {
    let t = spec_normalize_web_keyboard_context_text(control_prefix, text);
    &&& c.app_id@ == app_class + "/"@ + focused_class
    &&& c.window_id@ == spec_hwnd_id(foreground)
    &&& c.control_id@ == control_prefix + ":"@ + spec_hwnd_id(focused)
    &&& c.text_snapshot@ == t
    &&& c.caret_range == TextRange::caret_spec(utf8_len(t) as usize)
    &&& c.selection_range == if has_selection {
        Some(TextRange { start: 0, end: utf8_len(t) as usize })
    } else {
        None
    }
    &&& !c.capabilities.can_replace_directly
    &&& c.capabilities.can_read_selection == has_selection
    &&& c.capabilities.can_read_caret
    &&& c.capabilities.method_binding matches Some(b) && b.context_method == MethodId::WebKeyboardSelection
        && b.replace_methods@ == seq![MethodId::WebKeyboardSelection]
}

/// The context of text copied out of a web editor; `control_prefix`
/// records how it was selected.
pub fn web_keyboard_context(
    app_class: &str,
    focused_class: &str,
    foreground: isize,
    focused: isize,
    control_prefix: &str,
    text: String,
    has_selection: bool,
) -> (r: TextContext)
    ensures
        is_web_keyboard_context(
            r,
            app_class@,
            focused_class@,
            foreground,
            focused,
            control_prefix@,
            text@,
            has_selection,
        ),
{
    let ghost old_text = text;
    let text = normalize_web_keyboard_context_text(control_prefix, text);
    let len = byte_len(text.as_str());
    let head = concat(app_class, "/");
    let app_id = concat(head.as_str(), focused_class);
    let prefix = concat(control_prefix, ":");
    let h = hwnd_id(focused);
    let control_id = concat(prefix.as_str(), h.as_str());
    let selection = if has_selection {
        Some(TextRange::new(0, len))
    } else {
        None
    };
    let binding = MethodBinding::new(MethodId::WebKeyboardSelection, vec![MethodId::WebKeyboardSelection]);
    assert(binding.replace_methods@ == seq![MethodId::WebKeyboardSelection]);
    assert(text@ == spec_normalize_web_keyboard_context_text(control_prefix@, old_text@));
    TextContext {
        app_id,
        window_id: hwnd_id(foreground),
        control_id,
        text_snapshot: text,
        caret_range: TextRange::caret(len),
        selection_range: selection,
        capabilities: Capabilities {
            can_replace_directly: false,
            can_read_selection: has_selection,
            can_read_caret: true,
            method_binding: Some(binding),
        },
    }
}

/// How the text to type over a selection comes about.
#[derive(Debug, Clone, PartialEq, Eq)]
pub enum WebReplacementStep {
    /// The text to type and the text it must replace.
    Ready { replacement: String, expected_before: String },
    /// `text` must be planned afresh in `mode`; `suffix` (the selection's
    /// trailing line breaks) goes behind the result.
    Replan { text: String, mode: CorrectionMode, suffix: String },
}

/// The body of the current selection and its trailing line breaks, and the
/// body of the captured text.
pub open spec fn selected_core(selected: Seq<char>) -> Seq<char> {
    spec_split_trailing_line_breaks(selected).0
}

pub open spec fn selected_suffix(selected: Seq<char>) -> Seq<char> {
    spec_split_trailing_line_breaks(selected).1
}

/// The refusal when the selection does not end with the captured text.
pub open spec fn preflight_message(kind: Seq<char>, expected: Seq<char>, actual: Seq<char>) -> Seq<char> {
    kind + " expected="@ + spec_preview_for_error(expected, 40) + " actual="@ + spec_preview_for_error(
        actual,
        40,
    )
}

pub fn web_preflight_error(kind: &str, expected: &str, actual: &str) -> (r: PlatformError)
    ensures
        r matches PlatformError::ReplacementUnavailableReason(m) && m@ == preflight_message(kind@, expected@, actual@),
{
    let a = concat(kind, " expected=");
    let b = concat(a.as_str(), preview_for_error(expected, 40).as_str());
    let c = concat(b.as_str(), " actual=");
    let d = concat(c.as_str(), preview_for_error(actual, 40).as_str());
    PlatformError::ReplacementUnavailableReason(d)
}

/// A selection left of the caret came out shorter than the captured text
/// (a non-empty tail of its body), so selecting again is worth a try.
pub fn web_keyboard_captured_left_should_retry_selection(context: &TextContext, selected_text: &str) -> (r: bool)
    ensures
        r == ({
            let sc = selected_core(selected_text@);
            let cc = selected_core(context.text_snapshot@);
            sc.len() > 0 && sc != cc && has_suffix(cc, sc)
        }),
{
    let (sc, _) = split_trailing_line_breaks(selected_text);
    let (cc, _) = split_trailing_line_breaks(context.text_snapshot.as_str());
    chars_of(sc.as_str()).len() > 0 && !str_eq(sc.as_str(), cc.as_str()) && str_ends_with(cc.as_str(), sc.as_str())
}

/// The text to type over a selection made left of the caret
/// (captured-left contexts), checked against the captured context.
///
/// When the selection's body is the captured body, the plan applies to it
/// (after planning the body afresh when the capture carried line breaks).
/// Otherwise the selection must end with the captured body: for `Pause`
/// the extra head must be white space and is kept in front; for
/// `ScrollLock` it must stay on the line, and the whole selected body is
/// planned afresh.
pub fn web_keyboard_captured_left_replacement_text(
    context: &TextContext,
    plan: &ReplacementPlan,
    selected_text: &str,
) -> (r: Result<WebReplacementStep, PlatformError>)
    ensures
        ({
            let sc = selected_core(selected_text@);
            let ss = selected_suffix(selected_text@);
            let cc = selected_core(context.text_snapshot@);
            let mode = spec_correction_mode_from_plan(*plan);
            if sc == cc {
                if cc == context.text_snapshot@ {
                    match spec_replace_range_text(cc, plan.range, plan.replacement_text@) {
                        Some(x) => r matches Ok(WebReplacementStep::Ready { replacement, expected_before })
                            && replacement@ == x + ss && expected_before@ == plan.expected_before_text@,
                        None => r matches Err(PlatformError::PreflightFailed),
                    }
                } else {
                    r matches Ok(WebReplacementStep::Replan { text, mode: m, suffix }) && text@ == cc && m == mode
                        && suffix@ == ss
                }
            } else if cc.len() == 0 || !has_suffix(sc, cc) {
                r matches Err(PlatformError::ReplacementUnavailableReason(x)) && x@ == preflight_message(
                    "web_keyboard_captured_left_preflight"@,
                    cc,
                    selected_text@,
                )
            } else if mode == CorrectionMode::Pause {
                let head = sc.take(sc.len() - cc.len());
                if !all_white(head) {
                    r matches Err(PlatformError::ReplacementUnavailableReason(x)) && x@ == preflight_message(
                        "web_keyboard_captured_left_preflight non_whitespace_prefix"@,
                        cc,
                        selected_text@,
                    )
                } else {
                    match spec_replace_range_text(cc, plan.range, plan.replacement_text@) {
                        Some(x) => r matches Ok(WebReplacementStep::Ready { replacement, expected_before })
                            && replacement@ == head + x + ss && expected_before@ == plan.expected_before_text@,
                        None => r matches Err(PlatformError::PreflightFailed),
                    }
                }
            } else if sc.take(sc.len() - cc.len()).contains('\r') || sc.take(sc.len() - cc.len()).contains('\n') {
                r matches Err(PlatformError::ReplacementUnavailableReason(x)) && x@ == preflight_message(
                    "web_keyboard_captured_left_preflight multiline_prefix"@,
                    cc,
                    selected_text@,
                )
            } else {
                r matches Ok(WebReplacementStep::Replan { text, mode: m, suffix }) && text@ == sc && m
                    == CorrectionMode::ScrollLock && suffix@ == ss
            }
        }),
{
    let (sc, ss) = split_trailing_line_breaks(selected_text);
    let (cc, _) = split_trailing_line_breaks(context.text_snapshot.as_str());
    let mode = correction_mode_from_plan(plan);
    if str_eq(sc.as_str(), cc.as_str()) {
        if str_eq(cc.as_str(), context.text_snapshot.as_str()) {
            return match replace_range_text(cc.as_str(), plan.range, plan.replacement_text.as_str()) {
                Some(x) => Ok(
                    WebReplacementStep::Ready {
                        replacement: concat(x.as_str(), ss.as_str()),
                        expected_before: plan.expected_before_text.clone(),
                    },
                ),
                None => Err(PlatformError::PreflightFailed),
            };
        }
        return Ok(WebReplacementStep::Replan { text: cc, mode, suffix: ss });
    }
    let cv = chars_of(cc.as_str());
    if cv.len() == 0 || !str_ends_with(sc.as_str(), cc.as_str()) {
        return Err(web_preflight_error("web_keyboard_captured_left_preflight", cc.as_str(), selected_text));
    }
    match mode {
        CorrectionMode::Pause => {
            let sv = chars_of(sc.as_str());
            let head = string_from_range(sv.as_slice(), 0, sv.len() - cv.len());
            assert(sv@.subrange(0, sv.len() - cv.len()) == sc@.take(sc@.len() - cc@.len()));
            if !chars_all_white(chars_of(head.as_str()).as_slice()) {
                return Err(
                    web_preflight_error(
                        "web_keyboard_captured_left_preflight non_whitespace_prefix",
                        cc.as_str(),
                        selected_text,
                    ),
                );
            }
            match replace_range_text(cc.as_str(), plan.range, plan.replacement_text.as_str()) {
                Some(x) => {
                    let front = concat(head.as_str(), x.as_str());
                    Ok(
                        WebReplacementStep::Ready {
                            replacement: concat(front.as_str(), ss.as_str()),
                            expected_before: plan.expected_before_text.clone(),
                        },
                    )
                },
                None => Err(PlatformError::PreflightFailed),
            }
        },
        CorrectionMode::ScrollLock => {
            let sv = chars_of(sc.as_str());
            let head = string_from_range(sv.as_slice(), 0, sv.len() - cv.len());
            assert(sv@.subrange(0, sv.len() - cv.len()) == sc@.take(sc@.len() - cc@.len()));
            let hv = chars_of(head.as_str());
            if crate::text::chars_contains_char(hv.as_slice(), '\r') || crate::text::chars_contains_char(
                hv.as_slice(),
                '\n',
            ) {
                return Err(
                    web_preflight_error(
                        "web_keyboard_captured_left_preflight multiline_prefix",
                        cc.as_str(),
                        selected_text,
                    ),
                );
            }
            Ok(WebReplacementStep::Replan { text: sc, mode: CorrectionMode::ScrollLock, suffix: ss })
        },
    }
}

/// The text to type over a Sticky Notes line selection: the selection must
/// end with the captured body, and its whole body is planned afresh in the
/// plan's mode.
pub fn web_keyboard_sticky_line_replacement_text(
    context: &TextContext,
    plan: &ReplacementPlan,
    selected_text: &str,
) -> (r: Result<WebReplacementStep, PlatformError>)
    ensures
        ({
            let sc = selected_core(selected_text@);
            let cc = selected_core(context.text_snapshot@);
            if cc.len() == 0 || !has_suffix(sc, cc) {
                r matches Err(PlatformError::ReplacementUnavailableReason(x)) && x@ == preflight_message(
                    "web_keyboard_sticky_line_preflight"@,
                    cc,
                    selected_text@,
                )
            } else {
                r matches Ok(WebReplacementStep::Replan { text, mode, suffix }) && text@ == sc && mode
                    == spec_correction_mode_from_plan(*plan) && suffix@ == selected_suffix(selected_text@)
            }
        }),
{
    let (sc, ss) = split_trailing_line_breaks(selected_text);
    let (cc, _) = split_trailing_line_breaks(context.text_snapshot.as_str());
    let cv = chars_of(cc.as_str());
    if cv.len() == 0 || !str_ends_with(sc.as_str(), cc.as_str()) {
        return Err(web_preflight_error("web_keyboard_sticky_line_preflight", cc.as_str(), selected_text));
    }
    Ok(WebReplacementStep::Replan { text: sc, mode: correction_mode_from_plan(plan), suffix: ss })
}

/// The text to type once the planner has planned `text` afresh: the plan
/// applied to it, then `suffix`; with the text the plan expects to replace.
pub fn finish_web_replan(text: &str, suffix: &str, replanned: &ReplacementPlan) -> (r: Result<
    (String, String),
    PlatformError,
>)
    ensures
        match spec_replace_range_text(text@, replanned.range, replanned.replacement_text@) {
            Some(x) => r matches Ok((a, b)) && a@ == x + suffix@ && b@ == replanned.expected_before_text@,
            None => r matches Err(PlatformError::PreflightFailed),
        },
{
    match replace_range_text(text, replanned.range, replanned.replacement_text.as_str()) {
        Some(x) => Ok((concat(x.as_str(), suffix), replanned.expected_before_text.clone())),
        None => Err(PlatformError::PreflightFailed),
    }
}

/// The refusal when the planner finds nothing to plan in the selection;
/// `error` is the planner's error as its debug form renders it.
pub fn web_replan_failed(sticky: bool, error: &str, selected: &str) -> (r: PlatformError)
    ensures
        r matches PlatformError::ReplacementUnavailableReason(m) && m@ == (if sticky {
            "web_keyboard_sticky_line_replan_failed error="@
        } else {
            "web_keyboard_captured_left_replan_failed error="@
        }) + error@ + " selected="@ + spec_preview_for_error(selected@, 40),
{
    let kind = if sticky {
        "web_keyboard_sticky_line_replan_failed error="
    } else {
        "web_keyboard_captured_left_replan_failed error="
    };
    let a = concat(kind, error);
    let b = concat(a.as_str(), " selected=");
    let c = concat(b.as_str(), preview_for_error(selected, 40).as_str());
    PlatformError::ReplacementUnavailableReason(c)
}


/// The checks before a web keyboard apply touches the editor: the plan's
/// range must hold what the plan expects, and the context must name its
/// window. Gives the text before and the window to compare with the
/// foreground.
pub fn web_apply_preflight(context: &TextContext, plan: &ReplacementPlan) -> (r: Result<(String, isize), PlatformError>)
    ensures
        match spec_slice_by_range(context.text_snapshot@, plan.range) {
            None => r matches Err(PlatformError::ReplacementUnavailableReason(m)) && m@
                == "web_keyboard_preflight invalid_range"@,
            Some(actual) => if actual != plan.expected_before_text@ {
                r matches Err(PlatformError::ReplacementUnavailableReason(m)) && m@ == "web_keyboard_preflight plan_expected="@
                    + spec_preview_for_error(plan.expected_before_text@, 40) + " actual_range="@
                    + spec_preview_for_error(actual, 40)
            } else {
                match spec_parse_hwnd_id(context.window_id@) {
                    None => r matches Err(PlatformError::ReplacementUnavailableReason(m)) && m@
                        == "web_keyboard_preflight invalid_hwnd"@,
                    Some(h) => r matches Ok((b, w)) && b@ == actual && w == h,
                }
            },
        },
{
    let actual = match slice_by_range(context.text_snapshot.as_str(), plan.range) {
        Some(a) => a,
        None => {
            return Err(PlatformError::ReplacementUnavailableReason("web_keyboard_preflight invalid_range".to_owned()));
        },
    };
    if !str_eq(actual.as_str(), plan.expected_before_text.as_str()) {
        let a = concat("web_keyboard_preflight plan_expected=", preview_for_error(plan.expected_before_text.as_str(), 40).as_str());
        let b = concat(a.as_str(), " actual_range=");
        let c = concat(b.as_str(), preview_for_error(actual.as_str(), 40).as_str());
        return Err(PlatformError::ReplacementUnavailableReason(c));
    }
    match parse_hwnd_id(context.window_id.as_str()) {
        Some(h) => Ok((actual, h)),
        None => Err(PlatformError::ReplacementUnavailableReason("web_keyboard_preflight invalid_hwnd".to_owned())),
    }
}

/// How a web keyboard replacement is carried out.
#[derive(Debug, Clone, Copy, PartialEq, Eq, Structural)]
pub enum WebApplyRoute {
    /// Paste the whole rewritten active line over its selection.
    RocketActiveLine,
    /// The text is still selected: type the replacement over it.
    TypeOverSelection,
    /// Select left of the caret again and check it against the capture.
    CapturedLeft,
    /// Select the Sticky Notes line again and plan it afresh.
    StickyLine,
    /// Select the expected text by its length and replace it at once
    /// (pasting in the rocket profile, typing after a check otherwise).
    Fast { rocket: bool },
    /// Select the expected text by its length, copy it and compare;
    /// `precise` contexts get a second try.
    Select { precise: bool },
}

pub open spec fn spec_web_apply_route(context: TextContext) -> WebApplyRoute {
    let id = context.control_id@;
    if spec_rocket_active_line_context(id) {
        WebApplyRoute::RocketActiveLine
    } else if context.selection_range is Some {
        WebApplyRoute::TypeOverSelection
    } else if spec_captured_left_context(id) {
        WebApplyRoute::CapturedLeft
    } else if spec_line_context(id) && spec_is_sticky_notes_context(context) {
        WebApplyRoute::StickyLine
    } else if spec_fast_context(id) {
        WebApplyRoute::Fast { rocket: spec_rocket_fast_context(id) }
    } else {
        WebApplyRoute::Select {
            precise: spec_line_context(id) || crate::text::has_prefix(id, "web-keyboard-selection:"@),
        }
    }
}

/// The route a context's capture calls for.
pub fn web_apply_route(context: &TextContext) -> (r: WebApplyRoute)
    ensures
        r == spec_web_apply_route(*context),
{
    let id = context.control_id.as_str();
    if web_keyboard_rocket_active_line_context(id) {
        WebApplyRoute::RocketActiveLine
    } else if context.selection_range.is_some() {
        WebApplyRoute::TypeOverSelection
    } else if web_keyboard_captured_left_context(id) {
        WebApplyRoute::CapturedLeft
    } else if is_web_keyboard_line_context(id) && is_sticky_notes_context(context) {
        WebApplyRoute::StickyLine
    } else if web_keyboard_fast_context(id) {
        WebApplyRoute::Fast { rocket: web_keyboard_rocket_fast_context(id) }
    } else {
        WebApplyRoute::Select {
            precise: is_web_keyboard_line_context(id) || crate::text::str_starts_with(id, "web-keyboard-selection:"),
        }
    }
}

/// What is typed over a re-made selection and what the selection must
/// hold: when the plan's range does not reach the end of the captured text,
/// the whole text is selected and rewritten; otherwise only the range.
pub open spec fn web_replaces_entire_context(context: TextContext, plan: ReplacementPlan) -> bool {
    plan.range.end != utf8_len(context.text_snapshot@)
}

pub fn web_selection_replacement(context: &TextContext, plan: &ReplacementPlan, actual_before: &str) -> (r: Result<
    (String, String),
    PlatformError,
>)
    ensures
        if web_replaces_entire_context(*context, *plan) {
            match spec_replace_range_text(context.text_snapshot@, plan.range, plan.replacement_text@) {
                Some(x) => r matches Ok((a, b)) && a@ == x && b@ == context.text_snapshot@,
                None => r matches Err(PlatformError::PreflightFailed),
            }
        } else {
            r matches Ok((a, b)) && a@ == plan.replacement_text@ && b@ == actual_before@
        },
{
    let len = byte_len(context.text_snapshot.as_str());
    if plan.range.end != len {
        match replace_range_text(context.text_snapshot.as_str(), plan.range, plan.replacement_text.as_str()) {
            Some(x) => Ok((x, context.text_snapshot.clone())),
            None => Err(PlatformError::PreflightFailed),
        }
    } else {
        Ok((plan.replacement_text.clone(), actual_before.to_owned()))
    }
}

/// How many Shift+Left presses widen a selection to the expected text: the
/// selection is a non-empty tail of it and at most eight UTF-16 units are
/// missing in front.
pub open spec fn spec_missing_selection_units(selected: Seq<char>, expected: Seq<char>) -> Option<nat> {
    if selected.len() == 0 || !has_suffix(expected, selected) {
        None
    } else {
        let n = encode_utf16(expected.take(expected.len() - selected.len())).len();
        if n == 0 || n > 8 {
            None
        } else {
            Some(n)
        }
    }
}

pub fn missing_selection_units(selected: &str, expected: &str) -> (r: Option<usize>)
    ensures
        match spec_missing_selection_units(selected@, expected@) {
            Some(n) => r == Some(n as usize),
            None => r is None,
        },
{
    let sv = chars_of(selected);
    let ev = chars_of(expected);
    if sv.len() == 0 || !str_ends_with(expected, selected) {
        return None;
    }
    let missing = string_from_range(ev.as_slice(), 0, ev.len() - sv.len());
    assert(ev@.subrange(0, ev.len() - sv.len()) == expected@.take(expected@.len() - selected@.len()));
    let n = utf16_units(missing.as_str()).len();
    if n == 0 || n > 8 {
        None
    } else {
        Some(n)
    }
}

/// Whether the select route rewrites the whole captured text (its range
/// does not end the text).
pub fn web_replaces_entire(context: &TextContext, plan: &ReplacementPlan) -> (r: bool)
    ensures
        r == web_replaces_entire_context(*context, *plan),
{
    plan.range.end != byte_len(context.text_snapshot.as_str())
}

/// How long the select route waits after selecting, and how long it waits
/// for the copy of the selection: longer for the precise contexts.
pub open spec fn spec_web_select_timing(precise: bool) -> (u64, u64) {
    if precise {
        (50, 650)
    } else {
        (35, 450)
    }
}

pub fn web_select_timing(precise: bool) -> (r: (u64, u64))
    ensures
        r == spec_web_select_timing(precise),
{
    if precise {
        (50, 650)
    } else {
        (35, 450)
    }
}

/// The second try of a precise selection: release the modifiers, wait
/// `pause_ms`, select again, wait `settle_ms`, copy within `timeout_ms`.
pub const WEB_SELECT_RETRY_PAUSE_MS: u64 = 80;
pub const WEB_SELECT_RETRY_SETTLE_MS: u64 = 50;
pub const WEB_SELECT_RETRY_TIMEOUT_MS: u64 = 650;
/// The wait for the copy after the selection was extended.
pub const WEB_SELECT_EXTENDED_TIMEOUT_MS: u64 = 450;

/// What the select route does after copying its selection.
#[derive(Debug, Clone, PartialEq, Eq)]
pub enum WebSelectCopy {
    /// Select and copy once more.
    Retry,
    /// Go on with this selection text (none when nothing was copied).
    Selected(Option<String>),
}

/// After a copy of the selection: a copy is kept; a precise context that
/// copied nothing tries once more, and after that takes the selection to
/// be the expected text; any other context goes on with nothing.
pub fn web_select_after_copy(precise: bool, retried: bool, copied: Option<String>, expected_selection: &str) -> (r:
    WebSelectCopy)
    ensures
        copied is Some ==> r == WebSelectCopy::Selected(copied),
        copied is None && precise && !retried ==> r == WebSelectCopy::Retry,
        copied is None && precise && retried ==> (r matches WebSelectCopy::Selected(Some(s)) && s@
            == expected_selection@),
        copied is None && !precise ==> r == WebSelectCopy::Selected(None),
{
    match copied {
        Some(t) => WebSelectCopy::Selected(Some(t)),
        None => if !precise {
            WebSelectCopy::Selected(None)
        } else if !retried {
            WebSelectCopy::Retry
        } else {
            WebSelectCopy::Selected(Some(expected_selection.to_owned()))
        },
    }
}

/// How many units to extend a short selection by: only when the range ends
/// the text and the copy differs from the expected selection, by the units
/// missing in front of it.
pub fn web_select_extension(
    selected: Option<&str>,
    expected_selection: &str,
    actual_before: &str,
    replace_entire: bool,
) -> (r: Option<usize>)
    ensures
        match selected {
            Some(t) => if !replace_entire && t@ != expected_selection@ {
                match spec_missing_selection_units(t@, actual_before@) {
                    Some(n) => r == Some(n as usize),
                    None => r is None,
                }
            } else {
                r is None
            },
            None => r is None,
        },
{
    match selected {
        Some(t) => if !replace_entire && !str_eq(t, expected_selection) {
            missing_selection_units(t, actual_before)
        } else {
            None
        },
        None => None,
    }
}

/// The text kept in front of the replacement after the selection was
/// re-made, or the refusal: an exact selection keeps nothing; otherwise,
/// when only the range is replaced, a head on the same line is kept.
pub open spec fn spec_web_selection_head(
    selected: Option<Seq<char>>,
    expected_selection: Seq<char>,
    replace_entire: bool,
) -> Option<Seq<char>> {
    if selected == Some(expected_selection) {
        Some(Seq::empty())
    } else if replace_entire {
        None
    } else {
        match selected {
            Some(s) => match spec_shifted_web_selection_prefix(s, expected_selection) {
                Some(p) => if p.len() == 0 {
                    None
                } else {
                    Some(p)
                },
                None => None,
            },
            None => None,
        }
    }
}

pub fn web_selection_head(
    selected: Option<&str>,
    expected_selection: &str,
    actual_before: &str,
    replace_entire: bool,
) -> (r: Result<String, PlatformError>)
    ensures
        match spec_web_selection_head(
            match selected {
                Some(s) => Some(s@),
                None => None,
            },
            expected_selection@,
            replace_entire,
        ) {
            Some(p) => r matches Ok(x) && x@ == p,
            None => r matches Err(PlatformError::ReplacementUnavailableReason(m)) && m@ == "web_keyboard_preflight expected="@
                + spec_preview_for_error(actual_before@, 40) + " actual="@ + spec_preview_for_error(
                match selected {
                    Some(s) => s@,
                    None => "<none>"@,
                },
                40,
            ),
        },
{
    let exact = match selected {
        Some(s) => str_eq(s, expected_selection),
        None => false,
    };
    if exact {
        return Ok(String::new());
    }
    let head: Option<String> = if replace_entire {
        None
    } else {
        match selected {
            Some(s) => match shifted_web_selection_prefix(s, expected_selection) {
                Some(p) => if chars_of(p.as_str()).len() == 0 {
                    None
                } else {
                    Some(p)
                },
                None => None,
            },
            None => None,
        }
    };
    match head {
        Some(p) => Ok(p),
        None => {
            let shown = match selected {
                Some(s) => s,
                None => "<none>",
            };
            let a = concat("web_keyboard_preflight expected=", preview_for_error(actual_before, 40).as_str());
            let b = concat(a.as_str(), " actual=");
            let c = concat(b.as_str(), preview_for_error(shown, 40).as_str());
            Err(PlatformError::ReplacementUnavailableReason(c))
        },
    }
}

/// The fast-profile check of a selection: it holds exactly the expected
/// text.
pub fn fast_selection_matches(selected: Option<&str>, expected: &str) -> (r: bool)
    ensures
        r == (selected matches Some(s) && s@ == expected@),
{
    match selected {
        Some(s) => str_eq(s, expected),
        None => false,
    }
}

/// The fast-profile selection fell short of the expected text but is a
/// non-empty tail of it, so it may be widened.
pub fn fast_selection_extendable(selected: Option<&str>, expected: &str) -> (r: bool)
    ensures
        r == (selected matches Some(s) && s@ != expected@ && s@.len() > 0 && has_suffix(expected@, s@)),
{
    match selected {
        Some(s) => !str_eq(s, expected) && chars_of(s).len() > 0 && str_ends_with(expected, s),
        None => false,
    }
}

/// Waits of the fast-profile check: for the first copy, before and after
/// selecting again, and for the copies after that.
pub const FAST_PREFLIGHT_FIRST_COPY_MS: u64 = 220;
pub const FAST_PREFLIGHT_RESELECT_PAUSE_MS: u64 = 35;
pub const FAST_PREFLIGHT_RESELECT_SETTLE_MS: u64 = 25;
pub const FAST_PREFLIGHT_COPY_MS: u64 = 260;

/// After the first copy of a fast-profile check: select the expected text
/// again, by its UTF-16 length, unless the copy already matches it.
pub fn fast_preflight_reselect(selected: Option<&str>, expected: &str) -> (r: Option<usize>)
    ensures
        (selected matches Some(s) && s@ == expected@) ==> r is None,
        !(selected matches Some(s) && s@ == expected@) ==> r == Some(encode_utf16(expected@).len() as usize),
{
    if fast_selection_matches(selected, expected) {
        None
    } else {
        Some(utf16_units(expected).len())
    }
}

/// How far to widen a fast-profile selection: by the units missing in
/// front of it when it is a shorter tail of the expected text.
pub fn fast_preflight_extension(selected: Option<&str>, expected: &str) -> (r: Option<usize>)
    ensures
        match selected {
            Some(s) => if s@ != expected@ && s@.len() > 0 && has_suffix(expected@, s@) {
                match spec_missing_selection_units(s@, expected@) {
                    Some(n) => r == Some(n as usize),
                    None => r is None,
                }
            } else {
                r is None
            },
            None => r is None,
        },
{
    match selected {
        Some(s) => if fast_selection_extendable(selected, expected) {
            missing_selection_units(s, expected)
        } else {
            None
        },
        None => None,
    }
}

/// The end of a fast-profile check: the selection must now be the expected
/// text.
pub fn fast_preflight_outcome(selected: Option<&str>, expected: &str) -> (r: Result<(), PlatformError>)
    ensures
        (selected matches Some(s) && s@ == expected@) ==> r is Ok,
        !(selected matches Some(s) && s@ == expected@) ==> (r matches Err(e) && (e matches PlatformError::ReplacementUnavailableReason(m)
            && m@ == "web_keyboard_fast_preflight expected="@ + spec_preview_for_error(expected@, 40)
            + " actual="@ + spec_preview_for_error(
            match selected {
                Some(s) => s@,
                None => "<none>"@,
            },
            40,
        ))),
{
    if fast_selection_matches(selected, expected) {
        Ok(())
    } else {
        Err(fast_preflight_error(expected, selected))
    }
}

/// The refusal of a fast-profile selection that never matched.
pub fn fast_preflight_error(expected: &str, selected: Option<&str>) -> (r: PlatformError)
    ensures
        r matches PlatformError::ReplacementUnavailableReason(m) && m@ == "web_keyboard_fast_preflight expected="@
            + spec_preview_for_error(expected@, 40) + " actual="@ + spec_preview_for_error(
            match selected {
                Some(s) => s@,
                None => "<none>"@,
            },
            40,
        ),
{
    let shown = match selected {
        Some(s) => s,
        None => "<none>",
    };
    let a = concat("web_keyboard_fast_preflight expected=", preview_for_error(expected, 40).as_str());
    let b = concat(a.as_str(), " actual=");
    let c = concat(b.as_str(), preview_for_error(shown, 40).as_str());
    PlatformError::ReplacementUnavailableReason(c)
}

} // verus!
