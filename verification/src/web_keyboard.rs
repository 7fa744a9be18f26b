//! Reading and rewriting web editors through the keyboard: timing
//! profiles, the control-id prefixes that record how a context was
//! captured, the plausibility checks on copied text, and the checks that
//! decide whether an apply may go ahead.
use vstd::prelude::*;
use crate::model::{CorrectionMode, ReplacementPlan, TextContext};
use crate::surface::WebKeyboardProfile;
use crate::text::{
    chars_contains_char, chars_ends_with, chars_of,
    chars_contains, has_infix, has_prefix, has_suffix, line_count, line_count_at_most,
    lower_ascii, lower_chars_of, spec_title_contains, str_starts_with,
    string_from_range, title_contains, trim, trimmed_chars, utf8_len, utf8_len_at_most,
};

verus! {

/// Timeouts and pauses of a web keyboard capture, in milliseconds.
#[derive(Debug, Clone, Copy, PartialEq, Eq, Structural)]
pub struct WebKeyboardTimingProfile {
    pub selected_timeout_ms: u64,
    pub short_context_timeout_ms: u64,
    pub line_context_timeout_ms: u64,
    pub clipboard_timeout_ms: u64,
    pub retry_pause_ms: u64,
    pub attempt_pause_ms: u64,
}

/// The fast profiles are on unless switched off by the environment.
pub open spec fn spec_profile_is_fast(profile: WebKeyboardProfile, fast_enabled: bool) -> bool {
    fast_enabled && profile != WebKeyboardProfile::Standard
}

pub open spec fn spec_profile_is_rocket(profile: WebKeyboardProfile, fast_enabled: bool) -> bool {
    fast_enabled && profile == WebKeyboardProfile::RocketSearch
}

/// Whether the profile runs with the short timings; `fast_enabled` is the
/// environment switch for fast profiles.
pub fn web_keyboard_profile_is_fast(profile: WebKeyboardProfile, fast_enabled: bool) -> (r: bool)
    ensures
        r == spec_profile_is_fast(profile, fast_enabled),
{
    fast_enabled && !matches!(profile, WebKeyboardProfile::Standard)
}

/// Whether the profile is the Rocket.Chat search profile (when fast
/// profiles are enabled).
pub fn web_keyboard_profile_is_rocket(profile: WebKeyboardProfile, fast_enabled: bool) -> (r: bool)
    ensures
        r == spec_profile_is_rocket(profile, fast_enabled),
{
    fast_enabled && matches!(profile, WebKeyboardProfile::RocketSearch)
}

/// The short timings of the fast profiles and the standard timings.
pub open spec fn spec_timing_profile(fast: bool) -> WebKeyboardTimingProfile {
    if fast {
        WebKeyboardTimingProfile {
            selected_timeout_ms: 120,
            short_context_timeout_ms: 180,
            line_context_timeout_ms: 260,
            clipboard_timeout_ms: 120,
            retry_pause_ms: 30,
            attempt_pause_ms: 60,
        }
    } else {
        WebKeyboardTimingProfile {
            selected_timeout_ms: 220,
            short_context_timeout_ms: 280,
            line_context_timeout_ms: 450,
            clipboard_timeout_ms: 450,
            retry_pause_ms: 80,
            attempt_pause_ms: 180,
        }
    }
}

pub fn web_keyboard_timing_profile(profile: WebKeyboardProfile, fast_enabled: bool) -> (r:
    WebKeyboardTimingProfile)
    ensures
        r == spec_timing_profile(spec_profile_is_fast(profile, fast_enabled)),
{
    if web_keyboard_profile_is_fast(profile, fast_enabled) {
        WebKeyboardTimingProfile {
            selected_timeout_ms: 120,
            short_context_timeout_ms: 180,
            line_context_timeout_ms: 260,
            clipboard_timeout_ms: 120,
            retry_pause_ms: 30,
            attempt_pause_ms: 60,
        }
    } else {
        WebKeyboardTimingProfile {
            selected_timeout_ms: 220,
            short_context_timeout_ms: 280,
            line_context_timeout_ms: 450,
            clipboard_timeout_ms: 450,
            retry_pause_ms: 80,
            attempt_pause_ms: 180,
        }
    }
}

/// The fast timings are shorter than the standard ones wherever the tests
/// of a capture wait.
pub proof fn law_fast_timings_are_shorter()
    ensures
        spec_timing_profile(true).selected_timeout_ms < spec_timing_profile(
            false,
        ).selected_timeout_ms,
        spec_timing_profile(true).clipboard_timeout_ms < spec_timing_profile(
            false,
        ).clipboard_timeout_ms,
        spec_timing_profile(true).line_context_timeout_ms < spec_timing_profile(
            false,
        ).line_context_timeout_ms,
{
}

/// The control-id prefix under which a capture records its context: the
/// selection and line-selection prefixes gain the profile's speed.
pub open spec fn spec_control_prefix(
    base: Seq<char>,
    profile: WebKeyboardProfile,
    fast_enabled: bool,
) -> Seq<char> {
    if spec_profile_is_rocket(profile, fast_enabled) {
        if base == "web-keyboard-selection"@ {
            "web-keyboard-rocket-fast-selection"@
        } else if base == "web-keyboard-line-selection"@ {
            "web-keyboard-rocket-fast-line-selection"@
        } else {
            base
        }
    } else if spec_profile_is_fast(profile, fast_enabled) {
        if base == "web-keyboard-selection"@ {
            "web-keyboard-fast-selection"@
        } else if base == "web-keyboard-line-selection"@ {
            "web-keyboard-fast-line-selection"@
        } else {
            base
        }
    } else {
        base
    }
}

pub fn web_keyboard_control_prefix<'a>(
    base: &'a str,
    profile: WebKeyboardProfile,
    fast_enabled: bool,
) -> (r: &'a str)
    ensures
        r@ == spec_control_prefix(base@, profile, fast_enabled),
{
    let is_selection = crate::text::str_eq(base, "web-keyboard-selection");
    let is_line = crate::text::str_eq(base, "web-keyboard-line-selection");
    if web_keyboard_profile_is_rocket(profile, fast_enabled) {
        if is_selection {
            "web-keyboard-rocket-fast-selection"
        } else if is_line {
            "web-keyboard-rocket-fast-line-selection"
        } else {
            base
        }
    } else if web_keyboard_profile_is_fast(profile, fast_enabled) {
        if is_selection {
            "web-keyboard-fast-selection"
        } else if is_line {
            "web-keyboard-fast-line-selection"
        } else {
            base
        }
    } else {
        base
    }
}

/// A context captured by one of the fast profiles.
pub open spec fn spec_rocket_fast_context(control_id: Seq<char>) -> bool {
    has_prefix(control_id, "web-keyboard-rocket-fast-selection:"@) || has_prefix(
        control_id,
        "web-keyboard-rocket-fast-line-selection:"@,
    )
}

pub open spec fn spec_fast_context(control_id: Seq<char>) -> bool {
    has_prefix(control_id, "web-keyboard-fast-selection:"@) || has_prefix(
        control_id,
        "web-keyboard-fast-line-selection:"@,
    ) || spec_rocket_fast_context(control_id)
}

pub open spec fn spec_rocket_active_line_context(control_id: Seq<char>) -> bool {
    has_prefix(control_id, "web-keyboard-rocket-active-line-selection:"@)
}

pub open spec fn spec_captured_left_context(control_id: Seq<char>) -> bool {
    has_prefix(control_id, "web-keyboard-captured-left-selection:"@)
}

pub open spec fn spec_line_context(control_id: Seq<char>) -> bool {
    has_prefix(control_id, "web-keyboard-line-selection:"@) || has_prefix(
        control_id,
        "web-keyboard-fast-line-selection:"@,
    ) || has_prefix(control_id, "web-keyboard-rocket-fast-line-selection:"@)
}

pub fn web_keyboard_rocket_fast_context(control_id: &str) -> (r: bool)
    ensures
        r == spec_rocket_fast_context(control_id@),
{
    str_starts_with(control_id, "web-keyboard-rocket-fast-selection:") || str_starts_with(
        control_id,
        "web-keyboard-rocket-fast-line-selection:",
    )
}

pub fn web_keyboard_fast_context(control_id: &str) -> (r: bool)
    ensures
        r == spec_fast_context(control_id@),
{
    str_starts_with(control_id, "web-keyboard-fast-selection:") || str_starts_with(
        control_id,
        "web-keyboard-fast-line-selection:",
    ) || web_keyboard_rocket_fast_context(control_id)
}

pub fn web_keyboard_rocket_active_line_context(control_id: &str) -> (r: bool)
    ensures
        r == spec_rocket_active_line_context(control_id@),
{
    str_starts_with(control_id, "web-keyboard-rocket-active-line-selection:")
}

pub fn web_keyboard_captured_left_context(control_id: &str) -> (r: bool)
    ensures
        r == spec_captured_left_context(control_id@),
{
    str_starts_with(control_id, "web-keyboard-captured-left-selection:")
}

pub fn is_web_keyboard_line_context(control_id: &str) -> (r: bool)
    ensures
        r == spec_line_context(control_id@),
{
    str_starts_with(control_id, "web-keyboard-line-selection:") || str_starts_with(
        control_id,
        "web-keyboard-fast-line-selection:",
    ) || str_starts_with(control_id, "web-keyboard-rocket-fast-line-selection:")
}

/// Copied text that is the page rather than a field: browser skip links
/// and unread-message banners.
pub open spec fn spec_looks_like_browser_document_dump(text: Seq<char>) -> bool {
    let lower = lower_ascii(text);
    has_infix(lower, "skip to main content"@) || has_infix(lower, "main content"@) || has_infix(
        lower,
        "unread messages"@,
    )
}

pub fn looks_like_browser_document_dump(text: &str) -> (r: bool)
    ensures
        r == spec_looks_like_browser_document_dump(text@),
{
    let lower = lower_chars_of(text);
    chars_contains(&lower, &chars_of("skip to main content")) || chars_contains(
        &lower,
        &chars_of("main content"),
    ) || chars_contains(&lower, &chars_of("unread messages"))
}

/// Text copied from a whole field: not blank, at most 512 bytes, one line,
/// not a page dump.
pub open spec fn spec_is_plausible_web_field_text(text: Seq<char>) -> bool {
    trim(text).len() > 0 && utf8_len(text) <= 512 && !text.contains('\r') && !text.contains('\n')
        && !spec_looks_like_browser_document_dump(text)
}

pub fn is_plausible_web_field_text(text: &str) -> (r: bool)
    ensures
        r == spec_is_plausible_web_field_text(text@),
{
    let v = chars_of(text);
    trimmed_chars(&v).len() > 0 && utf8_len_at_most(&v, 512) && !chars_contains_char(&v, '\r')
        && !chars_contains_char(&v, '\n') && !looks_like_browser_document_dump(text)
}

/// A copied selection: not blank, at most 4096 bytes, not a page dump.
pub open spec fn spec_is_plausible_web_selected_text(text: Seq<char>) -> bool {
    trim(text).len() > 0 && utf8_len(text) <= 4096 && !spec_looks_like_browser_document_dump(text)
}

pub fn is_plausible_web_selected_text(text: &str) -> (r: bool)
    ensures
        r == spec_is_plausible_web_selected_text(text@),
{
    let v = chars_of(text);
    trimmed_chars(&v).len() > 0 && utf8_len_at_most(&v, 4096) && !looks_like_browser_document_dump(
        text,
    )
}

/// Text copied left of the caret: not blank, at most 1024 bytes and four
/// lines, not a page dump.
pub open spec fn spec_is_plausible_web_left_context_text(text: Seq<char>) -> bool {
    trim(text).len() > 0 && utf8_len(text) <= 1024 && line_count(text) <= 4
        && !spec_looks_like_browser_document_dump(text)
}

pub fn is_plausible_web_left_context_text(text: &str) -> (r: bool)
    ensures
        r == spec_is_plausible_web_left_context_text(text@),
{
    let v = chars_of(text);
    trimmed_chars(&v).len() > 0 && utf8_len_at_most(&v, 1024) && line_count_at_most(&v, 4)
        && !looks_like_browser_document_dump(text)
}

/// Number of trailing `\r` and `\n` characters.
pub open spec fn trailing_line_breaks(s: Seq<char>) -> nat
    decreases s.len(),
{
    if s.len() > 0 && (s.last() == '\r' || s.last() == '\n') {
        1 + trailing_line_breaks(s.drop_last())
    } else {
        0
    }
}

pub proof fn lemma_trailing_line_breaks_bound(s: Seq<char>)
    ensures
        trailing_line_breaks(s) <= s.len(),
    decreases s.len(),
{
    if s.len() > 0 && (s.last() == '\r' || s.last() == '\n') {
        lemma_trailing_line_breaks_bound(s.drop_last());
    }
}

/// `text` split before its trailing line breaks.
pub open spec fn spec_split_trailing_line_breaks(text: Seq<char>) -> (Seq<char>, Seq<char>) {
    let k = text.len() - trailing_line_breaks(text);
    (text.subrange(0, k), text.subrange(k, text.len() as int))
}

/// Splits `text` into its body and its trailing line breaks.
pub fn split_trailing_line_breaks(text: &str) -> (r: (String, String))
    ensures
        (r.0@, r.1@) == spec_split_trailing_line_breaks(text@),
{
    let v = chars_of(text);
    let mut k: usize = v.len();
    assert(v@.subrange(0, k as int) == v@);
    while k > 0 && (v[k - 1] == '\r' || v[k - 1] == '\n')
        invariant
            k <= v.len(),
            trailing_line_breaks(v@) == (v.len() - k) + trailing_line_breaks(
                v@.subrange(0, k as int),
            ),
        decreases k,
    {
        assert(v@.subrange(0, k as int).drop_last() == v@.subrange(0, k - 1));
        k -= 1;
    }
    proof {
        assert(trailing_line_breaks(v@.subrange(0, k as int)) == 0);
    }
    (string_from_range(&v, 0, k), string_from_range(&v, k, v.len()))
}

/// A captured-left context keeps its text without trailing line breaks;
/// other contexts keep the text as copied.
pub open spec fn spec_normalize_web_keyboard_context_text(
    control_prefix: Seq<char>,
    text: Seq<char>,
) -> Seq<char> {
    if control_prefix == "web-keyboard-captured-left-selection"@ {
        spec_split_trailing_line_breaks(text).0
    } else {
        text
    }
}

pub fn normalize_web_keyboard_context_text(control_prefix: &str, text: String) -> (r: String)
    ensures
        r@ == spec_normalize_web_keyboard_context_text(control_prefix@, text@),
{
    if !crate::text::str_eq(control_prefix, "web-keyboard-captured-left-selection") {
        return text;
    }
    let (core, _) = split_trailing_line_breaks(text.as_str());
    core
}

/// The text selected left of the caret, shifted by up to the start of its
/// line, still ends with the expected text: the extra head is kept in
/// front of the replacement when it is not empty and holds no line break.
pub open spec fn spec_shifted_web_selection_prefix(
    selected: Seq<char>,
    expected: Seq<char>,
) -> Option<Seq<char>> {
    if !has_suffix(selected, expected) {
        None
    } else {
        let prefix = selected.subrange(0, selected.len() - expected.len());
        if prefix.len() == 0 || prefix.contains('\r') || prefix.contains('\n') {
            None
        } else {
            Some(prefix)
        }
    }
}

pub fn shifted_web_selection_prefix(selected: &str, expected: &str) -> (r: Option<String>)
    ensures
        match spec_shifted_web_selection_prefix(selected@, expected@) {
            Some(p) => r matches Some(s) && s@ == p,
            None => r is None,
        },
{
    let s = chars_of(selected);
    let e = chars_of(expected);
    if !chars_ends_with(&s, &e) {
        return None;
    }
    let k = s.len() - e.len();
    let prefix = &s[0..k];
    if k == 0 || chars_contains_char(prefix, '\r') || chars_contains_char(prefix, '\n') {
        return None;
    }
    Some(string_from_range(&s, 0, k))
}

/// The head to keep in front of a fast apply: nothing when the selection
/// is exactly the expected text, else the shifted prefix if there is one.
pub open spec fn spec_accepted_fast_web_selection_prefix(
    selected: Option<Seq<char>>,
    expected: Seq<char>,
) -> Option<Seq<char>> {
    match selected {
        None => None,
        Some(s) => if s == expected {
            Some(Seq::empty())
        } else {
            spec_shifted_web_selection_prefix(s, expected)
        },
    }
}

pub fn accepted_fast_web_selection_prefix(selected: Option<&str>, expected: &str) -> (r: Option<
    String,
>)
    ensures
        match spec_accepted_fast_web_selection_prefix(
            match selected {
                Some(s) => Some(s@),
                None => None,
            },
            expected@,
        ) {
            Some(p) => r matches Some(s) && s@ == p,
            None => r is None,
        },
{
    match selected {
        None => None,
        Some(s) => {
            if crate::text::str_eq(s, expected) {
                Some(String::new())
            } else {
                shifted_web_selection_prefix(s, expected)
            }
        },
    }
}

/// Wiki and Confluence editors, where selections spread over table cells
/// and list markers: captured-left capture, fast line apply and relaxed
/// line preflight are kept off there, and a line apply uses the precise
/// range.
pub open spec fn spec_is_wiki_editor_title(title: Seq<char>) -> bool {
    spec_title_contains(title, "gs-labs wiki"@) || spec_title_contains(title, "confluence"@)
}

pub fn is_wiki_editor_title(title: &str) -> (r: bool)
    ensures
        r == spec_is_wiki_editor_title(title@),
{
    title_contains(title, "gs-labs wiki") || title_contains(title, "confluence")
}

pub fn web_keyboard_allows_captured_left_for_title(title: &str) -> (r: bool)
    ensures
        r == !spec_is_wiki_editor_title(title@),
{
    !is_wiki_editor_title(title)
}

pub fn web_keyboard_allows_fast_line_apply_for_title(title: &str) -> (r: bool)
    ensures
        r == !spec_is_wiki_editor_title(title@),
{
    !is_wiki_editor_title(title)
}

pub fn web_keyboard_allows_relaxed_line_preflight_for_title(title: &str) -> (r: bool)
    ensures
        r == !spec_is_wiki_editor_title(title@),
{
    !is_wiki_editor_title(title)
}

/// A line-selection apply in a wiki editor rewrites the precise planned
/// range, when that range is known.
pub fn web_keyboard_uses_precise_range_apply(
    title: &str,
    control_id: &str,
    has_precise_range: bool,
) -> (r: bool)
    ensures
        r == (has_precise_range && spec_is_wiki_editor_title(title@) && spec_line_context(
            control_id@,
        )),
{
    has_precise_range && is_wiki_editor_title(title) && is_web_keyboard_line_context(control_id)
}

/// Sticky Notes hosts its editor in an application frame.
pub open spec fn spec_is_sticky_notes_frame(app_class: Seq<char>, focused_class: Seq<char>) -> bool {
    app_class == "ApplicationFrameWindow"@ && focused_class
        == "Windows.UI.Input.InputSite.WindowClass"@
}

/// Text captured left of the caret may span lines only in Sticky Notes;
/// in browsers a line break means the selection ran into other content.
pub fn web_keyboard_allows_captured_left_text_for_surface(
    app_class: &str,
    focused_class: &str,
    text: &str,
) -> (r: bool)
    ensures
        r == (spec_is_sticky_notes_frame(app_class@, focused_class@) || (!text@.contains('\r')
            && !text@.contains('\n'))),
{
    let sticky = crate::text::str_eq(app_class, "ApplicationFrameWindow") && crate::text::str_eq(
        focused_class,
        "Windows.UI.Input.InputSite.WindowClass",
    );
    sticky || (!crate::text::str_contains_char(text, '\r') && !crate::text::str_contains_char(
        text,
        '\n',
    ))
}

/// A context captured from Sticky Notes.
pub open spec fn spec_is_sticky_notes_context(context: TextContext) -> bool {
    has_prefix(context.app_id@, "ApplicationFrameWindow/Windows.UI.Input.InputSite.WindowClass"@)
}

pub fn is_sticky_notes_context(context: &TextContext) -> (r: bool)
    ensures
        r == spec_is_sticky_notes_context(*context),
{
    str_starts_with(
        context.app_id.as_str(),
        "ApplicationFrameWindow/Windows.UI.Input.InputSite.WindowClass",
    )
}

/// The correction mode a plan was made for: plans of Ctrl+Pause give
/// reasons starting with `scrolllock_`.
pub open spec fn spec_correction_mode_from_plan(plan: ReplacementPlan) -> CorrectionMode {
    if has_prefix(plan.reason@, "scrolllock_"@) {
        CorrectionMode::ScrollLock
    } else {
        CorrectionMode::Pause
    }
}

pub fn correction_mode_from_plan(plan: &ReplacementPlan) -> (r: CorrectionMode)
    ensures
        r == spec_correction_mode_from_plan(*plan),
{
    if str_starts_with(plan.reason.as_str(), "scrolllock_") {
        CorrectionMode::ScrollLock
    } else {
        CorrectionMode::Pause
    }
}

} // verus!
