//! The order in which a web keyboard capture tries to get text out of an
//! editor: what is selected, the words left of the caret, the line left of
//! the caret, the whole field; two rounds. The desktop selects, copies and
//! waits; these functions decide what to do with each copy and what to try
//! next.
use vstd::prelude::*;
use crate::platform::PlatformError;
use crate::surface::WebKeyboardProfile;
use crate::terminal::{looks_like_hotkeyhandler_marker, spec_looks_like_hotkeyhandler_marker};
use crate::web_keyboard::{
    is_plausible_web_field_text, is_plausible_web_left_context_text, is_plausible_web_selected_text,
    spec_control_prefix, spec_is_plausible_web_field_text, spec_is_plausible_web_left_context_text,
    spec_is_plausible_web_selected_text, spec_profile_is_rocket, spec_timing_profile, spec_profile_is_fast,
    web_keyboard_control_prefix, web_keyboard_profile_is_rocket, web_keyboard_timing_profile,
};

verus! {

/// What a capture step selects before copying.
#[derive(Debug, Clone, Copy, PartialEq, Eq, Structural)]
pub enum WebSelect {
    /// Nothing: copy the current selection.
    Current,
    /// A few words left of the caret.
    LeftWords,
    /// From the start of the line to the caret.
    LineLeft,
    /// The whole field.
    All,
}

/// The steps of a capture round.
#[derive(Debug, Clone, Copy, PartialEq, Eq, Structural)]
pub enum WebCaptureStage {
    Selected,
    ScrollLockLeft,
    ScrollLockFieldAll,
    ScrollLockLineLeft,
    LineLeft,
    LeftRetry,
    FieldAll,
}

/// Where a capture stands: the round (0 or 1) and the step.
#[derive(Debug, Clone, Copy, PartialEq, Eq, Structural)]
pub struct WebCaptureState {
    pub attempt: u8,
    pub stage: WebCaptureStage,
}

/// What the capture was started with: the editor's profile, whether fast
/// profiles are on, whether the hotkey is Ctrl+Pause, and whether the
/// select-all fallback is on.
#[derive(Debug, Clone, Copy, PartialEq, Eq, Structural)]
pub struct WebCaptureConfig {
    pub profile: WebKeyboardProfile,
    pub fast_enabled: bool,
    pub scrolllock: bool,
    pub ctrl_a_fallback: bool,
}

/// One copy to make.
#[derive(Debug, Clone, Copy, PartialEq, Eq, Structural)]
pub struct WebCopyRequest {
    pub select: WebSelect,
    pub timeout_ms: u64,
}

/// How the caret is put back after a copy.
#[derive(Debug, Clone, Copy, PartialEq, Eq, Structural)]
pub enum CaretRestore {
    Keep,
    /// Press Right (collapsing the selection to its end).
    Right,
    /// Press Right and release any modifier still down.
    RightAndRelease,
}

/// What follows a copy.
#[derive(Debug, Clone, PartialEq, Eq)]
pub enum WebCaptureOutcome {
    /// A context: its control-id prefix, its text, and whether the text is
    /// a selection the user made.
    Captured { prefix: String, text: String, has_selection: bool },
    /// The planner must say whether `text` has a Ctrl+Pause plan.
    CheckPlan { text: String },
    /// Try `state` next, after releasing modifiers and waiting `pause_ms`
    /// (no wait when zero).
    Continue { state: WebCaptureState, pause_ms: u64 },
    /// Both rounds found nothing.
    Exhausted,
}

/// The first step of a capture.
pub fn web_capture_start() -> (r: WebCaptureState)
    ensures
        r == (WebCaptureState { attempt: 0, stage: WebCaptureStage::Selected }),
{
    WebCaptureState { attempt: 0, stage: WebCaptureStage::Selected }
}

pub open spec fn spec_copy_request(config: WebCaptureConfig, stage: WebCaptureStage) -> WebCopyRequest {
    let t = spec_timing_profile(spec_profile_is_fast(config.profile, config.fast_enabled));
    match stage {
        WebCaptureStage::Selected => WebCopyRequest { select: WebSelect::Current, timeout_ms: t.selected_timeout_ms },
        WebCaptureStage::ScrollLockLeft => WebCopyRequest {
            select: WebSelect::LeftWords,
            timeout_ms: t.short_context_timeout_ms,
        },
        WebCaptureStage::ScrollLockFieldAll => WebCopyRequest {
            select: WebSelect::All,
            timeout_ms: t.short_context_timeout_ms,
        },
        WebCaptureStage::ScrollLockLineLeft => WebCopyRequest {
            select: WebSelect::LineLeft,
            timeout_ms: t.short_context_timeout_ms,
        },
        WebCaptureStage::LineLeft => WebCopyRequest { select: WebSelect::LineLeft, timeout_ms: t.line_context_timeout_ms },
        WebCaptureStage::LeftRetry => WebCopyRequest {
            select: WebSelect::LeftWords,
            timeout_ms: t.line_context_timeout_ms,
        },
        WebCaptureStage::FieldAll => WebCopyRequest { select: WebSelect::All, timeout_ms: 320 },
    }
}

/// The copy a step makes: what to select and how long to wait for it.
pub fn web_capture_copy_request(config: WebCaptureConfig, state: WebCaptureState) -> (r: WebCopyRequest)
    ensures
        r == spec_copy_request(config, state.stage),
{
    let t = web_keyboard_timing_profile(config.profile, config.fast_enabled);
    match state.stage {
        WebCaptureStage::Selected => WebCopyRequest { select: WebSelect::Current, timeout_ms: t.selected_timeout_ms },
        WebCaptureStage::ScrollLockLeft => WebCopyRequest {
            select: WebSelect::LeftWords,
            timeout_ms: t.short_context_timeout_ms,
        },
        WebCaptureStage::ScrollLockFieldAll => WebCopyRequest {
            select: WebSelect::All,
            timeout_ms: t.short_context_timeout_ms,
        },
        WebCaptureStage::ScrollLockLineLeft => WebCopyRequest {
            select: WebSelect::LineLeft,
            timeout_ms: t.short_context_timeout_ms,
        },
        WebCaptureStage::LineLeft => WebCopyRequest { select: WebSelect::LineLeft, timeout_ms: t.line_context_timeout_ms },
        WebCaptureStage::LeftRetry => WebCopyRequest {
            select: WebSelect::LeftWords,
            timeout_ms: t.line_context_timeout_ms,
        },
        WebCaptureStage::FieldAll => WebCopyRequest { select: WebSelect::All, timeout_ms: 320 },
    }
}

/// Copied text that a step keeps: plausible for what was selected, and no
/// marker of another hotkey tool.
pub open spec fn spec_accepts(stage: WebCaptureStage, text: Seq<char>) -> bool {
    !spec_looks_like_hotkeyhandler_marker(text) && match stage {
        WebCaptureStage::Selected => spec_is_plausible_web_selected_text(text),
        WebCaptureStage::ScrollLockFieldAll | WebCaptureStage::FieldAll => spec_is_plausible_web_field_text(text),
        _ => spec_is_plausible_web_left_context_text(text),
    }
}

fn accepts(stage: WebCaptureStage, text: &str) -> (r: bool)
    ensures
        r == spec_accepts(stage, text@),
{
    if looks_like_hotkeyhandler_marker(text) {
        return false;
    }
    match stage {
        WebCaptureStage::Selected => is_plausible_web_selected_text(text),
        WebCaptureStage::ScrollLockFieldAll | WebCaptureStage::FieldAll => is_plausible_web_field_text(text),
        _ => is_plausible_web_left_context_text(text),
    }
}

/// How the caret is put back after the copy of a step: the selection
/// itself is left alone; the line of a rocket profile stays selected when
/// it was kept; everything else collapses to the right.
pub open spec fn spec_caret_after_copy(config: WebCaptureConfig, stage: WebCaptureStage, kept: bool) -> CaretRestore {
    match stage {
        WebCaptureStage::Selected => CaretRestore::Keep,
        WebCaptureStage::LineLeft => if kept && spec_profile_is_rocket(config.profile, config.fast_enabled) {
            CaretRestore::Keep
        } else {
            CaretRestore::RightAndRelease
        },
        _ => CaretRestore::Right,
    }
}

pub fn web_capture_caret_after_copy(config: WebCaptureConfig, state: WebCaptureState, copied: Option<&str>) -> (r:
    CaretRestore)
    ensures
        r == spec_caret_after_copy(
            config,
            state.stage,
            copied matches Some(t) && spec_accepts(state.stage, t@),
        ),
{
    let kept = match copied {
        Some(t) => accepts(state.stage, t),
        None => false,
    };
    match state.stage {
        WebCaptureStage::Selected => CaretRestore::Keep,
        WebCaptureStage::LineLeft => if kept && web_keyboard_profile_is_rocket(config.profile, config.fast_enabled) {
            CaretRestore::Keep
        } else {
            CaretRestore::RightAndRelease
        },
        _ => CaretRestore::Right,
    }
}

/// The end of a round: the second round after a pause, or nothing left.
pub open spec fn spec_end_of_round(config: WebCaptureConfig, state: WebCaptureState) -> Option<(WebCaptureState, u64)> {
    if state.attempt == 0 {
        Some(
            (
                WebCaptureState { attempt: 1, stage: WebCaptureStage::Selected },
                if config.scrolllock {
                    50
                } else {
                    spec_timing_profile(spec_profile_is_fast(config.profile, config.fast_enabled)).attempt_pause_ms
                },
            ),
        )
    } else {
        None
    }
}

/// Where a step leads when its copy is not kept.
pub open spec fn spec_on_reject(config: WebCaptureConfig, state: WebCaptureState) -> Option<(WebCaptureState, u64)> {
    let t = spec_timing_profile(spec_profile_is_fast(config.profile, config.fast_enabled));
    let at = |stage: WebCaptureStage| WebCaptureState { attempt: state.attempt, stage };
    match state.stage {
        WebCaptureStage::Selected => if config.scrolllock {
            Some((at(WebCaptureStage::ScrollLockLeft), 0))
        } else {
            Some((at(WebCaptureStage::LineLeft), 0))
        },
        WebCaptureStage::ScrollLockLeft => if config.ctrl_a_fallback {
            Some((at(WebCaptureStage::ScrollLockFieldAll), 0))
        } else {
            Some((at(WebCaptureStage::ScrollLockLineLeft), 0))
        },
        WebCaptureStage::ScrollLockFieldAll => Some((at(WebCaptureStage::ScrollLockLineLeft), 0)),
        WebCaptureStage::ScrollLockLineLeft => spec_end_of_round(config, state),
        WebCaptureStage::LineLeft => if state.attempt == 0 {
            Some((at(WebCaptureStage::LeftRetry), t.retry_pause_ms))
        } else if config.ctrl_a_fallback {
            Some((at(WebCaptureStage::FieldAll), 0))
        } else {
            spec_end_of_round(config, state)
        },
        WebCaptureStage::LeftRetry => if config.ctrl_a_fallback {
            Some((at(WebCaptureStage::FieldAll), 0))
        } else {
            spec_end_of_round(config, state)
        },
        WebCaptureStage::FieldAll => spec_end_of_round(config, state),
    }
}

/// The control-id prefix of a context kept at a step, and whether it is a
/// selection the user made.
pub open spec fn spec_captured_prefix(config: WebCaptureConfig, stage: WebCaptureStage) -> (Seq<char>, bool) {
    match stage {
        WebCaptureStage::Selected => ("web-keyboard-selection-selected"@, true),
        WebCaptureStage::ScrollLockFieldAll | WebCaptureStage::FieldAll => ("web-keyboard-field-selection"@, true),
        WebCaptureStage::ScrollLockLineLeft => (
            spec_control_prefix("web-keyboard-line-selection"@, config.profile, config.fast_enabled),
            false,
        ),
        WebCaptureStage::LineLeft => if spec_profile_is_rocket(config.profile, config.fast_enabled) {
            ("web-keyboard-rocket-active-line-selection"@, false)
        } else {
            (spec_control_prefix("web-keyboard-line-selection"@, config.profile, config.fast_enabled), false)
        },
        _ => ("web-keyboard-captured-left-selection"@, false),
    }
}

fn continue_or_exhausted(next: Option<(WebCaptureState, u64)>) -> (r: WebCaptureOutcome)
    ensures
        match next {
            Some((s, p)) => r == (WebCaptureOutcome::Continue { state: s, pause_ms: p }),
            None => r == WebCaptureOutcome::Exhausted,
        },
{
    match next {
        Some((s, p)) => WebCaptureOutcome::Continue { state: s, pause_ms: p },
        None => WebCaptureOutcome::Exhausted,
    }
}

fn end_of_round(config: WebCaptureConfig, state: WebCaptureState) -> (r: Option<(WebCaptureState, u64)>)
    ensures
        r == spec_end_of_round(config, state),
{
    if state.attempt == 0 {
        let pause = if config.scrolllock {
            50
        } else {
            web_keyboard_timing_profile(config.profile, config.fast_enabled).attempt_pause_ms
        };
        Some((WebCaptureState { attempt: 1, stage: WebCaptureStage::Selected }, pause))
    } else {
        None
    }
}

fn on_reject(config: WebCaptureConfig, state: WebCaptureState) -> (r: Option<(WebCaptureState, u64)>)
    ensures
        r == spec_on_reject(config, state),
{
    let t = web_keyboard_timing_profile(config.profile, config.fast_enabled);
    let a = state.attempt;
    match state.stage {
        WebCaptureStage::Selected => if config.scrolllock {
            Some((WebCaptureState { attempt: a, stage: WebCaptureStage::ScrollLockLeft }, 0))
        } else {
            Some((WebCaptureState { attempt: a, stage: WebCaptureStage::LineLeft }, 0))
        },
        WebCaptureStage::ScrollLockLeft => if config.ctrl_a_fallback {
            Some((WebCaptureState { attempt: a, stage: WebCaptureStage::ScrollLockFieldAll }, 0))
        } else {
            Some((WebCaptureState { attempt: a, stage: WebCaptureStage::ScrollLockLineLeft }, 0))
        },
        WebCaptureStage::ScrollLockFieldAll => Some(
            (WebCaptureState { attempt: a, stage: WebCaptureStage::ScrollLockLineLeft }, 0),
        ),
        WebCaptureStage::ScrollLockLineLeft => end_of_round(config, state),
        WebCaptureStage::LineLeft => if a == 0 {
            Some((WebCaptureState { attempt: a, stage: WebCaptureStage::LeftRetry }, t.retry_pause_ms))
        } else if config.ctrl_a_fallback {
            Some((WebCaptureState { attempt: a, stage: WebCaptureStage::FieldAll }, 0))
        } else {
            end_of_round(config, state)
        },
        WebCaptureStage::LeftRetry => if config.ctrl_a_fallback {
            Some((WebCaptureState { attempt: a, stage: WebCaptureStage::FieldAll }, 0))
        } else {
            end_of_round(config, state)
        },
        WebCaptureStage::FieldAll => end_of_round(config, state),
    }
}

fn captured_prefix(config: WebCaptureConfig, stage: WebCaptureStage) -> (r: (&'static str, bool))
    ensures
        (r.0@, r.1) == spec_captured_prefix(config, stage),
{
    match stage {
        WebCaptureStage::Selected => ("web-keyboard-selection-selected", true),
        WebCaptureStage::ScrollLockFieldAll | WebCaptureStage::FieldAll => ("web-keyboard-field-selection", true),
        WebCaptureStage::ScrollLockLineLeft => (
            web_keyboard_control_prefix("web-keyboard-line-selection", config.profile, config.fast_enabled),
            false,
        ),
        WebCaptureStage::LineLeft => if web_keyboard_profile_is_rocket(config.profile, config.fast_enabled) {
            ("web-keyboard-rocket-active-line-selection", false)
        } else {
            (web_keyboard_control_prefix("web-keyboard-line-selection", config.profile, config.fast_enabled), false)
        },
        _ => ("web-keyboard-captured-left-selection", false),
    }
}

/// What follows the copy of a step: a kept copy becomes the context (the
/// words left of the caret under Ctrl+Pause first go to the planner); a
/// copy not kept moves to the next step, the next round, or the end.
pub fn web_capture_after_copy(config: WebCaptureConfig, state: WebCaptureState, copied: Option<String>) -> (r:
    WebCaptureOutcome)
    requires
        state.attempt <= 1,
    ensures
        match copied {
            Some(t) => if spec_accepts(state.stage, t@) {
                if state.stage == WebCaptureStage::ScrollLockLeft {
                    r matches WebCaptureOutcome::CheckPlan { text } && text@ == t@
                } else {
                    r matches WebCaptureOutcome::Captured { prefix, text, has_selection } && (prefix@, has_selection)
                        == spec_captured_prefix(config, state.stage) && text@ == t@
                }
            } else {
                match spec_on_reject(config, state) {
                    Some((s, p)) => r == (WebCaptureOutcome::Continue { state: s, pause_ms: p }),
                    None => r == WebCaptureOutcome::Exhausted,
                }
            },
            None => match spec_on_reject(config, state) {
                Some((s, p)) => r == (WebCaptureOutcome::Continue { state: s, pause_ms: p }),
                None => r == WebCaptureOutcome::Exhausted,
            },
        },
{
    match copied {
        Some(t) => {
            if accepts(state.stage, t.as_str()) {
                if state.stage == WebCaptureStage::ScrollLockLeft {
                    return WebCaptureOutcome::CheckPlan { text: t };
                }
                let (prefix, has_selection) = captured_prefix(config, state.stage);
                WebCaptureOutcome::Captured { prefix: prefix.to_owned(), text: t, has_selection }
            } else {
                continue_or_exhausted(on_reject(config, state))
            }
        },
        None => continue_or_exhausted(on_reject(config, state)),
    }
}

/// What follows the planner's answer on the words left of the caret: a
/// context when it has a plan, the next step otherwise.
pub fn web_capture_after_plan_check(config: WebCaptureConfig, state: WebCaptureState, text: String, has_plan: bool) -> (r:
    WebCaptureOutcome)
    requires
        state.stage == WebCaptureStage::ScrollLockLeft,
        state.attempt <= 1,
    ensures
        has_plan ==> (r matches WebCaptureOutcome::Captured { prefix, text: t, has_selection } && prefix@
            == "web-keyboard-captured-left-selection"@ && t@ == text@ && !has_selection),
        !has_plan ==> match spec_on_reject(config, state) {
            Some((s, p)) => r == (WebCaptureOutcome::Continue { state: s, pause_ms: p }),
            None => r == WebCaptureOutcome::Exhausted,
        },
{
    if has_plan {
        WebCaptureOutcome::Captured {
            prefix: "web-keyboard-captured-left-selection".to_owned(),
            text,
            has_selection: false,
        }
    } else {
        continue_or_exhausted(on_reject(config, state))
    }
}

/// The refusal when both rounds found nothing.
pub fn web_capture_exhausted_error() -> (r: PlatformError)
    ensures
        r matches PlatformError::ReplacementUnavailableReason(m) && m@
            == "web_keyboard_capture_empty_after_left_context_retry"@,
{
    PlatformError::ReplacementUnavailableReason("web_keyboard_capture_empty_after_left_context_retry".to_owned())
}

/// The checks before a capture touches the editor: the foreground must
/// still be the window the hotkey was for, and not a terminal embedded in
/// a Codex or ChatGPT window.
pub fn web_capture_precheck(expected_foreground: isize, foreground: isize, embedded_terminal: bool) -> (r: Result<
    (),
    PlatformError,
>)
    ensures
        foreground != expected_foreground ==> r == Err::<(), PlatformError>(PlatformError::PreflightFailed),
        foreground == expected_foreground && embedded_terminal ==> (r matches Err(
            PlatformError::ReplacementUnavailableReason(m),
        ) && m@ == "embedded_terminal_xterm_unsupported"@),
        foreground == expected_foreground && !embedded_terminal ==> r is Ok,
{
    if foreground != expected_foreground {
        return Err(PlatformError::PreflightFailed);
    }
    if embedded_terminal {
        return Err(PlatformError::ReplacementUnavailableReason("embedded_terminal_xterm_unsupported".to_owned()));
    }
    Ok(())
}

/// A capture ends within two rounds: every step moves forward in a round
/// of at most five steps, and the only way back to the first step leads to
/// the second round.
pub open spec fn stage_rank(stage: WebCaptureStage) -> nat {
    match stage {
        WebCaptureStage::Selected => 0,
        WebCaptureStage::ScrollLockLeft => 1,
        WebCaptureStage::ScrollLockFieldAll => 2,
        WebCaptureStage::ScrollLockLineLeft => 3,
        WebCaptureStage::LineLeft => 1,
        WebCaptureStage::LeftRetry => 2,
        WebCaptureStage::FieldAll => 3,
    }
}

pub open spec fn capture_progress(state: WebCaptureState) -> nat {
    (state.attempt as nat) * 4 + stage_rank(state.stage)
}

/// Each step that continues moves strictly forward, so a capture makes at
/// most eight copies before it ends.
pub proof fn law_capture_moves_forward(config: WebCaptureConfig, state: WebCaptureState)
    requires
        state.attempt <= 1,
    ensures
        spec_on_reject(config, state) matches Some((next, _)) ==> next.attempt <= 1 && capture_progress(next)
            > capture_progress(state) && capture_progress(next) < 8,
{
}

} // verus!
