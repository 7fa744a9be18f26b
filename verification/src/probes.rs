//! What each adapter method answers when asked about a target, and the
//! probes run for a target: the methods of its probe plan, in plan order,
//! each asked in turn.
use vstd::prelude::*;
use crate::model::MethodId;
use crate::platform::{ForegroundTarget, MethodProbe, ProbeSafety};
use crate::surface::{probe_plan_for, spec_classify_surface, spec_probe_policy, SurfaceKind};
use crate::target_facts::{spec_target_facts, target_facts};
use crate::terminal::{
    is_ssh_terminal_target, is_supported_terminal_class, spec_is_psreadline_passthrough_terminal_class,
    spec_is_ssh_terminal_title, spec_is_supported_terminal_class,
};
use crate::text::{
    eq_ignore_ascii_case, has_infix, has_prefix, lower_ascii, lower_chars_of,
    str_eq_ignore_ascii_case, chars_eq, chars_of, chars_starts_with, chars_contains, str_eq,
};

verus! {

/// A probe as plain values.
pub ghost struct ProbeView {
    pub method_id: MethodId,
    pub safety: ProbeSafety,
    pub confidence: u8,
    pub requires_clipboard: bool,
    pub requires_focus_stability: bool,
    pub can_preflight: bool,
    pub can_verify: bool,
    pub reason: Seq<char>,
}

pub open spec fn probe_view(p: MethodProbe) -> ProbeView {
    ProbeView {
        method_id: p.method_id,
        safety: p.safety,
        confidence: p.confidence,
        requires_clipboard: p.requires_clipboard,
        requires_focus_stability: p.requires_focus_stability,
        can_preflight: p.can_preflight,
        can_verify: p.can_verify,
        reason: p.reason@,
    }
}

pub open spec fn probe_views(v: Seq<MethodProbe>) -> Seq<ProbeView> {
    v.map_values(|p: MethodProbe| probe_view(p))
}

pub open spec fn safe_probe(method_id: MethodId, reason: Seq<char>) -> ProbeView {
    ProbeView {
        method_id,
        safety: ProbeSafety::Safe,
        confidence: 100,
        requires_clipboard: false,
        requires_focus_stability: true,
        can_preflight: true,
        can_verify: true,
        reason,
    }
}

pub open spec fn risky_probe(method_id: MethodId, reason: Seq<char>) -> ProbeView {
    ProbeView {
        method_id,
        safety: ProbeSafety::Risky,
        confidence: 50,
        requires_clipboard: true,
        requires_focus_stability: true,
        can_preflight: true,
        can_verify: false,
        reason,
    }
}

pub open spec fn unsupported_probe(method_id: MethodId, reason: Seq<char>) -> ProbeView {
    ProbeView {
        method_id,
        safety: ProbeSafety::Unsupported,
        confidence: 0,
        requires_clipboard: false,
        requires_focus_stability: false,
        can_preflight: false,
        can_verify: false,
        reason,
    }
}

/// What probing learns from outside the target itself: whether the
/// environment enables xterm keyboard selection in browsers, whether the
/// focused UI Automation element is an xterm text area, and whether a
/// terminal-app marker is active.
#[derive(Debug, Clone, Copy, PartialEq, Eq, Structural)]
pub struct ProbeEnvironment {
    pub xterm_browser_selection_enabled: bool,
    pub xterm_textarea_focused: bool,
    pub terminal_app_marker_active: bool,
}

/// Win32 edit controls: `Edit` and the rich edits, ignoring ASCII case.
pub open spec fn spec_is_supported_edit_class(class_name: Seq<char>) -> bool {
    lower_ascii(class_name) == "edit"@ || has_prefix(lower_ascii(class_name), "richedit"@)
}

pub fn is_supported_edit_class(class_name: &str) -> (r: bool)
    ensures
        r == spec_is_supported_edit_class(class_name@),
{
    let lower = lower_chars_of(class_name);
    chars_eq(&lower, &chars_of("edit")) || chars_starts_with(&lower, &chars_of("richedit"))
}

pub open spec fn spec_process_is(t: ForegroundTarget, name: Seq<char>) -> bool {
    t.process_name matches Some(p) && eq_ignore_ascii_case(p@, name)
}

/// Microsoft Word: its process, its main window class, its editor class,
/// or "word" in the title.
pub open spec fn spec_is_word_target(t: ForegroundTarget) -> bool {
    spec_process_is(t, "WINWORD"@) || eq_ignore_ascii_case(t.app_class@, "OpusApp"@)
        || eq_ignore_ascii_case(t.focused_class@, "_WwG"@) || has_infix(
        lower_ascii(t.title@),
        "word"@,
    )
}

fn process_is(target: &ForegroundTarget, name: &str) -> (r: bool)
    ensures
        r == spec_process_is(*target, name@),
{
    match &target.process_name {
        Some(p) => str_eq_ignore_ascii_case(p.as_str(), name),
        None => false,
    }
}

pub fn is_word_target(target: &ForegroundTarget) -> (r: bool)
    ensures
        r == spec_is_word_target(*target),
{
    process_is(target, "WINWORD") || str_eq_ignore_ascii_case(target.app_class.as_str(), "OpusApp")
        || str_eq_ignore_ascii_case(target.focused_class.as_str(), "_WwG") || chars_contains(
        &lower_chars_of(target.title.as_str()),
        &chars_of("word"),
    )
}

/// The Word editor inside Outlook.
pub open spec fn spec_is_outlook_word_editor_target(t: ForegroundTarget) -> bool {
    spec_process_is(t, "OUTLOOK"@) && eq_ignore_ascii_case(t.focused_class@, "_WwG"@)
}

pub fn is_outlook_word_editor_target(target: &ForegroundTarget) -> (r: bool)
    ensures
        r == spec_is_outlook_word_editor_target(*target),
{
    process_is(target, "OUTLOOK") && str_eq_ignore_ascii_case(target.focused_class.as_str(), "_WwG")
}

/// Targets that the web keyboard selection reaches: browser-like and
/// Telegram editors, Notepad-like apps, Sticky Notes and Excel's cell
/// editor.
pub open spec fn spec_is_web_keyboard_technical_target(t: ForegroundTarget) -> bool {
    let f = spec_target_facts(t);
    f.is_browser_like_technical_target || f.is_telegram_technical_target || f.is_notepad_like
        || f.is_sticky_notes || f.is_excel_cell_editor
}

pub fn is_web_keyboard_technical_target(target: &ForegroundTarget) -> (r: bool)
    ensures
        r == spec_is_web_keyboard_technical_target(*target),
{
    let f = target_facts(target);
    f.is_browser_like_technical_target || f.is_telegram_technical_target || f.is_notepad_like
        || f.is_sticky_notes || f.is_excel_cell_editor
}

pub fn is_browser_like_target(target: &ForegroundTarget) -> (r: bool)
    ensures
        r == spec_target_facts(*target).is_browser_like_technical_target,
{
    target_facts(target).is_browser_like_technical_target
}

pub fn is_telegram_target(target: &ForegroundTarget) -> (r: bool)
    ensures
        r == spec_target_facts(*target).is_telegram_technical_target,
{
    target_facts(target).is_telegram_technical_target
}

/// A terminal app marker: an active marker file, or the marker in the
/// window title.
pub open spec fn spec_has_terminal_app_marker(t: ForegroundTarget, env: ProbeEnvironment) -> bool {
    env.terminal_app_marker_active || spec_target_facts(t).title_has_terminal_app_marker
}

pub fn has_terminal_app_marker(target: &ForegroundTarget, env: &ProbeEnvironment) -> (r: bool)
    ensures
        r == spec_has_terminal_app_marker(*target, *env),
{
    env.terminal_app_marker_active || target_facts(target).title_has_terminal_app_marker
}

/// Only Sticky Notes may fall back to the caret when its document text has
/// no selection.
pub fn allow_uia_document_caret_fallback(target: &ForegroundTarget) -> (r: bool)
    ensures
        r == (spec_classify_surface(*target).kind == SurfaceKind::StickyNotes),
{
    let c = crate::surface::classify_surface(target);
    matches!(c.kind, SurfaceKind::StickyNotes)
}

/// The desktop and shell list views, where generic methods must not type.
pub open spec fn spec_is_shell_surface(t: ForegroundTarget) -> bool {
    eq_ignore_ascii_case(t.app_class@, "Progman"@) || eq_ignore_ascii_case(t.app_class@, "WorkerW"@)
        || eq_ignore_ascii_case(t.focused_class@, "SysListView32"@)
}

fn is_shell_surface(target: &ForegroundTarget) -> (r: bool)
    ensures
        r == spec_is_shell_surface(*target),
{
    str_eq_ignore_ascii_case(target.app_class.as_str(), "Progman") || str_eq_ignore_ascii_case(
        target.app_class.as_str(),
        "WorkerW",
    ) || str_eq_ignore_ascii_case(target.focused_class.as_str(), "SysListView32")
}

/// Controls that a dedicated method serves, so that UI Automation stays
/// away from them.
pub open spec fn spec_uia_excluded(t: ForegroundTarget) -> bool {
    spec_is_supported_edit_class(t.focused_class@) || spec_is_supported_terminal_class(
        t.app_class@,
        t.focused_class@,
    ) || spec_is_word_target(t) || spec_is_shell_surface(t)
}

fn uia_excluded(target: &ForegroundTarget) -> (r: bool)
    ensures
        r == spec_uia_excluded(*target),
{
    is_supported_edit_class(target.focused_class.as_str()) || is_supported_terminal_class(
        target.app_class.as_str(),
        target.focused_class.as_str(),
    ) || is_word_target(target) || is_shell_surface(target)
}

/// The xterm keyboard selection serves xterm text areas: in terminals, in
/// terminals carrying a terminal-app marker, and in browsers when enabled.
pub open spec fn spec_xterm_enabled(t: ForegroundTarget, env: ProbeEnvironment) -> bool {
    let terminal = spec_is_supported_terminal_class(t.app_class@, t.focused_class@);
    (env.xterm_browser_selection_enabled && spec_target_facts(t).is_browser_like_technical_target
        && env.xterm_textarea_focused) || (terminal && env.xterm_textarea_focused) || (
    spec_has_terminal_app_marker(t, env) && terminal)
}

/// The answer of `method` about `t`.
pub open spec fn spec_probe(method: MethodId, t: ForegroundTarget, env: ProbeEnvironment) -> Option<
    ProbeView,
> {
    match method {
        MethodId::Win32EditMessages => if spec_is_supported_edit_class(t.focused_class@) {
            Some(safe_probe(method, "focused Win32 edit control"@))
        } else {
            None
        },
        MethodId::TerminalClipboardShortcut => if spec_is_supported_terminal_class(
            t.app_class@,
            t.focused_class@,
        ) {
            Some(risky_probe(method, "terminal clipboard shortcut fallback"@))
        } else {
            None
        },
        MethodId::SshTerminal => if spec_is_psreadline_passthrough_terminal_class(
            t.app_class@,
            t.focused_class@,
        ) && spec_is_ssh_terminal_title(t.title@) {
            Some(
                unsupported_probe(method, "ssh terminal detected; no safe local line-editing API"@),
            )
        } else {
            None
        },
        MethodId::ConsoleBuffer => if t.app_class@ == "ConsoleWindowClass"@ {
            Some(safe_probe(method, "classic console buffer"@))
        } else {
            None
        },
        MethodId::PsReadLine => Some(safe_probe(method, "PowerShell PSReadLine adapter"@)),
        MethodId::WordCom => if spec_is_word_target(t) || spec_is_outlook_word_editor_target(t) {
            Some(safe_probe(method, "Word COM object model"@))
        } else {
            None
        },
        MethodId::UiAutomationEditableText => if spec_uia_excluded(t) {
            None
        } else {
            Some(safe_probe(method, "focused UI Automation editable text candidate"@))
        },
        MethodId::UiAutomationDocumentText => if spec_uia_excluded(t) {
            None
        } else {
            Some(safe_probe(method, "focused UI Automation document text selection candidate"@))
        },
        MethodId::UiAutomationText => if spec_uia_excluded(t) {
            None
        } else {
            Some(safe_probe(method, "focused UI Automation text/value candidate"@))
        },
        MethodId::XtermKeyboardSelection => if spec_xterm_enabled(t, env) {
            Some(
                ProbeView {
                    requires_clipboard: true,
                    ..safe_probe(
                        method,
                        "xterm textarea keyboard selection with terminal copy/paste shortcuts"@,
                    )
                },
            )
        } else {
            None
        },
        MethodId::WebKeyboardSelection => if spec_is_web_keyboard_technical_target(t) {
            Some(
                ProbeView {
                    requires_clipboard: true,
                    ..safe_probe(method, "editor keyboard selection with clipboard preflight"@)
                },
            )
        } else {
            None
        },
        MethodId::ClipboardSelection => if spec_is_shell_surface(t) {
            None
        } else {
            Some(risky_probe(method, "generic selected text clipboard fallback"@))
        },
        MethodId::SendInput => if spec_is_shell_surface(t) {
            None
        } else {
            Some(
                ProbeView {
                    requires_clipboard: false,
                    can_preflight: false,
                    can_verify: false,
                    ..risky_probe(method, "generic SendInput text fallback"@)
                },
            )
        },
    }
}

/// Asks `method` about `target`.
pub fn probe_method_by_id(method: MethodId, target: &ForegroundTarget, env: &ProbeEnvironment) -> (r:
    Option<MethodProbe>)
    ensures
        match spec_probe(method, *target, *env) {
            Some(v) => r matches Some(p) && probe_view(p) == v,
            None => r is None,
        },
{
    match method {
        MethodId::Win32EditMessages => {
            if is_supported_edit_class(target.focused_class.as_str()) {
                Some(MethodProbe::safe(method, "focused Win32 edit control"))
            } else {
                None
            }
        },
        MethodId::TerminalClipboardShortcut => {
            if is_supported_terminal_class(target.app_class.as_str(), target.focused_class.as_str()) {
                Some(MethodProbe::risky(method, "terminal clipboard shortcut fallback"))
            } else {
                None
            }
        },
        MethodId::SshTerminal => {
            if is_ssh_terminal_target(target) {
                Some(
                    MethodProbe::unsupported(
                        method,
                        "ssh terminal detected; no safe local line-editing API",
                    ),
                )
            } else {
                None
            }
        },
        MethodId::ConsoleBuffer => {
            if str_eq(target.app_class.as_str(), "ConsoleWindowClass") {
                Some(MethodProbe::safe(method, "classic console buffer"))
            } else {
                None
            }
        },
        MethodId::PsReadLine => Some(MethodProbe::safe(method, "PowerShell PSReadLine adapter")),
        MethodId::WordCom => {
            if is_word_target(target) || is_outlook_word_editor_target(target) {
                Some(MethodProbe::safe(method, "Word COM object model"))
            } else {
                None
            }
        },
        MethodId::UiAutomationEditableText => {
            if uia_excluded(target) {
                None
            } else {
                Some(MethodProbe::safe(method, "focused UI Automation editable text candidate"))
            }
        },
        MethodId::UiAutomationDocumentText => {
            if uia_excluded(target) {
                None
            } else {
                Some(
                    MethodProbe::safe(
                        method,
                        "focused UI Automation document text selection candidate",
                    ),
                )
            }
        },
        MethodId::UiAutomationText => {
            if uia_excluded(target) {
                None
            } else {
                Some(MethodProbe::safe(method, "focused UI Automation text/value candidate"))
            }
        },
        MethodId::XtermKeyboardSelection => {
            let terminal = is_supported_terminal_class(
                target.app_class.as_str(),
                target.focused_class.as_str(),
            );
            let for_browser = env.xterm_browser_selection_enabled && is_browser_like_target(target)
                && env.xterm_textarea_focused;
            let for_terminal = (terminal && env.xterm_textarea_focused) || (has_terminal_app_marker(
                target,
                env,
            ) && terminal);
            if !for_browser && !for_terminal {
                return None;
            }
            let mut probe = MethodProbe::safe(
                method,
                "xterm textarea keyboard selection with terminal copy/paste shortcuts",
            );
            probe.requires_clipboard = true;
            Some(probe)
        },
        MethodId::WebKeyboardSelection => {
            if !is_web_keyboard_technical_target(target) {
                return None;
            }
            let mut probe = MethodProbe::safe(
                method,
                "editor keyboard selection with clipboard preflight",
            );
            probe.requires_clipboard = true;
            Some(probe)
        },
        MethodId::ClipboardSelection => {
            if is_shell_surface(target) {
                None
            } else {
                Some(MethodProbe::risky(method, "generic selected text clipboard fallback"))
            }
        },
        MethodId::SendInput => {
            if is_shell_surface(target) {
                return None;
            }
            let mut probe = MethodProbe::risky(method, "generic SendInput text fallback");
            probe.requires_clipboard = false;
            probe.can_preflight = false;
            probe.can_verify = false;
            Some(probe)
        },
    }
}

/// The answers of the given methods, in order, leaving out the methods that
/// do not answer.
pub open spec fn spec_probes_of(methods: Seq<MethodId>, t: ForegroundTarget, env: ProbeEnvironment) -> Seq<
    ProbeView,
>
    decreases methods.len(),
{
    if methods.len() == 0 {
        Seq::empty()
    } else {
        let before = spec_probes_of(methods.drop_last(), t, env);
        match spec_probe(methods.last(), t, env) {
            Some(p) => before.push(p),
            None => before,
        }
    }
}

/// The methods of `methods`, in order, that do not answer about `t`.
pub open spec fn spec_unanswered(methods: Seq<MethodId>, t: ForegroundTarget, env: ProbeEnvironment) -> Seq<
    MethodId,
>
    decreases methods.len(),
{
    if methods.len() == 0 {
        Seq::empty()
    } else {
        let before = spec_unanswered(methods.drop_last(), t, env);
        if spec_probe(methods.last(), t, env) is None {
            before.push(methods.last())
        } else {
            before
        }
    }
}

/// Asks each method in turn.
pub fn probes_for_methods(methods: &[MethodId], target: &ForegroundTarget, env: &ProbeEnvironment) -> (r:
    Vec<MethodProbe>)
    ensures
        probe_views(r@) == spec_probes_of(methods@, *target, *env),
{
    let mut r: Vec<MethodProbe> = Vec::new();
    let mut i: usize = 0;
    while i < methods.len()
        invariant
            i <= methods.len(),
            probe_views(r@) == spec_probes_of(methods@.take(i as int), *target, *env),
        decreases methods.len() - i,
    {
        proof {
            assert(methods@.take(i + 1).drop_last() == methods@.take(i as int));
            assert(methods@.take(i + 1).last() == methods@[i as int]);
        }
        match probe_method_by_id(methods[i], target, env) {
            Some(p) => {
                let ghost before = r@;
                r.push(p);
                proof {
                    assert(r@ == before.push(p));
                    assert(probe_views(r@) == probe_views(before).push(probe_view(p)));
                }
            },
            None => {},
        }
        i += 1;
    }
    assert(methods@.take(methods.len() as int) == methods@);
    r
}

/// The methods of `methods`, in order, that do not answer about `target`.
pub fn unanswered_methods(methods: &[MethodId], target: &ForegroundTarget, env: &ProbeEnvironment) -> (r:
    Vec<MethodId>)
    ensures
        r@ == spec_unanswered(methods@, *target, *env),
{
    let mut r: Vec<MethodId> = Vec::new();
    let mut i: usize = 0;
    while i < methods.len()
        invariant
            i <= methods.len(),
            r@ == spec_unanswered(methods@.take(i as int), *target, *env),
        decreases methods.len() - i,
    {
        proof {
            assert(methods@.take(i + 1).drop_last() == methods@.take(i as int));
            assert(methods@.take(i + 1).last() == methods@[i as int]);
        }
        if probe_method_by_id(methods[i], target, env).is_none() {
            r.push(methods[i]);
        }
        i += 1;
    }
    assert(methods@.take(methods.len() as int) == methods@);
    r
}

/// The methods probed at run time: those of the target's probe plan.
pub open spec fn spec_runtime_probe_methods(t: ForegroundTarget, diagnostic_unknown_probes: bool) -> Seq<
    MethodId,
> {
    spec_probe_policy(spec_classify_surface(t).kind, diagnostic_unknown_probes).probe_methods
}

pub fn windows_runtime_probe_methods(target: &ForegroundTarget, diagnostic_unknown_probes: bool) -> (r:
    Vec<MethodId>)
    ensures
        r@ == spec_runtime_probe_methods(*target, diagnostic_unknown_probes),
{
    probe_plan_for(target, diagnostic_unknown_probes).probe_methods
}

/// The probes of a target: every method of its probe plan, in plan order,
/// that answers.
pub fn windows_method_probes(
    target: &ForegroundTarget,
    env: &ProbeEnvironment,
    diagnostic_unknown_probes: bool,
) -> (r: Vec<MethodProbe>)
    ensures
        probe_views(r@) == spec_probes_of(
            spec_runtime_probe_methods(*target, diagnostic_unknown_probes),
            *target,
            *env,
        ),
{
    let methods = windows_runtime_probe_methods(target, diagnostic_unknown_probes);
    probes_for_methods(methods.as_slice(), target, env)
}

} // verus!
