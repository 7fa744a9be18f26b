//! Diagnostics of the focused window: which surface it is, which methods
//! were probed and what the resolver made of them, as printable records
//! and as the one-line summary logged when a hotkey fails.
use vstd::prelude::*;
use crate::ids::{hwnd_id, spec_hwnd_id};
use crate::model::{method_name, CorrectionMode, MethodId};
use crate::platform::{ForegroundTarget, MethodProbe, ProbeSafety};
use crate::probes::{
    probe_views, spec_probes_of, spec_runtime_probe_methods, spec_unanswered, unanswered_methods,
    windows_method_probes, windows_runtime_probe_methods, ProbeEnvironment,
};
use crate::resolver::{MethodResolver, ResolveTraceEntry, ResolveTraceOutcome};
use crate::surface::{
    classify_surface, kind_name, probe_plan_for, spec_classify_surface, spec_kind_name,
    spec_probe_policy, spec_surface_policy, spec_web_keyboard_profile, string_views,
    surface_policy_for, web_keyboard_profile_for_surface, WebKeyboardProfile,
};
use crate::surface::spec_default_surface_policies;
use crate::text::{concat, decimal, decimal_string, join, join_strings};

verus! {

/// The foreground window and its focused control.
#[derive(Debug, Clone, PartialEq, Eq)]
pub struct WindowsFocusDiagnostics {
    pub foreground_hwnd: String,
    pub foreground_class: String,
    pub foreground_title: String,
    pub focused_hwnd: String,
    pub focused_class: String,
    pub focused_title: String,
}

/// Everything known of the method choice for the foreground window.
#[derive(Debug, Clone, PartialEq, Eq)]
pub struct WindowsMethodDiagnostics {
    pub foreground: WindowsFocusDiagnostics,
    pub surface: WindowsSurfaceDiagnostics,
    pub uia_focus: Option<WindowsUiaFocusDiagnostics>,
    pub probe_plan_methods: Vec<String>,
    pub runtime_probe_methods: Vec<String>,
    pub probe_plan_suppressed_methods: Vec<String>,
    pub probe_plan_fast: bool,
    pub probes: Vec<WindowsMethodProbeDiagnostics>,
    pub pause_trace: Vec<WindowsResolveTraceDiagnostics>,
    pub scrolllock_trace: Vec<WindowsResolveTraceDiagnostics>,
    pub selected_context_method: Option<String>,
    pub selected_replacement_method: Option<String>,
    pub selected_pause_context_method: Option<String>,
    pub selected_pause_replacement_method: Option<String>,
    pub selected_scrolllock_context_method: Option<String>,
    pub selected_scrolllock_replacement_method: Option<String>,
    pub context_method: Option<String>,
    pub context_error: Option<String>,
    pub context_skipped: bool,
}

/// One resolver trace entry, printable.
#[derive(Debug, Clone, PartialEq, Eq)]
pub struct WindowsResolveTraceDiagnostics {
    pub method: String,
    pub mode: String,
    pub safety: String,
    pub confidence: u8,
    pub preference_rank: usize,
    pub replacement_method: Option<String>,
    pub outcome: String,
    pub reason: String,
}

/// The surface of the foreground window and its policy, printable.
#[derive(Debug, Clone, PartialEq, Eq)]
pub struct WindowsSurfaceDiagnostics {
    pub kind: String,
    pub confidence: u8,
    pub evidence: Vec<String>,
    pub web_keyboard_profile: String,
    pub allow_risky_methods: bool,
    pub pause_context_methods: Vec<String>,
    pub pause_replace_methods: Vec<String>,
    pub scrolllock_context_methods: Vec<String>,
    pub scrolllock_replace_methods: Vec<String>,
    pub forbidden_methods: Vec<String>,
}

/// The focused UI Automation element.
#[derive(Debug, Clone, PartialEq, Eq)]
pub struct WindowsUiaFocusDiagnostics {
    pub name: String,
    pub control_type: String,
    pub automation_id: String,
    pub class_name: String,
    pub framework_id: String,
    pub has_keyboard_focus: bool,
    pub is_keyboard_focusable: bool,
}

/// One probe, printable.
#[derive(Debug, Clone, PartialEq, Eq)]
pub struct WindowsMethodProbeDiagnostics {
    pub method: String,
    pub safety: String,
    pub requires_clipboard: bool,
    pub requires_focus_stability: bool,
    pub can_preflight: bool,
    pub can_verify: bool,
    pub reason: String,
}

pub open spec fn spec_mode_name(mode: CorrectionMode) -> Seq<char> {
    match mode {
        CorrectionMode::Pause => "Pause"@,
        CorrectionMode::ScrollLock => "ScrollLock"@,
    }
}

pub fn mode_name(mode: CorrectionMode) -> (r: &'static str)
    ensures
        r@ == spec_mode_name(mode),
{
    match mode {
        CorrectionMode::Pause => "Pause",
        CorrectionMode::ScrollLock => "ScrollLock",
    }
}

pub open spec fn spec_safety_name(safety: ProbeSafety) -> Seq<char> {
    match safety {
        ProbeSafety::Safe => "Safe"@,
        ProbeSafety::Risky => "Risky"@,
        ProbeSafety::Unsupported => "Unsupported"@,
    }
}

pub fn safety_name(safety: ProbeSafety) -> (r: &'static str)
    ensures
        r@ == spec_safety_name(safety),
{
    match safety {
        ProbeSafety::Safe => "Safe",
        ProbeSafety::Risky => "Risky",
        ProbeSafety::Unsupported => "Unsupported",
    }
}

pub open spec fn spec_outcome_name(outcome: ResolveTraceOutcome) -> Seq<char> {
    match outcome {
        ResolveTraceOutcome::Accepted => "Accepted"@,
        ResolveTraceOutcome::ForbiddenByPolicy => "ForbiddenByPolicy"@,
        ResolveTraceOutcome::RiskyMethodBlocked => "RiskyMethodBlocked"@,
        ResolveTraceOutcome::UnsupportedProbe => "UnsupportedProbe"@,
        ResolveTraceOutcome::ReplacementForbiddenByPolicy => "ReplacementForbiddenByPolicy"@,
        ResolveTraceOutcome::SkippedAfterAccepted => "SkippedAfterAccepted"@,
    }
}

pub fn outcome_name(outcome: ResolveTraceOutcome) -> (r: &'static str)
    ensures
        r@ == spec_outcome_name(outcome),
{
    match outcome {
        ResolveTraceOutcome::Accepted => "Accepted",
        ResolveTraceOutcome::ForbiddenByPolicy => "ForbiddenByPolicy",
        ResolveTraceOutcome::RiskyMethodBlocked => "RiskyMethodBlocked",
        ResolveTraceOutcome::UnsupportedProbe => "UnsupportedProbe",
        ResolveTraceOutcome::ReplacementForbiddenByPolicy => "ReplacementForbiddenByPolicy",
        ResolveTraceOutcome::SkippedAfterAccepted => "SkippedAfterAccepted",
    }
}

pub open spec fn spec_profile_name(profile: WebKeyboardProfile) -> Seq<char> {
    match profile {
        WebKeyboardProfile::Standard => "Standard"@,
        WebKeyboardProfile::Fast => "Fast"@,
        WebKeyboardProfile::RocketSearch => "RocketSearch"@,
    }
}

pub fn profile_name(profile: WebKeyboardProfile) -> (r: &'static str)
    ensures
        r@ == spec_profile_name(profile),
{
    match profile {
        WebKeyboardProfile::Standard => "Standard",
        WebKeyboardProfile::Fast => "Fast",
        WebKeyboardProfile::RocketSearch => "RocketSearch",
    }
}

/// The machine names of some methods.
pub open spec fn method_names(methods: Seq<MethodId>) -> Seq<Seq<char>> {
    methods.map_values(|m: MethodId| method_name(m))
}

pub fn method_name_strings(methods: &[MethodId]) -> (r: Vec<String>)
    ensures
        string_views(r@) == method_names(methods@),
{
    let mut r: Vec<String> = Vec::new();
    let mut i: usize = 0;
    while i < methods.len()
        invariant
            i <= methods.len(),
            string_views(r@) == method_names(methods@.take(i as int)),
        decreases methods.len() - i,
    {
        let name = methods[i].as_str().to_owned();
        let ghost before = r@;
        r.push(name);
        proof {
            assert(r@ == before.push(name));
            assert(string_views(r@) == string_views(before).push(name@));
            assert(methods@.take(i + 1) == methods@.take(i as int).push(methods@[i as int]));
            assert(method_names(methods@.take(i + 1)) == method_names(methods@.take(i as int)).push(
                method_name(methods@[i as int]),
            ));
        }
        i += 1;
    }
    assert(methods@.take(methods.len() as int) == methods@);
    r
}

/// `a,b,c`: the method names joined by commas.
pub open spec fn spec_method_list(methods: Seq<MethodId>) -> Seq<char> {
    join(method_names(methods), ","@)
}

pub fn method_list(methods: &[MethodId]) -> (r: String)
    ensures
        r@ == spec_method_list(methods@),
{
    let names = method_name_strings(methods);
    join_strings(names.as_slice(), ",")
}

/// The focus record: window ids, classes (`unknown` when unreadable) and
/// titles (empty when unreadable).
pub fn focus_diagnostics(
    foreground: isize,
    focused: isize,
    foreground_class: Option<String>,
    foreground_title: Option<String>,
    focused_class: Option<String>,
    focused_title: Option<String>,
) -> (r: WindowsFocusDiagnostics)
    ensures
        r.foreground_hwnd@ == spec_hwnd_id(foreground),
        r.focused_hwnd@ == spec_hwnd_id(focused),
        r.foreground_class@ == (match foreground_class {
            Some(c) => c@,
            None => "unknown"@,
        }),
        r.focused_class@ == (match focused_class {
            Some(c) => c@,
            None => "unknown"@,
        }),
        r.foreground_title@ == (match foreground_title {
            Some(t) => t@,
            None => Seq::<char>::empty(),
        }),
        r.focused_title@ == (match focused_title {
            Some(t) => t@,
            None => Seq::<char>::empty(),
        }),
{
    WindowsFocusDiagnostics {
        foreground_hwnd: hwnd_id(foreground),
        foreground_class: or_unknown(foreground_class),
        foreground_title: or_empty(foreground_title),
        focused_hwnd: hwnd_id(focused),
        focused_class: or_unknown(focused_class),
        focused_title: or_empty(focused_title),
    }
}

fn or_unknown(s: Option<String>) -> (r: String)
    ensures
        r@ == (match s {
            Some(c) => c@,
            None => "unknown"@,
        }),
{
    match s {
        Some(c) => c,
        None => "unknown".to_owned(),
    }
}

fn or_empty(s: Option<String>) -> (r: String)
    ensures
        r@ == (match s {
            Some(c) => c@,
            None => Seq::<char>::empty(),
        }),
{
    match s {
        Some(c) => c,
        None => String::new(),
    }
}

/// The printable record of a probe.
pub fn method_probe_diagnostics(probe: &MethodProbe) -> (r: WindowsMethodProbeDiagnostics)
    ensures
        r.method@ == method_name(probe.method_id),
        r.safety@ == spec_safety_name(probe.safety),
        r.requires_clipboard == probe.requires_clipboard,
        r.requires_focus_stability == probe.requires_focus_stability,
        r.can_preflight == probe.can_preflight,
        r.can_verify == probe.can_verify,
        r.reason@ == probe.reason@,
{
    WindowsMethodProbeDiagnostics {
        method: probe.method_id.as_str().to_owned(),
        safety: safety_name(probe.safety).to_owned(),
        requires_clipboard: probe.requires_clipboard,
        requires_focus_stability: probe.requires_focus_stability,
        can_preflight: probe.can_preflight,
        can_verify: probe.can_verify,
        reason: probe.reason.clone(),
    }
}

/// The printable record of a trace entry.
pub fn resolve_trace_diagnostics(entry: &ResolveTraceEntry) -> (r: WindowsResolveTraceDiagnostics)
    ensures
        r.method@ == method_name(entry.method),
        r.mode@ == spec_mode_name(entry.mode),
        r.safety@ == spec_safety_name(entry.safety),
        r.confidence == entry.confidence,
        r.preference_rank == entry.preference_rank,
        r.replacement_method matches Some(m) ==> entry.replacement_method matches Some(e) && m@
            == method_name(e),
        r.replacement_method is None <==> entry.replacement_method is None,
        r.outcome@ == spec_outcome_name(entry.outcome),
        r.reason@ == entry.reason@,
{
    WindowsResolveTraceDiagnostics {
        method: entry.method.as_str().to_owned(),
        mode: mode_name(entry.mode).to_owned(),
        safety: safety_name(entry.safety).to_owned(),
        confidence: entry.confidence,
        preference_rank: entry.preference_rank,
        replacement_method: match entry.replacement_method {
            Some(m) => Some(m.as_str().to_owned()),
            None => None,
        },
        outcome: outcome_name(entry.outcome).to_owned(),
        reason: entry.reason.clone(),
    }
}

/// Whether a trace entry records a method skipped by the policy.
pub open spec fn is_policy_skip(outcome: ResolveTraceOutcome) -> bool {
    outcome == ResolveTraceOutcome::ForbiddenByPolicy || outcome
        == ResolveTraceOutcome::RiskyMethodBlocked || outcome
        == ResolveTraceOutcome::ReplacementForbiddenByPolicy
}

/// `method:Outcome` for each policy-skipped entry, in order.
pub open spec fn spec_policy_skipped(entries: Seq<ResolveTraceEntry>) -> Seq<Seq<char>>
    decreases entries.len(),
{
    if entries.len() == 0 {
        Seq::empty()
    } else {
        let before = spec_policy_skipped(entries.drop_last());
        let e = entries.last();
        if is_policy_skip(e.outcome) {
            before.push(method_name(e.method) + ":"@ + spec_outcome_name(e.outcome))
        } else {
            before
        }
    }
}

/// `method->replacement` of the first accepted entry, or `none`.
pub open spec fn spec_selected(entries: Seq<ResolveTraceEntry>) -> Seq<char>
    decreases entries.len(),
{
    if entries.len() == 0 {
        "none"@
    } else if entries[0].outcome == ResolveTraceOutcome::Accepted {
        method_name(entries[0].method) + "->"@ + match entries[0].replacement_method {
            Some(r) => method_name(r),
            None => "none"@,
        }
    } else {
        spec_selected(entries.drop_first())
    }
}

/// The one-line summary logged when a hotkey fails.
pub open spec fn spec_failure_summary(
    kind_text: Seq<char>,
    confidence: u8,
    mode: CorrectionMode,
    entries: Seq<ResolveTraceEntry>,
    plan: Seq<MethodId>,
    runtime: Seq<MethodId>,
    probed: Seq<MethodId>,
    probe_none: Seq<MethodId>,
    suppressed: Seq<MethodId>,
    final_error: Seq<char>,
) -> Seq<char> {
    "surface="@ + kind_text + "; confidence="@ + decimal(confidence as nat) + "; mode="@
        + spec_mode_name(mode) + "; selected="@ + spec_selected(entries) + "; probe_plan=["@
        + spec_method_list(plan) + "]; runtime=["@ + spec_method_list(runtime) + "]; probes=["@
        + spec_method_list(probed) + "]; probe_none=["@ + spec_method_list(probe_none)
        + "]; suppressed=["@ + spec_method_list(suppressed) + "]; policy_skipped=["@ + join(
        spec_policy_skipped(entries),
        "|"@,
    ) + "]; final=operation_failed:"@ + final_error
}

fn selected_label(entries: &[ResolveTraceEntry]) -> (r: String)
    ensures
        r@ == spec_selected(entries@),
{
    let mut i: usize = 0;
    assert(entries@.skip(0) == entries@);
    while i < entries.len()
        invariant
            i <= entries.len(),
            spec_selected(entries@) == spec_selected(entries@.skip(i as int)),
        decreases entries.len() - i,
    {
        proof {
            assert(entries@.skip(i as int)[0] == entries@[i as int]);
            assert(entries@.skip(i as int).drop_first() == entries@.skip(i + 1));
        }
        if matches!(entries[i].outcome, ResolveTraceOutcome::Accepted) {
            let e = &entries[i];
            let replacement = match e.replacement_method {
                Some(m) => m.as_str(),
                None => "none",
            };
            let head = concat(e.method.as_str(), "->");
            return concat(head.as_str(), replacement);
        }
        i += 1;
    }
    proof {
        reveal_strlit("none");
    }
    "none".to_owned()
}

fn policy_skipped_labels(entries: &[ResolveTraceEntry]) -> (r: Vec<String>)
    ensures
        string_views(r@) == spec_policy_skipped(entries@),
{
    let mut r: Vec<String> = Vec::new();
    let mut i: usize = 0;
    while i < entries.len()
        invariant
            i <= entries.len(),
            string_views(r@) == spec_policy_skipped(entries@.take(i as int)),
        decreases entries.len() - i,
    {
        proof {
            assert(entries@.take(i + 1).drop_last() == entries@.take(i as int));
            assert(entries@.take(i + 1).last() == entries@[i as int]);
        }
        let e = &entries[i];
        let skip = matches!(e.outcome, ResolveTraceOutcome::ForbiddenByPolicy)
            || matches!(e.outcome, ResolveTraceOutcome::RiskyMethodBlocked)
            || matches!(e.outcome, ResolveTraceOutcome::ReplacementForbiddenByPolicy);
        if skip {
            let head = concat(e.method.as_str(), ":");
            let label = concat(head.as_str(), outcome_name(e.outcome));
            let ghost before = r@;
            r.push(label);
            proof {
                assert(r@ == before.push(label));
                assert(string_views(r@) == string_views(before).push(label@));
            }
        }
        i += 1;
    }
    assert(entries@.take(entries.len() as int) == entries@);
    r
}

fn method_ids_of(probes: &[MethodProbe]) -> (r: Vec<MethodId>)
    ensures
        r@ == probes@.map_values(|p: MethodProbe| p.method_id),
{
    let mut r: Vec<MethodId> = Vec::new();
    let mut i: usize = 0;
    while i < probes.len()
        invariant
            i <= probes.len(),
            r@ == probes@.take(i as int).map_values(|p: MethodProbe| p.method_id),
        decreases probes.len() - i,
    {
        r.push(probes[i].method_id);
        assert(probes@.take(i + 1) == probes@.take(i as int).push(probes@[i as int]));
        i += 1;
    }
    assert(probes@.take(probes.len() as int) == probes@);
    r
}

fn push_str(s: String, t: &str) -> (r: String)
    ensures
        r@ == s@ + t@,
{
    concat(s.as_str(), t)
}

/// The failure summary of `target` for `mode`: its surface, the method the
/// resolver would take, the methods planned, probed, silent, suppressed and
/// skipped by policy, and the final error.
pub fn hotkey_failure_trace_summary_for_target(
    target: &ForegroundTarget,
    env: &ProbeEnvironment,
    diagnostic_unknown_probes: bool,
    mode: CorrectionMode,
    final_error: &str,
) -> (r: String)
    ensures
        ({
            let c = spec_classify_surface(*target);
            let plan = spec_probe_policy(c.kind, diagnostic_unknown_probes);
            let runtime = spec_runtime_probe_methods(*target, diagnostic_unknown_probes);
            exists|probes: Seq<MethodProbe>, entries: Seq<ResolveTraceEntry>|
                probe_views(probes) == spec_probes_of(runtime, *target, *env)
                    && MethodResolver::spec_traced(
                    spec_default_surface_policies(),
                    *target,
                    probes,
                    mode,
                    entries,
                ) && r@ == spec_failure_summary(
                    spec_kind_name(c.kind),
                    c.confidence,
                    mode,
                    entries,
                    plan.probe_methods,
                    runtime,
                    probes.map_values(|p: MethodProbe| p.method_id),
                    spec_unanswered(runtime, *target, *env),
                    plan.suppressed_methods,
                    final_error@,
                )
        }),
{
    let classification = classify_surface(target);
    let plan = probe_plan_for(target, diagnostic_unknown_probes);
    let runtime = windows_runtime_probe_methods(target, diagnostic_unknown_probes);
    let probes = windows_method_probes(target, env, diagnostic_unknown_probes);
    let probed = method_ids_of(probes.as_slice());
    let probe_none = unanswered_methods(runtime.as_slice(), target, env);
    let resolver = MethodResolver::default();
    let trace = resolver.trace_for_mode(target, probes.as_slice(), mode);
    let selected = selected_label(trace.as_slice());
    let skipped = policy_skipped_labels(trace.as_slice());
    let mut s = "surface=".to_owned();
    s = push_str(s, kind_name(classification.kind));
    s = push_str(s, "; confidence=");
    s = push_str(s, decimal_string(classification.confidence as u64).as_str());
    s = push_str(s, "; mode=");
    s = push_str(s, mode_name(mode));
    s = push_str(s, "; selected=");
    s = push_str(s, selected.as_str());
    s = push_str(s, "; probe_plan=[");
    s = push_str(s, method_list(plan.probe_methods.as_slice()).as_str());
    s = push_str(s, "]; runtime=[");
    s = push_str(s, method_list(runtime.as_slice()).as_str());
    s = push_str(s, "]; probes=[");
    s = push_str(s, method_list(probed.as_slice()).as_str());
    s = push_str(s, "]; probe_none=[");
    s = push_str(s, method_list(probe_none.as_slice()).as_str());
    s = push_str(s, "]; suppressed=[");
    s = push_str(s, method_list(plan.suppressed_methods.as_slice()).as_str());
    s = push_str(s, "]; policy_skipped=[");
    s = push_str(s, join_strings(skipped.as_slice(), "|").as_str());
    s = push_str(s, "]; final=operation_failed:");
    s = push_str(s, final_error);
    proof {
        reveal_strlit("surface=");
        reveal_strlit("; confidence=");
        reveal_strlit("; mode=");
        reveal_strlit("; selected=");
        reveal_strlit("; probe_plan=[");
        reveal_strlit("]; runtime=[");
        reveal_strlit("]; probes=[");
        reveal_strlit("]; probe_none=[");
        reveal_strlit("]; suppressed=[");
        reveal_strlit("]; policy_skipped=[");
        reveal_strlit("]; final=operation_failed:");
        let c = spec_classify_surface(*target);
        assert(classification@ == c);
        assert(s@ == spec_failure_summary(
            spec_kind_name(c.kind),
            c.confidence,
            mode,
            trace@,
            plan.probe_methods@,
            runtime@,
            probes@.map_values(|p: MethodProbe| p.method_id),
            spec_unanswered(runtime@, *target, *env),
            plan.suppressed_methods@,
            final_error@,
        ));
    }
    s
}

} // verus!

verus! {

/// What became of the optional context capture of a diagnostics run.
#[derive(Debug, Clone, PartialEq, Eq)]
pub enum ContextDiagnostics {
    /// The capture was not asked for.
    Skipped,
    /// The capture succeeded; the method bound to the context, if any.
    Captured(Option<MethodId>),
    /// The capture failed with this (printed) error.
    Failed(String),
}

pub open spec fn probe_diag_matches(d: WindowsMethodProbeDiagnostics, p: MethodProbe) -> bool {
    &&& d.method@ == method_name(p.method_id)
    &&& d.safety@ == spec_safety_name(p.safety)
    &&& d.requires_clipboard == p.requires_clipboard
    &&& d.requires_focus_stability == p.requires_focus_stability
    &&& d.can_preflight == p.can_preflight
    &&& d.can_verify == p.can_verify
    &&& d.reason@ == p.reason@
}

pub open spec fn trace_diag_matches(d: WindowsResolveTraceDiagnostics, e: ResolveTraceEntry) -> bool {
    &&& d.method@ == method_name(e.method)
    &&& d.mode@ == spec_mode_name(e.mode)
    &&& d.safety@ == spec_safety_name(e.safety)
    &&& d.confidence == e.confidence
    &&& d.preference_rank == e.preference_rank
    &&& (d.replacement_method matches Some(m) ==> e.replacement_method matches Some(x) && m@
        == method_name(x))
    &&& (d.replacement_method is None <==> e.replacement_method is None)
    &&& d.outcome@ == spec_outcome_name(e.outcome)
    &&& d.reason@ == e.reason@
}

pub open spec fn opt_name(m: Option<String>) -> Option<Seq<char>> {
    match m {
        Some(s) => Some(s@),
        None => None,
    }
}

/// The names of the methods the resolver chooses for `mode`: context and
/// replacement method when one is viable, nothing otherwise.
pub open spec fn spec_selection_names(
    target: ForegroundTarget,
    probes: Seq<MethodProbe>,
    mode: CorrectionMode,
    context_name: Option<Seq<char>>,
    replacement_name: Option<Seq<char>>,
) -> bool {
    match (context_name, replacement_name) {
        (Some(c), Some(r)) => exists|d: crate::resolver::ResolveDecision|
            MethodResolver::spec_resolved(
                spec_default_surface_policies(),
                target,
                probes,
                mode,
                Ok(d),
            ) && c == method_name(d.context_method) && r == method_name(d.replacement_method),
        (None, None) => exists|e: crate::resolver::ResolveError|
            MethodResolver::spec_resolved(
                spec_default_surface_policies(),
                target,
                probes,
                mode,
                Err(e),
            ),
        _ => false,
    }
}

fn probe_diagnostics_list(probes: &[MethodProbe]) -> (r: Vec<WindowsMethodProbeDiagnostics>)
    ensures
        r@.len() == probes@.len(),
        forall|i: int| 0 <= i < probes@.len() ==> probe_diag_matches(#[trigger] r@[i], probes@[i]),
{
    let mut r: Vec<WindowsMethodProbeDiagnostics> = Vec::new();
    let mut i: usize = 0;
    while i < probes.len()
        invariant
            i <= probes.len(),
            r@.len() == i,
            forall|k: int| 0 <= k < i ==> probe_diag_matches(#[trigger] r@[k], probes@[k]),
        decreases probes.len() - i,
    {
        r.push(method_probe_diagnostics(&probes[i]));
        i += 1;
    }
    r
}

fn trace_diagnostics_list(entries: &[ResolveTraceEntry]) -> (r: Vec<WindowsResolveTraceDiagnostics>)
    ensures
        r@.len() == entries@.len(),
        forall|i: int|
            0 <= i < entries@.len() ==> trace_diag_matches(#[trigger] r@[i], entries@[i]),
{
    let mut r: Vec<WindowsResolveTraceDiagnostics> = Vec::new();
    let mut i: usize = 0;
    while i < entries.len()
        invariant
            i <= entries.len(),
            r@.len() == i,
            forall|k: int| 0 <= k < i ==> trace_diag_matches(#[trigger] r@[k], entries@[k]),
        decreases entries.len() - i,
    {
        r.push(resolve_trace_diagnostics(&entries[i]));
        i += 1;
    }
    r
}

fn selection_names(
    resolver: &MethodResolver,
    target: &ForegroundTarget,
    probes: &[MethodProbe],
    mode: CorrectionMode,
) -> (r: (Option<String>, Option<String>))
    requires
        resolver@ == spec_default_surface_policies(),
    ensures
        spec_selection_names(*target, probes@, mode, opt_name(r.0), opt_name(r.1)),
{
    let res = resolver.resolve_for_mode(target, probes, mode);
    let ghost g = res;
    match res {
        Ok(d) => {
            let c = d.context_method.as_str().to_owned();
            let rp = d.replacement_method.as_str().to_owned();
            proof {
                assert(g == Ok::<crate::resolver::ResolveDecision, crate::resolver::ResolveError>(d));
                assert(MethodResolver::spec_resolved(
                    spec_default_surface_policies(),
                    *target,
                    probes@,
                    mode,
                    Ok(d),
                ));
            }
            (Some(c), Some(rp))
        },
        Err(e) => {
            proof {
                assert(g == Err::<crate::resolver::ResolveDecision, crate::resolver::ResolveError>(e));
                assert(MethodResolver::spec_resolved(
                    spec_default_surface_policies(),
                    *target,
                    probes@,
                    mode,
                    Err(e),
                ));
            }
            (None, None)
        },
    }
}

/// `r` records the surface of `target` and its policy: kind, confidence,
/// evidence, web keyboard profile, whether risky methods may run, and the
/// preferred and forbidden methods.
pub open spec fn is_surface_diagnostics_of(r: WindowsSurfaceDiagnostics, target: ForegroundTarget) -> bool {
    let c = spec_classify_surface(target);
    let p = spec_surface_policy(c.kind);
    &&& r.kind@ == spec_kind_name(c.kind)
    &&& r.confidence == c.confidence
    &&& string_views(r.evidence@) == c.evidence
    &&& r.web_keyboard_profile@ == spec_profile_name(spec_web_keyboard_profile(c.kind))
    &&& r.allow_risky_methods == p.allow_risky_methods
    &&& string_views(r.pause_context_methods@) == method_names(p.pause_methods.context_methods)
    &&& string_views(r.pause_replace_methods@) == method_names(p.pause_methods.replace_methods)
    &&& string_views(r.scrolllock_context_methods@) == method_names(
        p.scrolllock_methods.context_methods,
    )
    &&& string_views(r.scrolllock_replace_methods@) == method_names(
        p.scrolllock_methods.replace_methods,
    )
    &&& string_views(r.forbidden_methods@) == method_names(p.forbidden_methods)
}

/// The surface record of a classified surface and its policy.
pub fn surface_diagnostics(target: &ForegroundTarget) -> (r: WindowsSurfaceDiagnostics)
    ensures
        is_surface_diagnostics_of(r, *target),
{
    let classification = classify_surface(target);
    let policy = surface_policy_for(classification.kind);
    let kind = classification.kind;
    WindowsSurfaceDiagnostics {
        kind: kind_name(kind).to_owned(),
        confidence: classification.confidence,
        evidence: classification.evidence,
        web_keyboard_profile: profile_name(web_keyboard_profile_for_surface(kind)).to_owned(),
        allow_risky_methods: policy.allow_risky_methods,
        pause_context_methods: method_name_strings(policy.pause_methods.context_methods.as_slice()),
        pause_replace_methods: method_name_strings(policy.pause_methods.replace_methods.as_slice()),
        scrolllock_context_methods: method_name_strings(
            policy.scrolllock_methods.context_methods.as_slice(),
        ),
        scrolllock_replace_methods: method_name_strings(
            policy.scrolllock_methods.replace_methods.as_slice(),
        ),
        forbidden_methods: method_name_strings(policy.forbidden_methods.as_slice()),
    }
}

/// The method diagnostics of `target`: its window ids and titles, its
/// surface and policy, the probe plan and the probes, what the resolver
/// chooses and explains for both hotkeys, and what became of the optional
/// context capture.
pub fn method_diagnostics(
    target: &ForegroundTarget,
    foreground: isize,
    focused: isize,
    focused_title: Option<String>,
    env: &ProbeEnvironment,
    diagnostic_unknown_probes: bool,
    uia_focus: Option<WindowsUiaFocusDiagnostics>,
    context: ContextDiagnostics,
) -> (r: WindowsMethodDiagnostics)
    ensures
        r.foreground.foreground_hwnd@ == spec_hwnd_id(foreground),
        r.foreground.focused_hwnd@ == spec_hwnd_id(focused),
        r.foreground.foreground_class@ == target.app_class@,
        r.foreground.focused_class@ == target.focused_class@,
        r.foreground.foreground_title@ == target.title@,
        r.foreground.focused_title@ == (match focused_title {
            Some(t) => t@,
            None => Seq::<char>::empty(),
        }),
        is_surface_diagnostics_of(r.surface, *target),
        r.uia_focus == uia_focus,
        ({
            let plan = spec_probe_policy(spec_classify_surface(*target).kind, diagnostic_unknown_probes);
            &&& string_views(r.probe_plan_methods@) == method_names(plan.probe_methods)
            &&& string_views(r.probe_plan_suppressed_methods@) == method_names(
                plan.suppressed_methods,
            )
            &&& r.probe_plan_fast == plan.fast_probe
        }),
        string_views(r.runtime_probe_methods@) == method_names(
            spec_runtime_probe_methods(*target, diagnostic_unknown_probes),
        ),
        exists|probes: Seq<MethodProbe>|
            {
                &&& probe_views(probes) == spec_probes_of(
                    spec_runtime_probe_methods(*target, diagnostic_unknown_probes),
                    *target,
                    *env,
                )
                &&& r.probes@.len() == probes.len()
                &&& (forall|i: int|
                    0 <= i < probes.len() ==> probe_diag_matches(#[trigger] r.probes@[i], probes[i]))
                &&& spec_selection_names(
                    *target,
                    probes,
                    CorrectionMode::Pause,
                    opt_name(r.selected_pause_context_method),
                    opt_name(r.selected_pause_replacement_method),
                )
                &&& spec_selection_names(
                    *target,
                    probes,
                    CorrectionMode::ScrollLock,
                    opt_name(r.selected_scrolllock_context_method),
                    opt_name(r.selected_scrolllock_replacement_method),
                )
                &&& exists|entries: Seq<ResolveTraceEntry>|
                    MethodResolver::spec_traced(
                        spec_default_surface_policies(),
                        *target,
                        probes,
                        CorrectionMode::Pause,
                        entries,
                    ) && r.pause_trace@.len() == entries.len() && forall|i: int|
                        0 <= i < entries.len() ==> trace_diag_matches(
                            #[trigger] r.pause_trace@[i],
                            entries[i],
                        )
                &&& exists|entries: Seq<ResolveTraceEntry>|
                    MethodResolver::spec_traced(
                        spec_default_surface_policies(),
                        *target,
                        probes,
                        CorrectionMode::ScrollLock,
                        entries,
                    ) && r.scrolllock_trace@.len() == entries.len() && forall|i: int|
                        0 <= i < entries.len() ==> trace_diag_matches(
                            #[trigger] r.scrolllock_trace@[i],
                            entries[i],
                        )
            },
        opt_name(r.selected_context_method) == opt_name(r.selected_pause_context_method),
        opt_name(r.selected_replacement_method) == opt_name(r.selected_pause_replacement_method),
        match context {
            ContextDiagnostics::Skipped => r.context_method is None && r.context_error is None
                && r.context_skipped,
            ContextDiagnostics::Captured(m) => opt_name(r.context_method) == (match m {
                Some(x) => Some(method_name(x)),
                None => None,
            }) && r.context_error is None && !r.context_skipped,
            ContextDiagnostics::Failed(e) => r.context_method is None && opt_name(r.context_error)
                == Some(e@) && !r.context_skipped,
        },
{
    let plan = probe_plan_for(target, diagnostic_unknown_probes);
    let runtime = windows_runtime_probe_methods(target, diagnostic_unknown_probes);
    let probes = windows_method_probes(target, env, diagnostic_unknown_probes);
    let resolver = MethodResolver::default();
    let (pause_context, pause_replacement) = selection_names(
        &resolver,
        target,
        probes.as_slice(),
        CorrectionMode::Pause,
    );
    let (scroll_context, scroll_replacement) = selection_names(
        &resolver,
        target,
        probes.as_slice(),
        CorrectionMode::ScrollLock,
    );
    let pause_entries = resolver.trace_for_mode(target, probes.as_slice(), CorrectionMode::Pause);
    let scroll_entries = resolver.trace_for_mode(
        target,
        probes.as_slice(),
        CorrectionMode::ScrollLock,
    );
    let (context_method, context_error, context_skipped) = match context {
        ContextDiagnostics::Skipped => (None, None, true),
        ContextDiagnostics::Captured(m) => (
            match m {
                Some(x) => Some(x.as_str().to_owned()),
                None => None,
            },
            None,
            false,
        ),
        ContextDiagnostics::Failed(e) => (None, Some(e), false),
    };
    let probe_diags = probe_diagnostics_list(probes.as_slice());
    let pause_trace = trace_diagnostics_list(pause_entries.as_slice());
    let scrolllock_trace = trace_diagnostics_list(scroll_entries.as_slice());
    let selected_context_method = match &pause_context {
        Some(s) => Some(s.clone()),
        None => None,
    };
    let selected_replacement_method = match &pause_replacement {
        Some(s) => Some(s.clone()),
        None => None,
    };
    let r = WindowsMethodDiagnostics {
        foreground: WindowsFocusDiagnostics {
            foreground_hwnd: hwnd_id(foreground),
            foreground_class: target.app_class.clone(),
            foreground_title: target.title.clone(),
            focused_hwnd: hwnd_id(focused),
            focused_class: target.focused_class.clone(),
            focused_title: or_empty(focused_title),
        },
        surface: surface_diagnostics(target),
        uia_focus,
        probe_plan_methods: method_name_strings(plan.probe_methods.as_slice()),
        runtime_probe_methods: method_name_strings(runtime.as_slice()),
        probe_plan_suppressed_methods: method_name_strings(plan.suppressed_methods.as_slice()),
        probe_plan_fast: plan.fast_probe,
        probes: probe_diags,
        pause_trace,
        scrolllock_trace,
        selected_context_method,
        selected_replacement_method,
        selected_pause_context_method: pause_context,
        selected_pause_replacement_method: pause_replacement,
        selected_scrolllock_context_method: scroll_context,
        selected_scrolllock_replacement_method: scroll_replacement,
        context_method,
        context_error,
        context_skipped,
    };
    proof {
        assert(probe_views(probes@) == spec_probes_of(
            spec_runtime_probe_methods(*target, diagnostic_unknown_probes),
            *target,
            *env,
        ));
    }
    r
}

} // verus!
