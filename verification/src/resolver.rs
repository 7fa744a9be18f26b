//! Choosing the capture/replacement method for a target from its probes
//! and the policy of its surface.
use vstd::prelude::*;
use crate::model::{method_name, CorrectionMode, MethodId};
use crate::platform::{contains_method, ForegroundTarget, MethodProbe, ProbeSafety};
use crate::surface::{
    classify_surface, default_surface_policies, default_surface_policy, kind_name,
    policy_views, spec_classify_surface, spec_default_surface_policies, spec_kind_name,
    spec_preferences_for, spec_surface_allows_risky_method, spec_surface_policy,
    surface_allows_risky_method, ClassificationView, MethodPreferences, SurfaceClassification,
    SurfaceKind, SurfacePolicy, SurfacePolicyView,
};
use crate::text::{concat, decimal, decimal_string, join, join_strings};

verus! {

/// The method chosen for a target.
#[derive(Debug, Clone, PartialEq, Eq)]
pub struct ResolveDecision {
    pub context_method: MethodId,
    pub replacement_method: MethodId,
    pub safety: ProbeSafety,
    pub reason: String,
    pub surface: SurfaceClassification,
}

/// What the resolver did with one probe.
#[derive(Debug, Clone, PartialEq, Eq)]
pub struct ResolveTraceEntry {
    pub method: MethodId,
    pub mode: CorrectionMode,
    pub safety: ProbeSafety,
    pub confidence: u8,
    pub preference_rank: usize,
    pub replacement_method: Option<MethodId>,
    pub outcome: ResolveTraceOutcome,
    pub reason: String,
}

/// The outcome for one probe.
#[derive(Debug, Clone, Copy, PartialEq, Eq, Structural)]
pub enum ResolveTraceOutcome {
    Accepted,
    ForbiddenByPolicy,
    RiskyMethodBlocked,
    UnsupportedProbe,
    ReplacementForbiddenByPolicy,
    SkippedAfterAccepted,
}

/// Why no method could be chosen.
#[derive(Debug, Clone, PartialEq, Eq, Structural)]
pub enum ResolveError {
    NoSupportedMethod,
    ForbiddenByPolicy(MethodId),
    RiskyMethodBlocked(MethodId),
}

/// Chooses methods under a table of surface policies.
#[derive(Debug, Clone)]
pub struct MethodResolver {
    policies: Vec<SurfacePolicy>,
}

impl View for MethodResolver {
    type V = Seq<SurfacePolicyView>;

    closed spec fn view(&self) -> Seq<SurfacePolicyView> {
        policy_views(self.policies@)
    }
}

// ---------------------------------------------------------------------
// Specification.
// ---------------------------------------------------------------------

/// `i` is the first position of `m` in `s`.
pub open spec fn is_first_position(s: Seq<MethodId>, m: MethodId, i: int) -> bool {
    0 <= i < s.len() && s[i] == m && forall|j: int| 0 <= j < i ==> s[j] != m
}

/// The preference rank of a method: its first position in the preference
/// list, or `usize::MAX` when the list does not name it.
pub open spec fn spec_rank(m: MethodId, prefs: Seq<MethodId>) -> int {
    if prefs.contains(m) {
        choose|i: int| is_first_position(prefs, m, i)
    } else {
        usize::MAX as int
    }
}

/// `i` is the first policy of the table for `kind`.
pub open spec fn is_first_policy(policies: Seq<SurfacePolicyView>, kind: SurfaceKind, i: int) -> bool {
    0 <= i < policies.len() && policies[i].surface == kind && forall|j: int|
        0 <= j < i ==> policies[j].surface != kind
}

/// The policy that governs `kind`: the first matching table entry, else
/// the conservative default policy.
pub open spec fn spec_policy_for(policies: Seq<SurfacePolicyView>, kind: SurfaceKind) -> SurfacePolicyView {
    if exists|i: int| 0 <= i < policies.len() && policies[i].surface == kind {
        policies[choose|i: int| is_first_policy(policies, kind, i)]
    } else {
        spec_surface_policy(SurfaceKind::Unknown)
    }
}

/// A risky probe that neither the policy nor the surface allows.
pub open spec fn spec_risky_blocked(p: MethodProbe, policy: SurfacePolicyView, kind: SurfaceKind) -> bool {
    p.safety == ProbeSafety::Risky && (!policy.allow_risky_methods
        || !spec_surface_allows_risky_method(kind, p.method_id))
}

/// A probe that the policy lets run.
pub open spec fn spec_viable(p: MethodProbe, policy: SurfacePolicyView, kind: SurfaceKind) -> bool {
    &&& p.safety != ProbeSafety::Unsupported
    &&& !policy.forbidden_methods.contains(p.method_id)
    &&& !spec_risky_blocked(p, policy, kind)
}

/// Probe `i` is tried before probe `j`: better preference rank, then higher
/// confidence, then earlier position.
pub open spec fn spec_precedes(probes: Seq<MethodProbe>, i: int, j: int, prefs: Seq<MethodId>) -> bool {
    let ri = spec_rank(probes[i].method_id, prefs);
    let rj = spec_rank(probes[j].method_id, prefs);
    ri < rj || (ri == rj && (probes[i].confidence > probes[j].confidence || (probes[i].confidence
        == probes[j].confidence && i < j)))
}

/// Probe `i` is viable and tried before every other viable probe.
pub open spec fn spec_is_best(
    probes: Seq<MethodProbe>,
    i: int,
    policy: SurfacePolicyView,
    kind: SurfaceKind,
    prefs: Seq<MethodId>,
) -> bool {
    &&& 0 <= i < probes.len()
    &&& spec_viable(probes[i], policy, kind)
    &&& forall|j: int|
        0 <= j < probes.len() && j != i && spec_viable(probes[j], policy, kind) ==> spec_precedes(
            probes,
            i,
            j,
            prefs,
        )
}

/// Some probe is viable.
pub open spec fn spec_any_viable(probes: Seq<MethodProbe>, policy: SurfacePolicyView, kind: SurfaceKind) -> bool {
    exists|i: int| 0 <= i < probes.len() && spec_viable(probes[i], policy, kind)
}

/// The reason text of a decision.
pub open spec fn spec_decision_reason(probe_reason: Seq<char>, c: ClassificationView) -> Seq<char> {
    probe_reason + " via surface "@ + spec_kind_name(c.kind) + " confidence="@ + decimal(
        c.confidence as nat,
    ) + " evidence="@ + join(c.evidence, "; "@)
}

/// `i` is the first probe whose method the policy forbids.
pub open spec fn is_first_forbidden(probes: Seq<MethodProbe>, policy: SurfacePolicyView, i: int) -> bool {
    0 <= i < probes.len() && policy.forbidden_methods.contains(probes[i].method_id) && forall|j: int|
        0 <= j < i ==> !policy.forbidden_methods.contains(probes[j].method_id)
}

/// `i` is the first risky probe.
pub open spec fn is_first_risky(probes: Seq<MethodProbe>, i: int) -> bool {
    0 <= i < probes.len() && probes[i].safety == ProbeSafety::Risky && forall|j: int|
        0 <= j < i ==> probes[j].safety != ProbeSafety::Risky
}

/// The error reported when no probe is viable: a forbidden method first,
/// then a blocked risky method, else "no supported method".
pub open spec fn spec_resolve_error(
    probes: Seq<MethodProbe>,
    policy: SurfacePolicyView,
    kind: SurfaceKind,
) -> ResolveError {
    if exists|i: int|
        0 <= i < probes.len() && probes[i].safety != ProbeSafety::Unsupported
            && policy.forbidden_methods.contains(probes[i].method_id) {
        ResolveError::ForbiddenByPolicy(
            probes[choose|i: int| is_first_forbidden(probes, policy, i)].method_id,
        )
    } else if exists|i: int|
        0 <= i < probes.len() && spec_risky_blocked(probes[i], policy, kind)
            && !policy.forbidden_methods.contains(probes[i].method_id) {
        ResolveError::RiskyMethodBlocked(
            probes[choose|i: int| is_first_risky(probes, i)].method_id,
        )
    } else {
        ResolveError::NoSupportedMethod
    }
}

/// `order` lists the probe positions in the order they are tried.
pub open spec fn spec_is_try_order(probes: Seq<MethodProbe>, prefs: Seq<MethodId>, order: Seq<usize>) -> bool {
    &&& order.len() == probes.len()
    &&& forall|k: int| 0 <= k < order.len() ==> (order[k] as int) < probes.len()
    &&& forall|a: int, b: int|
        0 <= a < b < order.len() ==> spec_precedes(probes, order[a] as int, order[b] as int, prefs)
    &&& forall|i: usize| (i as int) < probes.len() ==> #[trigger] order.contains(i)
}

/// The outcome the trace records for the probe tried at position `k`.
pub open spec fn spec_trace_outcome(
    probes: Seq<MethodProbe>,
    order: Seq<usize>,
    k: int,
    policy: SurfacePolicyView,
    c: ClassificationView,
) -> (ResolveTraceOutcome, Option<MethodId>, Seq<char>) {
    let p = probes[order[k] as int];
    let m = p.method_id;
    if p.safety == ProbeSafety::Unsupported {
        (ResolveTraceOutcome::UnsupportedProbe, None, p.reason@)
    } else if policy.forbidden_methods.contains(m) {
        (
            ResolveTraceOutcome::ForbiddenByPolicy,
            None,
            method_name(m) + " forbidden by "@ + spec_kind_name(policy.surface),
        )
    } else if spec_risky_blocked(p, policy, c.kind) {
        (
            ResolveTraceOutcome::RiskyMethodBlocked,
            None,
            method_name(m) + " risky blocked by "@ + spec_kind_name(policy.surface),
        )
    } else if exists|k2: int| 0 <= k2 < k && spec_viable(probes[order[k2] as int], policy, c.kind) {
        (
            ResolveTraceOutcome::SkippedAfterAccepted,
            Some(m),
            "viable candidate skipped after accepted candidate"@,
        )
    } else {
        (
            ResolveTraceOutcome::Accepted,
            Some(m),
            p.reason@ + " accepted via surface "@ + spec_kind_name(c.kind) + " confidence="@
                + decimal(c.confidence as nat) + " evidence="@ + join(c.evidence, "; "@),
        )
    }
}

/// Entry `e` records the probe tried at position `k`.
pub open spec fn spec_trace_entry(
    e: ResolveTraceEntry,
    probes: Seq<MethodProbe>,
    order: Seq<usize>,
    k: int,
    policy: SurfacePolicyView,
    c: ClassificationView,
    prefs: Seq<MethodId>,
    mode: CorrectionMode,
) -> bool {
    let p = probes[order[k] as int];
    let v = spec_trace_outcome(probes, order, k, policy, c);
    &&& e.method == p.method_id
    &&& e.mode == mode
    &&& e.safety == p.safety
    &&& e.confidence == p.confidence
    &&& e.preference_rank as int == spec_rank(p.method_id, prefs)
    &&& e.outcome == v.0
    &&& e.replacement_method == v.1
    &&& e.reason@ == v.2
}

// ---------------------------------------------------------------------
// Implementation.
// ---------------------------------------------------------------------

/// The preference rank of `method`: its first position in
/// `preferred_methods`, or `usize::MAX` when absent.
pub fn method_preference_rank(method: MethodId, preferred_methods: &[MethodId]) -> (r: usize)
    ensures
        r as int == spec_rank(method, preferred_methods@),
{
    let mut i: usize = 0;
    while i < preferred_methods.len()
        invariant
            i <= preferred_methods.len(),
            forall|j: int| 0 <= j < i ==> preferred_methods@[j] != method,
        decreases preferred_methods.len() - i,
    {
        if preferred_methods[i] == method {
            proof {
                let s = preferred_methods@;
                assert(is_first_position(s, method, i as int));
                assert(s.contains(method));
                let c = choose|c: int| is_first_position(s, method, c);
                assert(is_first_position(s, method, c));
                if c < i {
                    assert(s[c] != method);
                } else if c > i {
                    assert(s[i as int] != method);
                }
            }
            return i;
        }
        i += 1;
    }
    proof {
        let s = preferred_methods@;
        assert(!s.contains(method));
    }
    usize::MAX
}

/// A copy of a surface policy.
fn clone_policy(p: &SurfacePolicy) -> (r: SurfacePolicy)
    ensures
        r@ == p@,
{
    SurfacePolicy {
        surface: p.surface,
        pause_methods: MethodPreferences {
            context_methods: p.pause_methods.context_methods.clone(),
            replace_methods: p.pause_methods.replace_methods.clone(),
        },
        scrolllock_methods: MethodPreferences {
            context_methods: p.scrolllock_methods.context_methods.clone(),
            replace_methods: p.scrolllock_methods.replace_methods.clone(),
        },
        forbidden_methods: p.forbidden_methods.clone(),
        allow_risky_methods: p.allow_risky_methods,
    }
}

/// The probe may run under the policy.
fn probe_is_viable(p: &MethodProbe, policy: &SurfacePolicy, kind: SurfaceKind) -> (r: bool)
    ensures
        r == spec_viable(*p, policy@, kind),
{
    p.safety != ProbeSafety::Unsupported && !contains_method(&policy.forbidden_methods, p.method_id)
        && !(p.safety == ProbeSafety::Risky && (!policy.allow_risky_methods
        || !surface_allows_risky_method(kind, p.method_id)))
}

/// Position `i` is tried before position `j`.
fn precedes(probes: &[MethodProbe], ranks: &Vec<usize>, i: usize, j: usize, Ghost(prefs): Ghost<Seq<MethodId>>) -> (r: bool)
    requires
        i < probes.len(),
        j < probes.len(),
        ranks@.len() == probes.len(),
        forall|k: int| 0 <= k < probes.len() ==> ranks@[k] as int == spec_rank(probes@[k].method_id, prefs),
    ensures
        r == spec_precedes(probes@, i as int, j as int, prefs),
{
    ranks[i] < ranks[j] || (ranks[i] == ranks[j] && (probes[i].confidence > probes[j].confidence
        || (probes[i].confidence == probes[j].confidence && i < j)))
}

/// The text of a decision's reason.
fn decision_reason(probe_reason: &str, classification: &SurfaceClassification) -> (r: String)
    ensures
        r@ == spec_decision_reason(probe_reason@, classification@),
{
    let a = concat(probe_reason, " via surface ");
    let b = concat(a.as_str(), kind_name(classification.kind));
    let c = concat(b.as_str(), " confidence=");
    let d = concat(c.as_str(), decimal_string(classification.confidence as u64).as_str());
    let e = concat(d.as_str(), " evidence=");
    concat(e.as_str(), join_strings(&classification.evidence, "; ").as_str())
}

impl MethodResolver {
    /// A resolver over the given policy table.
    pub fn new(policies: Vec<SurfacePolicy>) -> (r: MethodResolver)
        ensures
            r@ == policy_views(policies@),
    {
        MethodResolver { policies }
    }

    /// The policy governing a classification.
    fn policy_for(&self, classification: &SurfaceClassification) -> (r: SurfacePolicy)
        ensures
            r@ == spec_policy_for(self@, classification.kind),
    {
        let kind = classification.kind;
        let ghost views = self@;
        let mut i: usize = 0;
        while i < self.policies.len()
            invariant
                i <= self.policies.len(),
                views == self@,
                kind == classification.kind,
                views.len() == self.policies@.len(),
                forall|j: int| 0 <= j < i ==> views[j].surface != kind,
            decreases self.policies.len() - i,
        {
            if self.policies[i].surface == kind {
                proof {
                    assert(views[i as int] == self.policies@[i as int]@);
                    assert(0 <= i < views.len() && views[i as int].surface == kind);
                    assert(is_first_policy(views, kind, i as int));
                    let c = choose|c: int| is_first_policy(views, kind, c);
                    assert(is_first_policy(views, kind, c));
                    if c < i {
                        assert(views[c].surface != kind);
                    } else if c > i {
                        assert(views[i as int].surface != kind);
                    }
                    assert(c == i);
                    assert(spec_policy_for(views, kind) == views[i as int]);
                }
                let r = clone_policy(&self.policies[i]);
                assert(r@ == views[i as int]);
                return r;
            }
            proof {
                assert(views[i as int] == self.policies@[i as int]@);
            }
            i += 1;
        }
        default_surface_policy()
    }

    /// `resolve_for_mode` for the `Pause` hotkey.
    pub fn resolve(&self, target: &ForegroundTarget, probes: &[MethodProbe]) -> (r: Result<
        ResolveDecision,
        ResolveError,
    >)
        ensures
            Self::spec_resolved(self@, *target, probes@, CorrectionMode::Pause, r),
    {
        self.resolve_for_mode(target, probes, CorrectionMode::Pause)
    }

    /// What `resolve_for_mode` returns: the viable probe tried first, or
    /// the error that explains why none is viable.
    pub open spec fn spec_resolved(
        policies: Seq<SurfacePolicyView>,
        target: ForegroundTarget,
        probes: Seq<MethodProbe>,
        mode: CorrectionMode,
        r: Result<ResolveDecision, ResolveError>,
    ) -> bool {
        let c = spec_classify_surface(target);
        let policy = spec_policy_for(policies, c.kind);
        let prefs = spec_preferences_for(policy, mode).context_methods;
        match r {
            Ok(d) => exists|i: int|
                #![trigger probes[i]]
                spec_is_best(probes, i, policy, c.kind, prefs) && d.context_method
                    == probes[i].method_id && d.replacement_method == probes[i].method_id
                    && d.safety == probes[i].safety && d.surface@ == c && d.reason@
                    == spec_decision_reason(probes[i].reason@, c),
            Err(e) => !spec_any_viable(probes, policy, c.kind) && e == spec_resolve_error(
                probes,
                policy,
                c.kind,
            ),
        }
    }

    /// Chooses the method for `target` among `probes` under the policy of
    /// its surface and the preferences of `mode`.
    pub fn resolve_for_mode(
        &self,
        target: &ForegroundTarget,
        probes: &[MethodProbe],
        mode: CorrectionMode,
    ) -> (r: Result<ResolveDecision, ResolveError>)
        ensures
            Self::spec_resolved(self@, *target, probes@, mode, r),
    {
        let classification = classify_surface(target);
        let policy = self.policy_for(&classification);
        let kind = classification.kind;
        let preferences = policy.preferences_for(mode);
        let ghost prefs = preferences.context_methods@;
        let ghost ps = probes@;
        let mut ranks: Vec<usize> = Vec::new();
        let mut i: usize = 0;
        while i < probes.len()
            invariant
                i <= probes.len(),
                ranks@.len() == i,
                prefs == preferences.context_methods@,
                forall|k: int| 0 <= k < i ==> ranks@[k] as int == spec_rank(probes@[k].method_id, prefs),
            decreases probes.len() - i,
        {
            ranks.push(method_preference_rank(probes[i].method_id, &preferences.context_methods));
            i += 1;
        }
        let mut best: Option<usize> = None;
        let mut i: usize = 0;
        while i < probes.len()
            invariant
                i <= probes.len(),
                ps == probes@,
                prefs == preferences.context_methods@,
                ranks@.len() == probes.len(),
                forall|k: int| 0 <= k < probes.len() ==> ranks@[k] as int == spec_rank(probes@[k].method_id, prefs),
                best is None ==> forall|j: int| 0 <= j < i ==> !spec_viable(ps[j], policy@, kind),
                best matches Some(b) ==> b < i && spec_viable(ps[b as int], policy@, kind)
                    && forall|j: int|
                    0 <= j < i && j != b && spec_viable(ps[j], policy@, kind) ==> spec_precedes(
                        ps,
                        b as int,
                        j,
                        prefs,
                    ),
            decreases probes.len() - i,
        {
            if probe_is_viable(&probes[i], &policy, kind) {
                match best {
                    None => {
                        best = Some(i);
                    },
                    Some(b) => {
                        if precedes(probes, &ranks, i, b, Ghost(prefs)) {
                            proof {
                                assert forall|j: int|
                                    0 <= j < i + 1 && j != i && spec_viable(
                                        ps[j],
                                        policy@,
                                        kind,
                                    ) implies spec_precedes(ps, i as int, j, prefs) by {
                                    if j != b {
                                        assert(spec_precedes(ps, b as int, j, prefs));
                                    }
                                }
                            }
                            best = Some(i);
                        } else {
                            proof {
                                assert(spec_precedes(ps, b as int, i as int, prefs));
                            }
                        }
                    },
                }
            }
            i += 1;
        }
        match best {
            Some(b) => {
                let probe = &probes[b];
                let reason = decision_reason(probe.reason.as_str(), &classification);
                let mut replacement_method = probe.method_id;
                let replace_methods = &preferences.replace_methods;
                let mut k: usize = 0;
                while k < replace_methods.len()
                    invariant
                        k <= replace_methods.len(),
                        replacement_method == probe.method_id,
                    decreases replace_methods.len() - k,
                {
                    if replace_methods[k] == probe.method_id {
                        replacement_method = replace_methods[k];
                        break;
                    }
                    k += 1;
                }
                proof {
                    assert(spec_is_best(ps, b as int, policy@, kind, prefs));
                }
                Ok(
                    ResolveDecision {
                        context_method: probe.method_id,
                        replacement_method,
                        safety: probe.safety,
                        reason,
                        surface: classification,
                    },
                )
            },
            None => Err(Self::resolve_error(probes, &policy, kind)),
        }
    }

    /// What `trace_for_mode` returns: one entry per probe, in the order
    /// the probes are tried, each with the outcome the policy gives it.
    pub open spec fn spec_traced(
        policies: Seq<SurfacePolicyView>,
        target: ForegroundTarget,
        probes: Seq<MethodProbe>,
        mode: CorrectionMode,
        entries: Seq<ResolveTraceEntry>,
    ) -> bool {
        let c = spec_classify_surface(target);
        let policy = spec_policy_for(policies, c.kind);
        let prefs = spec_preferences_for(policy, mode).context_methods;
        exists|order: Seq<usize>|
            #![trigger spec_is_try_order(probes, prefs, order)]
            spec_is_try_order(probes, prefs, order) && entries.len() == probes.len() && forall|k: int|
                0 <= k < entries.len() ==> spec_trace_entry(
                    #[trigger] entries[k],
                    probes,
                    order,
                    k,
                    policy,
                    c,
                    prefs,
                    mode,
                )
    }

    /// Explains, probe by probe, what `resolve_for_mode` decides.
    pub fn trace_for_mode(
        &self,
        target: &ForegroundTarget,
        probes: &[MethodProbe],
        mode: CorrectionMode,
    ) -> (r: Vec<ResolveTraceEntry>)
        ensures
            Self::spec_traced(self@, *target, probes@, mode, r@),
    {
        let classification = classify_surface(target);
        let policy = self.policy_for(&classification);
        let kind = classification.kind;
        let preferences = policy.preferences_for(mode);
        let ghost prefs = preferences.context_methods@;
        let ghost ps = probes@;
        let ghost c = classification@;
        let mut ranks: Vec<usize> = Vec::new();
        let mut i: usize = 0;
        while i < probes.len()
            invariant
                i <= probes.len(),
                ranks@.len() == i,
                prefs == preferences.context_methods@,
                forall|k: int| 0 <= k < i ==> ranks@[k] as int == spec_rank(probes@[k].method_id, prefs),
            decreases probes.len() - i,
        {
            ranks.push(method_preference_rank(probes[i].method_id, &preferences.context_methods));
            i += 1;
        }
        let order = try_order(probes, &ranks, Ghost(prefs));
        let mut entries: Vec<ResolveTraceEntry> = Vec::new();
        let mut accepted = false;
        let mut k: usize = 0;
        while k < order.len()
            invariant
                k <= order@.len(),
                ps == probes@,
                c == classification@,
                kind == classification.kind,
                prefs == preferences.context_methods@,
                spec_is_try_order(ps, prefs, order@),
                ranks@.len() == probes.len(),
                forall|q: int| 0 <= q < probes.len() ==> ranks@[q] as int == spec_rank(probes@[q].method_id, prefs),
                entries@.len() == k,
                accepted == exists|k2: int| 0 <= k2 < k && spec_viable(ps[order@[k2] as int], policy@, c.kind),
                forall|q: int|
                    0 <= q < k ==> spec_trace_entry(
                        #[trigger] entries@[q],
                        ps,
                        order@,
                        q,
                        policy@,
                        c,
                        prefs,
                        mode,
                    ),
            decreases order@.len() - k,
        {
            let idx = order[k];
            let probe = &probes[idx];
            let method = probe.method_id;
            let forbidden = contains_method(&policy.forbidden_methods, method);
            let risky_blocked = probe.safety == ProbeSafety::Risky && (!policy.allow_risky_methods
                || !surface_allows_risky_method(kind, method));
            let mut replacement_method = method;
            let mut m: usize = 0;
            while m < preferences.replace_methods.len()
                invariant
                    m <= preferences.replace_methods.len(),
                    replacement_method == method,
                decreases preferences.replace_methods.len() - m,
            {
                if preferences.replace_methods[m] == method {
                    replacement_method = preferences.replace_methods[m];
                    break;
                }
                m += 1;
            }
            let (outcome, replacement, reason) = if probe.safety == ProbeSafety::Unsupported {
                (ResolveTraceOutcome::UnsupportedProbe, None, probe.reason.clone())
            } else if forbidden {
                let a = concat(method.as_str(), " forbidden by ");
                (ResolveTraceOutcome::ForbiddenByPolicy, None, concat(a.as_str(), kind_name(policy.surface)))
            } else if risky_blocked {
                let a = concat(method.as_str(), " risky blocked by ");
                (ResolveTraceOutcome::RiskyMethodBlocked, None, concat(a.as_str(), kind_name(policy.surface)))
            } else if contains_method(&policy.forbidden_methods, replacement_method) {
                let a = concat("replacement ", replacement_method.as_str());
                let b = concat(a.as_str(), " forbidden by ");
                (
                    ResolveTraceOutcome::ReplacementForbiddenByPolicy,
                    Some(replacement_method),
                    concat(b.as_str(), kind_name(policy.surface)),
                )
            } else if accepted {
                (
                    ResolveTraceOutcome::SkippedAfterAccepted,
                    Some(replacement_method),
                    "viable candidate skipped after accepted candidate".to_owned(),
                )
            } else {
                accepted = true;
                let a = concat(probe.reason.as_str(), " accepted via surface ");
                let b = concat(a.as_str(), kind_name(kind));
                let cc = concat(b.as_str(), " confidence=");
                let d = concat(cc.as_str(), decimal_string(classification.confidence as u64).as_str());
                let e = concat(d.as_str(), " evidence=");
                (
                    ResolveTraceOutcome::Accepted,
                    Some(replacement_method),
                    concat(e.as_str(), join_strings(&classification.evidence, "; ").as_str()),
                )
            };
            let entry = ResolveTraceEntry {
                method,
                mode,
                safety: probe.safety,
                confidence: probe.confidence,
                preference_rank: ranks[idx],
                replacement_method: replacement,
                outcome,
                reason,
            };
            proof {
                assert(spec_trace_entry(entry, ps, order@, k as int, policy@, c, prefs, mode));
            }
            entries.push(entry);
            proof {
                assert(entries@[k as int] == entry);
            }
            k += 1;
        }
        proof {
            let cs = spec_classify_surface(*target);
            let pol = spec_policy_for(self@, cs.kind);
            assert(cs == c);
            assert(pol == policy@);
            assert(spec_preferences_for(pol, mode).context_methods == prefs);
            assert(spec_is_try_order(ps, prefs, order@));
            assert(forall|q: int|
                0 <= q < entries@.len() ==> spec_trace_entry(
                    #[trigger] entries@[q],
                    ps,
                    order@,
                    q,
                    pol,
                    cs,
                    prefs,
                    mode,
                ));
        }
        entries
    }

    /// The error for a probe list with no viable probe.
    fn resolve_error(probes: &[MethodProbe], policy: &SurfacePolicy, kind: SurfaceKind) -> (r:
        ResolveError)
        ensures
            r == spec_resolve_error(probes@, policy@, kind),
    {
        let ghost ps = probes@;
        let ghost pv = policy@;
        let mut any_forbidden = false;
        let mut any_risky = false;
        let mut i: usize = 0;
        while i < probes.len()
            invariant
                i <= probes.len(),
                pv == policy@,
                ps == probes@,
                any_forbidden == exists|j: int|
                    0 <= j < i && ps[j].safety != ProbeSafety::Unsupported
                        && pv.forbidden_methods.contains(ps[j].method_id),
                any_risky == exists|j: int|
                    0 <= j < i && spec_risky_blocked(ps[j], pv, kind)
                        && !pv.forbidden_methods.contains(ps[j].method_id),
            decreases probes.len() - i,
        {
            let p = &probes[i];
            let forbidden = contains_method(&policy.forbidden_methods, p.method_id);
            if p.safety != ProbeSafety::Unsupported && forbidden {
                any_forbidden = true;
            }
            if p.safety == ProbeSafety::Risky && (!policy.allow_risky_methods
                || !surface_allows_risky_method(kind, p.method_id)) && !forbidden {
                any_risky = true;
            }
            i += 1;
        }
        if any_forbidden {
            let mut i: usize = 0;
            while i < probes.len()
                invariant
                    i <= probes.len(),
                    pv == policy@,
                    ps == probes@,
                    exists|j: int|
                        0 <= j < probes.len() && ps[j].safety != ProbeSafety::Unsupported
                            && pv.forbidden_methods.contains(ps[j].method_id),
                    forall|j: int| 0 <= j < i ==> !pv.forbidden_methods.contains(ps[j].method_id),
                decreases probes.len() - i,
            {
                if contains_method(&policy.forbidden_methods, probes[i].method_id) {
                    proof {
                        assert(is_first_forbidden(ps, pv, i as int));
                        let c = choose|c: int| is_first_forbidden(ps, pv, c);
                        assert(is_first_forbidden(ps, pv, c));
                        if c < i {
                            assert(!pv.forbidden_methods.contains(ps[c].method_id));
                        } else if c > i {
                            assert(!pv.forbidden_methods.contains(ps[i as int].method_id));
                        }
                    }
                    return ResolveError::ForbiddenByPolicy(probes[i].method_id);
                }
                i += 1;
            }
            proof {
                assert(false);
            }
            return ResolveError::NoSupportedMethod;
        }
        if any_risky {
            let mut i: usize = 0;
            while i < probes.len()
                invariant
                    i <= probes.len(),
                    ps == probes@,
                    pv == policy@,
                    !(exists|j: int|
                        0 <= j < probes.len() && ps[j].safety != ProbeSafety::Unsupported
                            && pv.forbidden_methods.contains(ps[j].method_id)),
                    exists|j: int|
                        0 <= j < probes.len() && spec_risky_blocked(ps[j], pv, kind)
                            && !pv.forbidden_methods.contains(ps[j].method_id),
                    forall|j: int| 0 <= j < i ==> ps[j].safety != ProbeSafety::Risky,
                decreases probes.len() - i,
            {
                if probes[i].safety == ProbeSafety::Risky {
                    proof {
                        assert(is_first_risky(ps, i as int));
                        let c = choose|c: int| is_first_risky(ps, c);
                        assert(is_first_risky(ps, c));
                        if c < i {
                            assert(ps[c].safety != ProbeSafety::Risky);
                        } else if c > i {
                            assert(ps[i as int].safety != ProbeSafety::Risky);
                        }
                    }
                    return ResolveError::RiskyMethodBlocked(probes[i].method_id);
                }
                i += 1;
            }
            proof {
                assert(false);
            }
            return ResolveError::NoSupportedMethod;
        }
        ResolveError::NoSupportedMethod
    }
}

/// The probe positions sorted by `spec_precedes` (a stable sort by
/// preference rank, then by descending confidence).
fn try_order(probes: &[MethodProbe], ranks: &Vec<usize>, Ghost(prefs): Ghost<Seq<MethodId>>) -> (order: Vec<usize>)
    requires
        ranks@.len() == probes.len(),
        forall|k: int| 0 <= k < probes.len() ==> ranks@[k] as int == spec_rank(probes@[k].method_id, prefs),
    ensures
        spec_is_try_order(probes@, prefs, order@),
{
    let ghost ps = probes@;
    let mut order: Vec<usize> = Vec::new();
    let mut i: usize = 0;
    while i < probes.len()
        invariant
            i <= probes.len(),
            ps == probes@,
            ranks@.len() == probes.len(),
            forall|k: int| 0 <= k < probes.len() ==> ranks@[k] as int == spec_rank(probes@[k].method_id, prefs),
            order@.len() == i,
            forall|k: int| 0 <= k < order@.len() ==> (order@[k] as int) < i,
            forall|a: int, b: int|
                0 <= a < b < order@.len() ==> spec_precedes(ps, order@[a] as int, order@[b] as int, prefs),
            forall|j: usize| j < i ==> #[trigger] order@.contains(j),
        decreases probes.len() - i,
    {
        let mut pos: usize = 0;
        while pos < order.len() && !precedes(probes, ranks, i, order[pos], Ghost(prefs))
            invariant
                pos <= order@.len(),
                i < probes.len(),
                ps == probes@,
                ranks@.len() == probes.len(),
                forall|k: int| 0 <= k < probes.len() ==> ranks@[k] as int == spec_rank(probes@[k].method_id, prefs),
                forall|k: int| 0 <= k < order@.len() ==> (order@[k] as int) < i,
                forall|q: int| 0 <= q < pos ==> !spec_precedes(ps, i as int, order@[q] as int, prefs),
            decreases order@.len() - pos,
        {
            pos += 1;
        }
        let ghost old_order = order@;
        order.insert(pos, i);
        proof {
            assert(order@ == old_order.insert(pos as int, i));
            assert forall|a: int, b: int|
                0 <= a < b < order@.len() implies spec_precedes(
                ps,
                order@[a] as int,
                order@[b] as int,
                prefs,
            ) by {
                if b < pos {
                    assert(order@[a] == old_order[a] && order@[b] == old_order[b]);
                } else if a > pos {
                    assert(order@[a] == old_order[a - 1] && order@[b] == old_order[b - 1]);
                } else if a < pos && b == pos {
                    assert(order@[a] == old_order[a]);
                    assert(!spec_precedes(ps, i as int, old_order[a] as int, prefs));
                } else if a < pos && b > pos {
                    assert(order@[a] == old_order[a] && order@[b] == old_order[b - 1]);
                } else {
                    assert(a == pos);
                    assert(order@[b] == old_order[b - 1]);
                    assert(spec_precedes(ps, i as int, old_order[pos as int] as int, prefs));
                    if b - 1 > pos {
                        assert(spec_precedes(
                            ps,
                            old_order[pos as int] as int,
                            old_order[b - 1] as int,
                            prefs,
                        ));
                    }
                }
            }
            assert forall|j: usize| j < i + 1 implies #[trigger] order@.contains(j) by {
                if j == i {
                    assert(order@[pos as int] == i);
                } else {
                    assert(old_order.contains(j));
                    let q = choose|q: int| 0 <= q < old_order.len() && old_order[q] == j;
                    if q < pos {
                        assert(order@[q] == j);
                    } else {
                        assert(order@[q + 1] == j);
                    }
                }
            }
        }
        i += 1;
    }
    order
}

impl Default for MethodResolver {
    /// A resolver over the built-in surface policy table.
    fn default() -> (r: MethodResolver)
        ensures
            r@ == spec_default_surface_policies(),
    {
        MethodResolver::new(default_surface_policies())
    }
}


/// Every surface has its own entry in the default policy table.
pub proof fn lemma_default_policy_for(kind: SurfaceKind)
    ensures
        spec_policy_for(spec_default_surface_policies(), kind) == spec_surface_policy(kind),
{
    let order = crate::surface::spec_policy_order();
    let table = spec_default_surface_policies();
    assert(table.len() == order.len());
    let k: int = match kind {
        SurfaceKind::Win32Edit => 0,
        SurfaceKind::NotepadLike => 1,
        SurfaceKind::ClassicConsole => 2,
        SurfaceKind::WindowsTerminalCmd => 3,
        SurfaceKind::QwenTerminal => 4,
        SurfaceKind::WindowsTerminalPowerShell => 5,
        SurfaceKind::BrowserEditor => 6,
        SurfaceKind::FastBrowserEditor => 7,
        SurfaceKind::RocketChatEditor => 8,
        SurfaceKind::YandexBrowserEditor => 9,
        SurfaceKind::TelegramDesktop => 10,
        SurfaceKind::StickyNotes => 11,
        SurfaceKind::OutlookSearch => 12,
        SurfaceKind::OutlookWordEditor => 13,
        SurfaceKind::OutlookShell => 14,
        SurfaceKind::WordEditor => 15,
        SurfaceKind::ExcelCellEditor => 16,
        SurfaceKind::Unknown => 17,
    };
    assert(order[k] == kind);
    assert(table[k] == spec_surface_policy(order[k]));
    assert(table[k].surface == kind);
    lemma_first_match(table, kind, k);
    let f = choose|f: int|
        0 <= f <= k && table[f].surface == kind && forall|j: int| 0 <= j < f ==> table[j].surface != kind;
    assert(is_first_policy(table, kind, f));
    let c = choose|c: int| is_first_policy(table, kind, c);
    assert(is_first_policy(table, kind, c));
    assert(table[c] == spec_surface_policy(order[c]));
    assert(table[c].surface == order[c]);
}

proof fn lemma_first_match(table: Seq<SurfacePolicyView>, kind: SurfaceKind, k: int)
    requires
        0 <= k < table.len(),
        table[k].surface == kind,
    ensures
        exists|f: int|
            0 <= f <= k && table[f].surface == kind && forall|j: int| 0 <= j < f ==> table[j].surface != kind,
    decreases k,
{
    if exists|j: int| 0 <= j < k && table[j].surface == kind {
        let j = choose|j: int| 0 <= j < k && table[j].surface == kind;
        lemma_first_match(table, kind, j);
    } else {
        assert(forall|j: int| 0 <= j < k ==> table[j].surface != kind);
    }
}

/// The resolver never chooses an unsupported probe, a method the surface's
/// policy forbids, or a risky method unless the policy and the surface both
/// allow it.
pub proof fn law_resolved_method_is_allowed(
    policies: Seq<SurfacePolicyView>,
    target: ForegroundTarget,
    probes: Seq<MethodProbe>,
    mode: CorrectionMode,
    r: Result<ResolveDecision, ResolveError>,
)
    requires
        MethodResolver::spec_resolved(policies, target, probes, mode, r),
    ensures
        r matches Ok(d) ==> ({
            let kind = spec_classify_surface(target).kind;
            let policy = spec_policy_for(policies, kind);
            &&& d.safety != ProbeSafety::Unsupported
            &&& !policy.forbidden_methods.contains(d.context_method)
            &&& d.safety == ProbeSafety::Risky ==> policy.allow_risky_methods
                && spec_surface_allows_risky_method(kind, d.context_method)
        }),
{
    if let Ok(d) = r {
        let c = spec_classify_surface(target);
        let policy = spec_policy_for(policies, c.kind);
        let prefs = spec_preferences_for(policy, mode).context_methods;
        let i = choose|i: int| #![trigger probes[i]]
            spec_is_best(probes, i, policy, c.kind, prefs) && d.context_method == probes[i].method_id
                && d.replacement_method == probes[i].method_id && d.safety == probes[i].safety
                && d.surface@ == c && d.reason@ == spec_decision_reason(probes[i].reason@, c);
        assert(spec_viable(probes[i], policy, c.kind));
    }
}

/// Under the default policies a risky method is chosen only for the
/// terminal clipboard shortcut of cmd inside Windows Terminal; no other
/// surface, an unknown one least of all, gets a risky method.
pub proof fn law_default_policies_keep_risky_methods_off(
    target: ForegroundTarget,
    probes: Seq<MethodProbe>,
    mode: CorrectionMode,
    r: Result<ResolveDecision, ResolveError>,
)
    requires
        MethodResolver::spec_resolved(spec_default_surface_policies(), target, probes, mode, r),
    ensures
        r matches Ok(d) ==> (d.safety == ProbeSafety::Risky ==> spec_classify_surface(target).kind
            == SurfaceKind::WindowsTerminalCmd && d.context_method == MethodId::TerminalClipboardShortcut),
{
    law_resolved_method_is_allowed(spec_default_surface_policies(), target, probes, mode, r);
    lemma_default_policy_for(spec_classify_surface(target).kind);
}

/// Of the positions of a try order at or before `k` that hold a viable
/// probe, the first.
proof fn lemma_first_viable(
    probes: Seq<MethodProbe>,
    order: Seq<usize>,
    policy: SurfacePolicyView,
    kind: SurfaceKind,
    k: int,
) -> (k0: int)
    requires
        0 <= k < order.len(),
        forall|j: int| 0 <= j < order.len() ==> (order[j] as int) < probes.len(),
        spec_viable(probes[order[k] as int], policy, kind),
    ensures
        0 <= k0 <= k,
        spec_viable(probes[order[k0] as int], policy, kind),
        forall|j: int| 0 <= j < k0 ==> !spec_viable(#[trigger] probes[order[j] as int], policy, kind),
    decreases k,
{
    if exists|j: int| 0 <= j < k && spec_viable(#[trigger] probes[order[j] as int], policy, kind) {
        let j = choose|j: int| 0 <= j < k && spec_viable(#[trigger] probes[order[j] as int], policy, kind);
        lemma_first_viable(probes, order, policy, kind, j)
    } else {
        k
    }
}

/// The trace and the decision agree: the trace has one entry per probe, in
/// the order of preference rank and then of falling confidence, each of
/// the hotkey's mode; an entry is an unsupported probe exactly when its
/// probe is unsupported; at most one entry is accepted, one is exactly
/// when a method is chosen, and that entry names the chosen method, which
/// also replaces the text. (The probes are those of a slice, so their
/// count fits in `usize`.)
pub proof fn law_trace_agrees_with_resolve(
    policies: Seq<SurfacePolicyView>,
    target: ForegroundTarget,
    probes: Seq<MethodProbe>,
    mode: CorrectionMode,
    entries: Seq<ResolveTraceEntry>,
    r: Result<ResolveDecision, ResolveError>,
)
    requires
        MethodResolver::spec_traced(policies, target, probes, mode, entries),
        MethodResolver::spec_resolved(policies, target, probes, mode, r),
        probes.len() <= usize::MAX,
    ensures
        entries.len() == probes.len(),
        forall|k: int| 0 <= k < entries.len() ==> (#[trigger] entries[k]).mode == mode,
        forall|k: int|
            0 <= k < entries.len() ==> ((#[trigger] entries[k]).outcome
                == ResolveTraceOutcome::UnsupportedProbe) == (entries[k].safety
                == ProbeSafety::Unsupported),
        forall|a: int, b: int|
            0 <= a < b < entries.len() ==> (#[trigger] entries[a]).preference_rank
                <= (#[trigger] entries[b]).preference_rank && (entries[a].preference_rank
                == entries[b].preference_rank ==> entries[a].confidence >= entries[b].confidence),
        forall|a: int, b: int|
            0 <= a < entries.len() && 0 <= b < entries.len() && (#[trigger] entries[a]).outcome
                == ResolveTraceOutcome::Accepted && (#[trigger] entries[b]).outcome
                == ResolveTraceOutcome::Accepted ==> a == b,
        (exists|k: int| 0 <= k < entries.len() && (#[trigger] entries[k]).outcome
            == ResolveTraceOutcome::Accepted) == (r is Ok),
        forall|k: int|
            0 <= k < entries.len() && (#[trigger] entries[k]).outcome == ResolveTraceOutcome::Accepted
                ==> (r matches Ok(d) && d.context_method == entries[k].method
                && entries[k].replacement_method == Some(entries[k].method)),
{
    let c = spec_classify_surface(target);
    let policy = spec_policy_for(policies, c.kind);
    let prefs = spec_preferences_for(policy, mode).context_methods;
    let order = choose|order: Seq<usize>|
        #![trigger spec_is_try_order(probes, prefs, order)]
        spec_is_try_order(probes, prefs, order) && entries.len() == probes.len() && forall|k: int|
            0 <= k < entries.len() ==> spec_trace_entry(
                #[trigger] entries[k],
                probes,
                order,
                k,
                policy,
                c,
                prefs,
                mode,
            );
    assert forall|k: int| 0 <= k < entries.len() && (#[trigger] entries[k]).outcome
        == ResolveTraceOutcome::Accepted implies spec_viable(probes[order[k] as int], policy, c.kind)
        && forall|j: int| 0 <= j < k ==> !spec_viable(#[trigger] probes[order[j] as int], policy, c.kind) by {
        assert(spec_trace_entry(entries[k], probes, order, k, policy, c, prefs, mode));
    }
    assert forall|a: int, b: int|
        0 <= a < b < entries.len() implies (#[trigger] entries[a]).preference_rank
        <= (#[trigger] entries[b]).preference_rank && (entries[a].preference_rank
        == entries[b].preference_rank ==> entries[a].confidence >= entries[b].confidence) by {
        assert(spec_trace_entry(entries[a], probes, order, a, policy, c, prefs, mode));
        assert(spec_trace_entry(entries[b], probes, order, b, policy, c, prefs, mode));
        assert(spec_precedes(probes, order[a] as int, order[b] as int, prefs));
    }
    assert forall|k: int| 0 <= k < entries.len() implies ((#[trigger] entries[k]).outcome
        == ResolveTraceOutcome::UnsupportedProbe) == (entries[k].safety
        == ProbeSafety::Unsupported) && entries[k].mode == mode by {
        assert(spec_trace_entry(entries[k], probes, order, k, policy, c, prefs, mode));
    }
    assert forall|k: int| 0 <= k < entries.len() && (#[trigger] entries[k]).outcome
        == ResolveTraceOutcome::Accepted implies (r matches Ok(d) && d.context_method
        == entries[k].method && entries[k].replacement_method == Some(entries[k].method)) by {
        assert(spec_trace_entry(entries[k], probes, order, k, policy, c, prefs, mode));
        let pk = order[k] as int;
        assert(spec_viable(probes[pk], policy, c.kind));
        if r is Err {
            assert(spec_any_viable(probes, policy, c.kind));
        }
        let d = r->Ok_0;
        let i = choose|i: int| #![trigger probes[i]]
            spec_is_best(probes, i, policy, c.kind, prefs) && d.context_method == probes[i].method_id
                && d.replacement_method == probes[i].method_id && d.safety == probes[i].safety
                && d.surface@ == c && d.reason@ == spec_decision_reason(probes[i].reason@, c);
        if pk != i {
            let iu = i as usize;
            assert(iu as int == i);
            assert(order.contains(iu));
            let k2 = choose|k2: int| 0 <= k2 < order.len() && order[k2] == iu;
            if k2 < k {
                assert(!spec_viable(probes[order[k2] as int], policy, c.kind));
            } else {
                assert(k2 != k);
                assert(spec_precedes(probes, pk, i, prefs));
                assert(spec_precedes(probes, i, pk, prefs));
            }
        }
    }
    if r is Ok {
        let d = r->Ok_0;
        let i = choose|i: int| #![trigger probes[i]]
            spec_is_best(probes, i, policy, c.kind, prefs) && d.context_method == probes[i].method_id
                && d.replacement_method == probes[i].method_id && d.safety == probes[i].safety
                && d.surface@ == c && d.reason@ == spec_decision_reason(probes[i].reason@, c);
        let iu = i as usize;
        assert(iu as int == i);
        assert(order.contains(iu));
        let k = choose|k: int| 0 <= k < order.len() && order[k] == iu;
        let k0 = lemma_first_viable(probes, order, policy, c.kind, k);
        assert(spec_trace_entry(entries[k0], probes, order, k0, policy, c, prefs, mode));
        assert(entries[k0].outcome == ResolveTraceOutcome::Accepted);
    }
    if exists|k: int| 0 <= k < entries.len() && (#[trigger] entries[k]).outcome
        == ResolveTraceOutcome::Accepted {
        let k = choose|k: int| 0 <= k < entries.len() && (#[trigger] entries[k]).outcome
            == ResolveTraceOutcome::Accepted;
        assert(r is Ok);
    }
    assert forall|a: int, b: int|
        0 <= a < entries.len() && 0 <= b < entries.len() && (#[trigger] entries[a]).outcome
            == ResolveTraceOutcome::Accepted && (#[trigger] entries[b]).outcome
            == ResolveTraceOutcome::Accepted implies a == b by {
        if a < b {
            assert(spec_trace_entry(entries[b], probes, order, b, policy, c, prefs, mode));
            assert(spec_viable(probes[order[a] as int], policy, c.kind));
        } else if b < a {
            assert(spec_trace_entry(entries[a], probes, order, a, policy, c, prefs, mode));
            assert(spec_viable(probes[order[b] as int], policy, c.kind));
        }
    }
}

} // verus!
