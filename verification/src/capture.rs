//! Capturing the text context: the resolver picks a method among the
//! probes, the caller tries it, and a method that turns out unavailable is
//! dropped before the resolver picks again.
use vstd::prelude::*;
use crate::model::{CorrectionMode, MethodId};
use crate::platform::{ForegroundTarget, MethodProbe, PlatformError};
use crate::resolver::{MethodResolver, ResolveDecision, ResolveError};

verus! {

/// The probes still to try and the last "unavailable" failure seen.
#[derive(Debug)]
pub struct ContextCapture {
    remaining: Vec<MethodProbe>,
    last_unavailable: Option<PlatformError>,
    app_class: String,
    focused_class: String,
}

/// A failure after which the next method may be tried.
pub open spec fn is_unavailable(e: PlatformError) -> bool {
    e is ReplacementUnavailable || e is ReplacementUnavailableReason
}

/// The probes of another method than `method`, in order.
pub open spec fn without_method(probes: Seq<MethodProbe>, method: MethodId) -> Seq<MethodProbe>
    decreases probes.len(),
{
    if probes.len() == 0 {
        probes
    } else {
        let before = without_method(probes.drop_last(), method);
        if probes.last().method_id != method {
            before.push(probes.last())
        } else {
            before
        }
    }
}

impl ContextCapture {
    pub closed spec fn spec_remaining(&self) -> Seq<MethodProbe> {
        self.remaining@
    }

    pub closed spec fn spec_last_unavailable(&self) -> Option<PlatformError> {
        self.last_unavailable
    }

    pub closed spec fn spec_classes(&self) -> (Seq<char>, Seq<char>) {
        (self.app_class@, self.focused_class@)
    }

    /// A capture over all the probes of `target`.
    pub fn new(target: &ForegroundTarget, probes: Vec<MethodProbe>) -> (r: ContextCapture)
        ensures
            r.spec_remaining() == probes@,
            r.spec_last_unavailable() is None,
            r.spec_classes() == (target.app_class@, target.focused_class@),
    {
        ContextCapture {
            remaining: probes,
            last_unavailable: None,
            app_class: target.app_class.clone(),
            focused_class: target.focused_class.clone(),
        }
    }

    /// The method to try next: the resolver's choice among the remaining
    /// probes, or `None` when no probe remains or none is viable.
    pub fn next_method(
        &self,
        resolver: &MethodResolver,
        target: &ForegroundTarget,
        mode: CorrectionMode,
    ) -> (r: Option<MethodId>)
        ensures
            match r {
                Some(m) => self.spec_remaining().len() > 0 && exists|d: ResolveDecision|
                    MethodResolver::spec_resolved(
                        resolver@,
                        *target,
                        self.spec_remaining(),
                        mode,
                        Ok(d),
                    ) && d.context_method == m,
                None => self.spec_remaining().len() == 0 || exists|e: ResolveError|
                    MethodResolver::spec_resolved(
                        resolver@,
                        *target,
                        self.spec_remaining(),
                        mode,
                        Err(e),
                    ),
            },
    {
        if self.remaining.len() == 0 {
            return None;
        }
        let res = resolver.resolve_for_mode(target, self.remaining.as_slice(), mode);
        let ghost g = res;
        match res {
            Ok(decision) => {
                let m = decision.context_method;
                proof {
                    assert(g == Ok::<ResolveDecision, ResolveError>(decision));
                    assert(MethodResolver::spec_resolved(
                        resolver@,
                        *target,
                        self.spec_remaining(),
                        mode,
                        Ok(decision),
                    ));
                }
                Some(m)
            },
            Err(e) => {
                proof {
                    assert(g == Err::<ResolveDecision, ResolveError>(e));
                    assert(MethodResolver::spec_resolved(
                        resolver@,
                        *target,
                        self.spec_remaining(),
                        mode,
                        Err(e),
                    ));
                }
                None
            },
        }
    }

    /// Records that trying `method` failed with `error`: an unavailable
    /// method is dropped from the remaining probes and the error kept;
    /// any other error ends the capture and is handed back.
    pub fn record_failure(&mut self, method: MethodId, error: PlatformError) -> (r: Result<
        (),
        PlatformError,
    >)
        ensures
            is_unavailable(error) ==> r is Ok && final(self).spec_remaining() == without_method(
                old(self).spec_remaining(),
                method,
            ) && final(self).spec_last_unavailable() == Some(error) && final(self).spec_classes()
                == old(self).spec_classes(),
            !is_unavailable(error) ==> r == Err::<(), PlatformError>(error) && *final(self)
                == *old(self),
    {
        match error {
            PlatformError::ReplacementUnavailable | PlatformError::ReplacementUnavailableReason(_) => {
                let mut kept: Vec<MethodProbe> = Vec::new();
                let mut i: usize = 0;
                let n = self.remaining.len();
                let ghost before = self.remaining@;
                let mut old_remaining: Vec<MethodProbe> = Vec::new();
                std::mem::swap(&mut old_remaining, &mut self.remaining);
                assert(old_remaining@ == before);
                while i < n
                    invariant
                        n == old_remaining.len(),
                        old_remaining@ == before,
                        i <= n,
                        kept@ == without_method(before.take(i as int), method),
                    decreases n - i,
                {
                    proof {
                        assert(before.take(i + 1).drop_last() == before.take(i as int));
                        assert(before.take(i + 1).last() == before[i as int]);
                    }
                    if old_remaining[i].method_id != method {
                        kept.push(old_remaining[i].clone_probe());
                    }
                    i += 1;
                }
                assert(before.take(n as int) == before);
                self.remaining = kept;
                self.last_unavailable = Some(error);
                Ok(())
            },
            _ => Err(error),
        }
    }

    /// The error that ends a capture in which every method failed: the last
    /// "unavailable" failure, or `UnsupportedControl` with the window
    /// classes when none was seen.
    pub fn into_error(self) -> (r: PlatformError)
        ensures
            match self.spec_last_unavailable() {
                Some(e) => r == e,
                None => r matches PlatformError::UnsupportedControl { app_class, focused_class }
                    && (app_class@, focused_class@) == self.spec_classes(),
            },
    {
        match self.last_unavailable {
            Some(e) => e,
            None => PlatformError::UnsupportedControl {
                app_class: self.app_class,
                focused_class: self.focused_class,
            },
        }
    }
}

impl MethodProbe {
    /// A copy of the probe.
    pub fn clone_probe(&self) -> (r: MethodProbe)
        ensures
            r == *self,
    {
        MethodProbe {
            method_id: self.method_id,
            safety: self.safety,
            confidence: self.confidence,
            requires_clipboard: self.requires_clipboard,
            requires_focus_stability: self.requires_focus_stability,
            can_preflight: self.can_preflight,
            can_verify: self.can_verify,
            reason: self.reason.clone(),
        }
    }
}

/// Dropping a method that was chosen from the remaining probes leaves
/// fewer probes, none of that method, so the capture loop ends.
pub proof fn law_dropping_chosen_method_shrinks(probes: Seq<MethodProbe>, i: int)
    requires
        0 <= i < probes.len(),
    ensures
        without_method(probes, probes[i].method_id).len() < probes.len(),
        forall|k: int|
            0 <= k < without_method(probes, probes[i].method_id).len() ==> (#[trigger] without_method(
                probes,
                probes[i].method_id,
            )[k]).method_id != probes[i].method_id,
    decreases probes.len(),
{
    let m = probes[i].method_id;
    lemma_without_method_excludes(probes, m);
    if i == probes.len() - 1 {
        lemma_without_method_len(probes.drop_last(), m);
    } else {
        assert(probes.drop_last()[i] == probes[i]);
        law_dropping_chosen_method_shrinks(probes.drop_last(), i);
    }
}

proof fn lemma_without_method_len(probes: Seq<MethodProbe>, m: MethodId)
    ensures
        without_method(probes, m).len() <= probes.len(),
    decreases probes.len(),
{
    if probes.len() > 0 {
        lemma_without_method_len(probes.drop_last(), m);
    }
}

proof fn lemma_without_method_excludes(probes: Seq<MethodProbe>, m: MethodId)
    ensures
        forall|k: int|
            0 <= k < without_method(probes, m).len() ==> (#[trigger] without_method(probes, m)[k]).method_id
                != m,
    decreases probes.len(),
{
    if probes.len() > 0 {
        lemma_without_method_excludes(probes.drop_last(), m);
    }
}

} // verus!
