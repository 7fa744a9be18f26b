//! What holds of the probe policy table as a whole: each surface's probed
//! and suppressed methods split the known methods between them, the probed
//! ones are methods the surface's policy prefers, and the table lists the
//! surfaces of the surface policy table, each once.
use vstd::prelude::*;
use crate::model::MethodId;
use crate::platform::spec_all_method_ids;
use crate::surface::{
    spec_all_except, spec_default_probe_policies, spec_default_surface_policies, spec_policy_order,
    spec_probe_methods, spec_surface_policy, SurfaceKind,
};

verus! {

/// `m` occurs in `s`, by walking it.
pub open spec fn occurs<A>(s: Seq<A>, m: A) -> bool
    decreases s.len(),
{
    if s.len() == 0 {
        false
    } else {
        s[0] == m || occurs(s.drop_first(), m)
    }
}

/// No element of `s` occurs twice, by walking it.
pub open spec fn distinct<A>(s: Seq<A>) -> bool
    decreases s.len(),
{
    s.len() == 0 || (!occurs(s.drop_first(), s[0]) && distinct(s.drop_first()))
}

/// Every element of `a` occurs in `b`.
pub open spec fn all_occur<A>(a: Seq<A>, b: Seq<A>) -> bool
    decreases a.len(),
{
    a.len() == 0 || (occurs(b, a[0]) && all_occur(a.drop_first(), b))
}

proof fn lemma_occurs<A>(s: Seq<A>, m: A)
    ensures
        occurs(s, m) == s.contains(m),
    decreases s.len(),
{
    if s.len() > 0 {
        lemma_occurs(s.drop_first(), m);
        if s.contains(m) && s[0] != m {
            let i = choose|i: int| 0 <= i < s.len() && s[i] == m;
            assert(s.drop_first()[i - 1] == m);
        }
        if s.drop_first().contains(m) {
            let i = choose|i: int| 0 <= i < s.len() - 1 && s.drop_first()[i] == m;
            assert(s[i + 1] == m);
        }
    }
}

proof fn lemma_distinct<A>(s: Seq<A>)
    requires
        distinct(s),
    ensures
        s.no_duplicates(),
    decreases s.len(),
{
    if s.len() > 0 {
        let t = s.drop_first();
        lemma_distinct(t);
        lemma_occurs(t, s[0]);
        assert forall|i: int, j: int| 0 <= i < s.len() && 0 <= j < s.len() && i != j implies s[i]
            != s[j] by {
            if i > 0 && j > 0 {
                assert(s[i] == t[i - 1] && s[j] == t[j - 1]);
            } else if i == 0 {
                assert(s[j] == t[j - 1]);
            } else {
                assert(s[i] == t[i - 1]);
            }
        }
    }
}

proof fn lemma_all_occur<A>(a: Seq<A>, b: Seq<A>, m: A)
    requires
        all_occur(a, b),
        a.contains(m),
    ensures
        b.contains(m),
    decreases a.len(),
{
    lemma_occurs(a, m);
    if a[0] == m {
        lemma_occurs(b, m);
    } else {
        lemma_occurs(a.drop_first(), m);
        lemma_all_occur(a.drop_first(), b, m);
    }
}

/// Every method is one of the known methods.
proof fn lemma_known_method(m: MethodId)
    ensures
        spec_all_method_ids().contains(m),
{
    let all = spec_all_method_ids();
    match m {
        MethodId::Win32EditMessages => assert(all[0] == m),
        MethodId::TerminalClipboardShortcut => assert(all[1] == m),
        MethodId::SshTerminal => assert(all[2] == m),
        MethodId::ConsoleBuffer => assert(all[3] == m),
        MethodId::PsReadLine => assert(all[4] == m),
        MethodId::WordCom => assert(all[5] == m),
        MethodId::UiAutomationEditableText => assert(all[6] == m),
        MethodId::UiAutomationDocumentText => assert(all[7] == m),
        MethodId::UiAutomationText => assert(all[8] == m),
        MethodId::XtermKeyboardSelection => assert(all[9] == m),
        MethodId::WebKeyboardSelection => assert(all[10] == m),
        MethodId::ClipboardSelection => assert(all[11] == m),
        MethodId::SendInput => assert(all[12] == m),
    }
}

proof fn lemma_filter_distinct<A>(s: Seq<A>, p: spec_fn(A) -> bool)
    requires
        s.no_duplicates(),
    ensures
        s.filter(p).no_duplicates(),
    decreases s.len(),
{
    reveal(Seq::filter);
    if s.len() > 0 {
        let rest = s.drop_last();
        assert(rest.no_duplicates());
        lemma_filter_distinct(rest, p);
        if p(s.last()) {
            let f = rest.filter(p);
            if f.contains(s.last()) {
                rest.lemma_filter_contains_rev(p, s.last());
                let i = choose|i: int| 0 <= i < rest.len() && rest[i] == s.last();
                assert(s[i] == s[s.len() - 1]);
            }
            assert forall|i: int, j: int|
                0 <= i < f.push(s.last()).len() && 0 <= j < f.push(s.last()).len() && i != j implies f.push(
                s.last(),
            )[i] != f.push(s.last())[j] by {
                if i == f.len() {
                    assert(f.contains(f[j]));
                } else if j == f.len() {
                    assert(f.contains(f[i]));
                }
            }
        }
    }
}

/// What the suppressed methods of a surface are: the known methods it does
/// not probe, each once.
proof fn lemma_all_except(keep: Seq<MethodId>, m: MethodId)
    ensures
        spec_all_except(keep).contains(m) == !keep.contains(m),
        spec_all_except(keep).no_duplicates(),
{
    let all = spec_all_method_ids();
    let p = |x: MethodId| !keep.contains(x);
    assert(distinct(all)) by {
        reveal_with_fuel(distinct, 14);
        reveal_with_fuel(occurs, 14);
    }
    lemma_distinct(all);
    lemma_filter_distinct(all, p);
    lemma_known_method(m);
    if spec_all_except(keep).contains(m) {
        let f = all.filter(p);
        let i = choose|i: int| 0 <= i < f.len() && f[i] == m;
        all.lemma_filter_pred(p, i);
    } else if !keep.contains(m) {
        let i = choose|i: int| 0 <= i < all.len() && all[i] == m;
        all.lemma_filter_contains(p, i);
    }
}

/// The probe list of a surface holds no method twice and, outside the
/// diagnostic mode, only methods the surface policy prefers.
pub open spec fn probe_list_ok(kind: SurfaceKind, diagnostic_unknown_probes: bool) -> bool {
    let probe = spec_probe_methods(kind, diagnostic_unknown_probes);
    let policy = spec_surface_policy(kind);
    distinct(probe) && (!diagnostic_unknown_probes ==> all_occur(
        probe,
        policy.pause_methods.context_methods + policy.scrolllock_methods.context_methods,
    ))
}

proof fn lemma_probe_list_ok(kind: SurfaceKind, d: bool)
    ensures
        probe_list_ok(kind, d),
{
    match kind {
        SurfaceKind::Win32Edit => assert(probe_list_ok(SurfaceKind::Win32Edit, d)) by {
            reveal_with_fuel(distinct, 14);
            reveal_with_fuel(occurs, 14);
            reveal_with_fuel(all_occur, 14);
        },
        SurfaceKind::NotepadLike => assert(probe_list_ok(SurfaceKind::NotepadLike, d)) by {
            reveal_with_fuel(distinct, 14);
            reveal_with_fuel(occurs, 14);
            reveal_with_fuel(all_occur, 14);
        },
        SurfaceKind::ClassicConsole => assert(probe_list_ok(SurfaceKind::ClassicConsole, d)) by {
            reveal_with_fuel(distinct, 14);
            reveal_with_fuel(occurs, 14);
            reveal_with_fuel(all_occur, 14);
        },
        SurfaceKind::WindowsTerminalCmd => assert(probe_list_ok(SurfaceKind::WindowsTerminalCmd, d)) by {
            reveal_with_fuel(distinct, 14);
            reveal_with_fuel(occurs, 14);
            reveal_with_fuel(all_occur, 14);
        },
        SurfaceKind::QwenTerminal => assert(probe_list_ok(SurfaceKind::QwenTerminal, d)) by {
            reveal_with_fuel(distinct, 14);
            reveal_with_fuel(occurs, 14);
            reveal_with_fuel(all_occur, 14);
        },
        SurfaceKind::WindowsTerminalPowerShell => assert(probe_list_ok(SurfaceKind::WindowsTerminalPowerShell, d)) by {
            reveal_with_fuel(distinct, 14);
            reveal_with_fuel(occurs, 14);
            reveal_with_fuel(all_occur, 14);
        },
        SurfaceKind::BrowserEditor => assert(probe_list_ok(SurfaceKind::BrowserEditor, d)) by {
            reveal_with_fuel(distinct, 14);
            reveal_with_fuel(occurs, 14);
            reveal_with_fuel(all_occur, 14);
        },
        SurfaceKind::FastBrowserEditor => assert(probe_list_ok(SurfaceKind::FastBrowserEditor, d)) by {
            reveal_with_fuel(distinct, 14);
            reveal_with_fuel(occurs, 14);
            reveal_with_fuel(all_occur, 14);
        },
        SurfaceKind::RocketChatEditor => assert(probe_list_ok(SurfaceKind::RocketChatEditor, d)) by {
            reveal_with_fuel(distinct, 14);
            reveal_with_fuel(occurs, 14);
            reveal_with_fuel(all_occur, 14);
        },
        SurfaceKind::YandexBrowserEditor => assert(probe_list_ok(SurfaceKind::YandexBrowserEditor, d)) by {
            reveal_with_fuel(distinct, 14);
            reveal_with_fuel(occurs, 14);
            reveal_with_fuel(all_occur, 14);
        },
        SurfaceKind::TelegramDesktop => assert(probe_list_ok(SurfaceKind::TelegramDesktop, d)) by {
            reveal_with_fuel(distinct, 14);
            reveal_with_fuel(occurs, 14);
            reveal_with_fuel(all_occur, 14);
        },
        SurfaceKind::StickyNotes => assert(probe_list_ok(SurfaceKind::StickyNotes, d)) by {
            reveal_with_fuel(distinct, 14);
            reveal_with_fuel(occurs, 14);
            reveal_with_fuel(all_occur, 14);
        },
        SurfaceKind::OutlookSearch => assert(probe_list_ok(SurfaceKind::OutlookSearch, d)) by {
            reveal_with_fuel(distinct, 14);
            reveal_with_fuel(occurs, 14);
            reveal_with_fuel(all_occur, 14);
        },
        SurfaceKind::OutlookWordEditor => assert(probe_list_ok(SurfaceKind::OutlookWordEditor, d)) by {
            reveal_with_fuel(distinct, 14);
            reveal_with_fuel(occurs, 14);
            reveal_with_fuel(all_occur, 14);
        },
        SurfaceKind::OutlookShell => assert(probe_list_ok(SurfaceKind::OutlookShell, d)) by {
            reveal_with_fuel(distinct, 14);
            reveal_with_fuel(occurs, 14);
            reveal_with_fuel(all_occur, 14);
        },
        SurfaceKind::WordEditor => assert(probe_list_ok(SurfaceKind::WordEditor, d)) by {
            reveal_with_fuel(distinct, 14);
            reveal_with_fuel(occurs, 14);
            reveal_with_fuel(all_occur, 14);
        },
        SurfaceKind::ExcelCellEditor => assert(probe_list_ok(SurfaceKind::ExcelCellEditor, d)) by {
            reveal_with_fuel(distinct, 14);
            reveal_with_fuel(occurs, 14);
            reveal_with_fuel(all_occur, 14);
        },
        SurfaceKind::Unknown => assert(probe_list_ok(SurfaceKind::Unknown, d)) by {
            reveal_with_fuel(distinct, 14);
            reveal_with_fuel(occurs, 14);
            reveal_with_fuel(all_occur, 14);
        },
    }
}

/// For every surface of the probe policy table: its probed and suppressed
/// methods hold no method twice, share none, and together hold every known
/// method; it is probed fast exactly when it is the fast browser editor or
/// Rocket.Chat; and, outside the diagnostic mode, it probes only methods
/// that its surface policy prefers for reading text. The table lists the
/// surfaces of the surface policy table, in the same order, each once.
pub proof fn law_probe_policies_partition_methods(diagnostic_unknown_probes: bool)
    ensures
        ({
            let probes = spec_default_probe_policies(diagnostic_unknown_probes);
            let surfaces = spec_default_surface_policies();
            &&& probes.len() == surfaces.len()
            &&& forall|i: int| 0 <= i < probes.len() ==> #[trigger] probes[i].surface == surfaces[i].surface
            &&& spec_policy_order().no_duplicates()
            &&& forall|i: int| #![trigger probes[i]] 0 <= i < probes.len() ==> {
                let p = probes[i];
                &&& p.probe_methods.no_duplicates()
                &&& p.suppressed_methods.no_duplicates()
                &&& p.fast_probe == (p.surface == SurfaceKind::FastBrowserEditor || p.surface
                    == SurfaceKind::RocketChatEditor)
                &&& forall|m: MethodId| #[trigger] p.probe_methods.contains(m) ==> !p.suppressed_methods.contains(m)
                &&& forall|m: MethodId| #[trigger] p.probe_methods.contains(m) || #[trigger] p.suppressed_methods.contains(m)
                &&& !diagnostic_unknown_probes ==> forall|m: MethodId| #[trigger] p.probe_methods.contains(m)
                    ==> spec_surface_policy(p.surface).pause_methods.context_methods.contains(m)
                    || spec_surface_policy(p.surface).scrolllock_methods.context_methods.contains(m)
            }
        }),
{
    let d = diagnostic_unknown_probes;
    let order = spec_policy_order();
    let probes = spec_default_probe_policies(d);
    assert(distinct(spec_policy_order())) by {
        reveal_with_fuel(distinct, 19);
        reveal_with_fuel(occurs, 19);
    }
    lemma_distinct(order);
    assert forall|i: int| #![trigger probes[i]] 0 <= i < probes.len() implies {
        let p = probes[i];
        &&& p.probe_methods.no_duplicates()
        &&& p.suppressed_methods.no_duplicates()
        &&& p.fast_probe == (p.surface == SurfaceKind::FastBrowserEditor || p.surface
            == SurfaceKind::RocketChatEditor)
        &&& forall|m: MethodId| #[trigger] p.probe_methods.contains(m) ==> !p.suppressed_methods.contains(m)
        &&& forall|m: MethodId| #[trigger] p.probe_methods.contains(m) || #[trigger] p.suppressed_methods.contains(m)
        &&& !d ==> forall|m: MethodId| #[trigger] p.probe_methods.contains(m)
            ==> spec_surface_policy(p.surface).pause_methods.context_methods.contains(m)
            || spec_surface_policy(p.surface).scrolllock_methods.context_methods.contains(m)
    } by {
        let k = order[i];
        let p = probes[i];
        lemma_probe_list_ok(k, d);
        let probe = spec_probe_methods(k, d);
        lemma_distinct(probe);
        lemma_all_except(probe, MethodId::SendInput);
        assert forall|m: MethodId| #[trigger] p.probe_methods.contains(m) implies !p.suppressed_methods.contains(m) by {
            lemma_all_except(probe, m);
        }
        assert forall|m: MethodId| #[trigger] p.probe_methods.contains(m) || #[trigger] p.suppressed_methods.contains(m) by {
            lemma_all_except(probe, m);
        }
        if !d {
            let policy = spec_surface_policy(k);
            let ctx = policy.pause_methods.context_methods + policy.scrolllock_methods.context_methods;
            assert forall|m: MethodId| #[trigger] p.probe_methods.contains(m) implies
                policy.pause_methods.context_methods.contains(m)
                || policy.scrolllock_methods.context_methods.contains(m) by {
                lemma_all_occur(probe, ctx, m);
                let j = choose|j: int| 0 <= j < ctx.len() && ctx[j] == m;
                if j < policy.pause_methods.context_methods.len() {
                    assert(policy.pause_methods.context_methods[j] == m);
                } else {
                    assert(policy.scrolllock_methods.context_methods[j
                        - policy.pause_methods.context_methods.len()] == m);
                }
            }
        }
    }
}

} // verus!
