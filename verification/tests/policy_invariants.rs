use stepler_platform::model::MethodId;
use stepler_platform::platform::{adapter_contract, all_method_ids, bridge_method_ids, method_is_bridge_method};
use stepler_platform::surface::{
    default_probe_policies, default_surface_policies, probe_policy_for, surface_allows_risky_method,
    surface_policy_for, SurfaceKind, SurfacePolicy,
};

fn unique_methods(methods: &[MethodId]) -> Vec<MethodId> {
    let mut unique = Vec::new();
    for method in methods {
        if !unique.contains(method) {
            unique.push(*method);
        }
    }
    unique
}

fn all_preferred_methods(policy: &SurfacePolicy) -> Vec<MethodId> {
    unique_methods(
        &policy
            .pause_methods
            .context_methods
            .iter()
            .chain(policy.pause_methods.replace_methods.iter())
            .chain(policy.scrolllock_methods.context_methods.iter())
            .chain(policy.scrolllock_methods.replace_methods.iter())
            .copied()
            .collect::<Vec<_>>(),
    )
}

fn unique_surfaces(surfaces: &[SurfaceKind]) -> Vec<SurfaceKind> {
    let mut unique = Vec::new();
    for surface in surfaces {
        if !unique.contains(surface) {
            unique.push(*surface);
        }
    }
    unique
}

fn surface_allows_bridge_method(surface: SurfaceKind, method: MethodId) -> bool {
    matches!(
        (surface, method),
        (SurfaceKind::WindowsTerminalCmd, MethodId::TerminalClipboardShortcut)
            | (SurfaceKind::WindowsTerminalPowerShell, MethodId::PsReadLine)
            | (SurfaceKind::QwenTerminal, MethodId::XtermKeyboardSelection)
    )
}

fn conservative_unknown_methods() -> Vec<MethodId> {
    vec![
        MethodId::UiAutomationEditableText,
        MethodId::UiAutomationDocumentText,
        MethodId::UiAutomationText,
    ]
}

#[test]
fn probe_policies_partition_all_known_methods() {
    let all = all_method_ids();
    let probe_policies = default_probe_policies(false);
    assert!(!probe_policies.is_empty(), "probe policies are empty");

    for policy in probe_policies {
        assert_eq!(unique_methods(&policy.probe_methods).len(), policy.probe_methods.len());
        assert_eq!(unique_methods(&policy.suppressed_methods).len(), policy.suppressed_methods.len());
        for method in policy.probe_methods.iter().chain(policy.suppressed_methods.iter()) {
            assert!(all.contains(method), "{:?}: unknown method {}", policy.surface, method.as_str());
        }
        let overlap = policy
            .probe_methods
            .iter()
            .copied()
            .filter(|method| policy.suppressed_methods.contains(method))
            .collect::<Vec<_>>();
        assert!(overlap.is_empty(), "{:?}: probed and suppressed: {:?}", policy.surface, overlap);
        let covered = unique_methods(
            &policy
                .probe_methods
                .iter()
                .chain(policy.suppressed_methods.iter())
                .copied()
                .collect::<Vec<_>>(),
        );
        assert_eq!(covered.len(), all.len(), "{:?}: coverage size", policy.surface);
        for method in &all {
            assert!(covered.contains(method), "{:?}: missing {}", policy.surface, method.as_str());
        }
    }
}

#[test]
fn surface_policy_preferences_reference_known_methods() {
    let all = all_method_ids();
    for policy in default_surface_policies() {
        for (label, methods) in [
            ("pause context", &policy.pause_methods.context_methods),
            ("pause replace", &policy.pause_methods.replace_methods),
            ("scrolllock context", &policy.scrolllock_methods.context_methods),
            ("scrolllock replace", &policy.scrolllock_methods.replace_methods),
            ("forbidden", &policy.forbidden_methods),
        ] {
            assert!(!methods.is_empty() || label == "forbidden", "{:?}: {label} empty", policy.surface);
            for method in methods {
                assert!(all.contains(method), "{:?}: {label} has {}", policy.surface, method.as_str());
            }
        }
    }
}

#[test]
fn forbidden_methods_are_not_preferred_for_context_or_replacement() {
    for policy in default_surface_policies() {
        let preferred_methods = all_preferred_methods(&policy);
        let overlap = policy
            .forbidden_methods
            .iter()
            .copied()
            .filter(|method| preferred_methods.contains(method))
            .collect::<Vec<_>>();
        assert!(overlap.is_empty(), "{:?}: forbidden but preferred: {:?}", policy.surface, overlap);
    }
}

#[test]
fn risky_preferred_methods_require_explicit_surface_allowance() {
    for policy in default_surface_policies() {
        for method in all_preferred_methods(&policy) {
            if !adapter_contract(method).risky {
                continue;
            }
            if policy.allow_risky_methods {
                assert!(surface_allows_risky_method(policy.surface, method), "{:?}", policy.surface);
            } else {
                assert!(!surface_allows_risky_method(policy.surface, method), "{:?}", policy.surface);
            }
        }
    }
}

#[test]
fn probe_policies_have_matching_surface_policies() {
    let surface_policies = default_surface_policies()
        .into_iter()
        .map(|policy| policy.surface)
        .collect::<Vec<_>>();
    for policy in default_probe_policies(false) {
        assert!(surface_policies.contains(&policy.surface), "{:?}", policy.surface);
    }
    let probe_policies = default_probe_policies(false)
        .into_iter()
        .map(|policy| policy.surface)
        .collect::<Vec<_>>();
    for policy in default_surface_policies() {
        assert!(probe_policies.contains(&policy.surface), "{:?}", policy.surface);
    }
}

#[test]
fn policy_tables_do_not_have_duplicate_surfaces() {
    let probe_surfaces = default_probe_policies(false)
        .into_iter()
        .map(|policy| policy.surface)
        .collect::<Vec<_>>();
    assert_eq!(unique_surfaces(&probe_surfaces).len(), probe_surfaces.len());
    let surface_surfaces = default_surface_policies()
        .into_iter()
        .map(|policy| policy.surface)
        .collect::<Vec<_>>();
    assert_eq!(unique_surfaces(&surface_surfaces).len(), surface_surfaces.len());
}

#[test]
fn probe_methods_are_surface_context_preferences_or_documented_exceptions() {
    for probe_policy in default_probe_policies(false) {
        let surface_policy = surface_policy_for(probe_policy.surface);
        let preferred_context_methods = surface_policy
            .pause_methods
            .context_methods
            .iter()
            .chain(surface_policy.scrolllock_methods.context_methods.iter())
            .copied()
            .collect::<Vec<_>>();
        let unexpected = probe_policy
            .probe_methods
            .iter()
            .copied()
            .filter(|method| !preferred_context_methods.contains(method))
            .collect::<Vec<_>>();
        assert!(unexpected.is_empty(), "{:?}: {:?}", probe_policy.surface, unexpected);
    }
}

#[test]
fn bridge_methods_require_explicit_surface_allowance() {
    for method in bridge_method_ids() {
        assert!(method_is_bridge_method(method), "{} should be a bridge method", method.as_str());
    }
    for probe_policy in default_probe_policies(false) {
        for method in &probe_policy.probe_methods {
            if method_is_bridge_method(*method) {
                assert!(surface_allows_bridge_method(probe_policy.surface, *method), "{:?}", probe_policy.surface);
            }
        }
    }
    for surface_policy in default_surface_policies() {
        for method in all_preferred_methods(&surface_policy) {
            if method_is_bridge_method(method) {
                assert!(surface_allows_bridge_method(surface_policy.surface, method), "{:?}", surface_policy.surface);
            }
        }
    }
}

#[test]
fn ordinary_unknown_surface_is_conservative() {
    let probe_policy = probe_policy_for(SurfaceKind::Unknown, false);
    assert_eq!(probe_policy.probe_methods, conservative_unknown_methods());
    for forbidden in [
        MethodId::TerminalClipboardShortcut,
        MethodId::ClipboardSelection,
        MethodId::SendInput,
        MethodId::ConsoleBuffer,
        MethodId::PsReadLine,
        MethodId::WebKeyboardSelection,
        MethodId::Win32EditMessages,
        MethodId::SshTerminal,
        MethodId::WordCom,
        MethodId::XtermKeyboardSelection,
    ] {
        assert!(probe_policy.suppressed_methods.contains(&forbidden), "{}", forbidden.as_str());
    }
    let surface_policy = surface_policy_for(SurfaceKind::Unknown);
    assert_eq!(surface_policy.pause_methods.context_methods, conservative_unknown_methods());
    assert_eq!(surface_policy.scrolllock_methods.context_methods, conservative_unknown_methods());
    assert!(!surface_policy.allow_risky_methods);
    assert!(surface_policy.forbidden_methods.contains(&MethodId::WebKeyboardSelection));
    assert!(surface_policy.forbidden_methods.contains(&MethodId::ClipboardSelection));
}

#[test]
fn diagnostic_unknown_surface_can_probe_all_methods_explicitly() {
    let probe_policy = probe_policy_for(SurfaceKind::Unknown, true);

    assert_eq!(probe_policy.probe_methods, all_method_ids());
    assert!(probe_policy.suppressed_methods.is_empty());
    assert!(!probe_policy.fast_probe);
}
