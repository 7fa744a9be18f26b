//! Platform policy layer of a keyboard-layout correction tool: recognising
//! the focused text surface, choosing a safe method to read and rewrite its
//! text, and the decision logic around hotkeys, terminals, layouts and
//! web editors.
use vstd::prelude::*;

pub mod base64_proofs;
pub mod capture;
pub mod clipboard;
pub mod diagnostics;
pub mod encoding;
pub mod hook;
pub mod hotkeys;
pub mod ids;
pub mod keyboard_input;
pub mod layout;
pub mod model;
pub mod offsets;
pub mod platform;
pub mod policy_laws;
pub mod probes;
pub mod remote;
pub mod replacement;
pub mod resolver;
pub mod script_output;
pub mod selection_methods;
pub mod surface;
pub mod target_facts;
pub mod terminal;
pub mod text;
pub mod web_capture;
pub mod web_keyboard;
pub mod web_replacement;
pub mod win32_edit;

pub use model::{
    context_replacement_method, Capabilities, CorrectionMode, MethodBinding, MethodId,
    ReplacementPlan, TextContext, TextRange,
};
pub use platform::{
    adapter_contract, all_method_ids, bridge_method_ids, method_is_bridge_method,
    AdapterContract, ApplyReplacementResult, ClipboardBackend, ClipboardFormatSnapshot,
    ClipboardSnapshot, ForegroundControl, ForegroundProvider, ForegroundTarget, HotkeyEvent,
    HotkeyListener, MethodProbe, PlatformError, ProbeSafety, TextContextProvider, TextReplacer,
};
pub use resolver::{
    MethodResolver, ResolveDecision, ResolveError, ResolveTraceEntry, ResolveTraceOutcome,
};
pub use surface::{
    classify_surface, default_app_policies, default_app_policy, default_probe_policies,
    default_surface_policies, default_surface_policy, probe_plan_for, probe_policy_for,
    split_preferences, surface_allows_risky_method, surface_policy_for,
    surface_uses_fast_web_keyboard, surface_uses_rocket_web_keyboard,
    web_keyboard_profile_for_surface, MethodPreferences, ProbePlan, ProbePolicy,
    SurfaceClassification, SurfaceKind, SurfacePolicy, WebKeyboardProfile,
};
pub use target_facts::{target_facts, TargetFacts};

verus! {

} // verus!
