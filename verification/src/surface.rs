//! Surface classification and the per-surface method policies.
use vstd::prelude::*;
use crate::model::{CorrectionMode, MethodId};
use crate::platform::{all_method_ids, contains_method, spec_all_method_ids, ForegroundTarget};
use crate::target_facts::{spec_target_facts, target_facts, TargetFacts};

verus! {

/// The kinds of text surfaces the platform layer distinguishes.
#[derive(Debug, Clone, Copy, PartialEq, Eq, Hash, Structural)]
pub enum SurfaceKind {
    Win32Edit,
    NotepadLike,
    ClassicConsole,
    WindowsTerminalCmd,
    WindowsTerminalPowerShell,
    QwenTerminal,
    BrowserEditor,
    FastBrowserEditor,
    RocketChatEditor,
    YandexBrowserEditor,
    TelegramDesktop,
    StickyNotes,
    OutlookSearch,
    OutlookWordEditor,
    OutlookShell,
    WordEditor,
    ExcelCellEditor,
    Unknown,
}

/// Keyboard-selection timing/behaviour profile of web editors.
#[derive(Debug, Clone, Copy, PartialEq, Eq, Hash, Structural)]
pub enum WebKeyboardProfile {
    Standard,
    Fast,
    RocketSearch,
}

/// The result of classifying a surface: its kind, a confidence and the evidence.
#[derive(Debug, Clone, PartialEq, Eq)]
pub struct SurfaceClassification {
    pub kind: SurfaceKind,
    pub confidence: u8,
    pub evidence: Vec<String>,
}

/// Mathematical form of a classification: evidence as character sequences.
pub ghost struct ClassificationView {
    pub kind: SurfaceKind,
    pub confidence: u8,
    pub evidence: Seq<Seq<char>>,
}

/// The views of a sequence of strings.
pub open spec fn string_views(v: Seq<String>) -> Seq<Seq<char>> {
    v.map_values(|s: String| s@)
}

impl View for SurfaceClassification {
    type V = ClassificationView;

    open spec fn view(&self) -> ClassificationView {
        ClassificationView {
            kind: self.kind,
            confidence: self.confidence,
            evidence: string_views(self.evidence@),
        }
    }
}

/// Context and replacement method preferences, best first.
#[derive(Debug, Clone, PartialEq, Eq)]
pub struct MethodPreferences {
    pub context_methods: Vec<MethodId>,
    pub replace_methods: Vec<MethodId>,
}

pub ghost struct PreferencesView {
    pub context_methods: Seq<MethodId>,
    pub replace_methods: Seq<MethodId>,
}

impl View for MethodPreferences {
    type V = PreferencesView;

    open spec fn view(&self) -> PreferencesView {
        PreferencesView {
            context_methods: self.context_methods@,
            replace_methods: self.replace_methods@,
        }
    }
}

/// Which methods a surface prefers, forbids, and whether risky ones may run.
#[derive(Debug, Clone, PartialEq, Eq)]
pub struct SurfacePolicy {
    pub surface: SurfaceKind,
    pub pause_methods: MethodPreferences,
    pub scrolllock_methods: MethodPreferences,
    pub forbidden_methods: Vec<MethodId>,
    pub allow_risky_methods: bool,
}

pub ghost struct SurfacePolicyView {
    pub surface: SurfaceKind,
    pub pause_methods: PreferencesView,
    pub scrolllock_methods: PreferencesView,
    pub forbidden_methods: Seq<MethodId>,
    pub allow_risky_methods: bool,
}

impl View for SurfacePolicy {
    type V = SurfacePolicyView;

    open spec fn view(&self) -> SurfacePolicyView {
        SurfacePolicyView {
            surface: self.surface,
            pause_methods: self.pause_methods@,
            scrolllock_methods: self.scrolllock_methods@,
            forbidden_methods: self.forbidden_methods@,
            allow_risky_methods: self.allow_risky_methods,
        }
    }
}

/// Which methods may be probed on a surface.
#[derive(Debug, Clone, PartialEq, Eq)]
pub struct ProbePolicy {
    pub surface: SurfaceKind,
    pub probe_methods: Vec<MethodId>,
    pub suppressed_methods: Vec<MethodId>,
    pub fast_probe: bool,
}

pub ghost struct ProbePolicyView {
    pub surface: SurfaceKind,
    pub probe_methods: Seq<MethodId>,
    pub suppressed_methods: Seq<MethodId>,
    pub fast_probe: bool,
}

impl View for ProbePolicy {
    type V = ProbePolicyView;

    open spec fn view(&self) -> ProbePolicyView {
        ProbePolicyView {
            surface: self.surface,
            probe_methods: self.probe_methods@,
            suppressed_methods: self.suppressed_methods@,
            fast_probe: self.fast_probe,
        }
    }
}

/// The probe policy of a classified target.
#[derive(Debug, Clone, PartialEq, Eq)]
pub struct ProbePlan {
    pub surface: SurfaceClassification,
    pub probe_methods: Vec<MethodId>,
    pub suppressed_methods: Vec<MethodId>,
    pub fast_probe: bool,
}

/// The views of a sequence of surface policies.
pub open spec fn policy_views(v: Seq<SurfacePolicy>) -> Seq<SurfacePolicyView> {
    v.map_values(|p: SurfacePolicy| p@)
}

/// The views of a sequence of probe policies.
pub open spec fn probe_policy_views(v: Seq<ProbePolicy>) -> Seq<ProbePolicyView> {
    v.map_values(|p: ProbePolicy| p@)
}

impl SurfacePolicy {
    /// The policy applies to the classified surface.
    pub fn matches(&self, classification: &SurfaceClassification) -> (r: bool)
        ensures
            r == (self.surface == classification.kind),
    {
        self.surface == classification.kind
    }

    /// The preferences for a correction mode.
    pub fn preferences_for(&self, mode: CorrectionMode) -> (r: &MethodPreferences)
        ensures
            r@ == spec_preferences_for(self@, mode),
    {
        match mode {
            CorrectionMode::Pause => &self.pause_methods,
            CorrectionMode::ScrollLock => &self.scrolllock_methods,
        }
    }
}

/// The preferences of a policy for a correction mode.
pub open spec fn spec_preferences_for(p: SurfacePolicyView, mode: CorrectionMode) -> PreferencesView {
    match mode {
        CorrectionMode::Pause => p.pause_methods,
        CorrectionMode::ScrollLock => p.scrolllock_methods,
    }
}

// ---------------------------------------------------------------------
// The policy tables.
// ---------------------------------------------------------------------

/// The methods the classifier falls back on when it recognises nothing.
pub open spec fn spec_conservative_unknown_methods() -> Seq<MethodId> {
    seq![
        MethodId::UiAutomationEditableText,
        MethodId::UiAutomationDocumentText,
        MethodId::UiAutomationText,
    ]
}

/// The preferred (context and replacement) methods of each surface.
pub open spec fn spec_preferred_methods(kind: SurfaceKind) -> Seq<MethodId> {
    match kind {
        SurfaceKind::Win32Edit => seq![MethodId::Win32EditMessages],
        SurfaceKind::NotepadLike => seq![
            MethodId::Win32EditMessages,
            MethodId::WebKeyboardSelection,
            MethodId::UiAutomationEditableText,
            MethodId::UiAutomationDocumentText,
            MethodId::UiAutomationText,
        ],
        SurfaceKind::ClassicConsole => seq![MethodId::ConsoleBuffer],
        SurfaceKind::WindowsTerminalCmd => seq![MethodId::TerminalClipboardShortcut],
        SurfaceKind::QwenTerminal => seq![MethodId::XtermKeyboardSelection],
        SurfaceKind::WindowsTerminalPowerShell => seq![MethodId::PsReadLine],
        SurfaceKind::BrowserEditor | SurfaceKind::FastBrowserEditor => seq![
            MethodId::WebKeyboardSelection,
            MethodId::UiAutomationEditableText,
        ],
        SurfaceKind::RocketChatEditor => seq![
            MethodId::UiAutomationEditableText,
            MethodId::WebKeyboardSelection,
        ],
        SurfaceKind::YandexBrowserEditor => seq![
            MethodId::WebKeyboardSelection,
            MethodId::UiAutomationDocumentText,
            MethodId::UiAutomationEditableText,
        ],
        SurfaceKind::TelegramDesktop => seq![
            MethodId::WebKeyboardSelection,
            MethodId::UiAutomationEditableText,
            MethodId::UiAutomationDocumentText,
        ],
        SurfaceKind::StickyNotes => seq![
            MethodId::UiAutomationDocumentText,
            MethodId::WebKeyboardSelection,
            MethodId::UiAutomationEditableText,
            MethodId::UiAutomationText,
        ],
        SurfaceKind::OutlookSearch => seq![MethodId::Win32EditMessages],
        SurfaceKind::OutlookWordEditor => seq![MethodId::WordCom],
        SurfaceKind::OutlookShell => seq![MethodId::Win32EditMessages, MethodId::WordCom],
        SurfaceKind::WordEditor => seq![
            MethodId::WordCom,
            MethodId::UiAutomationEditableText,
            MethodId::UiAutomationDocumentText,
            MethodId::UiAutomationText,
        ],
        SurfaceKind::ExcelCellEditor => seq![MethodId::WebKeyboardSelection],
        SurfaceKind::Unknown => spec_conservative_unknown_methods(),
    }
}

/// The methods of `spec_all_method_ids` that `keep` does not hold, in order.
pub open spec fn spec_all_except(keep: Seq<MethodId>) -> Seq<MethodId> {
    spec_all_method_ids().filter(|m: MethodId| !keep.contains(m))
}

/// The forbidden methods of each surface.
pub open spec fn spec_forbidden_methods(kind: SurfaceKind) -> Seq<MethodId> {
    match kind {
        SurfaceKind::Win32Edit => seq![],
        SurfaceKind::NotepadLike => seq![
            MethodId::TerminalClipboardShortcut,
            MethodId::ClipboardSelection,
            MethodId::SendInput,
        ],
        SurfaceKind::ClassicConsole => seq![MethodId::TerminalClipboardShortcut],
        SurfaceKind::WindowsTerminalCmd => seq![MethodId::PsReadLine],
        SurfaceKind::QwenTerminal => seq![
            MethodId::PsReadLine,
            MethodId::TerminalClipboardShortcut,
        ],
        SurfaceKind::WindowsTerminalPowerShell => seq![MethodId::TerminalClipboardShortcut],
        SurfaceKind::BrowserEditor | SurfaceKind::FastBrowserEditor
        | SurfaceKind::RocketChatEditor => seq![
            MethodId::Win32EditMessages,
            MethodId::UiAutomationDocumentText,
            MethodId::UiAutomationText,
            MethodId::TerminalClipboardShortcut,
            MethodId::ClipboardSelection,
            MethodId::SendInput,
        ],
        SurfaceKind::YandexBrowserEditor | SurfaceKind::TelegramDesktop => seq![
            MethodId::Win32EditMessages,
            MethodId::UiAutomationText,
            MethodId::TerminalClipboardShortcut,
            MethodId::ClipboardSelection,
            MethodId::SendInput,
        ],
        SurfaceKind::StickyNotes => seq![
            MethodId::Win32EditMessages,
            MethodId::TerminalClipboardShortcut,
            MethodId::ClipboardSelection,
            MethodId::SendInput,
        ],
        SurfaceKind::OutlookSearch | SurfaceKind::OutlookShell => seq![
            MethodId::UiAutomationEditableText,
            MethodId::UiAutomationDocumentText,
            MethodId::UiAutomationText,
            MethodId::TerminalClipboardShortcut,
            MethodId::ClipboardSelection,
            MethodId::SendInput,
        ],
        SurfaceKind::OutlookWordEditor | SurfaceKind::ExcelCellEditor => seq![
            MethodId::Win32EditMessages,
            MethodId::UiAutomationEditableText,
            MethodId::UiAutomationDocumentText,
            MethodId::UiAutomationText,
            MethodId::TerminalClipboardShortcut,
            MethodId::ClipboardSelection,
            MethodId::SendInput,
        ],
        SurfaceKind::WordEditor => seq![
            MethodId::Win32EditMessages,
            MethodId::TerminalClipboardShortcut,
            MethodId::ClipboardSelection,
        ],
        SurfaceKind::Unknown => spec_all_except(spec_conservative_unknown_methods()),
    }
}

/// The surface policy of each kind.
pub open spec fn spec_surface_policy(kind: SurfaceKind) -> SurfacePolicyView {
    let prefs = PreferencesView {
        context_methods: spec_preferred_methods(kind),
        replace_methods: spec_preferred_methods(kind),
    };
    SurfacePolicyView {
        surface: kind,
        pause_methods: prefs,
        scrolllock_methods: prefs,
        forbidden_methods: spec_forbidden_methods(kind),
        allow_risky_methods: kind == SurfaceKind::WindowsTerminalCmd,
    }
}

/// The order in which the policy tables list the surfaces.
pub open spec fn spec_policy_order() -> Seq<SurfaceKind> {
    seq![
        SurfaceKind::Win32Edit,
        SurfaceKind::NotepadLike,
        SurfaceKind::ClassicConsole,
        SurfaceKind::WindowsTerminalCmd,
        SurfaceKind::QwenTerminal,
        SurfaceKind::WindowsTerminalPowerShell,
        SurfaceKind::BrowserEditor,
        SurfaceKind::FastBrowserEditor,
        SurfaceKind::RocketChatEditor,
        SurfaceKind::YandexBrowserEditor,
        SurfaceKind::TelegramDesktop,
        SurfaceKind::StickyNotes,
        SurfaceKind::OutlookSearch,
        SurfaceKind::OutlookWordEditor,
        SurfaceKind::OutlookShell,
        SurfaceKind::WordEditor,
        SurfaceKind::ExcelCellEditor,
        SurfaceKind::Unknown,
    ]
}

/// The default surface policy table.
pub open spec fn spec_default_surface_policies() -> Seq<SurfacePolicyView> {
    spec_policy_order().map_values(|k: SurfaceKind| spec_surface_policy(k))
}

/// The methods probed on each surface.
pub open spec fn spec_probe_methods(kind: SurfaceKind, diagnostic_unknown_probes: bool) -> Seq<
    MethodId,
> {
    match kind {
        SurfaceKind::TelegramDesktop => seq![
            MethodId::WebKeyboardSelection,
            MethodId::UiAutomationEditableText,
        ],
        SurfaceKind::OutlookWordEditor | SurfaceKind::WordEditor => seq![MethodId::WordCom],
        SurfaceKind::Unknown => if diagnostic_unknown_probes {
            spec_all_method_ids()
        } else {
            spec_conservative_unknown_methods()
        },
        _ => spec_preferred_methods(kind),
    }
}

/// The probe policy of each kind.
pub open spec fn spec_probe_policy(kind: SurfaceKind, diagnostic_unknown_probes: bool) -> ProbePolicyView {
    ProbePolicyView {
        surface: kind,
        probe_methods: spec_probe_methods(kind, diagnostic_unknown_probes),
        suppressed_methods: spec_all_except(spec_probe_methods(kind, diagnostic_unknown_probes)),
        fast_probe: kind == SurfaceKind::FastBrowserEditor || kind == SurfaceKind::RocketChatEditor,
    }
}

/// The default probe policy table.
pub open spec fn spec_default_probe_policies(diagnostic_unknown_probes: bool) -> Seq<ProbePolicyView> {
    spec_policy_order().map_values(|k: SurfaceKind| spec_probe_policy(k, diagnostic_unknown_probes))
}

// ---------------------------------------------------------------------
// Building the tables.
// ---------------------------------------------------------------------

/// The order in which the policy tables list the surfaces.
pub fn policy_order() -> (r: Vec<SurfaceKind>)
    ensures
        r@ == spec_policy_order(),
{
    let r = vec![
        SurfaceKind::Win32Edit,
        SurfaceKind::NotepadLike,
        SurfaceKind::ClassicConsole,
        SurfaceKind::WindowsTerminalCmd,
        SurfaceKind::QwenTerminal,
        SurfaceKind::WindowsTerminalPowerShell,
        SurfaceKind::BrowserEditor,
        SurfaceKind::FastBrowserEditor,
        SurfaceKind::RocketChatEditor,
        SurfaceKind::YandexBrowserEditor,
        SurfaceKind::TelegramDesktop,
        SurfaceKind::StickyNotes,
        SurfaceKind::OutlookSearch,
        SurfaceKind::OutlookWordEditor,
        SurfaceKind::OutlookShell,
        SurfaceKind::WordEditor,
        SurfaceKind::ExcelCellEditor,
        SurfaceKind::Unknown,
    ];
    assert(r@ == spec_policy_order());
    r
}

/// The fallback methods of unrecognised surfaces.
fn conservative_unknown_methods() -> (r: Vec<MethodId>)
    ensures
        r@ == spec_conservative_unknown_methods(),
{
    let r = vec![
        MethodId::UiAutomationEditableText,
        MethodId::UiAutomationDocumentText,
        MethodId::UiAutomationText,
    ];
    assert(r@ == spec_conservative_unknown_methods());
    r
}

/// The methods of the full method list that `keep` does not hold, in order.
pub fn all_methods_except(keep: &[MethodId]) -> (r: Vec<MethodId>)
    ensures
        r@ == spec_all_except(keep@),
{
    let all = all_method_ids();
    let mut r: Vec<MethodId> = Vec::new();
    let mut i: usize = 0;
    let ghost pred = |m: MethodId| !keep@.contains(m);
    while i < all.len()
        invariant
            i <= all.len(),
            all@ == spec_all_method_ids(),
            r@ == all@.take(i as int).filter(pred),
            pred == (|m: MethodId| !keep@.contains(m)),
        decreases all.len() - i,
    {
        let m = all[i];
        proof {
            reveal_with_fuel(Seq::<_>::filter, 1);
            assert(all@.take(i + 1).drop_last() == all@.take(i as int));
        }
        if !contains_method(keep, m) {
            r.push(m);
        }
        i += 1;
    }
    assert(all@.take(all.len() as int) == all@);
    r
}

/// The preferred methods of a surface.
fn preferred_methods(kind: SurfaceKind) -> (r: Vec<MethodId>)
    ensures
        r@ == spec_preferred_methods(kind),
{
    let r = match kind {
        SurfaceKind::Win32Edit => vec![MethodId::Win32EditMessages],
        SurfaceKind::NotepadLike => vec![
            MethodId::Win32EditMessages,
            MethodId::WebKeyboardSelection,
            MethodId::UiAutomationEditableText,
            MethodId::UiAutomationDocumentText,
            MethodId::UiAutomationText,
        ],
        SurfaceKind::ClassicConsole => vec![MethodId::ConsoleBuffer],
        SurfaceKind::WindowsTerminalCmd => vec![MethodId::TerminalClipboardShortcut],
        SurfaceKind::QwenTerminal => vec![MethodId::XtermKeyboardSelection],
        SurfaceKind::WindowsTerminalPowerShell => vec![MethodId::PsReadLine],
        SurfaceKind::BrowserEditor | SurfaceKind::FastBrowserEditor => vec![
            MethodId::WebKeyboardSelection,
            MethodId::UiAutomationEditableText,
        ],
        SurfaceKind::RocketChatEditor => vec![
            MethodId::UiAutomationEditableText,
            MethodId::WebKeyboardSelection,
        ],
        SurfaceKind::YandexBrowserEditor => vec![
            MethodId::WebKeyboardSelection,
            MethodId::UiAutomationDocumentText,
            MethodId::UiAutomationEditableText,
        ],
        SurfaceKind::TelegramDesktop => vec![
            MethodId::WebKeyboardSelection,
            MethodId::UiAutomationEditableText,
            MethodId::UiAutomationDocumentText,
        ],
        SurfaceKind::StickyNotes => vec![
            MethodId::UiAutomationDocumentText,
            MethodId::WebKeyboardSelection,
            MethodId::UiAutomationEditableText,
            MethodId::UiAutomationText,
        ],
        SurfaceKind::OutlookSearch => vec![MethodId::Win32EditMessages],
        SurfaceKind::OutlookWordEditor => vec![MethodId::WordCom],
        SurfaceKind::OutlookShell => vec![MethodId::Win32EditMessages, MethodId::WordCom],
        SurfaceKind::WordEditor => vec![
            MethodId::WordCom,
            MethodId::UiAutomationEditableText,
            MethodId::UiAutomationDocumentText,
            MethodId::UiAutomationText,
        ],
        SurfaceKind::ExcelCellEditor => vec![MethodId::WebKeyboardSelection],
        SurfaceKind::Unknown => conservative_unknown_methods(),
    };
    assert(r@ == spec_preferred_methods(kind));
    r
}

/// The forbidden methods of a surface.
fn forbidden_methods(kind: SurfaceKind) -> (r: Vec<MethodId>)
    ensures
        r@ == spec_forbidden_methods(kind),
{
    let r = match kind {
        SurfaceKind::Win32Edit => vec![],
        SurfaceKind::NotepadLike => vec![
            MethodId::TerminalClipboardShortcut,
            MethodId::ClipboardSelection,
            MethodId::SendInput,
        ],
        SurfaceKind::ClassicConsole => vec![MethodId::TerminalClipboardShortcut],
        SurfaceKind::WindowsTerminalCmd => vec![MethodId::PsReadLine],
        SurfaceKind::QwenTerminal => vec![
            MethodId::PsReadLine,
            MethodId::TerminalClipboardShortcut,
        ],
        SurfaceKind::WindowsTerminalPowerShell => vec![MethodId::TerminalClipboardShortcut],
        SurfaceKind::BrowserEditor | SurfaceKind::FastBrowserEditor
        | SurfaceKind::RocketChatEditor => vec![
            MethodId::Win32EditMessages,
            MethodId::UiAutomationDocumentText,
            MethodId::UiAutomationText,
            MethodId::TerminalClipboardShortcut,
            MethodId::ClipboardSelection,
            MethodId::SendInput,
        ],
        SurfaceKind::YandexBrowserEditor | SurfaceKind::TelegramDesktop => vec![
            MethodId::Win32EditMessages,
            MethodId::UiAutomationText,
            MethodId::TerminalClipboardShortcut,
            MethodId::ClipboardSelection,
            MethodId::SendInput,
        ],
        SurfaceKind::StickyNotes => vec![
            MethodId::Win32EditMessages,
            MethodId::TerminalClipboardShortcut,
            MethodId::ClipboardSelection,
            MethodId::SendInput,
        ],
        SurfaceKind::OutlookSearch | SurfaceKind::OutlookShell => vec![
            MethodId::UiAutomationEditableText,
            MethodId::UiAutomationDocumentText,
            MethodId::UiAutomationText,
            MethodId::TerminalClipboardShortcut,
            MethodId::ClipboardSelection,
            MethodId::SendInput,
        ],
        SurfaceKind::OutlookWordEditor | SurfaceKind::ExcelCellEditor => vec![
            MethodId::Win32EditMessages,
            MethodId::UiAutomationEditableText,
            MethodId::UiAutomationDocumentText,
            MethodId::UiAutomationText,
            MethodId::TerminalClipboardShortcut,
            MethodId::ClipboardSelection,
            MethodId::SendInput,
        ],
        SurfaceKind::WordEditor => vec![
            MethodId::Win32EditMessages,
            MethodId::TerminalClipboardShortcut,
            MethodId::ClipboardSelection,
        ],
        SurfaceKind::Unknown => {
            let keep = conservative_unknown_methods();
            all_methods_except(&keep)
        },
    };
    assert(r@ == spec_forbidden_methods(kind));
    r
}

/// Preferences with the same list for context and replacement.
fn same_preferences(methods: Vec<MethodId>) -> (r: MethodPreferences)
    ensures
        r.context_methods@ == methods@,
        r.replace_methods@ == methods@,
{
    MethodPreferences { context_methods: methods.clone(), replace_methods: methods }
}

/// Preferences with distinct context and replacement lists.
pub fn split_preferences(context_methods: Vec<MethodId>, replace_methods: Vec<MethodId>) -> (r:
    MethodPreferences)
    ensures
        r.context_methods@ == context_methods@,
        r.replace_methods@ == replace_methods@,
{
    MethodPreferences { context_methods, replace_methods }
}

/// The built-in policy of one surface kind.
fn policy_entry(kind: SurfaceKind) -> (r: SurfacePolicy)
    ensures
        r@ == spec_surface_policy(kind),
{
    SurfacePolicy {
        surface: kind,
        pause_methods: same_preferences(preferred_methods(kind)),
        scrolllock_methods: same_preferences(preferred_methods(kind)),
        forbidden_methods: forbidden_methods(kind),
        allow_risky_methods: kind == SurfaceKind::WindowsTerminalCmd,
    }
}

/// The policy for surfaces that nothing recognises: only the UI Automation
/// methods, everything else forbidden, no risky methods.
pub fn default_surface_policy() -> (r: SurfacePolicy)
    ensures
        r@ == spec_surface_policy(SurfaceKind::Unknown),
{
    policy_entry(SurfaceKind::Unknown)
}

/// Same as `default_surface_policy`.
pub fn default_app_policy() -> (r: SurfacePolicy)
    ensures
        r@ == spec_surface_policy(SurfaceKind::Unknown),
{
    default_surface_policy()
}

/// The built-in surface policy table, one entry per surface kind.
pub fn default_surface_policies() -> (r: Vec<SurfacePolicy>)
    ensures
        policy_views(r@) == spec_default_surface_policies(),
{
    let order = policy_order();
    let mut r: Vec<SurfacePolicy> = Vec::new();
    let mut i: usize = 0;
    while i < order.len()
        invariant
            i <= order.len(),
            order@ == spec_policy_order(),
            r@.len() == i,
            forall|j: int| 0 <= j < i ==> (#[trigger] r@[j])@ == spec_surface_policy(order@[j]),
        decreases order.len() - i,
    {
        r.push(policy_entry(order[i]));
        i += 1;
    }
    assert(policy_views(r@) =~= spec_default_surface_policies());
    r
}

/// Same as `default_surface_policies`.
pub fn default_app_policies() -> (r: Vec<SurfacePolicy>)
    ensures
        policy_views(r@) == spec_default_surface_policies(),
{
    default_surface_policies()
}

/// The built-in policy of one probe kind.
fn probe_policy(surface: SurfaceKind, probe_methods: Vec<MethodId>, fast_probe: bool) -> (r:
    ProbePolicy)
    ensures
        r.surface == surface,
        r.probe_methods@ == probe_methods@,
        r.suppressed_methods@ == spec_all_except(probe_methods@),
        r.fast_probe == fast_probe,
{
    let suppressed_methods = all_methods_except(&probe_methods);
    ProbePolicy { surface, probe_methods, suppressed_methods, fast_probe }
}

/// The methods probed on a surface.
fn probe_methods(kind: SurfaceKind, diagnostic_unknown_probes: bool) -> (r: Vec<MethodId>)
    ensures
        r@ == spec_probe_methods(kind, diagnostic_unknown_probes),
{
    match kind {
        SurfaceKind::TelegramDesktop => {
            let r = vec![MethodId::WebKeyboardSelection, MethodId::UiAutomationEditableText];
            assert(r@ == spec_probe_methods(kind, diagnostic_unknown_probes));
            r
        },
        SurfaceKind::OutlookWordEditor | SurfaceKind::WordEditor => {
            let r = vec![MethodId::WordCom];
            assert(r@ == spec_probe_methods(kind, diagnostic_unknown_probes));
            r
        },
        SurfaceKind::Unknown => if diagnostic_unknown_probes {
            all_method_ids()
        } else {
            conservative_unknown_methods()
        },
        _ => preferred_methods(kind),
    }
}

/// The built-in probe policy of a surface kind.
///
/// `diagnostic_unknown_probes` is the diagnostic switch that lets
/// unrecognised surfaces probe every method.
pub fn probe_policy_for(kind: SurfaceKind, diagnostic_unknown_probes: bool) -> (r: ProbePolicy)
    ensures
        r@ == spec_probe_policy(kind, diagnostic_unknown_probes),
{
    probe_policy(
        kind,
        probe_methods(kind, diagnostic_unknown_probes),
        kind == SurfaceKind::FastBrowserEditor || kind == SurfaceKind::RocketChatEditor,
    )
}

/// The built-in probe policy table, one entry per surface kind.
pub fn default_probe_policies(diagnostic_unknown_probes: bool) -> (r: Vec<ProbePolicy>)
    ensures
        probe_policy_views(r@) == spec_default_probe_policies(diagnostic_unknown_probes),
{
    let order = policy_order();
    let mut r: Vec<ProbePolicy> = Vec::new();
    let mut i: usize = 0;
    while i < order.len()
        invariant
            i <= order.len(),
            order@ == spec_policy_order(),
            r@.len() == i,
            forall|j: int|
                0 <= j < i ==> (#[trigger] r@[j])@ == spec_probe_policy(
                    order@[j],
                    diagnostic_unknown_probes,
                ),
        decreases order.len() - i,
    {
        r.push(probe_policy_for(order[i], diagnostic_unknown_probes));
        i += 1;
    }
    assert(probe_policy_views(r@) =~= spec_default_probe_policies(diagnostic_unknown_probes));
    r
}

/// The surface policy of a surface kind, as the default table lists it.
pub fn surface_policy_for(kind: SurfaceKind) -> (r: SurfacePolicy)
    ensures
        r@ == spec_surface_policy(kind),
{
    policy_entry(kind)
}

} // verus!

verus! {

// ---------------------------------------------------------------------
// Classification.
// ---------------------------------------------------------------------

pub open spec fn cv(kind: SurfaceKind, confidence: u8, evidence: Seq<Seq<char>>) -> ClassificationView {
    ClassificationView { kind, confidence, evidence }
}

/// The classification of a target with the given facts; the first rule
/// that applies decides.
pub open spec fn spec_classify(f: TargetFacts) -> ClassificationView {
    if f.is_classic_console {
        cv(SurfaceKind::ClassicConsole, 100, seq!["app_class=ConsoleWindowClass"@, "focused_class=ConsoleWindowClass"@])
    } else if f.is_outlook_search_edit {
        cv(SurfaceKind::OutlookSearch, 100, seq!["process=OUTLOOK"@, "focused_class=Edit"@])
    } else if f.is_outlook_word_editor {
        cv(SurfaceKind::OutlookWordEditor, 100, seq!["process=OUTLOOK"@, "focused_class=_WwG"@])
    } else if f.is_outlook_process || f.is_outlook_app_class {
        cv(SurfaceKind::OutlookShell, 90, seq!["process=OUTLOOK or app_class=rctrl_renwnd32"@])
    } else if f.is_word_process || f.is_word_app_class {
        cv(SurfaceKind::WordEditor, 95, seq!["process=WINWORD or app_class=OpusApp"@])
    } else if f.is_excel_cell_editor {
        cv(SurfaceKind::ExcelCellEditor, 100, seq!["app_class=XLMAIN"@, "focused_class=EXCEL6"@])
    } else if f.is_win32_edit {
        cv(SurfaceKind::Win32Edit, 95, seq!["focused_class=Edit"@])
    } else if f.is_notepad_like {
        cv(SurfaceKind::NotepadLike, 90, seq!["notepad-like app/process/title"@])
    } else if f.is_sticky_notes {
        cv(SurfaceKind::StickyNotes, 95, seq!["Sticky Notes title/process/app frame"@])
    } else if f.is_windows_terminal && f.is_windows_terminal_cmd_title {
        cv(SurfaceKind::WindowsTerminalCmd, 100, seq!["windows terminal"@, "title contains cmd.exe"@])
    } else if f.is_windows_terminal && f.is_qwen_terminal_title_or_marker {
        cv(SurfaceKind::QwenTerminal, 100, seq!["windows terminal"@, "title/marker indicates qwen"@])
    } else if f.is_windows_terminal {
        cv(SurfaceKind::WindowsTerminalPowerShell, 90, seq!["windows terminal default local shell"@])
    } else if f.is_telegram_process || f.is_telegram_classifier_class {
        cv(SurfaceKind::TelegramDesktop, 95, seq!["process=Telegram or Qt window"@])
    } else if f.is_whatsapp_desktop {
        cv(SurfaceKind::BrowserEditor, 95, seq!["WhatsApp Desktop WinUI Chromium host"@])
    } else if f.is_browser_editor_class && f.is_rocket_chat {
        cv(SurfaceKind::RocketChatEditor, 98, seq!["browser/electron editor class"@, "Rocket.Chat title/process"@])
    } else if f.is_browser_editor_class && f.is_fast_browser_title {
        cv(SurfaceKind::FastBrowserEditor, 96, seq!["browser/electron editor class"@, "known fast browser editor title/process"@])
    } else if f.is_yandex_browser_widget_class {
        cv(SurfaceKind::YandexBrowserEditor, 95, seq!["app_class=Chrome_Yandex_WidgetWin*"@])
    } else if f.is_browser_editor_class {
        cv(SurfaceKind::BrowserEditor, 90, seq!["browser/electron editor class"@])
    } else {
        cv(SurfaceKind::Unknown, 10, seq!["no explicit surface match"@])
    }
}

/// The classification of a target.
pub open spec fn spec_classify_surface(t: ForegroundTarget) -> ClassificationView {
    spec_classify(spec_target_facts(t))
}

/// The owned copies of string slices.
pub fn owned_strings(v: &[&str]) -> (r: Vec<String>)
    ensures
        string_views(r@) == v@.map_values(|s: &str| s@),
{
    let mut r: Vec<String> = Vec::new();
    let mut i: usize = 0;
    while i < v.len()
        invariant
            i <= v.len(),
            r@.len() == i,
            forall|j: int| 0 <= j < i ==> (#[trigger] r@[j])@ == v@[j]@,
        decreases v.len() - i,
    {
        r.push(v[i].to_owned());
        i += 1;
    }
    assert(string_views(r@) =~= v@.map_values(|s: &str| s@));
    r
}

fn surface(kind: SurfaceKind, confidence: u8, evidence: &[&str]) -> (r: SurfaceClassification)
    ensures
        r@ == cv(kind, confidence, evidence@.map_values(|s: &str| s@)),
{
    SurfaceClassification { kind, confidence, evidence: owned_strings(evidence) }
}

/// Classifies the surface of a target from its facts.
pub fn classify_surface(target: &ForegroundTarget) -> (r: SurfaceClassification)
    ensures
        r@ == spec_classify_surface(*target),
{
    let facts = target_facts(target);
    classify_facts(&facts)
}

/// Classifies a surface from already computed facts.
pub fn classify_facts(facts: &TargetFacts) -> (r: SurfaceClassification)
    ensures
        r@ == spec_classify(*facts),
{
    if facts.is_classic_console {
        let e = ["app_class=ConsoleWindowClass", "focused_class=ConsoleWindowClass"];
        let r = surface(SurfaceKind::ClassicConsole, 100, &e);
        assert(e@.map_values(|s: &str| s@) =~= seq!["app_class=ConsoleWindowClass"@, "focused_class=ConsoleWindowClass"@]);
        return r;
    }
    if facts.is_outlook_search_edit {
        let e = ["process=OUTLOOK", "focused_class=Edit"];
        let r = surface(SurfaceKind::OutlookSearch, 100, &e);
        assert(e@.map_values(|s: &str| s@) =~= seq!["process=OUTLOOK"@, "focused_class=Edit"@]);
        return r;
    }
    if facts.is_outlook_word_editor {
        let e = ["process=OUTLOOK", "focused_class=_WwG"];
        let r = surface(SurfaceKind::OutlookWordEditor, 100, &e);
        assert(e@.map_values(|s: &str| s@) =~= seq!["process=OUTLOOK"@, "focused_class=_WwG"@]);
        return r;
    }
    if facts.is_outlook_process || facts.is_outlook_app_class {
        let e = ["process=OUTLOOK or app_class=rctrl_renwnd32"];
        let r = surface(SurfaceKind::OutlookShell, 90, &e);
        assert(e@.map_values(|s: &str| s@) =~= seq!["process=OUTLOOK or app_class=rctrl_renwnd32"@]);
        return r;
    }
    if facts.is_word_process || facts.is_word_app_class {
        let e = ["process=WINWORD or app_class=OpusApp"];
        let r = surface(SurfaceKind::WordEditor, 95, &e);
        assert(e@.map_values(|s: &str| s@) =~= seq!["process=WINWORD or app_class=OpusApp"@]);
        return r;
    }
    if facts.is_excel_cell_editor {
        let e = ["app_class=XLMAIN", "focused_class=EXCEL6"];
        let r = surface(SurfaceKind::ExcelCellEditor, 100, &e);
        assert(e@.map_values(|s: &str| s@) =~= seq!["app_class=XLMAIN"@, "focused_class=EXCEL6"@]);
        return r;
    }
    if facts.is_win32_edit {
        let e = ["focused_class=Edit"];
        let r = surface(SurfaceKind::Win32Edit, 95, &e);
        assert(e@.map_values(|s: &str| s@) =~= seq!["focused_class=Edit"@]);
        return r;
    }
    if facts.is_notepad_like {
        let e = ["notepad-like app/process/title"];
        let r = surface(SurfaceKind::NotepadLike, 90, &e);
        assert(e@.map_values(|s: &str| s@) =~= seq!["notepad-like app/process/title"@]);
        return r;
    }
    if facts.is_sticky_notes {
        let e = ["Sticky Notes title/process/app frame"];
        let r = surface(SurfaceKind::StickyNotes, 95, &e);
        assert(e@.map_values(|s: &str| s@) =~= seq!["Sticky Notes title/process/app frame"@]);
        return r;
    }
    if facts.is_windows_terminal {
        if facts.is_windows_terminal_cmd_title {
            let e = ["windows terminal", "title contains cmd.exe"];
            let r = surface(SurfaceKind::WindowsTerminalCmd, 100, &e);
            assert(e@.map_values(|s: &str| s@) =~= seq!["windows terminal"@, "title contains cmd.exe"@]);
            return r;
        }
        if facts.is_qwen_terminal_title_or_marker {
            let e = ["windows terminal", "title/marker indicates qwen"];
            let r = surface(SurfaceKind::QwenTerminal, 100, &e);
            assert(e@.map_values(|s: &str| s@) =~= seq!["windows terminal"@, "title/marker indicates qwen"@]);
            return r;
        }
        let e = ["windows terminal default local shell"];
        let r = surface(SurfaceKind::WindowsTerminalPowerShell, 90, &e);
        assert(e@.map_values(|s: &str| s@) =~= seq!["windows terminal default local shell"@]);
        return r;
    }
    if facts.is_telegram_process || facts.is_telegram_classifier_class {
        let e = ["process=Telegram or Qt window"];
        let r = surface(SurfaceKind::TelegramDesktop, 95, &e);
        assert(e@.map_values(|s: &str| s@) =~= seq!["process=Telegram or Qt window"@]);
        return r;
    }
    if facts.is_whatsapp_desktop {
        let e = ["WhatsApp Desktop WinUI Chromium host"];
        let r = surface(SurfaceKind::BrowserEditor, 95, &e);
        assert(e@.map_values(|s: &str| s@) =~= seq!["WhatsApp Desktop WinUI Chromium host"@]);
        return r;
    }
    if facts.is_browser_editor_class && facts.is_rocket_chat {
        let e = ["browser/electron editor class", "Rocket.Chat title/process"];
        let r = surface(SurfaceKind::RocketChatEditor, 98, &e);
        assert(e@.map_values(|s: &str| s@) =~= seq!["browser/electron editor class"@, "Rocket.Chat title/process"@]);
        return r;
    }
    if facts.is_browser_editor_class && facts.is_fast_browser_title {
        let e = ["browser/electron editor class", "known fast browser editor title/process"];
        let r = surface(SurfaceKind::FastBrowserEditor, 96, &e);
        assert(e@.map_values(|s: &str| s@) =~= seq!["browser/electron editor class"@, "known fast browser editor title/process"@]);
        return r;
    }
    if facts.is_yandex_browser_widget_class {
        let e = ["app_class=Chrome_Yandex_WidgetWin*"];
        let r = surface(SurfaceKind::YandexBrowserEditor, 95, &e);
        assert(e@.map_values(|s: &str| s@) =~= seq!["app_class=Chrome_Yandex_WidgetWin*"@]);
        return r;
    }
    if facts.is_browser_editor_class {
        let e = ["browser/electron editor class"];
        let r = surface(SurfaceKind::BrowserEditor, 90, &e);
        assert(e@.map_values(|s: &str| s@) =~= seq!["browser/electron editor class"@]);
        return r;
    }
    let e = ["no explicit surface match"];
    let r = surface(SurfaceKind::Unknown, 10, &e);
    assert(e@.map_values(|s: &str| s@) =~= seq!["no explicit surface match"@]);
    r
}

/// Risky methods run only where the surface explicitly allows them: the
/// terminal clipboard shortcut inside a Windows Terminal cmd tab.
pub open spec fn spec_surface_allows_risky_method(kind: SurfaceKind, method: MethodId) -> bool {
    kind == SurfaceKind::WindowsTerminalCmd && method == MethodId::TerminalClipboardShortcut
}

/// Explicit per-surface allowance for a risky method.
pub fn surface_allows_risky_method(kind: SurfaceKind, method: MethodId) -> (r: bool)
    ensures
        r == spec_surface_allows_risky_method(kind, method),
{
    kind == SurfaceKind::WindowsTerminalCmd && method == MethodId::TerminalClipboardShortcut
}

/// The web keyboard profile of each surface.
pub open spec fn spec_web_keyboard_profile(kind: SurfaceKind) -> WebKeyboardProfile {
    match kind {
        SurfaceKind::RocketChatEditor => WebKeyboardProfile::RocketSearch,
        SurfaceKind::FastBrowserEditor => WebKeyboardProfile::Fast,
        _ => WebKeyboardProfile::Standard,
    }
}

/// Rocket.Chat editors use the rocket search profile, known fast web
/// editors the fast profile, everything else the standard profile.
pub fn web_keyboard_profile_for_surface(kind: SurfaceKind) -> (r: WebKeyboardProfile)
    ensures
        r == spec_web_keyboard_profile(kind),
{
    match kind {
        SurfaceKind::RocketChatEditor => WebKeyboardProfile::RocketSearch,
        SurfaceKind::FastBrowserEditor => WebKeyboardProfile::Fast,
        _ => WebKeyboardProfile::Standard,
    }
}

/// The surface uses a non-standard (fast) web keyboard profile.
pub fn surface_uses_fast_web_keyboard(kind: SurfaceKind) -> (r: bool)
    ensures
        r == (spec_web_keyboard_profile(kind) != WebKeyboardProfile::Standard),
{
    web_keyboard_profile_for_surface(kind) != WebKeyboardProfile::Standard
}

/// The surface uses the rocket search web keyboard profile.
pub fn surface_uses_rocket_web_keyboard(kind: SurfaceKind) -> (r: bool)
    ensures
        r == (spec_web_keyboard_profile(kind) == WebKeyboardProfile::RocketSearch),
{
    web_keyboard_profile_for_surface(kind) == WebKeyboardProfile::RocketSearch
}

/// The probe plan of a target: its classification and its surface's
/// probe policy.
pub fn probe_plan_for(target: &ForegroundTarget, diagnostic_unknown_probes: bool) -> (r: ProbePlan)
    ensures
        r.surface@ == spec_classify_surface(*target),
        r.probe_methods@ == spec_probe_policy(spec_classify_surface(*target).kind, diagnostic_unknown_probes).probe_methods,
        r.suppressed_methods@ == spec_probe_policy(spec_classify_surface(*target).kind, diagnostic_unknown_probes).suppressed_methods,
        r.fast_probe == spec_probe_policy(spec_classify_surface(*target).kind, diagnostic_unknown_probes).fast_probe,
{
    let surface = classify_surface(target);
    let policy = probe_policy_for(surface.kind, diagnostic_unknown_probes);
    ProbePlan {
        surface,
        probe_methods: policy.probe_methods,
        suppressed_methods: policy.suppressed_methods,
        fast_probe: policy.fast_probe,
    }
}

} // verus!

verus! {

/// The name of a surface kind, as its `Debug` form prints it.
pub open spec fn spec_kind_name(kind: SurfaceKind) -> Seq<char> {
    match kind {
        SurfaceKind::Win32Edit => "Win32Edit"@,
        SurfaceKind::NotepadLike => "NotepadLike"@,
        SurfaceKind::ClassicConsole => "ClassicConsole"@,
        SurfaceKind::WindowsTerminalCmd => "WindowsTerminalCmd"@,
        SurfaceKind::WindowsTerminalPowerShell => "WindowsTerminalPowerShell"@,
        SurfaceKind::QwenTerminal => "QwenTerminal"@,
        SurfaceKind::BrowserEditor => "BrowserEditor"@,
        SurfaceKind::FastBrowserEditor => "FastBrowserEditor"@,
        SurfaceKind::RocketChatEditor => "RocketChatEditor"@,
        SurfaceKind::YandexBrowserEditor => "YandexBrowserEditor"@,
        SurfaceKind::TelegramDesktop => "TelegramDesktop"@,
        SurfaceKind::StickyNotes => "StickyNotes"@,
        SurfaceKind::OutlookSearch => "OutlookSearch"@,
        SurfaceKind::OutlookWordEditor => "OutlookWordEditor"@,
        SurfaceKind::OutlookShell => "OutlookShell"@,
        SurfaceKind::WordEditor => "WordEditor"@,
        SurfaceKind::ExcelCellEditor => "ExcelCellEditor"@,
        SurfaceKind::Unknown => "Unknown"@,
    }
}

/// The name of a surface kind.
pub fn kind_name(kind: SurfaceKind) -> (r: &'static str)
    ensures
        r@ == spec_kind_name(kind),
{
    match kind {
        SurfaceKind::Win32Edit => "Win32Edit",
        SurfaceKind::NotepadLike => "NotepadLike",
        SurfaceKind::ClassicConsole => "ClassicConsole",
        SurfaceKind::WindowsTerminalCmd => "WindowsTerminalCmd",
        SurfaceKind::WindowsTerminalPowerShell => "WindowsTerminalPowerShell",
        SurfaceKind::QwenTerminal => "QwenTerminal",
        SurfaceKind::BrowserEditor => "BrowserEditor",
        SurfaceKind::FastBrowserEditor => "FastBrowserEditor",
        SurfaceKind::RocketChatEditor => "RocketChatEditor",
        SurfaceKind::YandexBrowserEditor => "YandexBrowserEditor",
        SurfaceKind::TelegramDesktop => "TelegramDesktop",
        SurfaceKind::StickyNotes => "StickyNotes",
        SurfaceKind::OutlookSearch => "OutlookSearch",
        SurfaceKind::OutlookWordEditor => "OutlookWordEditor",
        SurfaceKind::OutlookShell => "OutlookShell",
        SurfaceKind::WordEditor => "WordEditor",
        SurfaceKind::ExcelCellEditor => "ExcelCellEditor",
        SurfaceKind::Unknown => "Unknown",
    }
}

/// A window whose own class and focused class are both the console window
/// class (in any ASCII case) is a classic console, whatever its title or
/// process.
pub proof fn law_console_windows_are_classic_consoles(t: ForegroundTarget)
    requires
        crate::text::eq_ignore_ascii_case(t.app_class@, "ConsoleWindowClass"@),
        crate::text::eq_ignore_ascii_case(t.focused_class@, "ConsoleWindowClass"@),
    ensures
        spec_classify_surface(t).kind == SurfaceKind::ClassicConsole,
        spec_classify_surface(t).confidence == 100,
{
}

} // verus!
