//! Platform-neutral data: foreground targets, errors, clipboard snapshots,
//! method probes and the capability contract of every adapter method.
use vstd::prelude::*;
use crate::model::{CorrectionMode, MethodId, ReplacementPlan, TextContext};
use crate::text::concat;

verus! {

/// Why a platform operation could not be carried out.
#[derive(Debug, Clone, PartialEq, Eq)]
pub enum PlatformError {
    Unsupported,
    UnsupportedControl { app_class: String, focused_class: String },
    ForegroundUnavailable,
    ClipboardUnavailable,
    HotkeyUnavailable,
    ReplacementUnavailable,
    ReplacementUnavailableReason(String),
    PreflightFailed,
}

/// Identity of the focused control.
#[derive(Debug, Clone, PartialEq, Eq)]
pub struct ForegroundControl {
    pub app_id: String,
    pub window_id: String,
    pub control_id: String,
}

/// What is known of the foreground window and its focused control.
#[derive(Debug, Clone, PartialEq, Eq)]
pub struct ForegroundTarget {
    pub app_class: String,
    pub focused_class: String,
    pub title: String,
    pub process_name: Option<String>,
    pub window_id: String,
    pub control_id: String,
}

/// The key an application is known by: its process name, else its class.
pub open spec fn spec_app_key(target: ForegroundTarget) -> Seq<char> {
    match target.process_name {
        Some(process) => process@,
        None => target.app_class@,
    }
}

impl ForegroundTarget {
    /// The process name when it is known, else the window class.
    pub fn app_key(&self) -> (r: &str)
        ensures
            r@ == spec_app_key(*self),
    {
        match &self.process_name {
            Some(process) => process.as_str(),
            None => self.app_class.as_str(),
        }
    }
}

impl ForegroundControl {
    /// `app_id/window_id/control_id`.
    pub fn key(&self) -> (r: String)
        ensures
            r@ == self.app_id@ + "/"@ + self.window_id@ + "/"@ + self.control_id@,
    {
        let a = concat(self.app_id.as_str(), "/");
        let b = concat(a.as_str(), self.window_id.as_str());
        let c = concat(b.as_str(), "/");
        concat(c.as_str(), self.control_id.as_str())
    }
}

/// The clipboard's content at one moment, all formats included.
#[derive(Debug, Clone, PartialEq, Eq)]
pub struct ClipboardSnapshot {
    pub text: Option<String>,
    pub sequence_number: Option<u32>,
    pub formats: Vec<ClipboardFormatSnapshot>,
}

/// The raw bytes of one clipboard format.
#[derive(Debug, Clone, PartialEq, Eq)]
pub struct ClipboardFormatSnapshot {
    pub format: u32,
    pub bytes: Vec<u8>,
}

/// Outcome of applying a replacement.
#[derive(Debug, Clone, PartialEq, Eq)]
pub struct ApplyReplacementResult {
    pub applied: bool,
    pub actual_before_text: Option<String>,
    pub actual_after_text: Option<String>,
    pub method: String,
    pub retry_count: u32,
}

/// How safe a method is on the current target.
#[derive(Debug, Clone, Copy, PartialEq, Eq, Structural)]
pub enum ProbeSafety {
    Safe,
    Risky,
    Unsupported,
}

/// The answer of one method to "can you handle this target?".
#[derive(Debug, Clone, PartialEq, Eq)]
pub struct MethodProbe {
    pub method_id: MethodId,
    pub safety: ProbeSafety,
    pub confidence: u8,
    pub requires_clipboard: bool,
    pub requires_focus_stability: bool,
    pub can_preflight: bool,
    pub can_verify: bool,
    pub reason: String,
}

impl MethodProbe {
    /// A safe probe: full confidence, verifiable, no clipboard.
    pub fn safe(method_id: MethodId, reason: &str) -> (r: MethodProbe)
        ensures
            r.method_id == method_id,
            r.safety == ProbeSafety::Safe,
            r.confidence == 100,
            !r.requires_clipboard,
            r.requires_focus_stability,
            r.can_preflight,
            r.can_verify,
            r.reason@ == reason@,
    {
        MethodProbe {
            method_id,
            safety: ProbeSafety::Safe,
            confidence: 100,
            requires_clipboard: false,
            requires_focus_stability: true,
            can_preflight: true,
            can_verify: true,
            reason: reason.to_owned(),
        }
    }

    /// A risky probe: half confidence, clipboard needed, not verifiable.
    pub fn risky(method_id: MethodId, reason: &str) -> (r: MethodProbe)
        ensures
            r.method_id == method_id,
            r.safety == ProbeSafety::Risky,
            r.confidence == 50,
            r.requires_clipboard,
            r.requires_focus_stability,
            r.can_preflight,
            !r.can_verify,
            r.reason@ == reason@,
    {
        MethodProbe {
            method_id,
            safety: ProbeSafety::Risky,
            confidence: 50,
            requires_clipboard: true,
            requires_focus_stability: true,
            can_preflight: true,
            can_verify: false,
            reason: reason.to_owned(),
        }
    }

    /// An unsupported probe: zero confidence and no capability.
    pub fn unsupported(method_id: MethodId, reason: &str) -> (r: MethodProbe)
        ensures
            r.method_id == method_id,
            r.safety == ProbeSafety::Unsupported,
            r.confidence == 0,
            !r.requires_clipboard,
            !r.requires_focus_stability,
            !r.can_preflight,
            !r.can_verify,
            r.reason@ == reason@,
    {
        MethodProbe {
            method_id,
            safety: ProbeSafety::Unsupported,
            confidence: 0,
            requires_clipboard: false,
            requires_focus_stability: false,
            can_preflight: false,
            can_verify: false,
            reason: reason.to_owned(),
        }
    }
}

/// What an adapter method can read and write, and at what risk.
#[derive(Debug, Clone, Copy, PartialEq, Eq, Structural)]
pub struct AdapterContract {
    pub method: MethodId,
    pub can_read_selection: bool,
    pub can_read_caret: bool,
    pub can_replace_selection: bool,
    pub can_replace_range_before_caret: bool,
    pub uses_clipboard: bool,
    pub risky: bool,
}

impl AdapterContract {
    /// A contract that allows nothing.
    pub fn new(method: MethodId) -> (r: AdapterContract)
        ensures
            r == spec_contract(method, false, false, false, false, false, false),
    {
        AdapterContract {
            method,
            can_read_selection: false,
            can_read_caret: false,
            can_replace_selection: false,
            can_replace_range_before_caret: false,
            uses_clipboard: false,
            risky: false,
        }
    }

    pub fn read_selection(self) -> (r: AdapterContract)
        ensures
            r == (AdapterContract { can_read_selection: true, ..self }),
    {
        AdapterContract { can_read_selection: true, ..self }
    }

    pub fn read_caret(self) -> (r: AdapterContract)
        ensures
            r == (AdapterContract { can_read_caret: true, ..self }),
    {
        AdapterContract { can_read_caret: true, ..self }
    }

    pub fn replace_selection(self) -> (r: AdapterContract)
        ensures
            r == (AdapterContract { can_replace_selection: true, ..self }),
    {
        AdapterContract { can_replace_selection: true, ..self }
    }

    pub fn replace_range_before_caret(self) -> (r: AdapterContract)
        ensures
            r == (AdapterContract { can_replace_range_before_caret: true, ..self }),
    {
        AdapterContract { can_replace_range_before_caret: true, ..self }
    }

    pub fn clipboard(self) -> (r: AdapterContract)
        ensures
            r == (AdapterContract { uses_clipboard: true, ..self }),
    {
        AdapterContract { uses_clipboard: true, ..self }
    }

    pub fn risky(self) -> (r: AdapterContract)
        ensures
            r == (AdapterContract { risky: true, ..self }),
    {
        AdapterContract { risky: true, ..self }
    }
}

pub open spec fn spec_contract(
    method: MethodId,
    read_selection: bool,
    read_caret: bool,
    replace_selection: bool,
    replace_range: bool,
    clipboard: bool,
    risky: bool,
) -> AdapterContract {
    AdapterContract {
        method,
        can_read_selection: read_selection,
        can_read_caret: read_caret,
        can_replace_selection: replace_selection,
        can_replace_range_before_caret: replace_range,
        uses_clipboard: clipboard,
        risky,
    }
}

/// The capability contract of each method.
pub open spec fn spec_adapter_contract(method: MethodId) -> AdapterContract {
    match method {
        MethodId::TerminalClipboardShortcut => spec_contract(
            method,
            true,
            true,
            true,
            true,
            true,
            true,
        ),
        MethodId::XtermKeyboardSelection | MethodId::WebKeyboardSelection => spec_contract(
            method,
            true,
            true,
            true,
            true,
            true,
            false,
        ),
        MethodId::ClipboardSelection => spec_contract(method, true, false, true, false, true, true),
        MethodId::SendInput => spec_contract(method, false, false, true, false, false, true),
        _ => spec_contract(method, true, true, true, true, false, false),
    }
}

/// The capability contract of `method`.
pub fn adapter_contract(method: MethodId) -> (r: AdapterContract)
    ensures
        r == spec_adapter_contract(method),
{
    match method {
        MethodId::Win32EditMessages => AdapterContract::new(method).read_selection().read_caret().replace_selection().replace_range_before_caret(),
        MethodId::TerminalClipboardShortcut => AdapterContract::new(method).read_selection().read_caret().replace_selection().replace_range_before_caret().clipboard().risky(),
        MethodId::SshTerminal => AdapterContract::new(method).read_selection().read_caret().replace_selection().replace_range_before_caret(),
        MethodId::ConsoleBuffer => AdapterContract::new(method).read_selection().read_caret().replace_selection().replace_range_before_caret(),
        MethodId::PsReadLine => AdapterContract::new(method).read_selection().read_caret().replace_selection().replace_range_before_caret(),
        MethodId::WordCom => AdapterContract::new(method).read_selection().read_caret().replace_selection().replace_range_before_caret(),
        MethodId::UiAutomationEditableText => AdapterContract::new(method).read_selection().read_caret().replace_selection().replace_range_before_caret(),
        MethodId::UiAutomationDocumentText => AdapterContract::new(method).read_selection().read_caret().replace_selection().replace_range_before_caret(),
        MethodId::UiAutomationText => AdapterContract::new(method).read_selection().read_caret().replace_selection().replace_range_before_caret(),
        MethodId::XtermKeyboardSelection => AdapterContract::new(method).read_selection().read_caret().replace_selection().replace_range_before_caret().clipboard(),
        MethodId::WebKeyboardSelection => AdapterContract::new(method).read_selection().read_caret().replace_selection().replace_range_before_caret().clipboard(),
        MethodId::ClipboardSelection => AdapterContract::new(method).read_selection().replace_selection().clipboard().risky(),
        MethodId::SendInput => AdapterContract::new(method).replace_selection().risky(),
    }
}

/// Every method, in the order the platform lists them.
pub open spec fn spec_all_method_ids() -> Seq<MethodId> {
    seq![
        MethodId::Win32EditMessages,
        MethodId::TerminalClipboardShortcut,
        MethodId::SshTerminal,
        MethodId::ConsoleBuffer,
        MethodId::PsReadLine,
        MethodId::WordCom,
        MethodId::UiAutomationEditableText,
        MethodId::UiAutomationDocumentText,
        MethodId::UiAutomationText,
        MethodId::XtermKeyboardSelection,
        MethodId::WebKeyboardSelection,
        MethodId::ClipboardSelection,
        MethodId::SendInput,
    ]
}

/// The methods that hand text to a terminal-side bridge.
pub open spec fn spec_bridge_method_ids() -> Seq<MethodId> {
    seq![
        MethodId::TerminalClipboardShortcut,
        MethodId::SshTerminal,
        MethodId::PsReadLine,
        MethodId::XtermKeyboardSelection,
    ]
}

/// Every method, in the order the platform lists them.
pub fn all_method_ids() -> (r: Vec<MethodId>)
    ensures
        r@ == spec_all_method_ids(),
{
    let r = vec![
        MethodId::Win32EditMessages,
        MethodId::TerminalClipboardShortcut,
        MethodId::SshTerminal,
        MethodId::ConsoleBuffer,
        MethodId::PsReadLine,
        MethodId::WordCom,
        MethodId::UiAutomationEditableText,
        MethodId::UiAutomationDocumentText,
        MethodId::UiAutomationText,
        MethodId::XtermKeyboardSelection,
        MethodId::WebKeyboardSelection,
        MethodId::ClipboardSelection,
        MethodId::SendInput,
    ];
    assert(r@ == spec_all_method_ids());
    r
}

/// The methods that hand text to a terminal-side bridge.
pub fn bridge_method_ids() -> (r: Vec<MethodId>)
    ensures
        r@ == spec_bridge_method_ids(),
{
    let r = vec![
        MethodId::TerminalClipboardShortcut,
        MethodId::SshTerminal,
        MethodId::PsReadLine,
        MethodId::XtermKeyboardSelection,
    ];
    assert(r@ == spec_bridge_method_ids());
    r
}

/// `method` is one of the bridge methods.
pub fn method_is_bridge_method(method: MethodId) -> (r: bool)
    ensures
        r == spec_bridge_method_ids().contains(method),
{
    let r = match method {
        MethodId::TerminalClipboardShortcut | MethodId::SshTerminal | MethodId::PsReadLine
        | MethodId::XtermKeyboardSelection => true,
        _ => false,
    };
    proof {
        let s = spec_bridge_method_ids();
        if r {
            if method == MethodId::TerminalClipboardShortcut { assert(s[0] == method); }
            else if method == MethodId::SshTerminal { assert(s[1] == method); }
            else if method == MethodId::PsReadLine { assert(s[2] == method); }
            else { assert(s[3] == method); }
        }
    }
    r
}

/// `v` contains `m`.
pub fn contains_method(v: &[MethodId], m: MethodId) -> (r: bool)
    ensures
        r == v@.contains(m),
{
    let mut i: usize = 0;
    while i < v.len()
        invariant
            i <= v.len(),
            forall|j: int| 0 <= j < i ==> v@[j] != m,
        decreases v.len() - i,
    {
        if v[i] == m {
            return true;
        }
        i += 1;
    }
    false
}

/// Source of the current foreground control.
pub trait ForegroundProvider {
    fn foreground_control(&self) -> Result<ForegroundControl, PlatformError>;
}

/// Source of the text context of the focused control.
pub trait TextContextProvider {
    fn text_context(&self) -> Result<TextContext, PlatformError>;
}

/// Applies a replacement plan to a captured context.
pub trait TextReplacer {
    fn apply_replacement(
        &self,
        context: &TextContext,
        plan: &ReplacementPlan,
    ) -> Result<ApplyReplacementResult, PlatformError>;
}

/// Captures and restores the clipboard.
pub trait ClipboardBackend {
    fn capture(&self) -> Result<ClipboardSnapshot, PlatformError>;

    fn restore(&self, snapshot: ClipboardSnapshot) -> Result<(), PlatformError>;
}

/// Starts and stops listening for the correction hotkeys.
pub trait HotkeyListener {
    fn start(&mut self) -> Result<(), PlatformError>;

    fn stop(&mut self) -> Result<(), PlatformError>;
}

/// A correction hotkey press.
#[derive(Debug, Clone, Copy, PartialEq, Eq, Structural)]
pub struct HotkeyEvent {
    pub mode: CorrectionMode,
}

} // verus!
