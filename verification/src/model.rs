//! The text-correction vocabulary that the platform layer speaks: methods,
//! correction modes, byte ranges, captured text contexts and replacement
//! plans.
use vstd::prelude::*;

verus! {

/// A way of reading and rewriting text in a foreign application.
#[derive(Debug, Clone, Copy, PartialEq, Eq, Hash, Structural)]
pub enum MethodId {
    Win32EditMessages,
    TerminalClipboardShortcut,
    SshTerminal,
    ConsoleBuffer,
    PsReadLine,
    WordCom,
    UiAutomationEditableText,
    UiAutomationDocumentText,
    UiAutomationText,
    XtermKeyboardSelection,
    WebKeyboardSelection,
    ClipboardSelection,
    SendInput,
}

/// The two correction hotkeys: `Pause` converts the word before the caret,
/// `ScrollLock` (Ctrl+Pause) converts the suspicious words of the line.
#[derive(Debug, Clone, Copy, PartialEq, Eq, Hash, Structural)]
pub enum CorrectionMode {
    Pause,
    ScrollLock,
}

/// Stable machine name of a method.
pub open spec fn method_name(method: MethodId) -> Seq<char> {
    match method {
        MethodId::Win32EditMessages => "win32-edit-messages"@,
        MethodId::TerminalClipboardShortcut => "terminal-clipboard-shortcut"@,
        MethodId::SshTerminal => "ssh-terminal"@,
        MethodId::ConsoleBuffer => "console-buffer"@,
        MethodId::PsReadLine => "psreadline"@,
        MethodId::WordCom => "word-com"@,
        MethodId::UiAutomationEditableText => "uia-editable-text"@,
        MethodId::UiAutomationDocumentText => "uia-document-text"@,
        MethodId::UiAutomationText => "uia-text"@,
        MethodId::XtermKeyboardSelection => "xterm-keyboard-selection"@,
        MethodId::WebKeyboardSelection => "web-keyboard-selection"@,
        MethodId::ClipboardSelection => "clipboard-selection"@,
        MethodId::SendInput => "send-input"@,
    }
}

impl MethodId {
    /// Stable machine name of the method.
    pub fn as_str(&self) -> (r: &'static str)
        ensures
            r@ == method_name(*self),
    {
        match self {
            MethodId::Win32EditMessages => "win32-edit-messages",
            MethodId::TerminalClipboardShortcut => "terminal-clipboard-shortcut",
            MethodId::SshTerminal => "ssh-terminal",
            MethodId::ConsoleBuffer => "console-buffer",
            MethodId::PsReadLine => "psreadline",
            MethodId::WordCom => "word-com",
            MethodId::UiAutomationEditableText => "uia-editable-text",
            MethodId::UiAutomationDocumentText => "uia-document-text",
            MethodId::UiAutomationText => "uia-text",
            MethodId::XtermKeyboardSelection => "xterm-keyboard-selection",
            MethodId::WebKeyboardSelection => "web-keyboard-selection",
            MethodId::ClipboardSelection => "clipboard-selection",
            MethodId::SendInput => "send-input",
        }
    }
}

/// A half-open byte range `start..end` of a text snapshot.
#[derive(Debug, Clone, Copy, PartialEq, Eq, Default, Structural)]
pub struct TextRange {
    pub start: usize,
    pub end: usize,
}

impl TextRange {
    /// The range `start..end`.
    pub fn new(start: usize, end: usize) -> (r: TextRange)
        ensures
            r == (TextRange { start, end }),
    {
        TextRange { start, end }
    }

    /// The empty range at `offset` (a caret position).
    pub fn caret(offset: usize) -> (r: TextRange)
        ensures
            r == (TextRange { start: offset, end: offset }),
    {
        TextRange { start: offset, end: offset }
    }
}

/// Which method captured a context and which may apply a replacement to it.
#[derive(Debug, Clone, PartialEq, Eq)]
pub struct MethodBinding {
    pub context_method: MethodId,
    pub replace_methods: Vec<MethodId>,
}

impl MethodBinding {
    pub fn new(context_method: MethodId, replace_methods: Vec<MethodId>) -> (r: MethodBinding)
        ensures
            r.context_method == context_method,
            r.replace_methods@ == replace_methods@,
    {
        MethodBinding { context_method, replace_methods }
    }
}

/// What a captured context allows.
#[derive(Debug, Clone, PartialEq, Eq)]
pub struct Capabilities {
    pub can_replace_directly: bool,
    pub can_read_selection: bool,
    pub can_read_caret: bool,
    pub method_binding: Option<MethodBinding>,
}

impl Default for Capabilities {
    fn default() -> (r: Capabilities)
        ensures
            !r.can_replace_directly,
            !r.can_read_selection,
            !r.can_read_caret,
            r.method_binding is None,
    {
        Capabilities {
            can_replace_directly: false,
            can_read_selection: false,
            can_read_caret: false,
            method_binding: None,
        }
    }
}

/// Text read from the focused control, with its caret and selection.
#[derive(Debug, Clone, PartialEq, Eq)]
pub struct TextContext {
    pub app_id: String,
    pub window_id: String,
    pub control_id: String,
    pub text_snapshot: String,
    pub caret_range: TextRange,
    pub selection_range: Option<TextRange>,
    pub capabilities: Capabilities,
}

impl TextContext {
    /// A context holding `text` with the caret at its start and no ids.
    pub fn new(text: &str) -> (r: TextContext)
        ensures
            r.app_id@ == Seq::<char>::empty(),
            r.window_id@ == Seq::<char>::empty(),
            r.control_id@ == Seq::<char>::empty(),
            r.text_snapshot@ == text@,
            r.caret_range == TextRange::caret_spec(0),
            r.selection_range is None,
            r.capabilities.method_binding is None,
            !r.capabilities.can_replace_directly,
            !r.capabilities.can_read_selection,
            !r.capabilities.can_read_caret,
    {
        TextContext {
            app_id: String::new(),
            window_id: String::new(),
            control_id: String::new(),
            text_snapshot: text.to_owned(),
            caret_range: TextRange::caret(0),
            selection_range: None,
            capabilities: Capabilities::default(),
        }
    }

    /// The same context with the caret moved to `caret`.
    pub fn with_caret(self, caret: TextRange) -> (r: TextContext)
        ensures
            r == (TextContext { caret_range: caret, ..self }),
    {
        TextContext { caret_range: caret, ..self }
    }

    /// The same context with the given selection.
    pub fn with_selection(self, selection: Option<TextRange>) -> (r: TextContext)
        ensures
            r == (TextContext { selection_range: selection, ..self }),
    {
        TextContext { selection_range: selection, ..self }
    }
}

impl TextRange {
    pub open spec fn caret_spec(offset: usize) -> TextRange {
        TextRange { start: offset, end: offset }
    }
}

/// A planned rewrite of `range` of a context's text.
///
/// The planner's confidence score is a floating-point value and is not held
/// here.
#[derive(Debug, Clone, PartialEq, Eq)]
pub struct ReplacementPlan {
    pub range: TextRange,
    pub replacement_text: String,
    pub reason: String,
    pub expected_before_text: String,
}

/// The first replacement method that the context's binding allows.
pub open spec fn spec_context_replacement_method(context: TextContext) -> Option<MethodId> {
    match context.capabilities.method_binding {
        Some(binding) => if binding.replace_methods@.len() > 0 {
            Some(binding.replace_methods@[0])
        } else {
            None
        },
        None => None,
    }
}

/// The method that must apply a replacement to `context`: the first method
/// its binding lists; `None` when the context carries no binding.
pub fn context_replacement_method(context: &TextContext) -> (r: Option<MethodId>)
    ensures
        r == spec_context_replacement_method(*context),
{
    match &context.capabilities.method_binding {
        Some(binding) => if binding.replace_methods.len() > 0 {
            Some(binding.replace_methods[0])
        } else {
            None
        },
        None => None,
    }
}

} // verus!
