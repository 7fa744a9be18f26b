//! The methods that read a selection through the clipboard: terminals
//! (keyboard shortcuts and xterm text areas) and the generic selection
//! fallbacks. The desktop selects and copies; these functions check the
//! copies and build the contexts and the text to write back.
use vstd::prelude::*;
use crate::ids::{hwnd_id, spec_hwnd_id};
use crate::model::{Capabilities, MethodBinding, MethodId, ReplacementPlan, TextContext, TextRange};
use crate::offsets::{replace_range_text, slice_by_range, spec_replace_range_text, spec_slice_by_range};
use crate::platform::PlatformError;
use crate::terminal::{looks_like_hotkeyhandler_marker, spec_looks_like_hotkeyhandler_marker};
use crate::text::{
    all_white, byte_len, chars_all_white, chars_of, concat, has_suffix, str_ends_with, str_eq, utf8_len,
};
use crate::web_keyboard::{spec_split_trailing_line_breaks, split_trailing_line_breaks};
use crate::web_replacement::{preview_for_error, spec_preview_for_error};

verus! {

/// The context a clipboard-read method builds: `{app}/{focused}`, the
/// window's id, the caret at the end of the text.
pub open spec fn context_shape(
    c: TextContext,
    app_class: Seq<char>,
    focused_class: Seq<char>,
    foreground: isize,
    control_id: Seq<char>,
    text: Seq<char>,
    selection: bool,
    can_read_caret: bool,
    methods: Seq<MethodId>,
) -> bool {
    &&& c.app_id@ == app_class + "/"@ + focused_class
    &&& c.window_id@ == spec_hwnd_id(foreground)
    &&& c.control_id@ == control_id
    &&& c.text_snapshot@ == text
    &&& c.caret_range == TextRange::caret_spec(utf8_len(text) as usize)
    &&& c.selection_range == if selection {
        Some(TextRange { start: 0, end: utf8_len(text) as usize })
    } else {
        None
    }
    &&& !c.capabilities.can_replace_directly
    &&& c.capabilities.can_read_selection == selection
    &&& c.capabilities.can_read_caret == can_read_caret
    &&& c.capabilities.method_binding matches Some(b) && b.context_method == methods[0]
        && b.replace_methods@ == methods
}

fn shaped_context(
    app_class: &str,
    focused_class: &str,
    foreground: isize,
    control_id: String,
    text: String,
    selection: bool,
    can_read_caret: bool,
    methods: Vec<MethodId>,
) -> (r: TextContext)
    requires
        methods@.len() > 0,
    ensures
        context_shape(
            r,
            app_class@,
            focused_class@,
            foreground,
            control_id@,
            text@,
            selection,
            can_read_caret,
            methods@,
        ),
{
    let len = byte_len(text.as_str());
    let head = concat(app_class, "/");
    let app_id = concat(head.as_str(), focused_class);
    let first = methods[0];
    let binding = MethodBinding::new(first, methods);
    TextContext {
        app_id,
        window_id: hwnd_id(foreground),
        control_id,
        text_snapshot: text,
        caret_range: TextRange::caret(len),
        selection_range: if selection {
            Some(TextRange::new(0, len))
        } else {
            None
        },
        capabilities: Capabilities {
            can_replace_directly: false,
            can_read_selection: selection,
            can_read_caret,
            method_binding: Some(binding),
        },
    }
}

fn tagged_id(prefix: &str, focused: isize) -> (r: String)
    ensures
        r@ == prefix@ + ":"@ + spec_hwnd_id(focused),
{
    let a = concat(prefix, ":");
    concat(a.as_str(), hwnd_id(focused).as_str())
}

/// Copied text worth working on: not blank, and no marker of another
/// hotkey tool.
pub open spec fn spec_usable_copy(text: Seq<char>) -> bool {
    !all_white(text) && !spec_looks_like_hotkeyhandler_marker(text)
}

pub fn usable_copy(copied: Option<String>) -> (r: Option<String>)
    ensures
        match copied {
            Some(t) => if spec_usable_copy(t@) {
                r == Some(t)
            } else {
                r is None
            },
            None => r is None,
        },
{
    match copied {
        Some(t) => if !chars_all_white(chars_of(t.as_str()).as_slice()) && !looks_like_hotkeyhandler_marker(
            t.as_str(),
        ) {
            Some(t)
        } else {
            None
        },
        None => None,
    }
}

/// The context of text copied from the focused control's selection by the
/// clipboard fallback; either fallback may write it back.
pub fn clipboard_selection_context(
    app_class: &str,
    focused_class: &str,
    foreground: isize,
    focused: isize,
    text: String,
) -> (r: TextContext)
    ensures
        context_shape(
            r,
            app_class@,
            focused_class@,
            foreground,
            "clipboard-selection"@ + ":"@ + spec_hwnd_id(focused),
            text@,
            true,
            false,
            seq![MethodId::ClipboardSelection, MethodId::SendInput],
        ),
{
    let id = tagged_id("clipboard-selection", focused);
    let methods = vec![MethodId::ClipboardSelection, MethodId::SendInput];
    assert(methods@ == seq![MethodId::ClipboardSelection, MethodId::SendInput]);
    shaped_context(app_class, focused_class, foreground, id, text, true, false, methods)
}

/// The xterm text area's context: a selection it had, or the line left of
/// the caret.
pub fn xterm_context(
    app_class: &str,
    focused_class: &str,
    foreground: isize,
    focused: isize,
    text: String,
    selected: bool,
) -> (r: TextContext)
    ensures
        context_shape(
            r,
            app_class@,
            focused_class@,
            foreground,
            (if selected {
                "xterm-selection"@
            } else {
                "xterm-line-selection"@
            }) + ":"@ + spec_hwnd_id(focused),
            text@,
            selected,
            true,
            seq![MethodId::XtermKeyboardSelection],
        ),
{
    let prefix = if selected {
        "xterm-selection"
    } else {
        "xterm-line-selection"
    };
    let id = tagged_id(prefix, focused);
    let methods = vec![MethodId::XtermKeyboardSelection];
    assert(methods@ == seq![MethodId::XtermKeyboardSelection]);
    shaped_context(app_class, focused_class, foreground, id, text, selected, true, methods)
}

/// The checks before an xterm capture: the foreground must not have
/// changed, and a terminal running a full-screen app is read only through
/// its xterm text area.
pub fn xterm_capture_precheck(
    expected_foreground: isize,
    foreground: isize,
    terminal_app_marker: bool,
    terminal_class: bool,
    textarea_focused: bool,
) -> (r: Result<(), PlatformError>)
    ensures
        foreground != expected_foreground ==> r == Err::<(), PlatformError>(PlatformError::PreflightFailed),
        foreground == expected_foreground && terminal_app_marker && terminal_class && !textarea_focused ==> (r matches Err(
            PlatformError::ReplacementUnavailableReason(m),
        ) && m@ == "terminal_app_no_safe_text_capture"@),
        foreground == expected_foreground && !(terminal_app_marker && terminal_class && !textarea_focused) ==> r is Ok,
{
    if foreground != expected_foreground {
        return Err(PlatformError::PreflightFailed);
    }
    if terminal_app_marker && terminal_class && !textarea_focused {
        return Err(PlatformError::ReplacementUnavailableReason("terminal_app_no_safe_text_capture".to_owned()));
    }
    Ok(())
}

/// The refusal when neither the selection nor the line gave text.
pub fn xterm_capture_empty_error() -> (r: PlatformError)
    ensures
        r matches PlatformError::ReplacementUnavailableReason(m) && m@ == "xterm_keyboard_capture_empty"@,
{
    PlatformError::ReplacementUnavailableReason("xterm_keyboard_capture_empty".to_owned())
}

/// How an xterm replacement is written: the text pasted, the text the
/// selection must hold first (none when the context is still selected),
/// and whether that selection is the line left of the caret.
#[derive(Debug, Clone, PartialEq, Eq)]
pub struct XtermApplyPlan {
    pub replacement_text: String,
    pub expected_selection: Option<String>,
    pub select_line: bool,
    pub actual_before: String,
}

/// The xterm write for a plan: when the context was captured without a
/// selection and the range does not end its text, the whole text is
/// rewritten.
pub fn xterm_apply_plan(context: &TextContext, plan: &ReplacementPlan) -> (r: Result<XtermApplyPlan, PlatformError>)
    ensures
        ({
            let t = context.text_snapshot@;
            let entire = context.selection_range is None && plan.range.end != utf8_len(t);
            match spec_slice_by_range(t, plan.range) {
                None => r == Err::<XtermApplyPlan, PlatformError>(PlatformError::PreflightFailed),
                Some(a) => if a != plan.expected_before_text@ {
                    r == Err::<XtermApplyPlan, PlatformError>(PlatformError::PreflightFailed)
                } else if entire && spec_replace_range_text(t, plan.range, plan.replacement_text@) is None {
                    r == Err::<XtermApplyPlan, PlatformError>(PlatformError::PreflightFailed)
                } else {
                    r matches Ok(q) && q.actual_before@ == a && q.replacement_text@ == (if entire {
                        spec_replace_range_text(t, plan.range, plan.replacement_text@).unwrap()
                    } else {
                        plan.replacement_text@
                    }) && (match q.expected_selection {
                        Some(e) => context.selection_range is None && e@ == (if entire {
                            t
                        } else {
                            a
                        }),
                        None => context.selection_range is Some,
                    }) && q.select_line == (context.selection_range is None && entire && crate::text::has_prefix(
                        context.control_id@,
                        "xterm-line-selection:"@,
                    ))
                }
            }
        }),
{
    let text = context.text_snapshot.as_str();
    let actual_before = match slice_by_range(text, plan.range) {
        Some(a) => a,
        None => {
            return Err(PlatformError::PreflightFailed);
        },
    };
    if !str_eq(actual_before.as_str(), plan.expected_before_text.as_str()) {
        return Err(PlatformError::PreflightFailed);
    }
    let entire = context.selection_range.is_none() && plan.range.end != byte_len(text);
    let replacement_text = if entire {
        match replace_range_text(text, plan.range, plan.replacement_text.as_str()) {
            Some(x) => x,
            None => {
                return Err(PlatformError::PreflightFailed);
            },
        }
    } else {
        plan.replacement_text.clone()
    };
    let expected_selection = if context.selection_range.is_some() {
        None
    } else if entire {
        Some(context.text_snapshot.clone())
    } else {
        Some(actual_before.clone())
    };
    let select_line = context.selection_range.is_none() && entire && crate::text::str_starts_with(
        context.control_id.as_str(),
        "xterm-line-selection:",
    );
    Ok(XtermApplyPlan { replacement_text, expected_selection, select_line, actual_before })
}

/// The refusal when the re-made xterm selection does not hold the expected
/// text.
pub fn xterm_preflight_error(expected: &str, actual: Option<&str>) -> (r: PlatformError)
    ensures
        r matches PlatformError::ReplacementUnavailableReason(m) && m@ == "xterm_keyboard_preflight expected="@
            + spec_preview_for_error(expected@, 40) + " actual="@ + spec_preview_for_error(
            match actual {
                Some(s) => s@,
                None => "<none>"@,
            },
            40,
        ),
{
    let shown = match actual {
        Some(s) => s,
        None => "<none>",
    };
    let a = concat("xterm_keyboard_preflight expected=", preview_for_error(expected, 40).as_str());
    let b = concat(a.as_str(), " actual=");
    let c = concat(b.as_str(), preview_for_error(shown, 40).as_str());
    PlatformError::ReplacementUnavailableReason(c)
}

/// Which selection a terminal capture made.
#[derive(Debug, Clone, Copy, PartialEq, Eq, Structural)]
pub enum TerminalSelectionKind {
    /// From the start of the line to the caret.
    LeftOfCaret,
    /// The word before the caret.
    PreviousWord,
}

pub open spec fn spec_selection_kind_id(kind: TerminalSelectionKind) -> Seq<char> {
    match kind {
        TerminalSelectionKind::LeftOfCaret => "left"@,
        TerminalSelectionKind::PreviousWord => "word"@,
    }
}

impl TerminalSelectionKind {
    /// The tag that a terminal control id ends with.
    pub fn id(self) -> (r: &'static str)
        ensures
            r@ == spec_selection_kind_id(self),
    {
        match self {
            TerminalSelectionKind::LeftOfCaret => "left",
            TerminalSelectionKind::PreviousWord => "word",
        }
    }

    /// The selection a terminal control id records.
    pub fn from_control_id(control_id: &str) -> (r: TerminalSelectionKind)
        ensures
            r == if has_suffix(control_id@, ":word"@) {
                TerminalSelectionKind::PreviousWord
            } else {
                TerminalSelectionKind::LeftOfCaret
            },
    {
        if str_ends_with(control_id, ":word") {
            TerminalSelectionKind::PreviousWord
        } else {
            TerminalSelectionKind::LeftOfCaret
        }
    }
}

/// Copy shortcuts tried in turn on a terminal.
#[derive(Debug, Clone, Copy, PartialEq, Eq, Structural)]
pub enum TerminalCopyVariant {
    CtrlShiftC,
    CtrlInsert,
    CtrlC,
}

impl TerminalCopyVariant {
    /// The shortcuts in the order they are tried.
    pub fn all() -> (r: Vec<TerminalCopyVariant>)
        ensures
            r@ == seq![TerminalCopyVariant::CtrlShiftC, TerminalCopyVariant::CtrlInsert, TerminalCopyVariant::CtrlC],
    {
        vec![TerminalCopyVariant::CtrlShiftC, TerminalCopyVariant::CtrlInsert, TerminalCopyVariant::CtrlC]
    }

    pub fn id(self) -> (r: &'static str)
        ensures
            r@ == match self {
                TerminalCopyVariant::CtrlShiftC => "ctrl_shift_c"@,
                TerminalCopyVariant::CtrlInsert => "ctrl_insert"@,
                TerminalCopyVariant::CtrlC => "ctrl_c"@,
            },
    {
        match self {
            TerminalCopyVariant::CtrlShiftC => "ctrl_shift_c",
            TerminalCopyVariant::CtrlInsert => "ctrl_insert",
            TerminalCopyVariant::CtrlC => "ctrl_c",
        }
    }
}

/// Text a terminal copy gives: without its trailing line breaks, when the
/// rest is usable.
pub fn terminal_copied_text(copied: Option<String>) -> (r: Option<String>)
    ensures
        match copied {
            Some(t) => {
                let body = spec_split_trailing_line_breaks(t@).0;
                if spec_usable_copy(body) {
                    r matches Some(x) && x@ == body
                } else {
                    r is None
                }
            },
            None => r is None,
        },
{
    match copied {
        Some(t) => {
            let (body, _) = split_trailing_line_breaks(t.as_str());
            usable_copy(Some(body))
        },
        None => None,
    }
}

/// The context of text copied left of a terminal's caret.
pub fn terminal_clipboard_context(
    app_class: &str,
    focused_class: &str,
    foreground: isize,
    focused: isize,
    text: String,
    kind: TerminalSelectionKind,
) -> (r: TextContext)
    ensures
        context_shape(
            r,
            app_class@,
            focused_class@,
            foreground,
            "terminal:"@ + spec_hwnd_id(focused) + ":"@ + spec_selection_kind_id(kind),
            text@,
            false,
            false,
            seq![MethodId::TerminalClipboardShortcut],
        ),
{
    let a = concat("terminal:", hwnd_id(focused).as_str());
    let b = concat(a.as_str(), ":");
    let id = concat(b.as_str(), kind.id());
    let methods = vec![MethodId::TerminalClipboardShortcut];
    assert(methods@ == seq![MethodId::TerminalClipboardShortcut]);
    shaped_context(app_class, focused_class, foreground, id, text, false, false, methods)
}

/// The whole rewritten text a terminal replacement pastes over the
/// re-made selection.
pub fn terminal_replacement_text(context: &TextContext, plan: &ReplacementPlan) -> (r: Result<String, PlatformError>)
    ensures
        ({
            let t = context.text_snapshot@;
            if spec_slice_by_range(t, plan.range) != Some(plan.expected_before_text@) {
                r == Err::<String, PlatformError>(PlatformError::PreflightFailed)
            } else {
                match spec_replace_range_text(t, plan.range, plan.replacement_text@) {
                    Some(x) => r matches Ok(s) && s@ == x,
                    None => r == Err::<String, PlatformError>(PlatformError::PreflightFailed),
                }
            }
        }),
{
    let text = context.text_snapshot.as_str();
    match slice_by_range(text, plan.range) {
        Some(a) => if !str_eq(a.as_str(), plan.expected_before_text.as_str()) {
            return Err(PlatformError::PreflightFailed);
        },
        None => {
            return Err(PlatformError::PreflightFailed);
        },
    }
    match replace_range_text(text, plan.range, plan.replacement_text.as_str()) {
        Some(x) => Ok(x),
        None => Err(PlatformError::PreflightFailed),
    }
}

/// The refusal when neither terminal selection gave text.
pub fn terminal_capture_empty_error() -> (r: PlatformError)
    ensures
        r matches PlatformError::ReplacementUnavailableReason(m) && m@ == "terminal_capture_empty:left,word"@,
{
    PlatformError::ReplacementUnavailableReason("terminal_capture_empty:left,word".to_owned())
}


/// The input on a classic console's cursor row: the row up to the cursor
/// (and no further than what was read), decoded, with the prompt cut off;
/// unavailable when blank.
pub fn console_input_from_row(row: &[u16], cursor_x: usize, read: usize) -> (r: Result<String, PlatformError>)
    ensures
        ({
            let w = if cursor_x < read {
                cursor_x
            } else {
                read
            };
            let width = if w < row@.len() {
                w
            } else {
                row@.len() as usize
            };
            let input = crate::terminal::spec_console_input(
                crate::encoding::decode_utf16_lossy(row@.take(width as int)),
            );
            if all_white(input) {
                r == Err::<String, PlatformError>(PlatformError::ReplacementUnavailable)
            } else {
                r matches Ok(s) && s@ == input
            }
        }),
{
    let w = if cursor_x < read {
        cursor_x
    } else {
        read
    };
    let width = if w < row.len() {
        w
    } else {
        row.len()
    };
    let units = &row[0..width];
    assert(units@ == row@.take(width as int));
    let line = crate::encoding::utf16_lossy_to_string(units);
    let input = crate::terminal::console_input_from_prompt_line(line.as_str());
    if chars_all_white(chars_of(input.as_str()).as_slice()) {
        Err(PlatformError::ReplacementUnavailable)
    } else {
        Ok(input)
    }
}

/// The context of a classic console's input line.
pub fn console_context(
    app_class: &str,
    focused_class: &str,
    foreground: isize,
    focused: isize,
    text: String,
) -> (r: TextContext)
    ensures
        context_shape(
            r,
            app_class@,
            focused_class@,
            foreground,
            "terminal-console"@ + ":"@ + spec_hwnd_id(focused),
            text@,
            false,
            false,
            seq![MethodId::ConsoleBuffer],
        ),
{
    let id = tagged_id("terminal-console", focused);
    let methods = vec![MethodId::ConsoleBuffer];
    assert(methods@ == seq![MethodId::ConsoleBuffer]);
    shaped_context(app_class, focused_class, foreground, id, text, false, false, methods)
}

/// The line typed back into a console: the input read again must still be
/// the captured one and hold the planned text.
pub fn console_replacement_text(context: &TextContext, current_text: &str, plan: &ReplacementPlan) -> (r: Result<
    String,
    PlatformError,
>)
    ensures
        if current_text@ != context.text_snapshot@ || spec_slice_by_range(current_text@, plan.range) != Some(
            plan.expected_before_text@,
        ) {
            r == Err::<String, PlatformError>(PlatformError::PreflightFailed)
        } else {
            match spec_replace_range_text(current_text@, plan.range, plan.replacement_text@) {
                Some(x) => r matches Ok(s) && s@ == x,
                None => r == Err::<String, PlatformError>(PlatformError::PreflightFailed),
            }
        },
{
    if !str_eq(current_text, context.text_snapshot.as_str()) {
        return Err(PlatformError::PreflightFailed);
    }
    match slice_by_range(current_text, plan.range) {
        Some(a) => if !str_eq(a.as_str(), plan.expected_before_text.as_str()) {
            return Err(PlatformError::PreflightFailed);
        },
        None => {
            return Err(PlatformError::PreflightFailed);
        },
    }
    match replace_range_text(current_text, plan.range, plan.replacement_text.as_str()) {
        Some(x) => Ok(x),
        None => Err(PlatformError::PreflightFailed),
    }
}

/// After an Escape, what the console's input line says: cleared (nothing
/// to read, or blank), keep trying, or an error to report.
pub fn console_clear_outcome(read: Result<String, PlatformError>) -> (r: Option<Result<(), PlatformError>>)
    ensures
        match read {
            Err(PlatformError::ReplacementUnavailable) => r == Some(Ok::<(), PlatformError>(())),
            Err(e) => r == Some(Err::<(), PlatformError>(e)),
            Ok(s) => if all_white(s@) {
                r == Some(Ok::<(), PlatformError>(()))
            } else {
                r is None
            },
        },
{
    match read {
        Err(PlatformError::ReplacementUnavailable) => Some(Ok(())),
        Err(e) => Some(Err(e)),
        Ok(s) => if chars_all_white(chars_of(s.as_str()).as_slice()) {
            Some(Ok(()))
        } else {
            None
        },
    }
}

} // verus!
