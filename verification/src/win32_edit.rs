//! Classic Win32 edit controls: the context read from a control's text and
//! selection, and the check made before the selection is replaced.
use vstd::prelude::*;
use crate::ids::{hwnd_id, spec_hwnd_id};
use crate::model::{Capabilities, MethodBinding, MethodId, ReplacementPlan, TextContext, TextRange};
use crate::offsets::{edit_offset_to_byte_offset, slice_by_range, spec_edit_offset_to_byte_offset, spec_slice_by_range};
use crate::platform::PlatformError;
use crate::text::{
    byte_len, chars_of, concat, eq_ignore_ascii_case, has_prefix, lower_ascii, lower_chars_of,
    str_eq, str_eq_ignore_ascii_case, utf8_len,
};

verus! {

/// Outlook's rich edit controls are told apart by their class; other edit
/// controls are known by their window class alone.
pub open spec fn spec_win32_edit_app_id(app_class: Seq<char>, focused_class: Seq<char>) -> Seq<char> {
    if eq_ignore_ascii_case(app_class, "rctrl_renwnd32"@) && has_prefix(lower_ascii(focused_class), "richedit"@) {
        app_class + "/"@ + focused_class
    } else {
        app_class
    }
}

pub fn win32_edit_app_id(app_class: &str, focused_class: &str) -> (r: String)
    ensures
        r@ == spec_win32_edit_app_id(app_class@, focused_class@),
{
    let lower = lower_chars_of(focused_class);
    if str_eq_ignore_ascii_case(app_class, "rctrl_renwnd32") && crate::text::chars_starts_with(
        lower.as_slice(),
        chars_of("richedit").as_slice(),
    ) {
        let head = concat(app_class, "/");
        concat(head.as_str(), focused_class)
    } else {
        app_class.to_owned()
    }
}

/// A byte offset of an edit position, or the end of the text when the
/// position is not one.
pub open spec fn edit_byte_or_end(t: Seq<char>, u: usize) -> nat {
    match spec_edit_offset_to_byte_offset(t, u as nat) {
        Some(b) => b,
        None => utf8_len(t),
    }
}

/// The context of an edit control: its text, the selection it reports in
/// edit positions (none read: the end of the text), the caret at the
/// selection's end.
pub open spec fn is_win32_edit_context(
    c: TextContext,
    foreground: isize,
    focused: isize,
    app_class: Seq<char>,
    focused_class: Seq<char>,
    text: Seq<char>,
    selection: Option<(usize, usize)>,
) -> bool {
    let (s, e) = match selection {
        Some((s, e)) => (edit_byte_or_end(text, s), edit_byte_or_end(text, e)),
        None => (utf8_len(text), utf8_len(text)),
    };
    &&& c.app_id@ == spec_win32_edit_app_id(app_class, focused_class)
    &&& c.window_id@ == spec_hwnd_id(foreground)
    &&& c.control_id@ == spec_hwnd_id(focused)
    &&& c.text_snapshot@ == text
    &&& c.caret_range == TextRange::caret_spec(e as usize)
    &&& c.selection_range == if s != e {
        Some(TextRange { start: s as usize, end: e as usize })
    } else {
        None
    }
    &&& c.capabilities.can_replace_directly
    &&& c.capabilities.can_read_selection
    &&& c.capabilities.can_read_caret
    &&& c.capabilities.method_binding matches Some(b) && b.context_method == MethodId::Win32EditMessages
        && b.replace_methods@ == seq![MethodId::Win32EditMessages]
}

fn edit_byte(text: &str, len: usize, u: usize) -> (r: usize)
    requires
        len == utf8_len(text@),
    ensures
        r == edit_byte_or_end(text@, u),
{
    match edit_offset_to_byte_offset(text, u) {
        Some(b) => b,
        None => len,
    }
}

/// The context read from an edit control (`Win32EditMessagesMethod::capture`
/// once the text and selection were read).
pub fn win32_edit_context(
    foreground: isize,
    focused: isize,
    app_class: &str,
    focused_class: &str,
    text: String,
    selection: Option<(usize, usize)>,
) -> (r: TextContext)
    ensures
        is_win32_edit_context(r, foreground, focused, app_class@, focused_class@, text@, selection),
{
    let len = byte_len(text.as_str());
    let (s, e) = match selection {
        Some((s, e)) => (edit_byte(text.as_str(), len, s), edit_byte(text.as_str(), len, e)),
        None => (len, len),
    };
    let selection_range = if s != e {
        Some(TextRange::new(s, e))
    } else {
        None
    };
    let binding = MethodBinding::new(MethodId::Win32EditMessages, vec![MethodId::Win32EditMessages]);
    assert(binding.replace_methods@ == seq![MethodId::Win32EditMessages]);
    TextContext {
        app_id: win32_edit_app_id(app_class, focused_class),
        window_id: hwnd_id(foreground),
        control_id: hwnd_id(focused),
        text_snapshot: text,
        caret_range: TextRange::caret(e),
        selection_range,
        capabilities: Capabilities {
            can_replace_directly: true,
            can_read_selection: true,
            can_read_caret: true,
            method_binding: Some(binding),
        },
    }
}

/// The check against the control's current text before its range is
/// replaced: the range must hold what the plan expects. Gives that text.
pub fn edit_text_preflight(current_text: &str, plan: &ReplacementPlan) -> (r: Result<String, PlatformError>)
    ensures
        match spec_slice_by_range(current_text@, plan.range) {
            Some(a) => if a == plan.expected_before_text@ {
                r matches Ok(x) && x@ == a
            } else {
                r matches Err(PlatformError::PreflightFailed)
            },
            None => r matches Err(PlatformError::PreflightFailed),
        },
{
    match slice_by_range(current_text, plan.range) {
        Some(a) => if str_eq(a.as_str(), plan.expected_before_text.as_str()) {
            Ok(a)
        } else {
            Err(PlatformError::PreflightFailed)
        },
        None => Err(PlatformError::PreflightFailed),
    }
}

} // verus!
