//! Boolean facts about a foreground target, derived from its window class,
//! focused class, title and process name.
use vstd::prelude::*;
use crate::platform::ForegroundTarget;
use crate::text::{
    chars_ends_with, chars_of, chars_starts_with, eq_ignore_ascii_case, has_prefix,
    has_prefix_ignore_ascii_case, has_suffix, lower_ascii, lower_char, lower_chars_of, lowercase,
    spec_title_contains,
    str_contains_char, str_eq_ignore_ascii_case, str_starts_with_ignore_ascii_case,
    title_contains,
};

verus! {

/// Everything the surface classifier knows about a target.
#[derive(Debug, Clone, PartialEq, Eq, Structural)]
pub struct TargetFacts {
    pub is_classic_console: bool,
    pub is_outlook_process: bool,
    pub is_outlook_app_class: bool,
    pub is_outlook_search_edit: bool,
    pub is_outlook_word_editor: bool,
    pub is_word_process: bool,
    pub is_word_app_class: bool,
    pub is_excel_cell_editor: bool,
    pub is_win32_edit: bool,
    pub is_notepad_like: bool,
    pub is_sticky_notes: bool,
    pub is_windows_terminal: bool,
    pub is_windows_terminal_cmd_title: bool,
    pub is_qwen_terminal_title_or_marker: bool,
    pub is_telegram_process: bool,
    pub is_telegram_classifier_class: bool,
    pub is_telegram_qt_window_icon_class: bool,
    pub is_telegram_qt_chat_title: bool,
    pub is_telegram_technical_target: bool,
    pub is_browser_editor_class: bool,
    pub is_yandex_browser_widget_class: bool,
    pub is_whatsapp_desktop: bool,
    pub is_browser_like_technical_target: bool,
    pub is_fast_browser_title: bool,
    pub is_rocket_chat: bool,
    pub title_has_terminal_app_marker: bool,
}

/// The process name, empty when unknown.
pub open spec fn spec_process(t: ForegroundTarget) -> Seq<char> {
    match t.process_name {
        Some(p) => p@,
        None => Seq::<char>::empty(),
    }
}

/// A Qt top-level window class: `qt...qwindowicon`, ignoring ASCII case.
pub open spec fn spec_is_qt_window_icon_class(class_name: Seq<char>) -> bool {
    has_prefix(lower_ascii(class_name), "qt"@) && has_suffix(lower_ascii(class_name), "qwindowicon"@)
}

pub open spec fn spec_is_browser_editor_class(t: ForegroundTarget) -> bool {
    has_prefix_ignore_ascii_case(t.app_class@, "Chrome_WidgetWin"@) || eq_ignore_ascii_case(
        t.app_class@,
        "MozillaWindowClass"@,
    ) || eq_ignore_ascii_case(t.focused_class@, "Chrome_RenderWidgetHostHWND"@)
}

pub open spec fn spec_is_whatsapp_desktop(t: ForegroundTarget) -> bool {
    (eq_ignore_ascii_case(spec_process(t), "WhatsApp"@) || spec_title_contains(
        t.title@,
        "WhatsApp"@,
    )) && eq_ignore_ascii_case(t.app_class@, "WinUIDesktopWin32WindowClass"@)
        && has_prefix_ignore_ascii_case(t.focused_class@, "Chrome_WidgetWin"@)
}

pub open spec fn spec_is_fast_browser_title(title: Seq<char>) -> bool {
    spec_title_contains(title, "jira"@) || spec_title_contains(title, "confluence"@)
        || spec_title_contains(title, "gs-labs wiki"@) || spec_title_contains(title, "chips"@)
        || spec_title_contains(title, "codex"@)
}

pub open spec fn spec_is_rocket_chat(t: ForegroundTarget) -> bool {
    eq_ignore_ascii_case(spec_process(t), "Rocket.Chat"@) || spec_title_contains(
        t.title@,
        "rocket.chat"@,
    ) || spec_title_contains(t.title@, "gs.chat"@) || spec_title_contains(
        t.title@,
        "нет непрочитанных"@,
    ) || spec_title_contains(t.title@, "unread messages"@)
}

/// The facts of a target.
pub open spec fn spec_target_facts(t: ForegroundTarget) -> TargetFacts {
    let app = t.app_class@;
    let focused = t.focused_class@;
    let title = t.title@;
    let process = spec_process(t);
    let is_outlook_process = eq_ignore_ascii_case(process, "OUTLOOK"@);
    let is_telegram_process = eq_ignore_ascii_case(process, "Telegram"@);
    let is_qt = spec_is_qt_window_icon_class(app);
    let is_qt_chat = is_qt && title.contains('@');
    let is_browser = spec_is_browser_editor_class(t);
    let is_yandex = has_prefix_ignore_ascii_case(app, "Chrome_Yandex_WidgetWin"@);
    let is_whatsapp = spec_is_whatsapp_desktop(t);
    TargetFacts {
        is_classic_console: eq_ignore_ascii_case(app, "ConsoleWindowClass"@)
            && eq_ignore_ascii_case(focused, "ConsoleWindowClass"@),
        is_outlook_process,
        is_outlook_app_class: eq_ignore_ascii_case(app, "rctrl_renwnd32"@),
        is_outlook_search_edit: is_outlook_process && eq_ignore_ascii_case(focused, "Edit"@),
        is_outlook_word_editor: is_outlook_process && eq_ignore_ascii_case(focused, "_WwG"@),
        is_word_process: eq_ignore_ascii_case(process, "WINWORD"@),
        is_word_app_class: eq_ignore_ascii_case(app, "OpusApp"@),
        is_excel_cell_editor: eq_ignore_ascii_case(app, "XLMAIN"@) && eq_ignore_ascii_case(
            focused,
            "EXCEL6"@,
        ),
        is_win32_edit: eq_ignore_ascii_case(focused, "Edit"@),
        is_notepad_like: spec_title_contains(title, "Notepad"@) || eq_ignore_ascii_case(
            process,
            "Notepad"@,
        ) || eq_ignore_ascii_case(app, "Notepad"@),
        is_sticky_notes: spec_title_contains(title, "Sticky Notes"@) || eq_ignore_ascii_case(
            process,
            "Microsoft.Notes"@,
        ),
        is_windows_terminal: eq_ignore_ascii_case(app, "CASCADIA_HOSTING_WINDOW_CLASS"@)
            && eq_ignore_ascii_case(focused, "Windows.UI.Input.InputSite.WindowClass"@),
        is_windows_terminal_cmd_title: spec_title_contains(title, "cmd.exe"@),
        is_qwen_terminal_title_or_marker: spec_title_contains(title, "qwen"@)
            || spec_title_contains(title, "stepler-terminal-app"@),
        is_telegram_process,
        is_telegram_classifier_class: eq_ignore_ascii_case(app, "Qt51518QWindowIcon"@),
        is_telegram_qt_window_icon_class: is_qt,
        is_telegram_qt_chat_title: is_qt_chat,
        is_telegram_technical_target: is_telegram_process || is_qt_chat,
        is_browser_editor_class: is_browser,
        is_yandex_browser_widget_class: is_yandex,
        is_whatsapp_desktop: is_whatsapp,
        is_browser_like_technical_target: is_browser || is_yandex || is_whatsapp,
        is_fast_browser_title: spec_is_fast_browser_title(title),
        is_rocket_chat: spec_is_rocket_chat(t),
        title_has_terminal_app_marker: spec_title_contains(title, "stepler-terminal-app"@),
    }
}

/// `str::eq_ignore_ascii_case` on class names.
fn class_eq(value: &str, expected: &str) -> (r: bool)
    ensures
        r == eq_ignore_ascii_case(value@, expected@),
{
    str_eq_ignore_ascii_case(value, expected)
}

/// Case-insensitive prefix test on class names.
fn class_starts(value: &str, expected_prefix: &str) -> (r: bool)
    ensures
        r == has_prefix_ignore_ascii_case(value@, expected_prefix@),
{
    str_starts_with_ignore_ascii_case(value, expected_prefix)
}

/// A Qt top-level window class, ignoring ASCII case.
pub fn is_qt_window_icon_class(class_name: &str) -> (r: bool)
    ensures
        r == spec_is_qt_window_icon_class(class_name@),
{
    let lowered = lower_chars_of(class_name);
    let qt = chars_of("qt");
    let icon = chars_of("qwindowicon");
    chars_starts_with(&lowered, &qt) && chars_ends_with(&lowered, &icon)
}

/// The facts of `target`.
pub fn target_facts(target: &ForegroundTarget) -> (f: TargetFacts)
    ensures
        f == spec_target_facts(*target),
{
    let app = target.app_class.as_str();
    let focused = target.focused_class.as_str();
    let title = target.title.as_str();
    let process: &str = match &target.process_name {
        Some(p) => p.as_str(),
        None => "",
    };
    proof {
        reveal_strlit("");
        assert(process@ == spec_process(*target));
    }
    let is_outlook_process = class_eq(process, "OUTLOOK");
    let is_telegram_process = class_eq(process, "Telegram");
    let is_qt = is_qt_window_icon_class(app);
    let is_qt_chat = is_qt && str_contains_char(title, '@');
    let is_browser = class_starts(app, "Chrome_WidgetWin") || class_eq(app, "MozillaWindowClass")
        || class_eq(focused, "Chrome_RenderWidgetHostHWND");
    let is_yandex = class_starts(app, "Chrome_Yandex_WidgetWin");
    let is_whatsapp = (class_eq(process, "WhatsApp") || title_contains(title, "WhatsApp"))
        && class_eq(app, "WinUIDesktopWin32WindowClass") && class_starts(
        focused,
        "Chrome_WidgetWin",
    );
    TargetFacts {
        is_classic_console: class_eq(app, "ConsoleWindowClass") && class_eq(
            focused,
            "ConsoleWindowClass",
        ),
        is_outlook_process,
        is_outlook_app_class: class_eq(app, "rctrl_renwnd32"),
        is_outlook_search_edit: is_outlook_process && class_eq(focused, "Edit"),
        is_outlook_word_editor: is_outlook_process && class_eq(focused, "_WwG"),
        is_word_process: class_eq(process, "WINWORD"),
        is_word_app_class: class_eq(app, "OpusApp"),
        is_excel_cell_editor: class_eq(app, "XLMAIN") && class_eq(focused, "EXCEL6"),
        is_win32_edit: class_eq(focused, "Edit"),
        is_notepad_like: title_contains(title, "Notepad") || class_eq(process, "Notepad")
            || class_eq(app, "Notepad"),
        is_sticky_notes: title_contains(title, "Sticky Notes") || class_eq(
            process,
            "Microsoft.Notes",
        ),
        is_windows_terminal: class_eq(app, "CASCADIA_HOSTING_WINDOW_CLASS") && class_eq(
            focused,
            "Windows.UI.Input.InputSite.WindowClass",
        ),
        is_windows_terminal_cmd_title: title_contains(title, "cmd.exe"),
        is_qwen_terminal_title_or_marker: title_contains(title, "qwen") || title_contains(
            title,
            "stepler-terminal-app",
        ),
        is_telegram_process,
        is_telegram_classifier_class: class_eq(app, "Qt51518QWindowIcon"),
        is_telegram_qt_window_icon_class: is_qt,
        is_telegram_qt_chat_title: is_qt_chat,
        is_telegram_technical_target: is_telegram_process || is_qt_chat,
        is_browser_editor_class: is_browser,
        is_yandex_browser_widget_class: is_yandex,
        is_whatsapp_desktop: is_whatsapp,
        is_browser_like_technical_target: is_browser || is_yandex || is_whatsapp,
        is_fast_browser_title: title_contains(title, "jira") || title_contains(title, "confluence")
            || title_contains(title, "gs-labs wiki") || title_contains(title, "chips")
            || title_contains(title, "codex"),
        is_rocket_chat: class_eq(process, "Rocket.Chat") || title_contains(title, "rocket.chat")
            || title_contains(title, "gs.chat") || title_contains(title, "нет непрочитанных")
            || title_contains(title, "unread messages"),
        title_has_terminal_app_marker: title_contains(title, "stepler-terminal-app"),
    }
}

proof fn lemma_same_ascii_case(a: Seq<char>, b: Seq<char>)
    requires
        lower_ascii(a) == lower_ascii(b),
    ensures
        a.len() == b.len(),
        forall|p: Seq<char>| #[trigger] has_prefix_ignore_ascii_case(a, p) == has_prefix_ignore_ascii_case(b, p),
        a.contains('@') == b.contains('@'),
        vstd::utf8::is_ascii_chars(a) ==> vstd::utf8::is_ascii_chars(b) && lowercase(a) == lowercase(b),
{
    assert(lower_ascii(a).len() == lower_ascii(b).len());
    assert forall|p: Seq<char>| #[trigger] has_prefix_ignore_ascii_case(a, p) == has_prefix_ignore_ascii_case(b, p) by {
        if p.len() <= a.len() {
            assert(lower_ascii(a.subrange(0, p.len() as int)) == lower_ascii(a).subrange(0, p.len() as int));
            assert(lower_ascii(b.subrange(0, p.len() as int)) == lower_ascii(b).subrange(0, p.len() as int));
        }
    }
    if a.contains('@') {
        let i = choose|i: int| 0 <= i < a.len() && a[i] == '@';
        assert(lower_ascii(a)[i] == '@');
        assert(lower_ascii(b)[i] == lower_char(b[i]));
        assert(b[i] == '@');
    }
    if b.contains('@') {
        let i = choose|i: int| 0 <= i < b.len() && b[i] == '@';
        assert(lower_ascii(b)[i] == '@');
        assert(lower_ascii(a)[i] == lower_char(a[i]));
        assert(a[i] == '@');
    }
    if vstd::utf8::is_ascii_chars(a) {
        assert forall|i: int| 0 <= i < b.len() implies '\0' <= #[trigger] b[i] <= '\u{7f}' by {
            assert(lower_ascii(a)[i] == lower_char(a[i]));
            assert(lower_ascii(b)[i] == lower_char(b[i]));
        }
    }
}

/// The facts of a target do not change with the ASCII letter case of its
/// window classes, its process name or an ASCII title, and its two
/// technical-target facts are the disjunctions of the facts they name.
pub proof fn law_facts_ignore_ascii_case(t: ForegroundTarget, t2: ForegroundTarget)
    requires
        eq_ignore_ascii_case(t.app_class@, t2.app_class@),
        eq_ignore_ascii_case(t.focused_class@, t2.focused_class@),
        eq_ignore_ascii_case(spec_process(t), spec_process(t2)),
        eq_ignore_ascii_case(t.title@, t2.title@),
        vstd::utf8::is_ascii_chars(t.title@) || t.title@ == t2.title@,
    ensures
        ({
            let f = spec_target_facts(t);
            &&& f.is_browser_like_technical_target == (f.is_browser_editor_class
                || f.is_yandex_browser_widget_class || f.is_whatsapp_desktop)
            &&& f.is_telegram_technical_target == (f.is_telegram_process || f.is_telegram_qt_chat_title)
            &&& spec_target_facts(t2) == f
        }),
{
    lemma_same_ascii_case(t.app_class@, t2.app_class@);
    lemma_same_ascii_case(t.focused_class@, t2.focused_class@);
    lemma_same_ascii_case(spec_process(t), spec_process(t2));
    lemma_same_ascii_case(t.title@, t2.title@);
    assert(lowercase(t.title@) == lowercase(t2.title@));
}

} // verus!
