//! Recognising terminals, shells and their titles, and deciding how the
//! correction hotkey reaches them.
use vstd::prelude::*;
use crate::platform::ForegroundTarget;
use crate::text::{
    chars_all_white, chars_contains, chars_contains_char, chars_eq, chars_of, chars_starts_with,
    eq_ignore_ascii_case, has_infix, has_prefix, lead_white_len, lower_ascii, lower_ascii_vec,
    lower_chars_of, str_eq, str_eq_ignore_ascii_case, trim, all_white,
    trimmed_chars,
};

verus! {

/// How a terminal's Pause key is treated by the keyboard hook.
#[derive(Debug, Clone, Copy, PartialEq, Eq, Structural)]
pub enum TerminalPauseHandling {
    PassThrough,
    Suppress,
    TranslateToF13,
    TranslateToF14,
}

/// What kind of shell a terminal window hosts, as far as the hotkey is
/// concerned.
#[derive(Debug, Clone, Copy, PartialEq, Eq, Structural)]
pub enum TerminalPassthrough {
    NoPassthrough,
    PsReadLine,
    SshRemote,
    Ssh,
    TerminalApp,
    UnknownTerminal,
}

/// Windows Terminal, or a classic console focused on itself.
pub open spec fn spec_is_supported_terminal_class(app: Seq<char>, focused: Seq<char>) -> bool {
    app == "CASCADIA_HOSTING_WINDOW_CLASS"@ || (app == "ConsoleWindowClass"@ && focused
        == "ConsoleWindowClass"@)
}

/// Windows Terminal, or a classic console focused on itself (exact class
/// names).
pub fn is_supported_terminal_class(app_class: &str, focused_class: &str) -> (r: bool)
    ensures
        r == spec_is_supported_terminal_class(app_class@, focused_class@),
{
    str_eq(app_class, "CASCADIA_HOSTING_WINDOW_CLASS") || (str_eq(app_class, "ConsoleWindowClass")
        && str_eq(focused_class, "ConsoleWindowClass"))
}

/// A classic console window (ignoring ASCII case).
pub open spec fn spec_is_classic_console_class(app: Seq<char>, focused: Seq<char>) -> bool {
    eq_ignore_ascii_case(app, "ConsoleWindowClass"@) && eq_ignore_ascii_case(
        focused,
        "ConsoleWindowClass"@,
    )
}

/// A classic console window: both classes are `ConsoleWindowClass`.
pub fn is_classic_console_class(app_class: &str, focused_class: &str) -> (r: bool)
    ensures
        r == spec_is_classic_console_class(app_class@, focused_class@),
{
    str_eq_ignore_ascii_case(app_class, "ConsoleWindowClass") && str_eq_ignore_ascii_case(
        focused_class,
        "ConsoleWindowClass",
    )
}

/// The Windows Terminal input site, where PSReadLine can take the hotkey.
pub open spec fn spec_is_psreadline_passthrough_terminal_class(app: Seq<char>, focused: Seq<char>) -> bool {
    app == "CASCADIA_HOSTING_WINDOW_CLASS"@ && focused == "Windows.UI.Input.InputSite.WindowClass"@
}

/// The Windows Terminal input site (exact class names).
pub fn is_psreadline_passthrough_terminal_class(app_class: &str, focused_class: &str) -> (r: bool)
    ensures
        r == spec_is_psreadline_passthrough_terminal_class(app_class@, focused_class@),
{
    str_eq(app_class, "CASCADIA_HOSTING_WINDOW_CLASS") && str_eq(
        focused_class,
        "Windows.UI.Input.InputSite.WindowClass",
    )
}

/// A supported terminal that is not a classic console.
pub open spec fn spec_terminal_class_needs_conservative_suppression(app: Seq<char>, focused: Seq<char>) -> bool {
    spec_is_supported_terminal_class(app, focused) && !eq_ignore_ascii_case(
        app,
        "ConsoleWindowClass"@,
    ) && !eq_ignore_ascii_case(focused, "ConsoleWindowClass"@)
}

/// A supported terminal that is not a classic console: its Pause key is
/// suppressed unless a shell adapter takes it.
pub fn terminal_class_needs_conservative_suppression(app_class: &str, focused_class: &str) -> (r:
    bool)
    ensures
        r == spec_terminal_class_needs_conservative_suppression(app_class@, focused_class@),
{
    is_supported_terminal_class(app_class, focused_class) && !str_eq_ignore_ascii_case(
        app_class,
        "ConsoleWindowClass",
    ) && !str_eq_ignore_ascii_case(focused_class, "ConsoleWindowClass")
}

/// The lower-cased title names `cmd.exe`.
pub open spec fn spec_is_cmd_terminal_title(title: Seq<char>) -> bool {
    has_infix(lower_ascii(title), "cmd.exe"@)
}

/// The title names `cmd.exe` (ignoring ASCII case).
pub fn is_cmd_terminal_title(title: &str) -> (r: bool)
    ensures
        r == spec_is_cmd_terminal_title(title@),
{
    chars_contains(&lower_chars_of(title), &chars_of("cmd.exe"))
}

/// A local PowerShell title: no remote markers, and a PowerShell name.
pub open spec fn spec_is_local_psreadline_terminal_title(title: Seq<char>) -> bool {
    let t = lower_ascii(title);
    if all_white(t) || t.contains('@') || has_infix(t, "ssh"@) || has_infix(t, "vpn"@) || has_infix(
        t,
        "root"@,
    ) || has_infix(t, "linux"@) || has_infix(t, "ubuntu"@) || has_infix(t, "debian"@) {
        false
    } else {
        t == "windows powershell"@ || t == "powershell"@ || t == "pwsh"@ || has_prefix(
            t,
            "windows powershell "@,
        ) || has_prefix(t, "powershell "@) || has_prefix(t, "pwsh "@) || has_prefix(
            t,
            "powershell 7"@,
        )
    }
}

/// The title of a local PowerShell tab.
pub fn is_local_psreadline_terminal_title(title: &str) -> (r: bool)
    ensures
        r == spec_is_local_psreadline_terminal_title(title@),
{
    let t = lower_chars_of(title);
    if chars_all_white(&t) || chars_contains_char(&t, '@') || chars_contains(&t, &chars_of("ssh"))
        || chars_contains(&t, &chars_of("vpn")) || chars_contains(&t, &chars_of("root"))
        || chars_contains(&t, &chars_of("linux")) || chars_contains(&t, &chars_of("ubuntu"))
        || chars_contains(&t, &chars_of("debian")) {
        return false;
    }
    chars_eq(&t, &chars_of("windows powershell")) || chars_eq(&t, &chars_of("powershell"))
        || chars_eq(&t, &chars_of("pwsh")) || chars_starts_with(&t, &chars_of("windows powershell "))
        || chars_starts_with(&t, &chars_of("powershell ")) || chars_starts_with(
        &t,
        &chars_of("pwsh "),
    ) || chars_starts_with(&t, &chars_of("powershell 7"))
}


/// An SSH-like title (a user at a host, or a remote distribution name) that
/// is neither a local PowerShell nor `cmd.exe`.
pub open spec fn spec_is_ssh_terminal_title(title: Seq<char>) -> bool {
    let t = lower_ascii(trim(title));
    if t.len() == 0 || spec_is_local_psreadline_terminal_title(t) || spec_is_cmd_terminal_title(t) {
        false
    } else {
        has_infix(t, "ssh"@) || t.contains('@') || has_prefix(t, "vpn"@) || has_prefix(t, "root"@)
            || has_prefix(t, "ubuntu"@) || has_prefix(t, "debian"@) || has_prefix(t, "linux"@)
    }
}

/// The title of an SSH session.
pub fn is_ssh_terminal_title(title: &str) -> (r: bool)
    ensures
        r == spec_is_ssh_terminal_title(title@),
{
    let trimmed = trimmed_chars(&chars_of(title));
    let t = lower_ascii_vec(&trimmed);
    let ts = crate::text::string_from_chars(&t);
    if t.len() == 0 || is_local_psreadline_terminal_title(ts.as_str()) || is_cmd_terminal_title(
        ts.as_str(),
    ) {
        return false;
    }
    chars_contains(&t, &chars_of("ssh")) || chars_contains_char(&t, '@') || chars_starts_with(
        &t,
        &chars_of("vpn"),
    ) || chars_starts_with(&t, &chars_of("root")) || chars_starts_with(&t, &chars_of("ubuntu"))
        || chars_starts_with(&t, &chars_of("debian")) || chars_starts_with(&t, &chars_of("linux"))
}

/// The title announces the Stepler remote adapter of an SSH session.
pub open spec fn spec_is_ssh_remote_adapter_title(title: Seq<char>) -> bool {
    has_infix(lower_ascii(title), "stepler-remote-ready"@)
}

/// The title announces the Stepler remote adapter.
pub fn is_ssh_remote_adapter_title(title: &str) -> (r: bool)
    ensures
        r == spec_is_ssh_remote_adapter_title(title@),
{
    chars_contains(&lower_chars_of(title), &chars_of("stepler-remote-ready"))
}

/// The title names a terminal application that takes the hotkey itself.
pub open spec fn spec_is_terminal_app_passthrough_title(title: Seq<char>) -> bool {
    has_infix(lower_ascii(title), "qwen"@) || has_infix(lower_ascii(title), "stepler-terminal-app"@)
}

/// The title names a terminal application (Qwen, or a Stepler marker).
pub fn is_terminal_app_passthrough_title(title: &str) -> (r: bool)
    ensures
        r == spec_is_terminal_app_passthrough_title(title@),
{
    let t = lower_chars_of(title);
    chars_contains(&t, &chars_of("qwen")) || chars_contains(&t, &chars_of("stepler-terminal-app"))
}

/// How the hotkey reaches the shell of a window.
pub open spec fn spec_terminal_passthrough(app: Seq<char>, focused: Seq<char>, title: Seq<char>) -> TerminalPassthrough {
    if !spec_is_psreadline_passthrough_terminal_class(app, focused) {
        TerminalPassthrough::NoPassthrough
    } else if spec_is_cmd_terminal_title(title) {
        TerminalPassthrough::NoPassthrough
    } else if spec_is_ssh_remote_adapter_title(title) {
        TerminalPassthrough::SshRemote
    } else if spec_is_ssh_terminal_title(title) {
        TerminalPassthrough::Ssh
    } else if spec_is_terminal_app_passthrough_title(title) {
        TerminalPassthrough::TerminalApp
    } else if spec_is_local_psreadline_terminal_title(title) {
        TerminalPassthrough::PsReadLine
    } else {
        TerminalPassthrough::UnknownTerminal
    }
}

/// How the hotkey reaches the shell of the window with these classes and
/// title.
pub fn terminal_passthrough_for_window(app_class: &str, focused_class: &str, title: &str) -> (r:
    TerminalPassthrough)
    ensures
        r == spec_terminal_passthrough(app_class@, focused_class@, title@),
{
    if !is_psreadline_passthrough_terminal_class(app_class, focused_class) {
        return TerminalPassthrough::NoPassthrough;
    }
    if is_cmd_terminal_title(title) {
        return TerminalPassthrough::NoPassthrough;
    }
    if is_ssh_remote_adapter_title(title) {
        return TerminalPassthrough::SshRemote;
    }
    if is_ssh_terminal_title(title) {
        return TerminalPassthrough::Ssh;
    }
    if is_terminal_app_passthrough_title(title) {
        return TerminalPassthrough::TerminalApp;
    }
    if is_local_psreadline_terminal_title(title) {
        return TerminalPassthrough::PsReadLine;
    }
    TerminalPassthrough::UnknownTerminal
}

/// An SSH session inside the Windows Terminal input site.
pub fn is_ssh_terminal_target(target: &ForegroundTarget) -> (r: bool)
    ensures
        r == (spec_is_psreadline_passthrough_terminal_class(
            target.app_class@,
            target.focused_class@,
        ) && spec_is_ssh_terminal_title(target.title@)),
{
    is_psreadline_passthrough_terminal_class(
        target.app_class.as_str(),
        target.focused_class.as_str(),
    ) && is_ssh_terminal_title(target.title.as_str())
}

/// Titles of the desktop apps that host an embedded terminal.
pub open spec fn spec_is_codex_embedded_terminal_host_title(title: Seq<char>) -> bool {
    eq_ignore_ascii_case(title, "Codex"@) || eq_ignore_ascii_case(title, "ChatGPT"@)
}

/// The window title of a desktop app that hosts an embedded terminal.
pub fn is_codex_embedded_terminal_host_title(title: &str) -> (r: bool)
    ensures
        r == spec_is_codex_embedded_terminal_host_title(title@),
{
    str_eq_ignore_ascii_case(title, "Codex") || str_eq_ignore_ascii_case(title, "ChatGPT")
}

/// The embedded terminal's focused element.
pub fn is_embedded_terminal_focus_class(class_name: &str) -> (r: bool)
    ensures
        r == eq_ignore_ascii_case(class_name@, "xterm-helper-textarea"@),
{
    str_eq_ignore_ascii_case(class_name, "xterm-helper-textarea")
}

/// Text that another hotkey tool leaves on the clipboard as a marker.
pub open spec fn spec_looks_like_hotkeyhandler_marker(text: Seq<char>) -> bool {
    let t = trim(text);
    has_prefix(t, "__HKH_"@) || (has_prefix(t, "__"@) && has_infix(t, "_MARKER_"@))
}

/// Text that another hotkey tool leaves on the clipboard as a marker.
pub fn looks_like_hotkeyhandler_marker(text: &str) -> (r: bool)
    ensures
        r == spec_looks_like_hotkeyhandler_marker(text@),
{
    let t = trimmed_chars(&chars_of(text));
    chars_starts_with(&t, &chars_of("__HKH_")) || (chars_starts_with(&t, &chars_of("__"))
        && chars_contains(&t, &chars_of("_MARKER_")))
}

/// The text after the last prompt marker (`"> "`, else `">"`) of a
/// console line, trailing spaces removed; the line itself, trimmed of
/// leading white space, when it has no prompt.
pub open spec fn spec_console_input(line: Seq<char>) -> Seq<char> {
    let t = trim_trailing_spaces(line);
    if has_infix(t, "> "@) {
        t.subrange(last_occurrence(t, "> "@) + 2, t.len() as int)
    } else if t.contains('>') {
        t.subrange(last_occurrence(t, ">"@) + 1, t.len() as int)
    } else {
        crate::text::trim_start(t)
    }
}

/// `line` without its trailing `' '` characters (`trim_end_matches(' ')`).
pub open spec fn trim_trailing_spaces(line: Seq<char>) -> Seq<char>
    decreases line.len(),
{
    if line.len() > 0 && line.last() == ' ' {
        trim_trailing_spaces(line.drop_last())
    } else {
        line
    }
}

/// The last position where `p` occurs in `s`.
pub open spec fn last_occurrence(s: Seq<char>, p: Seq<char>) -> int {
    choose|i: int| crate::text::occurs_at(s, p, i) && forall|j: int| i < j ==> !crate::text::occurs_at(s, p, j)
}

proof fn lemma_trim_trailing_spaces(line: Seq<char>, k: int)
    requires
        0 <= k <= line.len(),
        forall|j: int| k <= j < line.len() ==> line[j] == ' ',
        k == 0 || line[k - 1] != ' ',
    ensures
        trim_trailing_spaces(line) == line.subrange(0, k),
    decreases line.len(),
{
    if line.len() > 0 && line.last() == ' ' {
        assert(k < line.len());
        lemma_trim_trailing_spaces(line.drop_last(), k);
        assert(line.drop_last().subrange(0, k) == line.subrange(0, k));
    } else {
        assert(k == line.len());
        assert(line.subrange(0, k) == line);
    }
}

/// The user input of a console line that may start with a prompt.
pub fn console_input_from_prompt_line(line: &str) -> (r: String)
    ensures
        r@ == spec_console_input(line@),
{
    let v = chars_of(line);
    let mut k: usize = v.len();
    while k > 0 && v[k - 1] == ' '
        invariant
            k <= v.len(),
            forall|j: int| k <= j < v.len() ==> v@[j] == ' ',
        decreases k,
    {
        k -= 1;
    }
    proof {
        lemma_trim_trailing_spaces(v@, k as int);
    }
    let t = &v[0..k];
    let gt2 = chars_of("> ");
    let gt1 = chars_of(">");
    proof {
        reveal_strlit("> ");
        reveal_strlit(">");
    }
    match crate::text::chars_rfind(t, &gt2) {
        Some(index) => {
            proof {
                let c = last_occurrence(t@, "> "@);
                assert(crate::text::occurs_at(t@, "> "@, c));
                if c < index {
                } else if c > index {
                }
                assert(c == index);
            }
            return crate::text::string_from_range(t, index + 2, t.len());
        },
        None => {},
    }
    match crate::text::chars_rfind(t, &gt1) {
        Some(index) => {
            proof {
                assert(t@.subrange(index as int, index + 1)[0] == t@[index as int]);
                assert(t@[index as int] == '>');
                assert(t@.contains('>'));
                let c = last_occurrence(t@, ">"@);
                assert(crate::text::occurs_at(t@, ">"@, c));
                assert(c == index);
            }
            return crate::text::string_from_range(t, index + 1, t.len());
        },
        None => {
            proof {
                if t@.contains('>') {
                    let j = choose|j: int| 0 <= j < t@.len() && t@[j] == '>';
                    assert(t@.subrange(j, j + 1) == ">"@);
                    assert(crate::text::occurs_at(t@, ">"@, j));
                }
            }
        },
    }
    let lead = lead_white_len(t);
    proof {
        crate::text::lemma_lead_white_bound(t@);
    }
    crate::text::string_from_range(t, lead, t.len())
}


/// A window title as the targets see it: the active terminal-app marker's
/// title is added (after a space) unless the title already holds it.
pub open spec fn spec_title_with_marker(title: Seq<char>, marker_title: Option<Seq<char>>) -> Seq<char> {
    match marker_title {
        Some(m) => if crate::text::has_infix(title, m) {
            title
        } else {
            title + " "@ + m
        },
        None => title,
    }
}

pub fn title_with_terminal_app_marker(title: String, marker_title: Option<&str>) -> (r: String)
    ensures
        r@ == spec_title_with_marker(
            title@,
            match marker_title {
                Some(m) => Some(m@),
                None => None,
            },
        ),
{
    match marker_title {
        Some(m) => if crate::text::str_contains(title.as_str(), m) {
            title
        } else {
            let spaced = crate::text::concat(title.as_str(), " ");
            crate::text::concat(spaced.as_str(), m)
        },
        None => title,
    }
}

} // verus!
