//! Keyboard-layout switching: which installed layouts stand for Russian and
//! English, which layout a request activates, how a layout change is
//! delivered to the focused window, and when a pending change is done.
use vstd::prelude::*;
use crate::hotkeys::KeyboardControlAction;
use crate::platform::PlatformError;
use crate::text::{
    eq_ignore_ascii_case, has_infix, has_prefix, lower_ascii, lower_chars_of,
    str_eq_ignore_ascii_case, chars_contains, chars_starts_with,
};

verus! {

/// Language identifier of Russian.
pub const LANG_RUSSIAN: u16 = 0x0419;

/// Language identifier of US English.
pub const LANG_ENGLISH: u16 = 0x0409;

/// Primary language identifier of English (any sublanguage).
pub const LANG_ENGLISH_PRIMARY: u16 = 0x0009;

/// Language identifier of a keyboard layout handle: its low word.
pub open spec fn layout_language(layout: isize) -> u16 {
    ((layout as u32) & 0xFFFFu32) as u16
}

/// Primary language of a language identifier: its low ten bits.
pub open spec fn primary_language(language_id: u16) -> u16 {
    language_id & 0x03FFu16
}

/// The first layout of `layouts` that satisfies `pred`, if any.
pub open spec fn first_layout_where(layouts: Seq<isize>, pred: spec_fn(isize) -> bool) -> Option<isize>
    decreases layouts.len(),
{
    if layouts.len() == 0 {
        None
    } else if pred(layouts[0]) {
        Some(layouts[0])
    } else {
        first_layout_where(layouts.drop_first(), pred)
    }
}

pub open spec fn has_language(language_id: u16) -> spec_fn(isize) -> bool {
    |layout: isize| layout_language(layout) == language_id
}

pub open spec fn has_primary_language(primary_language_id: u16) -> spec_fn(isize) -> bool {
    |layout: isize| primary_language(layout_language(layout)) == primary_language_id
}

/// What `first_layout_where` gives: the first matching element, or nothing
/// when none matches.
pub proof fn lemma_first_layout_where(layouts: Seq<isize>, pred: spec_fn(isize) -> bool)
    ensures
        match first_layout_where(layouts, pred) {
            Some(layout) => exists|i: int|
                0 <= i < layouts.len() && layouts[i] == layout && pred(layout) && forall|j: int|
                    0 <= j < i ==> !pred(#[trigger] layouts[j]),
            None => forall|i: int| 0 <= i < layouts.len() ==> !pred(#[trigger] layouts[i]),
        },
    decreases layouts.len(),
{
    if layouts.len() > 0 && !pred(layouts[0]) {
        let rest = layouts.drop_first();
        lemma_first_layout_where(rest, pred);
        match first_layout_where(rest, pred) {
            Some(layout) => {
                let i = choose|i: int|
                    0 <= i < rest.len() && rest[i] == layout && pred(layout) && forall|j: int|
                        0 <= j < i ==> !pred(#[trigger] rest[j]);
                assert(layouts[i + 1] == layout);
                assert forall|j: int| 0 <= j < i + 1 implies !pred(#[trigger] layouts[j]) by {
                    if j > 0 {
                        assert(layouts[j] == rest[j - 1]);
                    }
                }
            },
            None => {
                assert forall|i: int| 0 <= i < layouts.len() implies !pred(#[trigger] layouts[i]) by {
                    if i > 0 {
                        assert(layouts[i] == rest[i - 1]);
                    }
                }
            },
        }
    }
}

fn language_of(layout: isize) -> (r: u16)
    ensures
        r == layout_language(layout),
{
    ((layout as u32) & 0xFFFFu32) as u16
}

/// The first installed layout whose language identifier is `language_id`.
pub fn find_layout_by_language(layouts: &[isize], language_id: u16) -> (r: Option<isize>)
    ensures
        r == first_layout_where(layouts@, has_language(language_id)),
{
    let mut i: usize = 0;
    assert(layouts@.skip(0) == layouts@);
    while i < layouts.len()
        invariant
            i <= layouts.len(),
            first_layout_where(layouts@, has_language(language_id)) == first_layout_where(
                layouts@.skip(i as int),
                has_language(language_id),
            ),
        decreases layouts.len() - i,
    {
        let layout = layouts[i];
        assert(layouts@.skip(i as int)[0] == layout);
        if language_of(layout) == language_id {
            return Some(layout);
        }
        assert(layouts@.skip(i as int).drop_first() == layouts@.skip(i + 1));
        i += 1;
    }
    None
}

/// The first installed layout whose primary language is
/// `primary_language_id` (so every English variant matches English).
pub fn find_layout_by_primary_language(layouts: &[isize], primary_language_id: u16) -> (r: Option<
    isize,
>)
    ensures
        r == first_layout_where(layouts@, has_primary_language(primary_language_id)),
{
    let mut i: usize = 0;
    assert(layouts@.skip(0) == layouts@);
    while i < layouts.len()
        invariant
            i <= layouts.len(),
            first_layout_where(layouts@, has_primary_language(primary_language_id))
                == first_layout_where(layouts@.skip(i as int), has_primary_language(primary_language_id)),
        decreases layouts.len() - i,
    {
        let layout = layouts[i];
        assert(layouts@.skip(i as int)[0] == layout);
        let language_id = language_of(layout);
        if language_id & 0x03FFu16 == primary_language_id {
            return Some(layout);
        }
        assert(layouts@.skip(i as int).drop_first() == layouts@.skip(i + 1));
        i += 1;
    }
    None
}

/// How a layout change reaches the focused window.
#[derive(Debug, Clone, Copy, PartialEq, Eq, Structural)]
pub enum LayoutTransport {
    /// The system next-layout hotkey, repeated until the target is active
    /// (Outlook ignores layout-change messages).
    OutlookSystemHotkey,
    /// A layout-change request message posted to the window.
    WindowMessage,
}

/// Outlook is recognised by its process, its main window class, or a Word
/// editor inside a window whose class names Outlook.
pub open spec fn spec_is_outlook_class_or_process(
    app_class: Seq<char>,
    focused_class: Seq<char>,
    process_name: Option<Seq<char>>,
) -> bool {
    (process_name matches Some(p) && eq_ignore_ascii_case(p, "OUTLOOK"@))
        || eq_ignore_ascii_case(app_class, "rctrl_renwnd32"@)
        || (eq_ignore_ascii_case(focused_class, "_WwG"@) && has_infix(lower_ascii(app_class), "outlook"@))
}

pub fn is_outlook_class_or_process(
    app_class: &str,
    focused_class: &str,
    process_name: Option<&str>,
) -> (r: bool)
    ensures
        r == spec_is_outlook_class_or_process(
            app_class@,
            focused_class@,
            match process_name {
                Some(p) => Some(p@),
                None => None,
            },
        ),
{
    let process_is_outlook = match process_name {
        Some(p) => str_eq_ignore_ascii_case(p, "OUTLOOK"),
        None => false,
    };
    if process_is_outlook || str_eq_ignore_ascii_case(app_class, "rctrl_renwnd32") {
        return true;
    }
    str_eq_ignore_ascii_case(focused_class, "_WwG") && chars_contains(
        &lower_chars_of(app_class),
        &crate::text::chars_of("outlook"),
    )
}

/// The transport for a window: the system hotkey for Outlook, a window
/// message for everything else.
pub fn layout_transport_for_surface(
    app_class: &str,
    focused_class: &str,
    process_name: Option<&str>,
) -> (r: LayoutTransport)
    ensures
        (r == LayoutTransport::OutlookSystemHotkey) == spec_is_outlook_class_or_process(
            app_class@,
            focused_class@,
            match process_name {
                Some(p) => Some(p@),
                None => None,
            },
        ),
{
    if is_outlook_class_or_process(app_class, focused_class, process_name) {
        LayoutTransport::OutlookSystemHotkey
    } else {
        LayoutTransport::WindowMessage
    }
}

/// Focus classes inside Outlook that accept typed text: the Word editor,
/// plain edits and rich edits.
pub open spec fn spec_is_outlook_editable_focus_class(class_name: Seq<char>) -> bool {
    eq_ignore_ascii_case(class_name, "_WwG"@) || eq_ignore_ascii_case(class_name, "edit"@)
        || has_prefix(lower_ascii(class_name), "richedit"@)
}

pub fn is_outlook_editable_focus_class(class_name: &str) -> (r: bool)
    ensures
        r == spec_is_outlook_editable_focus_class(class_name@),
{
    str_eq_ignore_ascii_case(class_name, "_WwG") || str_eq_ignore_ascii_case(class_name, "edit")
        || chars_starts_with(&lower_chars_of(class_name), &crate::text::chars_of("richedit"))
}

/// What a layout switcher knows: the installed layouts in system order, the
/// layouts that stand for Russian and English, and the cycle order used by
/// "next layout".
pub ghost struct LayoutSwitcherView {
    pub layouts: Seq<isize>,
    pub ordered_layouts: Seq<isize>,
    pub russian_layout: Option<isize>,
    pub english_layout: Option<isize>,
}

/// The cycle order: Russian then English where installed, or every
/// installed layout when neither is.
pub open spec fn spec_ordered_layouts(
    layouts: Seq<isize>,
    russian: Option<isize>,
    english: Option<isize>,
) -> Seq<isize> {
    let picked = match russian {
        Some(r) => seq![r],
        None => Seq::empty(),
    } + match english {
        Some(e) => seq![e],
        None => Seq::empty(),
    };
    if picked.len() == 0 {
        layouts
    } else {
        picked
    }
}

/// The switcher state after loading `layouts`.
pub open spec fn spec_loaded_switcher(layouts: Seq<isize>) -> LayoutSwitcherView {
    let russian = first_layout_where(layouts, has_language(LANG_RUSSIAN));
    let english = first_layout_where(layouts, has_primary_language(LANG_ENGLISH_PRIMARY));
    LayoutSwitcherView {
        layouts,
        ordered_layouts: spec_ordered_layouts(layouts, russian, english),
        russian_layout: russian,
        english_layout: english,
    }
}

/// Switches the keyboard layout of the foreground window between Russian
/// and English.
#[derive(Debug)]
pub struct WindowsLayoutSwitcher {
    layouts: Vec<isize>,
    ordered_layouts: Vec<isize>,
    russian_layout: Option<isize>,
    english_layout: Option<isize>,
}

impl View for WindowsLayoutSwitcher {
    type V = LayoutSwitcherView;

    closed spec fn view(&self) -> LayoutSwitcherView {
        LayoutSwitcherView {
            layouts: self.layouts@,
            ordered_layouts: self.ordered_layouts@,
            russian_layout: self.russian_layout,
            english_layout: self.english_layout,
        }
    }
}

/// The layout that the next-layout request activates when `current` is
/// active: the entry after the first occurrence of `current` in the cycle
/// order, wrapping around; the second entry when `current` is not in it.
pub open spec fn spec_next_layout(ordered: Seq<isize>, current: isize) -> isize
    recommends
        ordered.len() >= 2,
{
    let index = match ordered.index_of_first(current) {
        Some(i) => i,
        None => 0,
    };
    ordered[(index + 1) % (ordered.len() as int)]
}

/// Outcome of a request for a fixed layout: the layout, or `Unsupported`
/// when it is not installed.
pub open spec fn spec_layout_request(layout: Option<isize>) -> Result<isize, PlatformError> {
    match layout {
        Some(l) => Ok(l),
        None => Err(PlatformError::Unsupported),
    }
}

impl WindowsLayoutSwitcher {
    /// A switcher over the given installed layouts (in system order).
    pub fn new(layouts: Vec<isize>) -> (r: WindowsLayoutSwitcher)
        ensures
            r@ == spec_loaded_switcher(layouts@),
    {
        let mut switcher = WindowsLayoutSwitcher::default();
        switcher.reload_layouts(layouts);
        switcher
    }

    /// Replaces the installed layouts and recomputes the Russian and English
    /// layouts and the cycle order.
    pub fn reload_layouts(&mut self, layouts: Vec<isize>)
        ensures
            final(self)@ == spec_loaded_switcher(layouts@),
    {
        let russian = find_layout_by_language(layouts.as_slice(), LANG_RUSSIAN);
        let english = find_layout_by_primary_language(layouts.as_slice(), LANG_ENGLISH_PRIMARY);
        let mut ordered: Vec<isize> = Vec::new();
        if let Some(layout) = russian {
            ordered.push(layout);
        }
        if let Some(layout) = english {
            ordered.push(layout);
        }
        if ordered.len() == 0 {
            let mut i: usize = 0;
            while i < layouts.len()
                invariant
                    i <= layouts.len(),
                    ordered@ == layouts@.take(i as int),
                decreases layouts.len() - i,
            {
                ordered.push(layouts[i]);
                assert(layouts@.take(i + 1) == layouts@.take(i as int).push(layouts@[i as int]));
                i += 1;
            }
            assert(layouts@.take(layouts.len() as int) == layouts@);
        }
        proof {
            let picked = match russian {
                Some(r) => seq![r],
                None => Seq::<isize>::empty(),
            } + match english {
                Some(e) => seq![e],
                None => Seq::<isize>::empty(),
            };
            if picked.len() != 0 {
                assert(ordered@ == picked);
            }
        }
        self.layouts = layouts;
        self.ordered_layouts = ordered;
        self.russian_layout = russian;
        self.english_layout = english;
    }

    /// The Russian layout to activate in the foreground window.
    pub fn switch_to_russian(&self) -> (r: Result<isize, PlatformError>)
        ensures
            r == spec_layout_request(self@.russian_layout),
    {
        match self.russian_layout {
            Some(layout) => Ok(layout),
            None => Err(PlatformError::Unsupported),
        }
    }

    /// The English layout to activate in the foreground window.
    pub fn switch_to_english(&self) -> (r: Result<isize, PlatformError>)
        ensures
            r == spec_layout_request(self@.english_layout),
    {
        match self.english_layout {
            Some(layout) => Ok(layout),
            None => Err(PlatformError::Unsupported),
        }
    }

    /// The Russian layout to post to `hwnd`; a null window is refused.
    pub fn switch_window_to_russian(&self, hwnd: isize) -> (r: Result<isize, PlatformError>)
        ensures
            r == (match self@.russian_layout {
                None => Err(PlatformError::Unsupported),
                Some(l) => if hwnd == 0 {
                    Err(PlatformError::ForegroundUnavailable)
                } else {
                    Ok(l)
                },
            }),
    {
        let layout = self.switch_to_russian()?;
        window_layout_request(hwnd, layout)
    }

    /// The English layout to post to `hwnd`; a null window is refused.
    pub fn switch_window_to_english(&self, hwnd: isize) -> (r: Result<isize, PlatformError>)
        ensures
            r == (match self@.english_layout {
                None => Err(PlatformError::Unsupported),
                Some(l) => if hwnd == 0 {
                    Err(PlatformError::ForegroundUnavailable)
                } else {
                    Ok(l)
                },
            }),
    {
        let layout = self.switch_to_english()?;
        window_layout_request(hwnd, layout)
    }

    /// The layout that follows `current` in the cycle order; `Unsupported`
    /// when there are fewer than two layouts to cycle through.
    pub fn switch_to_next(&self, current: isize) -> (r: Result<isize, PlatformError>)
        ensures
            self@.ordered_layouts.len() < 2 ==> r == Err::<isize, PlatformError>(
                PlatformError::Unsupported,
            ),
            self@.ordered_layouts.len() >= 2 ==> r == Ok::<isize, PlatformError>(
                spec_next_layout(self@.ordered_layouts, current),
            ),
    {
        let n = self.ordered_layouts.len();
        if n < 2 {
            return Err(PlatformError::Unsupported);
        }
        let ghost ordered = self.ordered_layouts@;
        let mut index: usize = 0;
        let mut found = false;
        let mut i: usize = 0;
        while i < n
            invariant
                n == ordered.len(),
                ordered == self.ordered_layouts@,
                i <= n,
                !found ==> index == 0,
                !found ==> forall|j: int| 0 <= j < i ==> ordered[j] != current,
                found ==> index < n && ordered[index as int] == current && forall|j: int|
                    0 <= j < index ==> ordered[j] != current,
            decreases n - i,
        {
            if !found && self.ordered_layouts[i] == current {
                index = i;
                found = true;
            }
            i += 1;
        }
        proof {
            ordered.index_of_first_ensures(current);
            if found {
                assert(ordered.contains(current));
                let k = ordered.index_of_first(current).unwrap();
                assert(k == index as int) by {
                    if k < index {
                        assert(ordered[k] == current);
                    }
                    if k > index {
                        assert(ordered[index as int] == current);
                    }
                }
            } else {
                assert(!ordered.contains(current)) by {
                    if ordered.contains(current) {
                        let j = choose|j: int| 0 <= j < ordered.len() && ordered[j] == current;
                        assert(ordered[j] != current);
                    }
                }
            }
        }
        let next_index = (index + 1) % n;
        Ok(self.ordered_layouts[next_index])
    }

    /// The layout that a keyboard-control action activates, given the
    /// layout active in the foreground window (used by "next").
    pub fn handle_action(&self, action: KeyboardControlAction, current: isize) -> (r: Result<
        isize,
        PlatformError,
    >)
        ensures
            action == KeyboardControlAction::SwitchToRussian ==> r == spec_layout_request(
                self@.russian_layout,
            ),
            action == KeyboardControlAction::SwitchToEnglish ==> r == spec_layout_request(
                self@.english_layout,
            ),
            action == KeyboardControlAction::SwitchToNext ==> (if self@.ordered_layouts.len()
                < 2 {
                r == Err::<isize, PlatformError>(PlatformError::Unsupported)
            } else {
                r == Ok::<isize, PlatformError>(spec_next_layout(self@.ordered_layouts, current))
            }),
    {
        match action {
            KeyboardControlAction::SwitchToRussian => self.switch_to_russian(),
            KeyboardControlAction::SwitchToEnglish => self.switch_to_english(),
            KeyboardControlAction::SwitchToNext => self.switch_to_next(current),
        }
    }

    /// The target layout of a two-phase layout change: Russian or English;
    /// "next" has no fixed target and is refused.
    pub fn layout_action_target(&self, action: KeyboardControlAction) -> (r: Result<
        isize,
        PlatformError,
    >)
        ensures
            r == (match action {
                KeyboardControlAction::SwitchToRussian => spec_layout_request(self@.russian_layout),
                KeyboardControlAction::SwitchToEnglish => spec_layout_request(self@.english_layout),
                KeyboardControlAction::SwitchToNext => Err(PlatformError::Unsupported),
            }),
    {
        match action {
            KeyboardControlAction::SwitchToRussian => self.switch_to_russian(),
            KeyboardControlAction::SwitchToEnglish => self.switch_to_english(),
            KeyboardControlAction::SwitchToNext => Err(PlatformError::Unsupported),
        }
    }
}

impl Default for WindowsLayoutSwitcher {
    fn default() -> (r: WindowsLayoutSwitcher)
        ensures
            r@ == spec_loaded_switcher(Seq::empty()),
    {
        WindowsLayoutSwitcher {
            layouts: Vec::new(),
            ordered_layouts: Vec::new(),
            russian_layout: None,
            english_layout: None,
        }
    }
}

fn window_layout_request(hwnd: isize, layout: isize) -> (r: Result<isize, PlatformError>)
    ensures
        r == (if hwnd == 0 {
            Err(PlatformError::ForegroundUnavailable)
        } else {
            Ok(layout)
        }),
{
    if hwnd == 0 {
        Err(PlatformError::ForegroundUnavailable)
    } else {
        Ok(layout)
    }
}

/// Time after which a window-message layout change is given up.
pub const WINDOW_LAYOUT_DEADLINE_MS: u64 = 350;

/// Time after which an Outlook layout change is given up.
pub const OUTLOOK_LAYOUT_DEADLINE_MS: u64 = 250;

/// Time after a dispatch before the change is dispatched again.
pub const LAYOUT_RETRY_AFTER_MS: u64 = 70;

/// Most dispatches of a window-message layout change.
pub const WINDOW_LAYOUT_MAX_DISPATCHES: usize = 4;

/// Pause between two checks of a pending layout change.
pub const LAYOUT_POLL_MS: u64 = 10;

/// The pauses before each check of a layout change sent to a window by
/// layout-change messages.
pub open spec fn spec_window_layout_delays() -> Seq<u64> {
    seq![40, 120, 220, 500, 900]
}

/// The next move of a layout change sent by layout-change messages.
#[derive(Debug, Clone, Copy, PartialEq, Eq, Structural)]
pub enum WindowLayoutPoll {
    /// Wait this long, then check.
    Wait(u64),
    /// The target layout is active.
    Verified,
    /// Send the change again, wait this long, then check.
    RepostAndWait(u64),
    /// Send the change once more and report that it did not take.
    RepostAndGiveUp,
}

pub open spec fn spec_window_layout_poll(checks_done: nat, active: bool) -> WindowLayoutPoll {
    if checks_done == 0 {
        WindowLayoutPoll::Wait(spec_window_layout_delays()[0])
    } else if active {
        WindowLayoutPoll::Verified
    } else if checks_done < spec_window_layout_delays().len() {
        WindowLayoutPoll::RepostAndWait(spec_window_layout_delays()[checks_done as int])
    } else {
        WindowLayoutPoll::RepostAndGiveUp
    }
}

/// After the change was first sent and `checks_done` checks were made (the
/// last of which found the target layout `active` or not): wait before the
/// first check; done once it is active; otherwise send again and wait the
/// next pause, five checks in all.
pub fn window_layout_poll(checks_done: usize, active: bool) -> (r: WindowLayoutPoll)
    ensures
        r == spec_window_layout_poll(checks_done as nat, active),
{
    let delays: [u64; 5] = [40, 120, 220, 500, 900];
    assert(delays@ == spec_window_layout_delays());
    if checks_done == 0 {
        WindowLayoutPoll::Wait(delays[0])
    } else if active {
        WindowLayoutPoll::Verified
    } else if checks_done < 5 {
        WindowLayoutPoll::RepostAndWait(delays[checks_done])
    } else {
        WindowLayoutPoll::RepostAndGiveUp
    }
}

/// A layout change for Outlook, delivered by the system next-layout hotkey
/// and checked on the focused editor.
#[derive(Debug, Clone, Copy, PartialEq, Eq, Structural)]
pub struct PendingOutlookLayoutSwitch {
    pub foreground: isize,
    pub focused: isize,
    pub process_id: u32,
    pub target_layout: isize,
    pub started_ms: u64,
    pub last_dispatch_ms: u64,
    pub dispatch_count: usize,
    pub max_dispatches: usize,
}

/// A layout change delivered by layout-change messages to the foreground
/// window, its focused control and a hinted window of the same process.
#[derive(Debug, Clone, Copy, PartialEq, Eq, Structural)]
pub struct PendingWindowLayoutSwitch {
    pub foreground: isize,
    pub focused: isize,
    pub foreground_process_id: u32,
    pub focused_process_id: u32,
    pub dispatch_hwnd: isize,
    pub dispatch_process_id: u32,
    pub target_layout: isize,
    pub started_ms: u64,
    pub last_dispatch_ms: u64,
    pub dispatch_count: usize,
}

/// A layout change that has been begun and is waiting to take effect.
#[derive(Debug, Clone, Copy, PartialEq, Eq, Structural)]
pub enum PendingLayoutSwitch {
    Outlook(PendingOutlookLayoutSwitch),
    Window(PendingWindowLayoutSwitch),
}

/// What is read of the foreground window when a layout change begins.
/// A process id is `None` where it could not be read.
#[derive(Debug, Clone)]
pub struct LayoutFocus {
    pub foreground: isize,
    pub transport: LayoutTransport,
    pub focused: Option<isize>,
    pub focused_class: String,
    pub foreground_process_id: Option<u32>,
    pub focused_process_id: Option<u32>,
    pub hwnd_hint: Option<isize>,
    pub hint_process_id: Option<u32>,
    pub installed_layout_count: usize,
}

/// What is read of the foreground window at one check of a pending change.
#[derive(Debug, Clone, Copy, PartialEq, Eq, Structural)]
pub struct LayoutObservation {
    pub foreground: isize,
    pub focused: Option<isize>,
    pub foreground_process_id: Option<u32>,
    pub focused_process_id: Option<u32>,
    pub dispatch_process_id: Option<u32>,
    pub current_layout: isize,
    pub now_ms: u64,
}

/// The next move of a pending layout change.
#[derive(Debug, Clone, PartialEq, Eq)]
pub enum LayoutStep {
    /// The target layout is active: the change is complete.
    Verified,
    /// The change failed with this error.
    Failed(PlatformError),
    /// Deliver the change again, then check again.
    Dispatch,
    /// Wait `LAYOUT_POLL_MS`, then check again.
    Wait,
}

/// The window that receives layout-change messages: the hint when it is a
/// real window of the foreground or focused process, else the foreground.
pub open spec fn spec_dispatch_hwnd(
    foreground: isize,
    hwnd_hint: Option<isize>,
    hint_process_id: Option<u32>,
    foreground_process_id: u32,
    focused_process_id: u32,
) -> isize {
    match hwnd_hint {
        Some(h) => if h != 0 && (hint_process_id matches Some(p) && (p == foreground_process_id
            || p == focused_process_id)) {
            h
        } else {
            foreground
        },
        None => foreground,
    }
}

pub fn dispatch_hwnd_for(
    foreground: isize,
    hwnd_hint: Option<isize>,
    hint_process_id: Option<u32>,
    foreground_process_id: u32,
    focused_process_id: u32,
) -> (r: isize)
    ensures
        r == spec_dispatch_hwnd(
            foreground,
            hwnd_hint,
            hint_process_id,
            foreground_process_id,
            focused_process_id,
        ),
{
    match hwnd_hint {
        Some(h) => {
            let same_process = match hint_process_id {
                Some(p) => p == foreground_process_id || p == focused_process_id,
                None => false,
            };
            if h != 0 && same_process {
                h
            } else {
                foreground
            }
        },
        None => foreground,
    }
}

/// `n` kept within `1..=6`.
pub open spec fn spec_outlook_max_dispatches(n: usize) -> usize {
    if n < 1 {
        1
    } else if n > 6 {
        6
    } else {
        n
    }
}

/// How a layout change to `layout` begins for the window described by
/// `focus` at time `now_ms`.
pub open spec fn spec_begin_layout_change(focus: LayoutFocus, layout: isize, now_ms: u64) -> Result<
    PendingLayoutSwitch,
    PlatformError,
> {
    match focus.transport {
        LayoutTransport::OutlookSystemHotkey => match (
            focus.foreground_process_id,
            focus.focused,
            focus.focused_process_id,
        ) {
            (Some(pid), Some(focused), Some(focused_pid)) => if focused_pid != pid {
                Err(PlatformError::ForegroundUnavailable)
            } else if !spec_is_outlook_editable_focus_class(focus.focused_class@) {
                Err(PlatformError::Unsupported)
            } else {
                Ok(
                    PendingLayoutSwitch::Outlook(
                        PendingOutlookLayoutSwitch {
                            foreground: focus.foreground,
                            focused,
                            process_id: pid,
                            target_layout: layout,
                            started_ms: now_ms,
                            last_dispatch_ms: now_ms,
                            dispatch_count: 0,
                            max_dispatches: spec_outlook_max_dispatches(
                                focus.installed_layout_count,
                            ),
                        },
                    ),
                )
            },
            _ => Err(PlatformError::ForegroundUnavailable),
        },
        LayoutTransport::WindowMessage => {
            let focused = match focus.focused {
                Some(f) => f,
                None => focus.foreground,
            };
            match (focus.foreground_process_id, focus.focused_process_id) {
                (Some(fpid), Some(cpid)) => {
                    let dispatch = spec_dispatch_hwnd(
                        focus.foreground,
                        focus.hwnd_hint,
                        focus.hint_process_id,
                        fpid,
                        cpid,
                    );
                    let dispatch_pid = if dispatch == focus.foreground {
                        fpid
                    } else {
                        focus.hint_process_id.unwrap()
                    };
                    Ok(
                        PendingLayoutSwitch::Window(
                            PendingWindowLayoutSwitch {
                                foreground: focus.foreground,
                                focused,
                                foreground_process_id: fpid,
                                focused_process_id: cpid,
                                dispatch_hwnd: dispatch,
                                dispatch_process_id: dispatch_pid,
                                target_layout: layout,
                                started_ms: now_ms,
                                last_dispatch_ms: now_ms,
                                dispatch_count: 0,
                            },
                        ),
                    )
                },
                _ => Err(PlatformError::ForegroundUnavailable),
            }
        },
    }
}

/// Starts a layout change to `layout`: for Outlook only when its focused
/// editor belongs to the foreground process and accepts text, for other
/// windows towards the hinted window when it shares their process.
pub fn begin_layout_change(focus: &LayoutFocus, layout: isize, now_ms: u64) -> (r: Result<
    PendingLayoutSwitch,
    PlatformError,
>)
    ensures
        r == spec_begin_layout_change(*focus, layout, now_ms),
{
    match focus.transport {
        LayoutTransport::OutlookSystemHotkey => {
            let (pid, focused, focused_pid) = match (
                focus.foreground_process_id,
                focus.focused,
                focus.focused_process_id,
            ) {
                (Some(pid), Some(focused), Some(focused_pid)) => (pid, focused, focused_pid),
                _ => {
                    return Err(PlatformError::ForegroundUnavailable);
                },
            };
            if focused_pid != pid {
                return Err(PlatformError::ForegroundUnavailable);
            }
            if !is_outlook_editable_focus_class(focus.focused_class.as_str()) {
                return Err(PlatformError::Unsupported);
            }
            let n = focus.installed_layout_count;
            let max_dispatches = if n < 1 {
                1
            } else if n > 6 {
                6
            } else {
                n
            };
            Ok(
                PendingLayoutSwitch::Outlook(
                    PendingOutlookLayoutSwitch {
                        foreground: focus.foreground,
                        focused,
                        process_id: pid,
                        target_layout: layout,
                        started_ms: now_ms,
                        last_dispatch_ms: now_ms,
                        dispatch_count: 0,
                        max_dispatches,
                    },
                ),
            )
        },
        LayoutTransport::WindowMessage => {
            let focused = match focus.focused {
                Some(f) => f,
                None => focus.foreground,
            };
            let (fpid, cpid) = match (focus.foreground_process_id, focus.focused_process_id) {
                (Some(fpid), Some(cpid)) => (fpid, cpid),
                _ => {
                    return Err(PlatformError::ForegroundUnavailable);
                },
            };
            let dispatch = dispatch_hwnd_for(
                focus.foreground,
                focus.hwnd_hint,
                focus.hint_process_id,
                fpid,
                cpid,
            );
            let dispatch_pid = if dispatch == focus.foreground {
                fpid
            } else {
                focus.hint_process_id.unwrap()
            };
            Ok(
                PendingLayoutSwitch::Window(
                    PendingWindowLayoutSwitch {
                        foreground: focus.foreground,
                        focused,
                        foreground_process_id: fpid,
                        focused_process_id: cpid,
                        dispatch_hwnd: dispatch,
                        dispatch_process_id: dispatch_pid,
                        target_layout: layout,
                        started_ms: now_ms,
                        last_dispatch_ms: now_ms,
                        dispatch_count: 0,
                    },
                ),
            )
        },
    }
}

impl WindowsLayoutSwitcher {
    /// Begins the layout change that `action` asks for in the window
    /// described by `focus`: Russian or English only ("next" and a missing
    /// layout are refused with `Unsupported`).
    pub fn begin_layout_action(
        &self,
        action: KeyboardControlAction,
        focus: &LayoutFocus,
        now_ms: u64,
    ) -> (r: Result<PendingLayoutSwitch, PlatformError>)
        ensures
            r == (match action {
                KeyboardControlAction::SwitchToRussian => match self@.russian_layout {
                    Some(l) => spec_begin_layout_change(*focus, l, now_ms),
                    None => Err(PlatformError::Unsupported),
                },
                KeyboardControlAction::SwitchToEnglish => match self@.english_layout {
                    Some(l) => spec_begin_layout_change(*focus, l, now_ms),
                    None => Err(PlatformError::Unsupported),
                },
                KeyboardControlAction::SwitchToNext => Err(PlatformError::Unsupported),
            }),
    {
        let layout = self.layout_action_target(action)?;
        begin_layout_change(focus, layout, now_ms)
    }
}

/// The foreground window, its focus and their processes are those the
/// change was begun for.
pub open spec fn spec_outlook_snapshot_stable(
    p: PendingOutlookLayoutSwitch,
    o: LayoutObservation,
) -> bool {
    o.foreground == p.foreground && o.focused == Some(p.focused) && o.foreground_process_id == Some(
        p.process_id,
    ) && o.focused_process_id == Some(p.process_id)
}

pub open spec fn spec_window_snapshot_stable(
    p: PendingWindowLayoutSwitch,
    o: LayoutObservation,
) -> bool {
    o.foreground == p.foreground && (match o.focused {
        Some(f) => f,
        None => o.foreground,
    }) == p.focused && o.foreground_process_id == Some(p.foreground_process_id)
        && o.focused_process_id == Some(p.focused_process_id) && o.dispatch_process_id == Some(
        p.dispatch_process_id,
    )
}

/// `now - then`, or zero when the clock reads earlier than `then`.
pub open spec fn elapsed_ms(now: u64, then: u64) -> u64 {
    if now >= then {
        (now - then) as u64
    } else {
        0
    }
}

fn elapsed(now: u64, then: u64) -> (r: u64)
    ensures
        r == elapsed_ms(now, then),
{
    if now >= then {
        now - then
    } else {
        0
    }
}

/// One check of a pending change: abort when the focus moved, done when
/// the target layout is active, failed after the deadline, dispatch again
/// once the retry delay has passed and dispatches are left, else wait.
pub open spec fn spec_layout_step(
    stable: bool,
    active: bool,
    since_start: u64,
    since_dispatch: u64,
    deadline: u64,
    dispatch_count: usize,
    max_dispatches: usize,
) -> LayoutStep {
    if !stable {
        LayoutStep::Failed(PlatformError::ForegroundUnavailable)
    } else if active {
        LayoutStep::Verified
    } else if since_start >= deadline {
        LayoutStep::Failed(PlatformError::Unsupported)
    } else if since_dispatch >= LAYOUT_RETRY_AFTER_MS && dispatch_count < max_dispatches {
        LayoutStep::Dispatch
    } else {
        LayoutStep::Wait
    }
}

impl PendingLayoutSwitch {
    /// The layout that the change activates.
    pub fn target_layout(&self) -> (r: isize)
        ensures
            r == (match *self {
                PendingLayoutSwitch::Outlook(p) => p.target_layout,
                PendingLayoutSwitch::Window(p) => p.target_layout,
            }),
    {
        match self {
            PendingLayoutSwitch::Outlook(p) => p.target_layout,
            PendingLayoutSwitch::Window(p) => p.target_layout,
        }
    }

    /// Whether the change must be delivered at once: the target layout is
    /// not already the active one.
    pub fn needs_dispatch(&self, current_layout: isize) -> (r: bool)
        ensures
            r == (current_layout != (match *self {
                PendingLayoutSwitch::Outlook(p) => p.target_layout,
                PendingLayoutSwitch::Window(p) => p.target_layout,
            })),
    {
        current_layout != self.target_layout()
    }

    /// The next move of the completion loop after observing the foreground
    /// window once.
    pub fn complete(&self, observation: &LayoutObservation) -> (r: LayoutStep)
        ensures
            r == (match *self {
                PendingLayoutSwitch::Outlook(p) => spec_layout_step(
                    spec_outlook_snapshot_stable(p, *observation),
                    observation.current_layout == p.target_layout,
                    elapsed_ms(observation.now_ms, p.started_ms),
                    elapsed_ms(observation.now_ms, p.last_dispatch_ms),
                    OUTLOOK_LAYOUT_DEADLINE_MS,
                    p.dispatch_count,
                    p.max_dispatches,
                ),
                PendingLayoutSwitch::Window(p) => spec_layout_step(
                    spec_window_snapshot_stable(p, *observation),
                    observation.current_layout == p.target_layout,
                    elapsed_ms(observation.now_ms, p.started_ms),
                    elapsed_ms(observation.now_ms, p.last_dispatch_ms),
                    WINDOW_LAYOUT_DEADLINE_MS,
                    p.dispatch_count,
                    WINDOW_LAYOUT_MAX_DISPATCHES,
                ),
            }),
    {
        let o = observation;
        let (stable, target, started, last, deadline, count, max) = match self {
            PendingLayoutSwitch::Outlook(p) => {
                let stable = o.foreground == p.foreground && match o.focused {
                    Some(f) => f == p.focused,
                    None => false,
                } && match o.foreground_process_id {
                    Some(id) => id == p.process_id,
                    None => false,
                } && match o.focused_process_id {
                    Some(id) => id == p.process_id,
                    None => false,
                };
                (
                    stable,
                    p.target_layout,
                    p.started_ms,
                    p.last_dispatch_ms,
                    OUTLOOK_LAYOUT_DEADLINE_MS,
                    p.dispatch_count,
                    p.max_dispatches,
                )
            },
            PendingLayoutSwitch::Window(p) => {
                let focused = match o.focused {
                    Some(f) => f,
                    None => o.foreground,
                };
                let stable = o.foreground == p.foreground && focused == p.focused
                    && match o.foreground_process_id {
                    Some(id) => id == p.foreground_process_id,
                    None => false,
                } && match o.focused_process_id {
                    Some(id) => id == p.focused_process_id,
                    None => false,
                } && match o.dispatch_process_id {
                    Some(id) => id == p.dispatch_process_id,
                    None => false,
                };
                (
                    stable,
                    p.target_layout,
                    p.started_ms,
                    p.last_dispatch_ms,
                    WINDOW_LAYOUT_DEADLINE_MS,
                    p.dispatch_count,
                    WINDOW_LAYOUT_MAX_DISPATCHES,
                )
            },
        };
        if !stable {
            LayoutStep::Failed(PlatformError::ForegroundUnavailable)
        } else if o.current_layout == target {
            LayoutStep::Verified
        } else if elapsed(o.now_ms, started) >= deadline {
            LayoutStep::Failed(PlatformError::Unsupported)
        } else if elapsed(o.now_ms, last) >= LAYOUT_RETRY_AFTER_MS && count < max {
            LayoutStep::Dispatch
        } else {
            LayoutStep::Wait
        }
    }

    /// Records a delivery of the change at `now_ms`: a window-message
    /// delivery that reached no window fails with `Unsupported`.
    pub fn record_dispatch(&mut self, delivered: bool, now_ms: u64) -> (r: Result<(), PlatformError>)
        requires
            match *old(self) {
                PendingLayoutSwitch::Outlook(p) => p.dispatch_count < usize::MAX,
                PendingLayoutSwitch::Window(p) => p.dispatch_count < usize::MAX,
            },
        ensures
            (match *old(self) {
                PendingLayoutSwitch::Outlook(_) => true,
                PendingLayoutSwitch::Window(_) => delivered,
            }) ==> r is Ok && (match (*old(self), *final(self)) {
                (PendingLayoutSwitch::Outlook(a), PendingLayoutSwitch::Outlook(b)) => b
                    == PendingOutlookLayoutSwitch {
                    dispatch_count: (a.dispatch_count + 1) as usize,
                    last_dispatch_ms: now_ms,
                    ..a
                },
                (PendingLayoutSwitch::Window(a), PendingLayoutSwitch::Window(b)) => b
                    == PendingWindowLayoutSwitch {
                    dispatch_count: (a.dispatch_count + 1) as usize,
                    last_dispatch_ms: now_ms,
                    ..a
                },
                _ => false,
            }),
            !(match *old(self) {
                PendingLayoutSwitch::Outlook(_) => true,
                PendingLayoutSwitch::Window(_) => delivered,
            }) ==> r == Err::<(), PlatformError>(PlatformError::Unsupported) && *final(self)
                == *old(self),
    {
        match self {
            PendingLayoutSwitch::Outlook(p) => {
                p.dispatch_count = p.dispatch_count + 1;
                p.last_dispatch_ms = now_ms;
                Ok(())
            },
            PendingLayoutSwitch::Window(p) => {
                if !delivered {
                    return Err(PlatformError::Unsupported);
                }
                p.dispatch_count = p.dispatch_count + 1;
                p.last_dispatch_ms = now_ms;
                Ok(())
            },
        }
    }
}

impl PendingWindowLayoutSwitch {
    /// The distinct non-null windows that receive a layout-change message,
    /// in order: the dispatch window, the foreground, the focused control.
    pub fn dispatch_targets(&self) -> (r: Vec<isize>)
        ensures
            r@ == spec_distinct_nonzero(seq![self.dispatch_hwnd, self.foreground, self.focused]),
    {
        let candidates: [isize; 3] = [self.dispatch_hwnd, self.foreground, self.focused];
        let ghost all = seq![self.dispatch_hwnd, self.foreground, self.focused];
        assert(candidates@ == all);
        let mut seen: Vec<isize> = Vec::new();
        let mut i: usize = 0;
        while i < 3
            invariant
                i <= 3,
                candidates@ == all,
                seen@ == spec_distinct_nonzero(all.take(i as int)),
            decreases 3 - i,
        {
            let hwnd = candidates[i];
            assert(all.take(i + 1).drop_last() == all.take(i as int));
            let mut already = false;
            let mut j: usize = 0;
            while j < seen.len()
                invariant
                    j <= seen.len(),
                    already == seen@.take(j as int).contains(hwnd),
                decreases seen.len() - j,
            {
                let ghost before = seen@.take(j as int);
                let ghost after = seen@.take(j + 1);
                assert(after == before.push(seen@[j as int]));
                if seen[j] == hwnd {
                    already = true;
                    assert(after[j as int] == hwnd);
                }
                proof {
                    if after.contains(hwnd) && seen@[j as int] != hwnd {
                        let k = choose|k: int| 0 <= k < after.len() && after[k] == hwnd;
                        assert(before[k] == hwnd);
                    }
                    if before.contains(hwnd) {
                        let k = choose|k: int| 0 <= k < before.len() && before[k] == hwnd;
                        assert(after[k] == hwnd);
                    }
                }
                j += 1;
            }
            assert(seen@.take(seen.len() as int) == seen@);
            if hwnd != 0 && !already {
                seen.push(hwnd);
            }
            i += 1;
        }
        assert(all.take(3) == all);
        seen
    }
}

/// The non-zero entries of `s`, each kept at its first occurrence.
pub open spec fn spec_distinct_nonzero(s: Seq<isize>) -> Seq<isize>
    decreases s.len(),
{
    if s.len() == 0 {
        Seq::empty()
    } else {
        let before = spec_distinct_nonzero(s.drop_last());
        let x = s.last();
        if x != 0 && !before.contains(x) {
            before.push(x)
        } else {
            before
        }
    }
}

/// After loading any list of layouts, the Russian layout is the first one
/// whose language is Russian, the English one the first of any English
/// variant, and the cycle order holds exactly those two (Russian first)
/// when either is installed, or every installed layout otherwise.
pub proof fn law_loaded_layouts(layouts: Seq<isize>)
    ensures
        ({
            let v = spec_loaded_switcher(layouts);
            &&& (v.russian_layout matches Some(l) ==> layouts.contains(l) && layout_language(l)
                == LANG_RUSSIAN)
            &&& (v.russian_layout is None ==> forall|i: int|
                0 <= i < layouts.len() ==> layout_language(#[trigger] layouts[i]) != LANG_RUSSIAN)
            &&& (v.english_layout matches Some(l) ==> layouts.contains(l) && primary_language(
                layout_language(l),
            ) == LANG_ENGLISH_PRIMARY)
            &&& (v.english_layout is None ==> forall|i: int|
                0 <= i < layouts.len() ==> primary_language(layout_language(#[trigger] layouts[i]))
                    != LANG_ENGLISH_PRIMARY)
            &&& (v.russian_layout is None && v.english_layout is None ==> v.ordered_layouts
                == layouts)
            &&& (v.russian_layout matches Some(r) ==> v.ordered_layouts[0] == r)
            &&& forall|i: int|
                0 <= i < v.ordered_layouts.len() ==> layouts.contains(#[trigger] v.ordered_layouts[i])
        }),
{
    lemma_first_layout_where(layouts, has_language(LANG_RUSSIAN));
    lemma_first_layout_where(layouts, has_primary_language(LANG_ENGLISH_PRIMARY));
    let v = spec_loaded_switcher(layouts);
    assert forall|i: int| 0 <= i < v.ordered_layouts.len() implies layouts.contains(
        #[trigger] v.ordered_layouts[i],
    ) by {
        if v.russian_layout is None && v.english_layout is None {
            assert(v.ordered_layouts[i] == layouts[i]);
        }
    }
}

/// With two or more layouts to cycle through, "next" from any layout of the
/// cycle activates a different layout of the cycle whenever the cycle holds
/// no repeated entry.
pub proof fn law_next_layout_moves_on(ordered: Seq<isize>, current: isize)
    requires
        ordered.len() >= 2,
        ordered.no_duplicates(),
        ordered.contains(current),
    ensures
        ordered.contains(spec_next_layout(ordered, current)),
        spec_next_layout(ordered, current) != current,
{
    ordered.index_of_first_ensures(current);
    let i = ordered.index_of_first(current).unwrap();
    let n = ordered.len() as int;
    let k = (i + 1) % n;
    if i + 1 < n {
        vstd::arithmetic::div_mod::lemma_small_mod((i + 1) as nat, n as nat);
    } else {
        vstd::arithmetic::div_mod::lemma_mod_self_0(n);
    }
    assert(0 <= k < n && k != i);
}

/// When a Russian and an English layout are installed, the cycle order is
/// exactly the first Russian layout followed by the first English one (of
/// any English variant), whatever else is installed; "next" goes from
/// either of them to the other.
pub proof fn law_cycle_is_russian_then_english(layouts: Seq<isize>, i: int, k: int)
    requires
        0 <= i < layouts.len(),
        layout_language(layouts[i]) == LANG_RUSSIAN,
        forall|j: int| 0 <= j < i ==> layout_language(#[trigger] layouts[j]) != LANG_RUSSIAN,
        0 <= k < layouts.len(),
        primary_language(layout_language(layouts[k])) == LANG_ENGLISH_PRIMARY,
        forall|j: int|
            0 <= j < k ==> primary_language(layout_language(#[trigger] layouts[j])) != LANG_ENGLISH_PRIMARY,
    ensures
        ({
            let v = spec_loaded_switcher(layouts);
            &&& v.russian_layout == Some(layouts[i])
            &&& v.english_layout == Some(layouts[k])
            &&& v.ordered_layouts == seq![layouts[i], layouts[k]]
            &&& spec_next_layout(v.ordered_layouts, layouts[i]) == layouts[k]
            &&& spec_next_layout(v.ordered_layouts, layouts[k]) == layouts[i]
        }),
{
    let ru = has_language(LANG_RUSSIAN);
    let en = has_primary_language(LANG_ENGLISH_PRIMARY);
    lemma_first_layout_where(layouts, ru);
    lemma_first_layout_where(layouts, en);
    let r = first_layout_where(layouts, ru);
    let e = first_layout_where(layouts, en);
    assert(ru(layouts[i]));
    assert(en(layouts[k]));
    let i2 = choose|i2: int|
        0 <= i2 < layouts.len() && layouts[i2] == r.unwrap() && ru(r.unwrap()) && forall|j: int|
            0 <= j < i2 ==> !ru(#[trigger] layouts[j]);
    if i2 < i {
        assert(!ru(layouts[i2]));
    } else if i < i2 {
        assert(!ru(layouts[i]));
    }
    let k2 = choose|k2: int|
        0 <= k2 < layouts.len() && layouts[k2] == e.unwrap() && en(e.unwrap()) && forall|j: int|
            0 <= j < k2 ==> !en(#[trigger] layouts[j]);
    if k2 < k {
        assert(!en(layouts[k2]));
    } else if k < k2 {
        assert(!en(layouts[k]));
    }
    let a = layouts[i];
    let b = layouts[k];
    assert(primary_language(LANG_RUSSIAN) != LANG_ENGLISH_PRIMARY) by (bit_vector);
    assert(a != b);
    let o = seq![a, b];
    assert(spec_loaded_switcher(layouts).ordered_layouts == o);
    o.index_of_first_ensures(a);
    o.index_of_first_ensures(b);
    assert(o[0] == a && o[1] == b);
    assert(o.index_of_first(a) == Some(0int));
    assert(o.index_of_first(b) == Some(1int));
    assert((0int + 1) % 2 == 1);
    assert((1int + 1) % 2 == 0);
}

/// With only one of Russian and English installed, the cycle order is that
/// one layout (the first of its language); with neither, it is every
/// installed layout in system order.
pub proof fn law_cycle_without_both_languages(layouts: Seq<isize>)
    ensures
        ({
            let v = spec_loaded_switcher(layouts);
            let has_ru = exists|i: int| 0 <= i < layouts.len() && layout_language(#[trigger] layouts[i]) == LANG_RUSSIAN;
            let has_en = exists|i: int|
                0 <= i < layouts.len() && primary_language(layout_language(#[trigger] layouts[i]))
                    == LANG_ENGLISH_PRIMARY;
            &&& (has_ru && !has_en ==> v.ordered_layouts == seq![v.russian_layout.unwrap()])
            &&& (!has_ru && has_en ==> v.ordered_layouts == seq![v.english_layout.unwrap()])
            &&& (!has_ru && !has_en ==> v.ordered_layouts == layouts)
        }),
{
    let ru = has_language(LANG_RUSSIAN);
    let en = has_primary_language(LANG_ENGLISH_PRIMARY);
    lemma_first_layout_where(layouts, ru);
    lemma_first_layout_where(layouts, en);
    if exists|i: int| 0 <= i < layouts.len() && layout_language(#[trigger] layouts[i]) == LANG_RUSSIAN {
        let i = choose|i: int| 0 <= i < layouts.len() && layout_language(#[trigger] layouts[i]) == LANG_RUSSIAN;
        assert(ru(layouts[i]));
    }
    if exists|i: int|
        0 <= i < layouts.len() && primary_language(layout_language(#[trigger] layouts[i])) == LANG_ENGLISH_PRIMARY {
        let i = choose|i: int|
            0 <= i < layouts.len() && primary_language(layout_language(#[trigger] layouts[i])) == LANG_ENGLISH_PRIMARY;
        assert(en(layouts[i]));
    }
    match first_layout_where(layouts, ru) {
        Some(r) => {
            let i = choose|i: int|
                0 <= i < layouts.len() && layouts[i] == r && ru(r) && forall|j: int|
                    0 <= j < i ==> !ru(#[trigger] layouts[j]);
            assert(layout_language(layouts[i]) == LANG_RUSSIAN);
        },
        None => {},
    }
    match first_layout_where(layouts, en) {
        Some(e) => {
            let i = choose|i: int|
                0 <= i < layouts.len() && layouts[i] == e && en(e) && forall|j: int|
                    0 <= j < i ==> !en(#[trigger] layouts[j]);
            assert(primary_language(layout_language(layouts[i])) == LANG_ENGLISH_PRIMARY);
        },
        None => {},
    }
}

} // verus!
