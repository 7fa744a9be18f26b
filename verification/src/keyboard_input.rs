//! Synthetic keyboard input: the key events injected to select, copy,
//! paste and type, and the fields of the input records sent for them.
use vstd::prelude::*;
use crate::encoding::{encode_utf16, utf16_units};
use crate::hotkeys::{
    spec_action_control_key, KeyboardControlAction, STEPLER_INJECTED_CONTROL_MAGIC, VK_DELETE, VK_F11, VK_F12, VK_DIVIDE, VK_DOWN, VK_END, VK_HOME, VK_INSERT, VK_LEFT, VK_LSHIFT, VK_NEXT,
    VK_NUMLOCK, VK_PRIOR, VK_RCONTROL, VK_RIGHT, VK_RMENU, VK_UP,
};
use crate::model::CorrectionMode;
use crate::platform::PlatformError;

verus! {

pub const KEYEVENTF_EXTENDEDKEY: u32 = 0x0001;
pub const KEYEVENTF_KEYUP: u32 = 0x0002;
pub const KEYEVENTF_UNICODE: u32 = 0x0004;
pub const KEYEVENTF_SCANCODE: u32 = 0x0008;

/// How a key event names its key.
#[derive(Debug, Clone, Copy, PartialEq, Eq, Structural)]
pub enum KeyboardInputMode {
    ScanCode,
    VirtualKey,
}

/// One key going down or up.
#[derive(Debug, Clone, Copy, PartialEq, Eq, Structural)]
pub struct KeyboardInputEvent {
    pub vk: u32,
    pub key_up: bool,
    pub mode: KeyboardInputMode,
    pub extra_info: usize,
}

impl KeyboardInputEvent {
    pub fn new(vk: u32, key_up: bool, mode: KeyboardInputMode) -> (r: KeyboardInputEvent)
        ensures
            r == (KeyboardInputEvent { vk, key_up, mode, extra_info: 0 }),
    {
        KeyboardInputEvent { vk, key_up, mode, extra_info: 0 }
    }

    pub fn new_with_extra(vk: u32, key_up: bool, mode: KeyboardInputMode, extra_info: usize) -> (r:
        KeyboardInputEvent)
        ensures
            r == (KeyboardInputEvent { vk, key_up, mode, extra_info }),
    {
        KeyboardInputEvent { vk, key_up, mode, extra_info }
    }
}

/// The key events that ask the keyboard hook for a keyboard-control
/// action: the action's control key pressed and released as a virtual
/// key, both tagged with the injected-control tag (the tag's low bits
/// where `usize` is narrower than 64 bits).
pub fn keyboard_control_request_events(action: KeyboardControlAction) -> (r: Vec<KeyboardInputEvent>)
    ensures
        r@ == seq![
            KeyboardInputEvent {
                vk: spec_action_control_key(action),
                key_up: false,
                mode: KeyboardInputMode::VirtualKey,
                extra_info: STEPLER_INJECTED_CONTROL_MAGIC as usize,
            },
            KeyboardInputEvent {
                vk: spec_action_control_key(action),
                key_up: true,
                mode: KeyboardInputMode::VirtualKey,
                extra_info: STEPLER_INJECTED_CONTROL_MAGIC as usize,
            },
        ],
{
    let vk = action.control_key();
    #[verifier::truncate]
    let tag = STEPLER_INJECTED_CONTROL_MAGIC as usize;
    vec![
        KeyboardInputEvent::new_with_extra(vk, false, KeyboardInputMode::VirtualKey, tag),
        KeyboardInputEvent::new_with_extra(vk, true, KeyboardInputMode::VirtualKey, tag),
    ]
}

/// Whether a correction hotkey goes to the PowerShell line editor inside
/// an embedded terminal: only when that forwarding is enabled, the window
/// hosts an embedded terminal, and its focused element is the terminal's
/// text area.
pub fn should_forward_embedded_terminal_hotkey(enabled: bool, title: &str, focus_class: &str) -> (r: bool)
    ensures
        r == (enabled && crate::terminal::spec_is_codex_embedded_terminal_host_title(title@)
            && crate::text::eq_ignore_ascii_case(focus_class@, "xterm-helper-textarea"@)),
{
    enabled && crate::terminal::is_codex_embedded_terminal_host_title(title)
        && crate::terminal::is_embedded_terminal_focus_class(focus_class)
}

/// The key pressed with Ctrl to hand a correction hotkey to the line
/// editor of an embedded terminal: F11 for Pause, F12 for Ctrl+Pause.
pub fn embedded_terminal_forward_key(mode: CorrectionMode) -> (r: u32)
    ensures
        r == (match mode {
            CorrectionMode::Pause => VK_F11,
            CorrectionMode::ScrollLock => VK_F12,
        }),
{
    match mode {
        CorrectionMode::Pause => VK_F11,
        CorrectionMode::ScrollLock => VK_F12,
    }
}

/// The keyboard part of an input record.
#[derive(Debug, Clone, Copy, PartialEq, Eq, Structural)]
pub struct KeybdInput {
    pub vk: u16,
    pub scan: u16,
    pub flags: u32,
    pub time: u32,
    pub extra_info: usize,
}

/// Navigation keys that live on the extended part of the keyboard (else
/// they would be read as numeric-keypad keys).
pub open spec fn spec_is_extended_navigation_key(vk: u32) -> bool {
    vk == VK_HOME || vk == VK_END || vk == VK_INSERT || vk == VK_DELETE || vk == VK_LEFT || vk
        == VK_RIGHT || vk == VK_UP || vk == VK_DOWN || vk == VK_PRIOR || vk == VK_NEXT || vk
        == VK_DIVIDE || vk == VK_NUMLOCK
}

pub fn is_extended_navigation_key(vk: u32) -> (r: bool)
    ensures
        r == spec_is_extended_navigation_key(vk),
{
    vk == VK_HOME || vk == VK_END || vk == VK_INSERT || vk == VK_DELETE || vk == VK_LEFT || vk
        == VK_RIGHT || vk == VK_UP || vk == VK_DOWN || vk == VK_PRIOR || vk == VK_NEXT || vk
        == VK_DIVIDE || vk == VK_NUMLOCK
}

fn with_flag(flags: u32, set: bool, flag: u32) -> (r: u32)
    ensures
        r == (if set {
            flags | flag
        } else {
            flags
        }),
{
    if set {
        flags | flag
    } else {
        flags
    }
}

/// A scan-code event for `vk`, given the extended scan code the system
/// maps it to: the low byte is sent, and the event is extended when the
/// scan code has a prefix byte or the key is an extended navigation key.
pub fn keyboard_scan_code(vk: u32, scan_code: u32, key_up: bool, extra_info: usize) -> (r:
    KeybdInput)
    ensures
        r.vk == 0,
        r.scan == (scan_code & 0xFF) as u16,
        r.flags == with_flags(
            KEYEVENTF_SCANCODE,
            key_up,
            (scan_code & 0xFF00) != 0 || spec_is_extended_navigation_key(vk),
        ),
        r.time == 0,
        r.extra_info == extra_info,
{
    let extended = (scan_code & 0xFF00) != 0 || is_extended_navigation_key(vk);
    let flags = with_flag(with_flag(KEYEVENTF_SCANCODE, key_up, KEYEVENTF_KEYUP), extended, KEYEVENTF_EXTENDEDKEY);
    KeybdInput { vk: 0, scan: (scan_code & 0xFF) as u16, flags, time: 0, extra_info }
}

/// `base`, with the key-up flag and then the extended flag added as asked.
pub open spec fn with_flags(base: u32, key_up: bool, extended: bool) -> u32 {
    let f = if key_up {
        base | KEYEVENTF_KEYUP
    } else {
        base
    };
    if extended {
        f | KEYEVENTF_EXTENDEDKEY
    } else {
        f
    }
}

/// A virtual-key event for `vk`: extended for the navigation keys and the
/// right Ctrl and Alt keys.
pub fn keyboard_virtual_key(vk: u32, key_up: bool, extra_info: usize) -> (r: KeybdInput)
    ensures
        r.vk == vk as u16,
        r.scan == 0,
        r.flags == with_flags(
            0,
            key_up,
            spec_is_extended_navigation_key(vk) || vk == VK_RCONTROL || vk == VK_RMENU,
        ),
        r.time == 0,
        r.extra_info == extra_info,
{
    let extended = is_extended_navigation_key(vk) || vk == VK_RCONTROL || vk == VK_RMENU;
    let flags = with_flag(with_flag(0, key_up, KEYEVENTF_KEYUP), extended, KEYEVENTF_EXTENDEDKEY);
    KeybdInput { vk: vk as u16, scan: 0, flags, time: 0, extra_info }
}

/// A Unicode event typing the UTF-16 unit `unit`.
pub fn keyboard_unicode(unit: u16, key_up: bool) -> (r: KeybdInput)
    ensures
        r.vk == 0,
        r.scan == unit,
        r.flags == with_flags(KEYEVENTF_UNICODE, key_up, false),
        r.time == 0,
        r.extra_info == 0,
{
    let flags = with_flag(KEYEVENTF_UNICODE, key_up, KEYEVENTF_KEYUP);
    KeybdInput { vk: 0, scan: unit, flags, time: 0, extra_info: 0 }
}

/// Typing `text`: for each UTF-16 unit a key-down and a key-up event.
pub open spec fn spec_unicode_inputs(units: Seq<u16>) -> Seq<KeybdInput> {
    Seq::new(
        2 * units.len(),
        |k: int|
            KeybdInput {
                vk: 0,
                scan: units[k / 2],
                flags: with_flags(KEYEVENTF_UNICODE, k % 2 == 1, false),
                time: 0,
                extra_info: 0,
            },
    )
}

pub fn unicode_text_inputs(text: &str) -> (r: Vec<KeybdInput>)
    ensures
        r@ == spec_unicode_inputs(encode_utf16(text@)),
{
    let units = utf16_units(text);
    let mut r: Vec<KeybdInput> = Vec::new();
    let mut i: usize = 0;
    while i < units.len()
        invariant
            i <= units.len(),
            r@.len() == 2 * i,
            forall|k: int| 0 <= k < r@.len() ==> r@[k] == spec_unicode_inputs(units@)[k],
        decreases units.len() - i,
    {
        r.push(keyboard_unicode(units[i], false));
        r.push(keyboard_unicode(units[i], true));
        i += 1;
    }
    assert(r@ == spec_unicode_inputs(units@));
    r
}

/// The escape sequence that asks the remote shell helper for a correction.
pub open spec fn spec_ssh_terminal_sequence(mode: CorrectionMode) -> Seq<char> {
    match mode {
        CorrectionMode::Pause => "\u{1b}[777;1u"@,
        CorrectionMode::ScrollLock => "\u{1b}[777;2u"@,
    }
}

pub fn ssh_terminal_sequence(mode: CorrectionMode) -> (r: &'static str)
    ensures
        r@ == spec_ssh_terminal_sequence(mode),
{
    match mode {
        CorrectionMode::Pause => "\u{1b}[777;1u",
        CorrectionMode::ScrollLock => "\u{1b}[777;2u",
    }
}

/// Selecting `count` UTF-16 units left of the caret: Left pressed and
/// released `count` times, then the left Shift (already held) released.
pub open spec fn spec_select_left_events(count: nat) -> Seq<KeyboardInputEvent> {
    Seq::new(
        2 * count + 1,
        |k: int|
            if k == 2 * count {
                KeyboardInputEvent {
                    vk: VK_LSHIFT,
                    key_up: true,
                    mode: KeyboardInputMode::ScanCode,
                    extra_info: 0,
                }
            } else {
                KeyboardInputEvent {
                    vk: VK_LEFT,
                    key_up: k % 2 == 1,
                    mode: KeyboardInputMode::ScanCode,
                    extra_info: 0,
                }
            },
    )
}

/// The key events that extend the selection left by `count` units; no
/// selection at all, or one of more than 512 units, is refused.
pub fn select_left_events(count: usize) -> (r: Result<Vec<KeyboardInputEvent>, PlatformError>)
    ensures
        (count == 0 || count > 512) ==> r == Err::<Vec<KeyboardInputEvent>, PlatformError>(
            PlatformError::PreflightFailed,
        ),
        !(count == 0 || count > 512) ==> (r matches Ok(v) && v@ == spec_select_left_events(
            count as nat,
        )),
{
    if count == 0 || count > 512 {
        return Err(PlatformError::PreflightFailed);
    }
    let mut v: Vec<KeyboardInputEvent> = Vec::new();
    let mut i: usize = 0;
    while i < count
        invariant
            i <= count <= 512,
            v@.len() == 2 * i,
            forall|k: int| 0 <= k < v@.len() ==> v@[k] == spec_select_left_events(count as nat)[k],
        decreases count - i,
    {
        v.push(KeyboardInputEvent::new(VK_LEFT, false, KeyboardInputMode::ScanCode));
        v.push(KeyboardInputEvent::new(VK_LEFT, true, KeyboardInputMode::ScanCode));
        i += 1;
    }
    v.push(KeyboardInputEvent::new(VK_LSHIFT, true, KeyboardInputMode::ScanCode));
    assert(v@ == spec_select_left_events(count as nat));
    Ok(v)
}

/// The modifiers of a chord pressed in order, and released in reverse.
pub fn chord_modifier_events(modifiers: &[u32], key_up: bool, mode: KeyboardInputMode) -> (r: Vec<
    KeyboardInputEvent,
>)
    ensures
        r@.len() == modifiers@.len(),
        forall|k: int|
            0 <= k < r@.len() ==> r@[k] == (KeyboardInputEvent {
                vk: if key_up {
                    modifiers@[modifiers@.len() - 1 - k]
                } else {
                    modifiers@[k]
                },
                key_up,
                mode,
                extra_info: 0,
            }),
{
    let mut r: Vec<KeyboardInputEvent> = Vec::new();
    let n = modifiers.len();
    let mut i: usize = 0;
    while i < n
        invariant
            n == modifiers.len(),
            i <= n,
            r@.len() == i,
            forall|k: int|
                0 <= k < i ==> r@[k] == (KeyboardInputEvent {
                    vk: if key_up {
                        modifiers@[n - 1 - k]
                    } else {
                        modifiers@[k]
                    },
                    key_up,
                    mode,
                    extra_info: 0,
                }),
        decreases n - i,
    {
        let vk = if key_up {
            modifiers[n - 1 - i]
        } else {
            modifiers[i]
        };
        r.push(KeyboardInputEvent::new(vk, key_up, mode));
        i += 1;
    }
    r
}

} // verus!
