//! Virtual keys, the keyboard-control actions and the message identifiers
//! by which the keyboard hook hands hotkeys and actions to the message loop.
use vstd::prelude::*;
use crate::model::CorrectionMode;
use crate::platform::{HotkeyListener, PlatformError};

verus! {

pub const VK_CANCEL: u32 = 0x03;
pub const VK_BACK: u32 = 0x08;
pub const VK_SHIFT: u32 = 0x10;
pub const VK_CONTROL: u32 = 0x11;
pub const VK_MENU: u32 = 0x12;
pub const VK_PAUSE: u32 = 0x13;
pub const VK_CAPITAL: u32 = 0x14;
pub const VK_ESCAPE: u32 = 0x1B;
pub const VK_SPACE: u32 = 0x20;
pub const VK_PRIOR: u32 = 0x21;
pub const VK_NEXT: u32 = 0x22;
pub const VK_END: u32 = 0x23;
pub const VK_HOME: u32 = 0x24;
pub const VK_LEFT: u32 = 0x25;
pub const VK_UP: u32 = 0x26;
pub const VK_RIGHT: u32 = 0x27;
pub const VK_DOWN: u32 = 0x28;
pub const VK_INSERT: u32 = 0x2D;
pub const VK_DELETE: u32 = 0x2E;
pub const VK_A: u32 = 0x41;
pub const VK_C: u32 = 0x43;
pub const VK_V: u32 = 0x56;
pub const VK_LWIN: u32 = 0x5B;
pub const VK_RWIN: u32 = 0x5C;
pub const VK_APPS: u32 = 0x5D;
pub const VK_DIVIDE: u32 = 0x6F;
pub const VK_F11: u32 = 0x7A;
pub const VK_F12: u32 = 0x7B;
pub const VK_F13: u32 = 0x7C;
pub const VK_F14: u32 = 0x7D;
pub const VK_NUMLOCK: u32 = 0x90;
pub const VK_LSHIFT: u32 = 0xA0;
pub const VK_RSHIFT: u32 = 0xA1;
pub const VK_LCONTROL: u32 = 0xA2;
pub const VK_RCONTROL: u32 = 0xA3;
pub const VK_LMENU: u32 = 0xA4;
pub const VK_RMENU: u32 = 0xA5;

/// System hotkey message.
pub const WM_HOTKEY: u32 = 0x0312;
/// Thread message: a keyboard-control action (its id in `wparam`).
pub const WM_STEPLER_KEYBOARD_CONTROL: u32 = 0x8001;
/// Thread message: a correction hotkey to run (mode id in `wparam`).
pub const WM_STEPLER_HOTKEY: u32 = 0x8002;
/// Thread message: a correction hotkey was seen (mode id in `wparam`).
pub const WM_STEPLER_HOTKEY_RECEIVED: u32 = 0x8003;
/// Thread message: a correction hotkey cannot be served here.
pub const WM_STEPLER_HOTKEY_UNSUPPORTED: u32 = 0x8004;
/// Registration id of the Pause hotkey.
pub const HOTKEY_ID_PAUSE: i32 = 1;
/// Registration id of the Ctrl+Pause hotkey.
pub const HOTKEY_ID_SCROLL_LOCK: i32 = 2;
/// Extra-info tag of key events injected to request a keyboard control.
pub const STEPLER_INJECTED_CONTROL_MAGIC: u64 = 0x5354_4550_4C45_5201;

/// A layout-switching request raised by a lone Ctrl tap or the menu key.
#[derive(Debug, Clone, Copy, PartialEq, Eq, Structural)]
pub enum KeyboardControlAction {
    SwitchToRussian,
    SwitchToEnglish,
    SwitchToNext,
}

/// The globally registered correction hotkeys.
#[derive(Debug, Clone, Copy, PartialEq, Eq, Structural)]
pub enum RegisteredHotkey {
    Pause,
    ScrollLock,
}

/// Message identifier of each keyboard-control action.
pub open spec fn spec_action_message_id(action: KeyboardControlAction) -> usize {
    match action {
        KeyboardControlAction::SwitchToRussian => 1,
        KeyboardControlAction::SwitchToEnglish => 2,
        KeyboardControlAction::SwitchToNext => 3,
    }
}

/// Key that the keyboard-control request of each action injects.
pub open spec fn spec_action_control_key(action: KeyboardControlAction) -> u32 {
    match action {
        KeyboardControlAction::SwitchToRussian => VK_LCONTROL,
        KeyboardControlAction::SwitchToEnglish => VK_RCONTROL,
        KeyboardControlAction::SwitchToNext => VK_APPS,
    }
}

impl KeyboardControlAction {
    /// Identifier carried by the thread message that announces the action.
    pub fn message_id(self) -> (r: usize)
        ensures
            r == spec_action_message_id(self),
            1 <= r <= 3,
    {
        match self {
            KeyboardControlAction::SwitchToRussian => 1,
            KeyboardControlAction::SwitchToEnglish => 2,
            KeyboardControlAction::SwitchToNext => 3,
        }
    }

    /// The action that a message identifier announces, if any.
    pub fn from_message_id(value: usize) -> (r: Option<KeyboardControlAction>)
        ensures
            match r {
                Some(action) => spec_action_message_id(action) == value,
                None => !(1 <= value <= 3),
            },
    {
        match value {
            1 => Some(KeyboardControlAction::SwitchToRussian),
            2 => Some(KeyboardControlAction::SwitchToEnglish),
            3 => Some(KeyboardControlAction::SwitchToNext),
            _ => None,
        }
    }

    /// The key that `request_keyboard_control_action` injects for this
    /// action: left Ctrl for Russian, right Ctrl for English, the menu key
    /// for the next layout.
    pub fn control_key(self) -> (r: u32)
        ensures
            r == spec_action_control_key(self),
    {
        match self {
            KeyboardControlAction::SwitchToRussian => VK_LCONTROL,
            KeyboardControlAction::SwitchToEnglish => VK_RCONTROL,
            KeyboardControlAction::SwitchToNext => VK_APPS,
        }
    }
}

/// Reading back the message identifier of an action gives the action.
pub proof fn law_action_message_id_round_trip(action: KeyboardControlAction)
    ensures
        1 <= spec_action_message_id(action) <= 3,
        forall|other: KeyboardControlAction|
            spec_action_message_id(other) == spec_action_message_id(action) ==> other == action,
{
}

/// Message identifier of each correction mode.
pub open spec fn spec_mode_message_id(mode: CorrectionMode) -> usize {
    match mode {
        CorrectionMode::Pause => 1,
        CorrectionMode::ScrollLock => 2,
    }
}

/// Identifier carried by the thread message that announces a correction
/// hotkey.
pub fn correction_mode_message_id(mode: CorrectionMode) -> (r: usize)
    ensures
        r == spec_mode_message_id(mode),
{
    match mode {
        CorrectionMode::Pause => 1,
        CorrectionMode::ScrollLock => 2,
    }
}

/// The correction mode that a message identifier announces, if any.
pub fn correction_mode_from_message_id(value: usize) -> (r: Option<CorrectionMode>)
    ensures
        match r {
            Some(mode) => spec_mode_message_id(mode) == value,
            None => !(1 <= value <= 2),
        },
{
    match value {
        1 => Some(CorrectionMode::Pause),
        2 => Some(CorrectionMode::ScrollLock),
        _ => None,
    }
}

/// Reading back the message identifier of a correction mode gives the mode.
pub proof fn law_mode_message_id_round_trip(mode: CorrectionMode)
    ensures
        1 <= spec_mode_message_id(mode) <= 2,
        forall|other: CorrectionMode|
            spec_mode_message_id(other) == spec_mode_message_id(mode) ==> other == mode,
{
}

/// A message of the hotkey message loop, as the loop acts on it.
#[derive(Debug, Clone, Copy, PartialEq, Eq, Structural)]
pub enum LoopMessage {
    /// Run the correction hotkey (announce it first).
    Hotkey(CorrectionMode),
    /// Announce that the correction hotkey was seen.
    Received(CorrectionMode),
    /// Report that the correction hotkey cannot be served.
    Unsupported(CorrectionMode),
    /// Carry out a keyboard-control action.
    Control(KeyboardControlAction),
}

/// The message with identifier `message` and parameter `wparam`, read:
/// registered hotkeys by their registration id, the hook's own messages by
/// the mode or action id they carry; anything else is ignored.
pub open spec fn spec_loop_message(message: u32, wparam: usize) -> Option<LoopMessage> {
    if message == WM_HOTKEY {
        if wparam == 1 {
            Some(LoopMessage::Hotkey(CorrectionMode::Pause))
        } else if wparam == 2 {
            Some(LoopMessage::Hotkey(CorrectionMode::ScrollLock))
        } else {
            None
        }
    } else if message == WM_STEPLER_HOTKEY || message == WM_STEPLER_HOTKEY_RECEIVED || message
        == WM_STEPLER_HOTKEY_UNSUPPORTED {
        let mode = if wparam == 1 {
            Some(CorrectionMode::Pause)
        } else if wparam == 2 {
            Some(CorrectionMode::ScrollLock)
        } else {
            None
        };
        match mode {
            None => None,
            Some(m) => if message == WM_STEPLER_HOTKEY {
                Some(LoopMessage::Hotkey(m))
            } else if message == WM_STEPLER_HOTKEY_RECEIVED {
                Some(LoopMessage::Received(m))
            } else {
                Some(LoopMessage::Unsupported(m))
            },
        }
    } else if message == WM_STEPLER_KEYBOARD_CONTROL {
        if wparam == 1 {
            Some(LoopMessage::Control(KeyboardControlAction::SwitchToRussian))
        } else if wparam == 2 {
            Some(LoopMessage::Control(KeyboardControlAction::SwitchToEnglish))
        } else if wparam == 3 {
            Some(LoopMessage::Control(KeyboardControlAction::SwitchToNext))
        } else {
            None
        }
    } else {
        None
    }
}

pub fn loop_message(message: u32, wparam: usize) -> (r: Option<LoopMessage>)
    ensures
        r == spec_loop_message(message, wparam),
{
    if message == WM_HOTKEY {
        if wparam == 1 {
            Some(LoopMessage::Hotkey(CorrectionMode::Pause))
        } else if wparam == 2 {
            Some(LoopMessage::Hotkey(CorrectionMode::ScrollLock))
        } else {
            None
        }
    } else if message == WM_STEPLER_HOTKEY || message == WM_STEPLER_HOTKEY_RECEIVED || message
        == WM_STEPLER_HOTKEY_UNSUPPORTED {
        match correction_mode_from_message_id(wparam) {
            None => None,
            Some(m) => if message == WM_STEPLER_HOTKEY {
                Some(LoopMessage::Hotkey(m))
            } else if message == WM_STEPLER_HOTKEY_RECEIVED {
                Some(LoopMessage::Received(m))
            } else {
                Some(LoopMessage::Unsupported(m))
            },
        }
    } else if message == WM_STEPLER_KEYBOARD_CONTROL {
        match KeyboardControlAction::from_message_id(wparam) {
            None => None,
            Some(a) => Some(LoopMessage::Control(a)),
        }
    } else {
        None
    }
}

/// What the hook posts for a correction hotkey is read back by the loop as
/// that hotkey, and what it posts for an action as that action.
pub proof fn law_posted_messages_read_back(mode: CorrectionMode, action: KeyboardControlAction)
    ensures
        spec_loop_message(WM_STEPLER_HOTKEY, spec_mode_message_id(mode)) == Some(
            LoopMessage::Hotkey(mode),
        ),
        spec_loop_message(WM_STEPLER_HOTKEY_RECEIVED, spec_mode_message_id(mode)) == Some(
            LoopMessage::Received(mode),
        ),
        spec_loop_message(WM_STEPLER_HOTKEY_UNSUPPORTED, spec_mode_message_id(mode)) == Some(
            LoopMessage::Unsupported(mode),
        ),
        spec_loop_message(WM_STEPLER_KEYBOARD_CONTROL, spec_action_message_id(action)) == Some(
            LoopMessage::Control(action),
        ),
{
}

/// Modifier keys released after injected input, in release order.
pub open spec fn spec_modifier_release_keys() -> Seq<u32> {
    seq![
        VK_LCONTROL,
        VK_RCONTROL,
        VK_CONTROL,
        VK_LMENU,
        VK_RMENU,
        VK_MENU,
        VK_LSHIFT,
        VK_RSHIFT,
        VK_SHIFT,
    ]
}

/// Whether a modifier key needs a key-up event: the Alt keys only when the
/// system reports them down (a stray Alt-up opens the menu bar), every
/// other modifier always.
pub fn should_release_modifier_key(vk: u32, alt_key_down: bool) -> (r: bool)
    ensures
        r == (!(vk == VK_LMENU || vk == VK_RMENU || vk == VK_MENU) || alt_key_down),
{
    if vk == VK_LMENU || vk == VK_RMENU || vk == VK_MENU {
        alt_key_down
    } else {
        true
    }
}

/// Key-up events for the first `n` keys of the release order, given for
/// each key whether it is reported down.
pub open spec fn spec_modifier_releases(down: Seq<bool>, n: nat) -> Seq<u32>
    decreases n,
{
    if n == 0 {
        Seq::empty()
    } else {
        let before = spec_modifier_releases(down, (n - 1) as nat);
        let vk = spec_modifier_release_keys()[n - 1];
        if !(vk == VK_LMENU || vk == VK_RMENU || vk == VK_MENU) || down[n - 1] {
            before.push(vk)
        } else {
            before
        }
    }
}

/// The key-up events that `release_modifier_keys` sends, given for each key
/// of the release order whether it is reported down (only the Alt keys
/// consult it).
pub fn release_modifier_keys(down: &[bool]) -> (r: Vec<u32>)
    requires
        down.len() == 9,
    ensures
        r@ == spec_modifier_releases(down@, 9),
{
    let keys: [u32; 9] = [
        VK_LCONTROL,
        VK_RCONTROL,
        VK_CONTROL,
        VK_LMENU,
        VK_RMENU,
        VK_MENU,
        VK_LSHIFT,
        VK_RSHIFT,
        VK_SHIFT,
    ];
    assert(keys@ == spec_modifier_release_keys());
    let mut r: Vec<u32> = Vec::new();
    let mut i: usize = 0;
    while i < 9
        invariant
            i <= 9,
            keys@ == spec_modifier_release_keys(),
            down.len() == 9,
            r@ == spec_modifier_releases(down@, i as nat),
        decreases 9 - i,
    {
        let vk = keys[i];
        if should_release_modifier_key(vk, down[i]) {
            r.push(vk);
        }
        i += 1;
    }
    r
}

/// A call made on a hotkey listener.
#[derive(Debug, Clone, Copy, PartialEq, Eq, Structural)]
pub enum ListenerOp {
    Start,
    Stop,
}

/// Whether a listener runs after `op`, given whether it ran before.
pub open spec fn spec_after_listener_op(running: bool, op: ListenerOp) -> bool {
    op == ListenerOp::Start
}

/// Whether a listener runs after the calls `ops`, in order, from `running`.
pub open spec fn spec_after_listener_ops(running: bool, ops: Seq<ListenerOp>) -> bool
    decreases ops.len(),
{
    if ops.len() == 0 {
        running
    } else {
        spec_after_listener_op(spec_after_listener_ops(running, ops.drop_last()), ops.last())
    }
}

/// A new listener runs after a sequence of `start` and `stop` calls
/// exactly when the last call was `start` (never when there was none).
pub proof fn law_listener_runs_after_last_start(ops: Seq<ListenerOp>)
    ensures
        spec_after_listener_ops(false, ops) == (ops.len() > 0 && ops.last() == ListenerOp::Start),
{
}

/// A hotkey listener that only records whether it was started.
#[derive(Debug)]
pub struct WindowsHotkeyListener {
    running: bool,
}

impl WindowsHotkeyListener {
    /// Whether the listener is between `start` and `stop`.
    pub closed spec fn spec_running(&self) -> bool {
        self.running
    }

    pub fn is_running(&self) -> (r: bool)
        ensures
            r == self.spec_running(),
    {
        self.running
    }
}

impl Default for WindowsHotkeyListener {
    fn default() -> (r: WindowsHotkeyListener)
        ensures
            !r.spec_running(),
    {
        WindowsHotkeyListener { running: false }
    }
}

impl HotkeyListener for WindowsHotkeyListener {
    fn start(&mut self) -> (r: Result<(), PlatformError>)
        ensures
            final(self).spec_running() == spec_after_listener_op(
                old(self).spec_running(),
                ListenerOp::Start,
            ),
            final(self).spec_running(),
            r is Ok,
    {
        self.running = true;
        Ok(())
    }

    fn stop(&mut self) -> (r: Result<(), PlatformError>)
        ensures
            final(self).spec_running() == spec_after_listener_op(
                old(self).spec_running(),
                ListenerOp::Stop,
            ),
            !final(self).spec_running(),
            r is Ok,
    {
        self.running = false;
        Ok(())
    }
}

} // verus!

verus! {

/// Values that switch an environment flag off (compared after trimming and
/// ASCII lower-casing).
pub open spec fn spec_is_off_value(v: Seq<char>) -> bool {
    v == "0"@ || v == "false"@ || v == "off"@ || v == "no"@
}

/// An environment flag: its default when unset, else on unless its value
/// is one of `0`, `false`, `off`, `no` (ignoring surrounding white space
/// and ASCII case).
pub open spec fn spec_env_flag_enabled(value: Option<Seq<char>>, default: bool) -> bool {
    match value {
        None => default,
        Some(v) => !spec_is_off_value(crate::text::lower_ascii(crate::text::trim(v))),
    }
}

pub fn env_flag_enabled(value: Option<&str>, default: bool) -> (r: bool)
    ensures
        r == spec_env_flag_enabled(
            match value {
                Some(v) => Some(v@),
                None => None,
            },
            default,
        ),
{
    match value {
        None => default,
        Some(v) => {
            let t = crate::text::trimmed_chars(&crate::text::chars_of(v));
            let l = crate::text::lower_ascii_vec(&t);
            let off = crate::text::chars_eq(&l, &crate::text::chars_of("0")) || crate::text::chars_eq(
                &l,
                &crate::text::chars_of("false"),
            ) || crate::text::chars_eq(&l, &crate::text::chars_of("off")) || crate::text::chars_eq(
                &l,
                &crate::text::chars_of("no"),
            );
            !off
        },
    }
}

} // verus!
