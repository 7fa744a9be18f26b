//! The state machine behind the low-level keyboard hook: Pause and
//! Ctrl+Pause become correction hotkeys, a lone Ctrl tap switches the
//! layout, the Windows key suspends layout controls for a while, and keys
//! typed right after Ctrl+Pause are swallowed. Times are milliseconds of a
//! monotonic clock handed in by the caller.
use vstd::prelude::*;
use crate::hotkeys::{
    KeyboardControlAction, VK_APPS, VK_BACK, VK_C, VK_CANCEL, VK_CAPITAL, VK_CONTROL, VK_F13,
    VK_F14, VK_HOME, VK_INSERT, VK_LCONTROL, VK_LEFT, VK_LWIN, VK_PAUSE, VK_RCONTROL, VK_RIGHT,
    VK_RWIN, VK_SPACE,
};
use crate::model::CorrectionMode;
use crate::terminal::{TerminalPassthrough, TerminalPauseHandling};

verus! {

/// Two presses of the same correction hotkey closer than this are one.
pub const CORRECTION_DEBOUNCE_MS: u64 = 250;

/// Two layout switches closer than this are one.
pub const LAYOUT_CONTROL_DEBOUNCE_MS: u64 = 650;

/// A Pause key held longer than this without a key-up is taken as released.
pub const STALE_PAUSE_MS: u64 = 750;

/// How long keys after Ctrl+Pause, and layout controls after the Windows
/// key, are held back.
pub const SUPPRESS_AFTER_MS: u64 = 1_500;

/// Whether the physical Ctrl keys are reported down by the system.
#[derive(Debug, Clone, Copy, PartialEq, Eq, Structural)]
pub struct CtrlKeys {
    pub left_down: bool,
    pub right_down: bool,
}

impl CtrlKeys {
    /// Both Ctrl keys up.
    pub fn released() -> (r: CtrlKeys)
        ensures
            !r.left_down && !r.right_down,
    {
        CtrlKeys { left_down: false, right_down: false }
    }
}

/// The state the keyboard hook keeps between key events.
#[derive(Debug, Clone, Copy, PartialEq, Eq, Structural)]
pub struct KeyboardControlHookState {
    pub left_ctrl_down: bool,
    pub right_ctrl_down: bool,
    pub left_ctrl_used: bool,
    pub right_ctrl_used: bool,
    pub pause_down: bool,
    pub pause_down_at: Option<u64>,
    pub pending_scroll_lock: bool,
    pub win_down: bool,
    pub last_pause_at: Option<u64>,
    pub last_scroll_lock_at: Option<u64>,
    pub suppress_c_until: Option<u64>,
    pub suspend_layout_controls_until: Option<u64>,
    pub last_layout_control_action_at: Option<u64>,
}

/// The state before any key event.
pub open spec fn spec_initial_hook_state() -> KeyboardControlHookState {
    KeyboardControlHookState {
        left_ctrl_down: false,
        right_ctrl_down: false,
        left_ctrl_used: false,
        right_ctrl_used: false,
        pause_down: false,
        pause_down_at: None,
        pending_scroll_lock: false,
        win_down: false,
        last_pause_at: None,
        last_scroll_lock_at: None,
        suppress_c_until: None,
        suspend_layout_controls_until: None,
        last_layout_control_action_at: None,
    }
}

impl Default for KeyboardControlHookState {
    fn default() -> (r: KeyboardControlHookState)
        ensures
            r == spec_initial_hook_state(),
    {
        KeyboardControlHookState {
            left_ctrl_down: false,
            right_ctrl_down: false,
            left_ctrl_used: false,
            right_ctrl_used: false,
            pause_down: false,
            pause_down_at: None,
            pending_scroll_lock: false,
            win_down: false,
            last_pause_at: None,
            last_scroll_lock_at: None,
            suppress_c_until: None,
            suspend_layout_controls_until: None,
            last_layout_control_action_at: None,
        }
    }
}

/// `now - then`, or zero when the clock reads earlier than `then`.
pub open spec fn since(now: u64, then: u64) -> u64 {
    if now >= then {
        (now - then) as u64
    } else {
        0
    }
}

/// No earlier event, or the earlier one is at least `gap` old.
pub open spec fn spec_debounce_allows(last_at: Option<u64>, now: u64, gap: u64) -> bool {
    match last_at {
        None => true,
        Some(t) => since(now, t) >= gap,
    }
}

pub open spec fn is_pause_key(vk: u32) -> bool {
    vk == VK_PAUSE || vk == VK_CANCEL
}

/// Keys that Ctrl+Pause tends to drag along and that are swallowed for a
/// short while after it.
pub open spec fn spec_is_scrolllock_companion_key(vk: u32) -> bool {
    vk == VK_C || vk == VK_HOME || vk == VK_LEFT || vk == VK_RIGHT
}

pub fn is_scrolllock_companion_key(vk_code: u32) -> (r: bool)
    ensures
        r == spec_is_scrolllock_companion_key(vk_code),
{
    vk_code == VK_C || vk_code == VK_HOME || vk_code == VK_LEFT || vk_code == VK_RIGHT
}

/// Keys that take part in the system's own layout switching.
pub fn is_windows_language_switch_key(vk_code: u32) -> (r: bool)
    ensures
        r == (vk_code == VK_LWIN || vk_code == VK_RWIN || vk_code == VK_SPACE),
{
    vk_code == VK_LWIN || vk_code == VK_RWIN || vk_code == VK_SPACE
}

fn since_exec(now: u64, then: u64) -> (r: u64)
    ensures
        r == since(now, then),
{
    if now >= then {
        now - then
    } else {
        0
    }
}

pub open spec fn spec_ctrl_down(s: KeyboardControlHookState, p: CtrlKeys) -> bool {
    s.left_ctrl_down || s.right_ctrl_down || p.left_down || p.right_down
}

pub open spec fn spec_mark_pause_down(s: KeyboardControlHookState, now: u64) -> KeyboardControlHookState {
    KeyboardControlHookState { pause_down: true, pause_down_at: Some(now), ..s }
}

pub open spec fn spec_mark_pause_up(s: KeyboardControlHookState) -> KeyboardControlHookState {
    KeyboardControlHookState { pause_down: false, pause_down_at: None, ..s }
}

/// A Pause key that has been down for too long is taken as released, and a
/// pending Ctrl+Pause is dropped with it.
pub open spec fn spec_recover_stale_pause_down(
    s: KeyboardControlHookState,
    now: u64,
) -> KeyboardControlHookState {
    if s.pause_down && (s.pause_down_at matches Some(t) && since(now, t) >= STALE_PAUSE_MS) {
        KeyboardControlHookState {
            pause_down: false,
            pause_down_at: None,
            pending_scroll_lock: false,
            ..s
        }
    } else {
        s
    }
}

/// A pending Ctrl+Pause fires once Pause and both Ctrl keys are up.
pub open spec fn spec_take_pending_scroll_lock(s: KeyboardControlHookState) -> (
    KeyboardControlHookState,
    Option<CorrectionMode>,
) {
    if s.pending_scroll_lock && !s.pause_down && !s.left_ctrl_down && !s.right_ctrl_down {
        (
            KeyboardControlHookState { pending_scroll_lock: false, ..s },
            Some(CorrectionMode::ScrollLock),
        )
    } else {
        (s, None)
    }
}

/// The Ctrl keys held with Pause are marked used, so releasing them does
/// not switch the layout.
pub open spec fn spec_mark_ctrl_used(s: KeyboardControlHookState, p: CtrlKeys) -> KeyboardControlHookState {
    KeyboardControlHookState {
        left_ctrl_used: s.left_ctrl_used || s.left_ctrl_down || p.left_down,
        right_ctrl_used: s.right_ctrl_used || s.right_ctrl_down || p.right_down,
        ..s
    }
}

/// Ctrl+Pause recorded at `now`: Ctrl keys used, companion keys held back.
pub open spec fn spec_record_scroll_lock(
    s: KeyboardControlHookState,
    p: CtrlKeys,
    now: u64,
) -> KeyboardControlHookState {
    KeyboardControlHookState {
        last_scroll_lock_at: Some(now),
        suppress_c_until: Some((now + SUPPRESS_AFTER_MS) as u64),
        ..spec_mark_ctrl_used(s, p)
    }
}

/// The correction hotkey in ordinary windows: Pause fires on key-down,
/// Ctrl+Pause fires once Pause and Ctrl are released again.
pub open spec fn spec_handle_correction_hotkey(
    s: KeyboardControlHookState,
    vk: u32,
    is_down: bool,
    is_up: bool,
    p: CtrlKeys,
    now: u64,
) -> (KeyboardControlHookState, Option<CorrectionMode>) {
    if !is_pause_key(vk) {
        (s, None)
    } else {
        let s1 = if is_down {
            spec_recover_stale_pause_down(s, now)
        } else {
            s
        };
        let ctrl = spec_ctrl_down(s1, p);
        let last = if ctrl {
            s1.last_scroll_lock_at
        } else {
            s1.last_pause_at
        };
        if is_down && !s1.pause_down && spec_debounce_allows(last, now, CORRECTION_DEBOUNCE_MS) {
            let s2 = spec_mark_pause_down(s1, now);
            if ctrl {
                (
                    KeyboardControlHookState {
                        pending_scroll_lock: true,
                        ..spec_record_scroll_lock(s2, p, now)
                    },
                    None,
                )
            } else {
                (KeyboardControlHookState { last_pause_at: Some(now), ..s2 }, Some(CorrectionMode::Pause))
            }
        } else if is_up {
            spec_take_pending_scroll_lock(spec_mark_pause_up(s1))
        } else {
            (s1, None)
        }
    }
}

/// Pause in a PowerShell terminal: translated to F13 (Pause) or F14
/// (Ctrl+Pause) on key-down, swallowed otherwise.
pub open spec fn spec_handle_terminal_pause_key(
    s: KeyboardControlHookState,
    vk: u32,
    is_down: bool,
    is_up: bool,
    p: CtrlKeys,
    now: u64,
) -> (KeyboardControlHookState, TerminalPauseHandling) {
    if !is_pause_key(vk) {
        (s, TerminalPauseHandling::PassThrough)
    } else {
        let ctrl = spec_ctrl_down(s, p);
        let s1 = if is_down {
            spec_recover_stale_pause_down(s, now)
        } else {
            s
        };
        if is_down && !s1.pause_down {
            let s2 = spec_mark_pause_down(s1, now);
            if ctrl {
                (spec_mark_ctrl_used(s2, p), TerminalPauseHandling::TranslateToF14)
            } else {
                (s2, TerminalPauseHandling::TranslateToF13)
            }
        } else if is_up {
            (spec_mark_pause_up(s1), TerminalPauseHandling::Suppress)
        } else {
            (s1, TerminalPauseHandling::Suppress)
        }
    }
}

/// Pause in a classic console: both hotkeys fire at once on key-down.
pub open spec fn spec_handle_classic_console_pause_key(
    s: KeyboardControlHookState,
    vk: u32,
    is_down: bool,
    is_up: bool,
    p: CtrlKeys,
    now: u64,
) -> (KeyboardControlHookState, Option<CorrectionMode>) {
    if !is_pause_key(vk) {
        (s, None)
    } else {
        let ctrl = spec_ctrl_down(s, p);
        let s1 = if is_down {
            spec_recover_stale_pause_down(s, now)
        } else {
            s
        };
        let last = if ctrl {
            s1.last_scroll_lock_at
        } else {
            s1.last_pause_at
        };
        if is_down && !s1.pause_down && spec_debounce_allows(last, now, CORRECTION_DEBOUNCE_MS) {
            let s2 = spec_mark_pause_down(s1, now);
            if ctrl {
                (spec_record_scroll_lock(s2, p, now), Some(CorrectionMode::ScrollLock))
            } else {
                (KeyboardControlHookState { last_pause_at: Some(now), ..s2 }, Some(CorrectionMode::Pause))
            }
        } else if is_up {
            (spec_mark_pause_up(s1), None)
        } else {
            (s1, None)
        }
    }
}

/// Companion keys are swallowed until the hold-back time after Ctrl+Pause
/// has passed; the first key after it clears the hold-back.
pub open spec fn spec_should_suppress_companion_key(
    s: KeyboardControlHookState,
    vk: u32,
    now: u64,
) -> (KeyboardControlHookState, bool) {
    if !spec_is_scrolllock_companion_key(vk) {
        (s, false)
    } else {
        match s.suppress_c_until {
            None => (s, false),
            Some(until) => if now <= until {
                (s, true)
            } else {
                (KeyboardControlHookState { suppress_c_until: None, ..s }, false)
            },
        }
    }
}

/// Layout controls are suspended until the hold-back time after the Windows
/// key; the first check after it clears the hold-back.
pub open spec fn spec_layout_controls_are_suspended(s: KeyboardControlHookState, now: u64) -> (
    KeyboardControlHookState,
    bool,
) {
    match s.suspend_layout_controls_until {
        None => (s, false),
        Some(until) => if now <= until {
            (s, true)
        } else {
            (KeyboardControlHookState { suspend_layout_controls_until: None, ..s }, false)
        },
    }
}

/// A Ctrl key going down: it becomes the one Ctrl held, unused, and the
/// other Ctrl is spoiled.
pub open spec fn spec_press_left_ctrl(s: KeyboardControlHookState) -> KeyboardControlHookState {
    KeyboardControlHookState {
        right_ctrl_used: true,
        right_ctrl_down: false,
        left_ctrl_down: true,
        left_ctrl_used: false,
        ..s
    }
}

pub open spec fn spec_press_right_ctrl(s: KeyboardControlHookState) -> KeyboardControlHookState {
    KeyboardControlHookState {
        left_ctrl_used: true,
        left_ctrl_down: false,
        right_ctrl_down: true,
        right_ctrl_used: false,
        ..s
    }
}

/// Any other key going down uses the Ctrl keys that are held.
pub open spec fn spec_press_other(s: KeyboardControlHookState) -> KeyboardControlHookState {
    KeyboardControlHookState {
        left_ctrl_used: s.left_ctrl_used || s.left_ctrl_down,
        right_ctrl_used: s.right_ctrl_used || s.right_ctrl_down,
        ..s
    }
}

/// A Ctrl key coming up switches the layout when it was pressed and used
/// for nothing else, no Ctrl+Pause is pending and the last switch is old
/// enough.
pub open spec fn spec_release_ctrl(
    s: KeyboardControlHookState,
    was_down: bool,
    was_used: bool,
    action: KeyboardControlAction,
    now: u64,
) -> (KeyboardControlHookState, Option<KeyboardControlAction>) {
    if s.pending_scroll_lock || !was_down || !spec_debounce_allows(
        s.last_layout_control_action_at,
        now,
        LAYOUT_CONTROL_DEBOUNCE_MS,
    ) {
        (s, None)
    } else if !was_used {
        (KeyboardControlHookState { last_layout_control_action_at: Some(now), ..s }, Some(action))
    } else {
        (s, None)
    }
}

/// The layout controls for one key event.
pub open spec fn spec_handle_key(
    s: KeyboardControlHookState,
    vk: u32,
    is_down: bool,
    is_up: bool,
    now: u64,
) -> (KeyboardControlHookState, Option<KeyboardControlAction>) {
    if vk == VK_LWIN || vk == VK_RWIN {
        let s1 = if is_down {
            KeyboardControlHookState {
                win_down: true,
                suspend_layout_controls_until: Some((now + SUPPRESS_AFTER_MS) as u64),
                ..s
            }
        } else {
            s
        };
        let s2 = if is_up {
            KeyboardControlHookState {
                win_down: false,
                suspend_layout_controls_until: Some((now + SUPPRESS_AFTER_MS) as u64),
                ..s1
            }
        } else {
            s1
        };
        (s2, None)
    } else {
        let (s1, held) = if s.win_down {
            spec_layout_controls_are_suspended(s, now)
        } else {
            (s, false)
        };
        if held {
            (s1, None)
        } else {
            let s2 = KeyboardControlHookState { win_down: false, ..s1 };
            let (s3, suspended) = spec_layout_controls_are_suspended(s2, now);
            if suspended {
                (s3, None)
            } else {
                spec_handle_ctrl_keys(s3, vk, is_down, is_up, now)
            }
        }
    }
}

/// The Ctrl and menu keys once layout controls are not held back.
pub open spec fn spec_handle_ctrl_keys(
    s3: KeyboardControlHookState,
    vk: u32,
    is_down: bool,
    is_up: bool,
    now: u64,
) -> (KeyboardControlHookState, Option<KeyboardControlAction>) {
    if is_down && vk == VK_APPS {
        (s3, Some(KeyboardControlAction::SwitchToNext))
    } else {
        let s4 = if is_down {
            if vk == VK_LCONTROL {
                spec_press_left_ctrl(s3)
            } else if vk == VK_RCONTROL {
                spec_press_right_ctrl(s3)
            } else {
                spec_press_other(s3)
            }
        } else {
            s3
        };
        if is_up && vk == VK_LCONTROL {
            spec_release_ctrl(
                KeyboardControlHookState { left_ctrl_down: false, left_ctrl_used: false, ..s4 },
                s4.left_ctrl_down,
                s4.left_ctrl_used,
                KeyboardControlAction::SwitchToRussian,
                now,
            )
        } else if is_up && vk == VK_RCONTROL {
            spec_release_ctrl(
                KeyboardControlHookState { right_ctrl_down: false, right_ctrl_used: false, ..s4 },
                s4.right_ctrl_down,
                s4.right_ctrl_used,
                KeyboardControlAction::SwitchToEnglish,
                now,
            )
        } else {
            (s4, None)
        }
    }
}

impl KeyboardControlHookState {
    pub fn debounce_allows(last_at: Option<u64>, now_ms: u64) -> (r: bool)
        ensures
            r == spec_debounce_allows(last_at, now_ms, CORRECTION_DEBOUNCE_MS),
    {
        match last_at {
            None => true,
            Some(t) => since_exec(now_ms, t) >= CORRECTION_DEBOUNCE_MS,
        }
    }

    pub fn layout_control_debounce_allows(last_at: Option<u64>, now_ms: u64) -> (r: bool)
        ensures
            r == spec_debounce_allows(last_at, now_ms, LAYOUT_CONTROL_DEBOUNCE_MS),
    {
        match last_at {
            None => true,
            Some(t) => since_exec(now_ms, t) >= LAYOUT_CONTROL_DEBOUNCE_MS,
        }
    }

    pub fn mark_pause_down(&mut self, now_ms: u64)
        ensures
            *final(self) == spec_mark_pause_down(*old(self), now_ms),
    {
        self.pause_down = true;
        self.pause_down_at = Some(now_ms);
    }

    pub fn mark_pause_up(&mut self)
        ensures
            *final(self) == spec_mark_pause_up(*old(self)),
    {
        self.pause_down = false;
        self.pause_down_at = None;
    }

    pub fn recover_stale_pause_down(&mut self, now_ms: u64)
        ensures
            *final(self) == spec_recover_stale_pause_down(*old(self), now_ms),
    {
        let stale = match self.pause_down_at {
            Some(t) => since_exec(now_ms, t) >= STALE_PAUSE_MS,
            None => false,
        };
        if self.pause_down && stale {
            self.pause_down = false;
            self.pause_down_at = None;
            self.pending_scroll_lock = false;
        }
    }

    pub fn take_pending_scroll_lock_if_released(&mut self) -> (r: Option<CorrectionMode>)
        ensures
            (*final(self), r) == spec_take_pending_scroll_lock(*old(self)),
    {
        if self.pending_scroll_lock && !self.pause_down && !self.left_ctrl_down
            && !self.right_ctrl_down {
            self.pending_scroll_lock = false;
            return Some(CorrectionMode::ScrollLock);
        }
        None
    }

    fn mark_ctrl_used(&mut self, physical: CtrlKeys)
        ensures
            *final(self) == spec_mark_ctrl_used(*old(self), physical),
    {
        self.left_ctrl_used = self.left_ctrl_used || self.left_ctrl_down || physical.left_down;
        self.right_ctrl_used = self.right_ctrl_used || self.right_ctrl_down || physical.right_down;
    }

    fn record_scroll_lock(&mut self, physical: CtrlKeys, now_ms: u64)
        requires
            now_ms <= u64::MAX - SUPPRESS_AFTER_MS,
        ensures
            *final(self) == spec_record_scroll_lock(*old(self), physical, now_ms),
    {
        self.mark_ctrl_used(physical);
        self.last_scroll_lock_at = Some(now_ms);
        self.suppress_c_until = Some(now_ms + SUPPRESS_AFTER_MS);
    }

    /// Pause and Ctrl+Pause in ordinary windows.
    pub fn handle_correction_hotkey(
        &mut self,
        vk_code: u32,
        is_down: bool,
        is_up: bool,
        physical: CtrlKeys,
        now_ms: u64,
    ) -> (r: Option<CorrectionMode>)
        requires
            now_ms <= u64::MAX - SUPPRESS_AFTER_MS,
        ensures
            (*final(self), r) == spec_handle_correction_hotkey(
                *old(self),
                vk_code,
                is_down,
                is_up,
                physical,
                now_ms,
            ),
    {
        if !(vk_code == VK_PAUSE || vk_code == VK_CANCEL) {
            return None;
        }
        if is_down {
            self.recover_stale_pause_down(now_ms);
        }
        let ctrl_down = self.left_ctrl_down || self.right_ctrl_down || physical.left_down
            || physical.right_down;
        let last = if ctrl_down {
            self.last_scroll_lock_at
        } else {
            self.last_pause_at
        };
        if is_down && !self.pause_down && Self::debounce_allows(last, now_ms) {
            self.mark_pause_down(now_ms);
            if ctrl_down {
                self.record_scroll_lock(physical, now_ms);
                self.pending_scroll_lock = true;
                return None;
            }
            self.last_pause_at = Some(now_ms);
            return Some(CorrectionMode::Pause);
        }
        if is_up {
            self.mark_pause_up();
            return self.take_pending_scroll_lock_if_released();
        }
        None
    }

    /// Pause and Ctrl+Pause in a PowerShell terminal.
    pub fn handle_terminal_pause_key(
        &mut self,
        vk_code: u32,
        is_down: bool,
        is_up: bool,
        physical: CtrlKeys,
        now_ms: u64,
    ) -> (r: TerminalPauseHandling)
        ensures
            (*final(self), r) == spec_handle_terminal_pause_key(
                *old(self),
                vk_code,
                is_down,
                is_up,
                physical,
                now_ms,
            ),
    {
        if !(vk_code == VK_PAUSE || vk_code == VK_CANCEL) {
            return TerminalPauseHandling::PassThrough;
        }
        let ctrl_down = self.left_ctrl_down || self.right_ctrl_down || physical.left_down
            || physical.right_down;
        if is_down {
            self.recover_stale_pause_down(now_ms);
        }
        if is_down && !self.pause_down {
            self.mark_pause_down(now_ms);
            if ctrl_down {
                self.mark_ctrl_used(physical);
                return TerminalPauseHandling::TranslateToF14;
            }
            return TerminalPauseHandling::TranslateToF13;
        }
        if is_up {
            self.mark_pause_up();
        }
        TerminalPauseHandling::Suppress
    }

    /// Pause and Ctrl+Pause in a classic console.
    pub fn handle_classic_console_pause_key(
        &mut self,
        vk_code: u32,
        is_down: bool,
        is_up: bool,
        physical: CtrlKeys,
        now_ms: u64,
    ) -> (r: Option<CorrectionMode>)
        requires
            now_ms <= u64::MAX - SUPPRESS_AFTER_MS,
        ensures
            (*final(self), r) == spec_handle_classic_console_pause_key(
                *old(self),
                vk_code,
                is_down,
                is_up,
                physical,
                now_ms,
            ),
    {
        if !(vk_code == VK_PAUSE || vk_code == VK_CANCEL) {
            return None;
        }
        let ctrl_down = self.left_ctrl_down || self.right_ctrl_down || physical.left_down
            || physical.right_down;
        if is_down {
            self.recover_stale_pause_down(now_ms);
        }
        let last = if ctrl_down {
            self.last_scroll_lock_at
        } else {
            self.last_pause_at
        };
        if is_down && !self.pause_down && Self::debounce_allows(last, now_ms) {
            self.mark_pause_down(now_ms);
            if ctrl_down {
                self.record_scroll_lock(physical, now_ms);
                return Some(CorrectionMode::ScrollLock);
            }
            self.last_pause_at = Some(now_ms);
            return Some(CorrectionMode::Pause);
        }
        if is_up {
            self.mark_pause_up();
        }
        None
    }

    /// Whether a key typed right after Ctrl+Pause is swallowed.
    pub fn should_suppress_companion_key(&mut self, vk_code: u32, now_ms: u64) -> (r: bool)
        ensures
            (*final(self), r) == spec_should_suppress_companion_key(*old(self), vk_code, now_ms),
    {
        if !is_scrolllock_companion_key(vk_code) {
            return false;
        }
        match self.suppress_c_until {
            None => false,
            Some(until) => {
                if now_ms <= until {
                    true
                } else {
                    self.suppress_c_until = None;
                    false
                }
            },
        }
    }

    /// Whether layout controls are held back after the Windows key.
    pub fn layout_controls_are_suspended(&mut self, now_ms: u64) -> (r: bool)
        ensures
            (*final(self), r) == spec_layout_controls_are_suspended(*old(self), now_ms),
    {
        match self.suspend_layout_controls_until {
            None => false,
            Some(until) => {
                if now_ms <= until {
                    true
                } else {
                    self.suspend_layout_controls_until = None;
                    false
                }
            },
        }
    }

    /// The layout controls: a lone left Ctrl tap asks for Russian, a lone
    /// right Ctrl tap for English, the menu key for the next layout.
    pub fn handle_key(&mut self, vk_code: u32, is_down: bool, is_up: bool, now_ms: u64) -> (r: Option<
        KeyboardControlAction,
    >)
        requires
            now_ms <= u64::MAX - SUPPRESS_AFTER_MS,
        ensures
            (*final(self), r) == spec_handle_key(*old(self), vk_code, is_down, is_up, now_ms),
    {
        if vk_code == VK_LWIN || vk_code == VK_RWIN {
            if is_down {
                self.win_down = true;
                self.suspend_layout_controls_until = Some(now_ms + SUPPRESS_AFTER_MS);
            }
            if is_up {
                self.win_down = false;
                self.suspend_layout_controls_until = Some(now_ms + SUPPRESS_AFTER_MS);
            }
            return None;
        }
        if self.win_down && self.layout_controls_are_suspended(now_ms) {
            return None;
        }
        self.win_down = false;
        if self.layout_controls_are_suspended(now_ms) {
            return None;
        }
        self.handle_ctrl_keys(vk_code, is_down, is_up, now_ms)
    }

    fn handle_ctrl_keys(&mut self, vk_code: u32, is_down: bool, is_up: bool, now_ms: u64) -> (r:
        Option<KeyboardControlAction>)
        ensures
            (*final(self), r) == spec_handle_ctrl_keys(*old(self), vk_code, is_down, is_up, now_ms),
    {
        if is_down {
            if vk_code == VK_LCONTROL {
                self.right_ctrl_used = true;
                self.right_ctrl_down = false;
                self.left_ctrl_down = true;
                self.left_ctrl_used = false;
            } else if vk_code == VK_RCONTROL {
                self.left_ctrl_used = true;
                self.left_ctrl_down = false;
                self.right_ctrl_down = true;
                self.right_ctrl_used = false;
            } else if vk_code == VK_APPS {
                return Some(KeyboardControlAction::SwitchToNext);
            } else {
                self.left_ctrl_used = self.left_ctrl_used || self.left_ctrl_down;
                self.right_ctrl_used = self.right_ctrl_used || self.right_ctrl_down;
            }
        }
        if is_up && vk_code == VK_LCONTROL {
            let was_down = self.left_ctrl_down;
            let was_used = self.left_ctrl_used;
            self.left_ctrl_down = false;
            self.left_ctrl_used = false;
            return self.release_ctrl(was_down, was_used, KeyboardControlAction::SwitchToRussian, now_ms);
        }
        if is_up && vk_code == VK_RCONTROL {
            let was_down = self.right_ctrl_down;
            let was_used = self.right_ctrl_used;
            self.right_ctrl_down = false;
            self.right_ctrl_used = false;
            return self.release_ctrl(was_down, was_used, KeyboardControlAction::SwitchToEnglish, now_ms);
        }
        None
    }

    fn release_ctrl(
        &mut self,
        was_down: bool,
        was_used: bool,
        action: KeyboardControlAction,
        now_ms: u64,
    ) -> (r: Option<KeyboardControlAction>)
        ensures
            (*final(self), r) == spec_release_ctrl(*old(self), was_down, was_used, action, now_ms),
    {
        if self.pending_scroll_lock || !was_down {
            return None;
        }
        if !Self::layout_control_debounce_allows(self.last_layout_control_action_at, now_ms) {
            return None;
        }
        if !was_used {
            self.last_layout_control_action_at = Some(now_ms);
            return Some(action);
        }
        None
    }
}

} // verus!

verus! {

/// Where the foreground window sends a Pause key. The caller checks, in this
/// order: Stepler's own Qwen input window, a Codex embedded terminal, a
/// classic console, then the terminal kind of the window.
#[derive(Debug, Clone, Copy, PartialEq, Eq, Structural)]
pub enum PauseSurface {
    /// Stepler's Qwen input window, which handles Pause itself.
    QwenInput,
    /// The terminal embedded in the Codex window.
    CodexEmbeddedTerminal,
    /// A classic console window.
    ClassicConsole,
    /// A window of the given terminal kind; `conservative` when it is a
    /// terminal that needs conservative suppression.
    Terminal { passthrough: TerminalPassthrough, conservative: bool },
}

/// The switches read from the environment.
#[derive(Debug, Clone, Copy, PartialEq, Eq, Structural)]
pub struct HookSettings {
    pub pause_enabled: bool,
    pub scrolllock_enabled: bool,
    pub ctrl_layout_enabled: bool,
    pub menu_layout_enabled: bool,
    pub caps_lock_disabled: bool,
    pub insert_as_backspace: bool,
}

/// One keyboard event as the hook sees it.
#[derive(Debug, Clone, Copy, PartialEq, Eq, Structural)]
pub struct HookEvent {
    /// The key, with plain Ctrl resolved to left or right Ctrl.
    pub vk_code: u32,
    pub is_down: bool,
    pub is_up: bool,
    /// Injected by software rather than typed.
    pub injected: bool,
    pub physical: CtrlKeys,
    pub no_modifier_keys_down: bool,
    pub now_ms: u64,
}

/// Something the hook does besides passing or swallowing the key.
#[derive(Debug, Clone, Copy, PartialEq, Eq, Structural)]
pub enum HookEffect {
    PostHotkey(CorrectionMode),
    PostReceived(CorrectionMode),
    PostUnsupported(CorrectionMode),
    PostAction(KeyboardControlAction),
    ReleaseModifiers,
    SendVirtualKey(u32),
    SendSshSequence(CorrectionMode),
}

/// The hook's answer to one key event: its effects, in order, and whether
/// the key goes on to the next hook (else it is swallowed).
#[derive(Debug, Clone)]
pub struct HookDecision {
    pub effects: Vec<HookEffect>,
    pub pass_to_next_hook: bool,
}

pub open spec fn spec_mode_enabled(settings: HookSettings, mode: CorrectionMode) -> bool {
    match mode {
        CorrectionMode::Pause => settings.pause_enabled,
        CorrectionMode::ScrollLock => settings.scrolllock_enabled,
    }
}

pub open spec fn spec_action_enabled(settings: HookSettings, action: KeyboardControlAction) -> bool {
    match action {
        KeyboardControlAction::SwitchToNext => settings.menu_layout_enabled,
        _ => settings.ctrl_layout_enabled,
    }
}

/// Posting a correction hotkey, when the mode is switched on.
pub open spec fn spec_post_correction(settings: HookSettings, mode: Option<CorrectionMode>) -> Seq<
    HookEffect,
> {
    match mode {
        Some(m) => if spec_mode_enabled(settings, m) {
            seq![HookEffect::PostHotkey(m)]
        } else {
            Seq::empty()
        },
        None => Seq::empty(),
    }
}

/// Announcing a hotkey that cannot be served.
pub open spec fn spec_post_unserved(mode: Option<CorrectionMode>) -> Seq<HookEffect> {
    match mode {
        Some(m) => seq![HookEffect::PostReceived(m), HookEffect::PostUnsupported(m)],
        None => Seq::empty(),
    }
}

/// Pause in an ordinary window's state machine, followed by a pending
/// Ctrl+Pause that may have come due.
pub open spec fn spec_correction_or_pending(
    s: KeyboardControlHookState,
    e: HookEvent,
) -> (KeyboardControlHookState, Option<CorrectionMode>) {
    let (s1, mode) = spec_handle_correction_hotkey(
        s,
        e.vk_code,
        e.is_down,
        e.is_up,
        e.physical,
        e.now_ms,
    );
    if mode is Some {
        (s1, mode)
    } else {
        spec_take_pending_scroll_lock(s1)
    }
}

/// The decision for a Pause key, when the surface handles it specially;
/// `None` when the key goes the ordinary way.
pub open spec fn spec_pause_key_decision(
    s: KeyboardControlHookState,
    e: HookEvent,
    surface: PauseSurface,
    settings: HookSettings,
) -> Option<(KeyboardControlHookState, Seq<HookEffect>, bool)> {
    match surface {
        PauseSurface::QwenInput => {
            let s1 = if e.is_down {
                let d = spec_mark_pause_down(s, e.now_ms);
                KeyboardControlHookState {
                    left_ctrl_used: d.left_ctrl_used || d.left_ctrl_down,
                    right_ctrl_used: d.right_ctrl_used || d.right_ctrl_down,
                    ..d
                }
            } else {
                s
            };
            let s2 = if e.is_up {
                spec_mark_pause_up(s1)
            } else {
                s1
            };
            Some((s2, Seq::empty(), true))
        },
        PauseSurface::CodexEmbeddedTerminal => {
            let (s1, mode) = spec_correction_or_pending(s, e);
            Some((s1, spec_post_correction(settings, mode), false))
        },
        PauseSurface::ClassicConsole => {
            let (s1, mode) = spec_handle_classic_console_pause_key(
                s,
                e.vk_code,
                e.is_down,
                e.is_up,
                e.physical,
                e.now_ms,
            );
            Some((s1, spec_post_correction(settings, mode), false))
        },
        PauseSurface::Terminal { passthrough, conservative } => {
            if (passthrough == TerminalPassthrough::NoPassthrough && conservative) || passthrough
                == TerminalPassthrough::Ssh || passthrough == TerminalPassthrough::UnknownTerminal {
                let (s1, mode) = spec_handle_classic_console_pause_key(
                    s,
                    e.vk_code,
                    e.is_down,
                    e.is_up,
                    e.physical,
                    e.now_ms,
                );
                Some((s1, spec_post_unserved(mode), false))
            } else if passthrough == TerminalPassthrough::SshRemote && e.is_down {
                let ctrl = s.left_ctrl_down || s.right_ctrl_down;
                let d = spec_mark_pause_down(s, e.now_ms);
                let s1 = KeyboardControlHookState {
                    left_ctrl_used: d.left_ctrl_used || d.left_ctrl_down,
                    right_ctrl_used: d.right_ctrl_used || d.right_ctrl_down,
                    ..d
                };
                let mode = if ctrl {
                    CorrectionMode::ScrollLock
                } else {
                    CorrectionMode::Pause
                };
                Some(
                    (
                        s1,
                        seq![HookEffect::PostReceived(mode), HookEffect::SendSshSequence(mode)],
                        false,
                    ),
                )
            } else if passthrough == TerminalPassthrough::SshRemote && e.is_up {
                Some((spec_mark_pause_up(s), Seq::empty(), false))
            } else if passthrough == TerminalPassthrough::TerminalApp {
                let (s1, mode) = spec_correction_or_pending(s, e);
                Some((s1, spec_post_correction(settings, mode), false))
            } else if passthrough == TerminalPassthrough::PsReadLine {
                let (s1, handling) = spec_handle_terminal_pause_key(
                    s,
                    e.vk_code,
                    e.is_down,
                    e.is_up,
                    e.physical,
                    e.now_ms,
                );
                Some(
                    match handling {
                        TerminalPauseHandling::PassThrough => (s1, Seq::empty(), true),
                        TerminalPauseHandling::Suppress => (s1, Seq::empty(), false),
                        TerminalPauseHandling::TranslateToF13 => (
                            s1,
                            seq![
                                HookEffect::PostReceived(CorrectionMode::Pause),
                                HookEffect::ReleaseModifiers,
                                HookEffect::SendVirtualKey(VK_F13),
                            ],
                            false,
                        ),
                        TerminalPauseHandling::TranslateToF14 => (
                            s1,
                            seq![
                                HookEffect::PostReceived(CorrectionMode::ScrollLock),
                                HookEffect::ReleaseModifiers,
                                HookEffect::SendVirtualKey(VK_F14),
                            ],
                            false,
                        ),
                    },
                )
            } else {
                None
            }
        },
    }
}

/// The ordinary way of a key: language-switch keys only feed the layout
/// state; Caps Lock and Insert may be remapped; companion keys after
/// Ctrl+Pause are swallowed; otherwise the correction hotkey comes before
/// the layout action.
pub open spec fn spec_ordinary_key_decision(
    s: KeyboardControlHookState,
    e: HookEvent,
    settings: HookSettings,
) -> (KeyboardControlHookState, Seq<HookEffect>, bool) {
    let vk = e.vk_code;
    if e.injected {
        (s, Seq::empty(), true)
    } else if vk == VK_LWIN || vk == VK_RWIN || vk == VK_SPACE {
        (spec_handle_key(s, vk, e.is_down, e.is_up, e.now_ms).0, Seq::empty(), true)
    } else if vk == VK_CAPITAL && settings.caps_lock_disabled {
        (s, Seq::empty(), false)
    } else if vk == VK_INSERT && settings.insert_as_backspace && e.no_modifier_keys_down {
        (
            s,
            if e.is_down {
                seq![HookEffect::SendVirtualKey(VK_BACK)]
            } else {
                Seq::empty()
            },
            false,
        )
    } else {
        let (s1, companion) = spec_should_suppress_companion_key(s, vk, e.now_ms);
        if companion {
            (s1, Seq::empty(), false)
        } else {
            let (s2, mode0) = spec_handle_correction_hotkey(
                s1,
                vk,
                e.is_down,
                e.is_up,
                e.physical,
                e.now_ms,
            );
            let (s3, suppress) = spec_should_suppress_companion_key(s2, vk, e.now_ms);
            let (s4, action) = spec_handle_key(s3, vk, e.is_down, e.is_up, e.now_ms);
            let (s5, mode) = if mode0 is Some {
                (s4, mode0)
            } else {
                spec_take_pending_scroll_lock(s4)
            };
            if suppress {
                (s5, Seq::empty(), false)
            } else if let Some(m) = mode {
                if !spec_mode_enabled(settings, m) {
                    (s5, Seq::empty(), true)
                } else {
                    (
                        s5,
                        seq![HookEffect::PostHotkey(m)],
                        e.is_up && (vk == VK_LCONTROL || vk == VK_RCONTROL),
                    )
                }
            } else if is_pause_key(vk) {
                (s5, Seq::empty(), false)
            } else if let Some(a) = action {
                if !spec_action_enabled(settings, a) {
                    (s5, Seq::empty(), true)
                } else {
                    (s5, seq![HookEffect::PostAction(a)], vk != VK_APPS)
                }
            } else {
                (s5, Seq::empty(), true)
            }
        }
    }
}

/// The whole decision for one key event.
pub open spec fn spec_hook_decision(
    s: KeyboardControlHookState,
    e: HookEvent,
    surface: PauseSurface,
    settings: HookSettings,
) -> (KeyboardControlHookState, Seq<HookEffect>, bool) {
    if !(e.is_down || e.is_up) {
        (s, Seq::empty(), true)
    } else if is_pause_key(e.vk_code) && spec_pause_key_decision(s, e, surface, settings) is Some {
        spec_pause_key_decision(s, e, surface, settings).unwrap()
    } else {
        spec_ordinary_key_decision(s, e, settings)
    }
}

fn post_correction(settings: &HookSettings, mode: Option<CorrectionMode>) -> (r: Vec<HookEffect>)
    ensures
        r@ == spec_post_correction(*settings, mode),
{
    let mut v: Vec<HookEffect> = Vec::new();
    if let Some(m) = mode {
        let enabled = match m {
            CorrectionMode::Pause => settings.pause_enabled,
            CorrectionMode::ScrollLock => settings.scrolllock_enabled,
        };
        if enabled {
            v.push(HookEffect::PostHotkey(m));
        }
    }
    proof {
        if let Some(m) = mode {
            if spec_mode_enabled(*settings, m) {
                assert(v@ == seq![HookEffect::PostHotkey(m)]);
            }
        }
    }
    v
}

fn post_unserved(mode: Option<CorrectionMode>) -> (r: Vec<HookEffect>)
    ensures
        r@ == spec_post_unserved(mode),
{
    let mut v: Vec<HookEffect> = Vec::new();
    if let Some(m) = mode {
        v.push(HookEffect::PostReceived(m));
        v.push(HookEffect::PostUnsupported(m));
        assert(v@ == seq![HookEffect::PostReceived(m), HookEffect::PostUnsupported(m)]);
    }
    v
}

impl KeyboardControlHookState {
    fn correction_or_pending(&mut self, e: &HookEvent) -> (r: Option<CorrectionMode>)
        requires
            e.now_ms <= u64::MAX - SUPPRESS_AFTER_MS,
        ensures
            (*final(self), r) == spec_correction_or_pending(*old(self), *e),
    {
        let mode = self.handle_correction_hotkey(e.vk_code, e.is_down, e.is_up, e.physical, e.now_ms);
        if mode.is_some() {
            mode
        } else {
            self.take_pending_scroll_lock_if_released()
        }
    }

    fn pause_key_decision(
        &mut self,
        e: &HookEvent,
        surface: PauseSurface,
        settings: &HookSettings,
    ) -> (r: Option<HookDecision>)
        requires
            e.now_ms <= u64::MAX - SUPPRESS_AFTER_MS,
        ensures
            match spec_pause_key_decision(*old(self), *e, surface, *settings) {
                Some((s, effects, pass)) => r matches Some(d) && *final(self) == s && d.effects@
                    == effects && d.pass_to_next_hook == pass,
                None => r is None && *final(self) == *old(self),
            },
    {
        match surface {
            PauseSurface::QwenInput => {
                if e.is_down {
                    self.mark_pause_down(e.now_ms);
                    self.left_ctrl_used = self.left_ctrl_used || self.left_ctrl_down;
                    self.right_ctrl_used = self.right_ctrl_used || self.right_ctrl_down;
                }
                if e.is_up {
                    self.mark_pause_up();
                }
                Some(HookDecision { effects: Vec::new(), pass_to_next_hook: true })
            },
            PauseSurface::CodexEmbeddedTerminal => {
                let mode = self.correction_or_pending(e);
                Some(HookDecision { effects: post_correction(settings, mode), pass_to_next_hook: false })
            },
            PauseSurface::ClassicConsole => {
                let mode = self.handle_classic_console_pause_key(
                    e.vk_code,
                    e.is_down,
                    e.is_up,
                    e.physical,
                    e.now_ms,
                );
                Some(HookDecision { effects: post_correction(settings, mode), pass_to_next_hook: false })
            },
            PauseSurface::Terminal { passthrough, conservative } => {
                if (passthrough == TerminalPassthrough::NoPassthrough && conservative) || passthrough
                    == TerminalPassthrough::Ssh || passthrough
                    == TerminalPassthrough::UnknownTerminal {
                    let mode = self.handle_classic_console_pause_key(
                        e.vk_code,
                        e.is_down,
                        e.is_up,
                        e.physical,
                        e.now_ms,
                    );
                    Some(HookDecision { effects: post_unserved(mode), pass_to_next_hook: false })
                } else if passthrough == TerminalPassthrough::SshRemote && e.is_down {
                    let ctrl = self.left_ctrl_down || self.right_ctrl_down;
                    self.mark_pause_down(e.now_ms);
                    self.left_ctrl_used = self.left_ctrl_used || self.left_ctrl_down;
                    self.right_ctrl_used = self.right_ctrl_used || self.right_ctrl_down;
                    let mode = if ctrl {
                        CorrectionMode::ScrollLock
                    } else {
                        CorrectionMode::Pause
                    };
                    let mut effects: Vec<HookEffect> = Vec::new();
                    effects.push(HookEffect::PostReceived(mode));
                    effects.push(HookEffect::SendSshSequence(mode));
                    assert(effects@ == seq![
                        HookEffect::PostReceived(mode),
                        HookEffect::SendSshSequence(mode),
                    ]);
                    Some(HookDecision { effects, pass_to_next_hook: false })
                } else if passthrough == TerminalPassthrough::SshRemote && e.is_up {
                    self.mark_pause_up();
                    Some(HookDecision { effects: Vec::new(), pass_to_next_hook: false })
                } else if passthrough == TerminalPassthrough::TerminalApp {
                    let mode = self.correction_or_pending(e);
                    Some(HookDecision { effects: post_correction(settings, mode), pass_to_next_hook: false })
                } else if passthrough == TerminalPassthrough::PsReadLine {
                    let handling = self.handle_terminal_pause_key(
                        e.vk_code,
                        e.is_down,
                        e.is_up,
                        e.physical,
                        e.now_ms,
                    );
                    let mut effects: Vec<HookEffect> = Vec::new();
                    match handling {
                        TerminalPauseHandling::PassThrough => {
                            Some(HookDecision { effects, pass_to_next_hook: true })
                        },
                        TerminalPauseHandling::Suppress => {
                            Some(HookDecision { effects, pass_to_next_hook: false })
                        },
                        TerminalPauseHandling::TranslateToF13 => {
                            effects.push(HookEffect::PostReceived(CorrectionMode::Pause));
                            effects.push(HookEffect::ReleaseModifiers);
                            effects.push(HookEffect::SendVirtualKey(VK_F13));
                            assert(effects@ == seq![
                                HookEffect::PostReceived(CorrectionMode::Pause),
                                HookEffect::ReleaseModifiers,
                                HookEffect::SendVirtualKey(VK_F13),
                            ]);
                            Some(HookDecision { effects, pass_to_next_hook: false })
                        },
                        TerminalPauseHandling::TranslateToF14 => {
                            effects.push(HookEffect::PostReceived(CorrectionMode::ScrollLock));
                            effects.push(HookEffect::ReleaseModifiers);
                            effects.push(HookEffect::SendVirtualKey(VK_F14));
                            assert(effects@ == seq![
                                HookEffect::PostReceived(CorrectionMode::ScrollLock),
                                HookEffect::ReleaseModifiers,
                                HookEffect::SendVirtualKey(VK_F14),
                            ]);
                            Some(HookDecision { effects, pass_to_next_hook: false })
                        },
                    }
                } else {
                    None
                }
            },
        }
    }

    fn ordinary_key_decision(&mut self, e: &HookEvent, settings: &HookSettings) -> (r: HookDecision)
        requires
            e.now_ms <= u64::MAX - SUPPRESS_AFTER_MS,
        ensures
            ({
                let (s, effects, pass) = spec_ordinary_key_decision(*old(self), *e, *settings);
                *final(self) == s && r.effects@ == effects && r.pass_to_next_hook == pass
            }),
    {
        let vk = e.vk_code;
        let mut effects: Vec<HookEffect> = Vec::new();
        if e.injected {
            return HookDecision { effects, pass_to_next_hook: true };
        }
        if is_windows_language_switch_key(vk) {
            let _ = self.handle_key(vk, e.is_down, e.is_up, e.now_ms);
            return HookDecision { effects, pass_to_next_hook: true };
        }
        if vk == VK_CAPITAL && settings.caps_lock_disabled {
            return HookDecision { effects, pass_to_next_hook: false };
        }
        if vk == VK_INSERT && settings.insert_as_backspace && e.no_modifier_keys_down {
            if e.is_down {
                effects.push(HookEffect::SendVirtualKey(VK_BACK));
                assert(effects@ == seq![HookEffect::SendVirtualKey(VK_BACK)]);
            }
            return HookDecision { effects, pass_to_next_hook: false };
        }
        if self.should_suppress_companion_key(vk, e.now_ms) {
            return HookDecision { effects, pass_to_next_hook: false };
        }
        let mode0 = self.handle_correction_hotkey(vk, e.is_down, e.is_up, e.physical, e.now_ms);
        let suppress = self.should_suppress_companion_key(vk, e.now_ms);
        let action = self.handle_key(vk, e.is_down, e.is_up, e.now_ms);
        let mode = if mode0.is_some() {
            mode0
        } else {
            self.take_pending_scroll_lock_if_released()
        };
        if suppress {
            return HookDecision { effects, pass_to_next_hook: false };
        }
        if let Some(m) = mode {
            let enabled = match m {
                CorrectionMode::Pause => settings.pause_enabled,
                CorrectionMode::ScrollLock => settings.scrolllock_enabled,
            };
            if !enabled {
                return HookDecision { effects, pass_to_next_hook: true };
            }
            effects.push(HookEffect::PostHotkey(m));
            assert(effects@ == seq![HookEffect::PostHotkey(m)]);
            return HookDecision {
                effects,
                pass_to_next_hook: e.is_up && (vk == VK_LCONTROL || vk == VK_RCONTROL),
            };
        }
        if vk == VK_PAUSE || vk == VK_CANCEL {
            return HookDecision { effects, pass_to_next_hook: false };
        }
        if let Some(a) = action {
            let enabled = match a {
                KeyboardControlAction::SwitchToNext => settings.menu_layout_enabled,
                _ => settings.ctrl_layout_enabled,
            };
            if !enabled {
                return HookDecision { effects, pass_to_next_hook: true };
            }
            effects.push(HookEffect::PostAction(a));
            assert(effects@ == seq![HookEffect::PostAction(a)]);
            return HookDecision { effects, pass_to_next_hook: vk != VK_APPS };
        }
        HookDecision { effects, pass_to_next_hook: true }
    }

    /// The keyboard hook's decision for one key event: the effects to carry
    /// out and whether the key is passed on. `surface` is only consulted
    /// for the Pause key.
    pub fn hook_decision(
        &mut self,
        event: &HookEvent,
        surface: PauseSurface,
        settings: &HookSettings,
    ) -> (r: HookDecision)
        requires
            event.now_ms <= u64::MAX - SUPPRESS_AFTER_MS,
        ensures
            ({
                let (s, effects, pass) = spec_hook_decision(*old(self), *event, surface, *settings);
                *final(self) == s && r.effects@ == effects && r.pass_to_next_hook == pass
            }),
    {
        if !(event.is_down || event.is_up) {
            return HookDecision { effects: Vec::new(), pass_to_next_hook: true };
        }
        if event.vk_code == VK_PAUSE || event.vk_code == VK_CANCEL {
            if let Some(d) = self.pause_key_decision(event, surface, settings) {
                return d;
            }
        }
        self.ordinary_key_decision(event, settings)
    }
}

/// Plain Ctrl resolved by the extended-key flag: extended is right Ctrl.
pub fn normalized_control_vk(vk_code: u32, extended: bool) -> (r: u32)
    ensures
        r == (if vk_code == VK_CONTROL {
            if extended {
                VK_RCONTROL
            } else {
                VK_LCONTROL
            }
        } else {
            vk_code
        }),
{
    if vk_code == VK_CONTROL {
        if extended {
            VK_RCONTROL
        } else {
            VK_LCONTROL
        }
    } else {
        vk_code
    }
}

/// Injected events are never taken for user controls.
pub fn should_ignore_keyboard_hook_event(injected: bool) -> (r: bool)
    ensures
        r == injected,
{
    injected
}

/// Stepler's own Qwen windows handle Pause themselves.
pub open spec fn spec_is_stepler_qwen_surface(title: Seq<char>, class_name: Seq<char>) -> bool {
    (title == "Stepler Qwen Input"@ || title == "Stepler Qwen Workspace"@) && crate::text::has_prefix(
        class_name,
        "WindowsForms10.Window."@,
    )
}

pub fn is_stepler_qwen_surface(title: &str, class_name: &str) -> (r: bool)
    ensures
        r == spec_is_stepler_qwen_surface(title@, class_name@),
{
    (crate::text::str_eq(title, "Stepler Qwen Input") || crate::text::str_eq(
        title,
        "Stepler Qwen Workspace",
    )) && crate::text::str_starts_with(class_name, "WindowsForms10.Window.")
}

} // verus!

verus! {

/// A lone left-Ctrl tap asks for Russian and a lone right-Ctrl tap for
/// English, when no Ctrl+Pause is pending, layout controls are not held
/// back and the last switch is old enough.
pub proof fn law_lone_ctrl_tap_switches_layout(
    s: KeyboardControlHookState,
    left: bool,
    t1: u64,
    t2: u64,
)
    requires
        !s.pending_scroll_lock,
        !s.win_down,
        s.suspend_layout_controls_until is None,
        spec_debounce_allows(s.last_layout_control_action_at, t2, LAYOUT_CONTROL_DEBOUNCE_MS),
    ensures
        ({
            let ctrl = if left {
                VK_LCONTROL
            } else {
                VK_RCONTROL
            };
            let (s1, a1) = spec_handle_key(s, ctrl, true, false, t1);
            let (s2, a2) = spec_handle_key(s1, ctrl, false, true, t2);
            &&& a1 is None
            &&& a2 == Some(
                if left {
                    KeyboardControlAction::SwitchToRussian
                } else {
                    KeyboardControlAction::SwitchToEnglish
                },
            )
            &&& !s2.left_ctrl_down && !s2.right_ctrl_down
        }),
{
}

/// A Ctrl key used together with another key does not switch the layout.
pub proof fn law_ctrl_chord_does_not_switch(
    s: KeyboardControlHookState,
    other: u32,
    t1: u64,
    t2: u64,
    t3: u64,
)
    requires
        !s.win_down,
        s.suspend_layout_controls_until is None,
        other != VK_LWIN && other != VK_RWIN && other != VK_LCONTROL && other != VK_RCONTROL
            && other != VK_APPS,
    ensures
        ({
            let (s1, _) = spec_handle_key(s, VK_LCONTROL, true, false, t1);
            let (s2, a2) = spec_handle_key(s1, other, true, false, t2);
            let (s3, a3) = spec_handle_key(s2, VK_LCONTROL, false, true, t3);
            a2 is None && a3 is None
        }),
{
}

/// A Ctrl key-up without its key-down switches nothing.
pub proof fn law_orphan_ctrl_up_is_ignored(vk: u32, now: u64)
    requires
        vk == VK_LCONTROL || vk == VK_RCONTROL,
    ensures
        spec_handle_key(spec_initial_hook_state(), vk, false, true, now).1 is None,
{
}

/// Pause fires once on key-down; a repeated key-down before the key-up
/// (within the stale time) fires nothing.
pub proof fn law_pause_fires_once_until_key_up(s: KeyboardControlHookState, t1: u64, t2: u64)
    requires
        !s.pause_down,
        !s.left_ctrl_down && !s.right_ctrl_down,
        spec_debounce_allows(s.last_pause_at, t1, CORRECTION_DEBOUNCE_MS),
        t1 <= t2 < t1 + STALE_PAUSE_MS,
    ensures
        ({
            let released = CtrlKeys { left_down: false, right_down: false };
            let (s1, m1) = spec_handle_correction_hotkey(s, VK_PAUSE, true, false, released, t1);
            let (s2, m2) = spec_handle_correction_hotkey(s1, VK_PAUSE, true, false, released, t2);
            m1 == Some(CorrectionMode::Pause) && m2 is None
        }),
{
}

/// Ctrl+Pause fires nothing while keys are held and fires Ctrl+Pause once
/// Pause and Ctrl are both released.
pub proof fn law_ctrl_pause_fires_after_release(
    s: KeyboardControlHookState,
    t0: u64,
    t1: u64,
    t2: u64,
    t3: u64,
)
    requires
        !s.pause_down,
        !s.win_down,
        s.suspend_layout_controls_until is None,
        spec_debounce_allows(s.last_scroll_lock_at, t1, CORRECTION_DEBOUNCE_MS),
        t1 <= u64::MAX - SUPPRESS_AFTER_MS,
    ensures
        ({
            let released = CtrlKeys { left_down: false, right_down: false };
            let (s0, _) = spec_handle_key(s, VK_LCONTROL, true, false, t0);
            let (s1, m1) = spec_handle_correction_hotkey(s0, VK_PAUSE, true, false, released, t1);
            let (s2, m2) = spec_handle_correction_hotkey(s1, VK_PAUSE, false, true, released, t2);
            let (s3, a3) = spec_handle_key(s2, VK_LCONTROL, false, true, t3);
            let (s4, m4) = spec_take_pending_scroll_lock(s3);
            &&& m1 is None
            &&& m2 is None
            &&& a3 is None
            &&& m4 == Some(CorrectionMode::ScrollLock)
        }),
{
}

/// Pause in an SSH session is forwarded only when the session is marked by
/// the remote helper: a marked session gets the private sequence of the
/// mode (Ctrl+Pause when a Ctrl key is down), an unmarked one, or an
/// unknown terminal, only the notice that the hotkey cannot be served.
/// Either way the key itself goes no further.
pub proof fn law_ssh_pause_is_forwarded_only_when_marked(
    s: KeyboardControlHookState,
    e: HookEvent,
    marked: bool,
    conservative: bool,
    settings: HookSettings,
)
    requires
        e.vk_code == VK_PAUSE || e.vk_code == VK_CANCEL,
        e.is_down,
    ensures
        ({
            let passthrough = if marked {
                TerminalPassthrough::SshRemote
            } else {
                TerminalPassthrough::Ssh
            };
            let surface = PauseSurface::Terminal { passthrough, conservative };
            let (_, effects, pass) = spec_hook_decision(s, e, surface, settings);
            &&& !pass
            &&& marked ==> {
                let mode = if s.left_ctrl_down || s.right_ctrl_down {
                    CorrectionMode::ScrollLock
                } else {
                    CorrectionMode::Pause
                };
                effects == seq![HookEffect::PostReceived(mode), HookEffect::SendSshSequence(mode)]
            }
            &&& !marked ==> forall|i: int|
                0 <= i < effects.len() ==> (#[trigger] effects[i] is PostReceived
                    || effects[i] is PostUnsupported)
        }),
{
}

/// The Menu key asks for the next layout as it goes down, whatever Ctrl
/// keys are held, unless the Windows key is held or layout controls are
/// still held back after it; its release asks for nothing.
pub proof fn law_menu_key_requests_next_layout(s: KeyboardControlHookState, now: u64)
    requires
        !s.win_down,
        s.suspend_layout_controls_until matches Some(until) ==> now > until,
    ensures
        spec_handle_key(s, VK_APPS, true, false, now).1 == Some(KeyboardControlAction::SwitchToNext),
        spec_handle_key(s, VK_APPS, false, true, now).1 is None,
{
}

} // verus!
