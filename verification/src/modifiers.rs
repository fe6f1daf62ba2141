//! The pressed state of the modifier keys, and the egui modifiers derived from it.
use vstd::prelude::*;
use crate::keys::LogicalKey;
use crate::input::{key_states, KeyboardInput};

verus! {

/// The state of egui's modifier keys, as egui hands it to widgets with each event.
#[derive(Clone, Copy, Debug, PartialEq, Eq, Hash)]
pub struct Modifiers {
    /// Either of the alt keys is down.
    pub alt: bool,
    /// Either of the control keys is down.
    pub ctrl: bool,
    /// Either of the shift keys is down.
    pub shift: bool,
    /// The command key is down (macOS only).
    pub mac_cmd: bool,
    /// The platform's command modifier: the command key on macOS, control elsewhere.
    pub command: bool,
}

impl Modifiers {
    /// No modifier is down.
    pub fn none() -> (r: Modifiers)
        ensures
            !r.alt && !r.ctrl && !r.shift && !r.mac_cmd && !r.command,
    {
        Modifiers { alt: false, ctrl: false, shift: false, mac_cmd: false, command: false }
    }
}

/// What the stored state of the modifier keys holds.
pub struct ModifierKeysView {
    /// A shift key is held.
    pub shift: bool,
    /// A control key is held.
    pub ctrl: bool,
    /// An alt key is held.
    pub alt: bool,
    /// A super or meta key is held.
    pub win: bool,
}

/// Stores the "pressed" state of the modifier keys, as seen in the keyboard events so far.
#[derive(Clone, Copy, Debug)]
pub struct ModifierKeysState {
    shift: bool,
    ctrl: bool,
    alt: bool,
    win: bool,
}

impl View for ModifierKeysState {
    type V = ModifierKeysView;

    closed spec fn view(&self) -> ModifierKeysView {
        ModifierKeysView { shift: self.shift, ctrl: self.ctrl, alt: self.alt, win: self.win }
    }
}

/// Nothing is held.
pub open spec fn released_view() -> ModifierKeysView {
    ModifierKeysView { shift: false, ctrl: false, alt: false, win: false }
}

/// The state after a key event: the modifier that the key stands for takes the event's
/// pressed state, every other modifier stays as it was.
pub open spec fn after_key(v: ModifierKeysView, key: LogicalKey, pressed: bool) -> ModifierKeysView {
    match key {
        LogicalKey::Shift => ModifierKeysView { shift: pressed, ..v },
        LogicalKey::Control => ModifierKeysView { ctrl: pressed, ..v },
        LogicalKey::Alt => ModifierKeysView { alt: pressed, ..v },
        LogicalKey::Super | LogicalKey::Meta => ModifierKeysView { win: pressed, ..v },
        _ => v,
    }
}

/// The state after a sequence of key events, applied in order.
pub open spec fn after_keys(v: ModifierKeysView, keys: Seq<(LogicalKey, bool)>) -> ModifierKeysView
    decreases keys.len(),
{
    if keys.len() == 0 {
        v
    } else {
        after_key(after_keys(v, keys.drop_last()), keys.last().0, keys.last().1)
    }
}

/// The state after a frame: its keyboard events in order, then, if the window lost focus
/// during the frame, every modifier released.
pub open spec fn after_frame(v: ModifierKeysView, keys: Seq<(LogicalKey, bool)>, focus_lost: bool) -> ModifierKeysView {
    if focus_lost {
        released_view()
    } else {
        after_keys(v, keys)
    }
}

/// The egui modifiers that a state stands for: on macOS the command modifier is the
/// super key, elsewhere it is control, and `mac_cmd` is set only on macOS.
pub open spec fn modifiers_of(v: ModifierKeysView, is_macos: bool) -> Modifiers {
    Modifiers {
        alt: v.alt,
        ctrl: v.ctrl,
        shift: v.shift,
        mac_cmd: if is_macos { v.win } else { false },
        command: if is_macos { v.win } else { v.ctrl },
    }
}

/// Whether a key press may produce text: not while a command or super key is held, except
/// that ctrl together with alt (AltGr) types text outside macOS.
pub open spec fn text_allowed(v: ModifierKeysView, is_macos: bool) -> bool {
    let m = modifiers_of(v, is_macos);
    (!m.command && !v.win) || (!is_macos && v.ctrl && v.alt)
}

impl ModifierKeysState {
    /// No modifier is held.
    pub fn new() -> (r: ModifierKeysState)
        ensures
            r@ == released_view(),
    {
        ModifierKeysState { shift: false, ctrl: false, alt: false, win: false }
    }

    /// Records a key event: a modifier key takes the event's pressed state.
    pub fn update(&mut self, key: &LogicalKey, pressed: bool)
        ensures
            final(self)@ == after_key(old(self)@, *key, pressed),
    {
        match key {
            LogicalKey::Shift => {
                self.shift = pressed;
            },
            LogicalKey::Control => {
                self.ctrl = pressed;
            },
            LogicalKey::Alt => {
                self.alt = pressed;
            },
            LogicalKey::Super | LogicalKey::Meta => {
                self.win = pressed;
            },
            _ => {},
        }
    }

    /// Forgets every held modifier, as when the window loses keyboard focus.
    pub fn reset(&mut self)
        ensures
            final(self)@ == released_view(),
    {
        *self = ModifierKeysState::new();
    }

    /// Records a frame's keyboard events in order, then forgets every held modifier if the
    /// window lost focus during the frame, so that no key stays stuck.
    pub fn apply_frame(&mut self, events: &Vec<KeyboardInput>, focus_lost: bool)
        ensures
            final(self)@ == after_frame(old(self)@, key_states(events@), focus_lost),
    {
        let ghost keys = key_states(events@);
        let mut i: usize = 0;
        while i < events.len()
            invariant
                i <= events@.len(),
                keys == key_states(events@),
                self@ == after_keys(old(self)@, keys.take(i as int)),
            decreases events@.len() - i,
        {
            self.update(&events[i].logical_key, events[i].pressed);
            proof {
                assert(keys.take(i + 1).drop_last() =~= keys.take(i as int));
                assert(keys.take(i + 1).last() == (events@[i as int].logical_key, events@[i as int].pressed));
            }
            i += 1;
        }
        assert(keys.take(events@.len() as int) =~= keys);
        if focus_lost {
            self.reset();
        }
    }

    /// The egui modifiers for the held keys.
    pub fn modifiers(&self, is_macos: bool) -> (r: Modifiers)
        ensures
            r == modifiers_of(self@, is_macos),
    {
        let mac_cmd = if is_macos { self.win } else { false };
        let command = if is_macos { self.win } else { self.ctrl };
        Modifiers { alt: self.alt, ctrl: self.ctrl, shift: self.shift, mac_cmd, command }
    }

    /// Whether a key press may produce text with these modifiers held.
    pub fn text_event_allowed(&self, is_macos: bool) -> (r: bool)
        ensures
            r == text_allowed(self@, is_macos),
    {
        let command = if is_macos { self.win } else { self.ctrl };
        !command && !self.win || !is_macos && self.ctrl && self.alt
    }

    /// Whether a shift key is held.
    pub fn shift(&self) -> (r: bool)
        ensures
            r == self@.shift,
    {
        self.shift
    }

    /// Whether a control key is held.
    pub fn ctrl(&self) -> (r: bool)
        ensures
            r == self@.ctrl,
    {
        self.ctrl
    }

    /// Whether an alt key is held.
    pub fn alt(&self) -> (r: bool)
        ensures
            r == self@.alt,
    {
        self.alt
    }

    /// Whether a super or meta key is held.
    pub fn win(&self) -> (r: bool)
        ensures
            r == self@.win,
    {
        self.win
    }
}

impl Default for ModifierKeysState {
    fn default() -> (r: ModifierKeysState)
        ensures
            r@ == released_view(),
    {
        ModifierKeysState::new()
    }
}

/// The pressed state of the last event in `keys` whose key satisfies `is_key`, or `old` if
/// no event does.
pub open spec fn last_state(keys: Seq<(LogicalKey, bool)>, is_key: spec_fn(LogicalKey) -> bool, old: bool) -> bool
    decreases keys.len(),
{
    if keys.len() == 0 {
        old
    } else if is_key(keys.last().0) {
        keys.last().1
    } else {
        last_state(keys.drop_last(), is_key, old)
    }
}

/// Law: after a frame's keyboard events, each modifier is held exactly as the last event of
/// its keys left it (the shift key, the control key, the alt key, the super or meta key),
/// and as before where no such event came.
pub proof fn law_modifiers_follow_last_event(v: ModifierKeysView, keys: Seq<(LogicalKey, bool)>)
    ensures
        after_keys(v, keys).shift == last_state(keys, |k: LogicalKey| k is Shift, v.shift),
        after_keys(v, keys).ctrl == last_state(keys, |k: LogicalKey| k is Control, v.ctrl),
        after_keys(v, keys).alt == last_state(keys, |k: LogicalKey| k is Alt, v.alt),
        after_keys(v, keys).win == last_state(keys, |k: LogicalKey| k is Super || k is Meta, v.win),
    decreases keys.len(),
{
    if keys.len() > 0 {
        law_modifiers_follow_last_event(v, keys.drop_last());
    }
}

/// Law: when the window loses focus during a frame, no modifier is held afterwards,
/// whatever the frame's keyboard events were.
pub proof fn law_focus_loss_releases_all(v: ModifierKeysView, keys: Seq<(LogicalKey, bool)>, is_macos: bool)
    ensures
        ({
            let m = modifiers_of(after_frame(v, keys, true), is_macos);
            !m.alt && !m.ctrl && !m.shift && !m.mac_cmd && !m.command
        }),
{
}

/// Law: the command modifier is the super key on macOS and control elsewhere, and the
/// macOS command flag is never set elsewhere.
pub proof fn law_command_modifier(v: ModifierKeysView)
    ensures
        modifiers_of(v, true).command == v.win,
        modifiers_of(v, true).mac_cmd == v.win,
        modifiers_of(v, false).command == v.ctrl,
        !modifiers_of(v, false).mac_cmd,
{
}

/// Law: outside macOS, ctrl together with alt (AltGr) always allows text, and without any
/// modifier text is allowed on every platform.
pub proof fn law_text_allowed(v: ModifierKeysView, is_macos: bool)
    ensures
        !is_macos && v.ctrl && v.alt ==> text_allowed(v, is_macos),
        !v.ctrl && !v.alt && !v.shift && !v.win ==> text_allowed(v, is_macos),
        is_macos && v.win ==> !text_allowed(v, is_macos),
{
}

} // verus!
