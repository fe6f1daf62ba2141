//! How window-system input events become egui input events: the decisions of the
//! input system, from plain event data to the egui events that a window's context receives.
//! Positions, deltas and forces stay with the caller, which fills them in from the source
//! event.
use vstd::prelude::*;
use crate::keys::{
    bevy_to_egui_key, bevy_to_egui_physical_key, logical_key_to_egui, physical_key_to_egui,
    EguiKey, LogicalKey, PhysicalKey,
};
use crate::modifiers::{after_frame, after_keys, modifiers_of, text_allowed, ModifierKeysState, ModifierKeysView, Modifiers};
use crate::contexts::{find_context, window_context, WindowContext};

verus! {

/// A mouse button of the window system.
#[derive(Clone, Copy, Debug, PartialEq, Eq, Hash)]
pub enum MouseButton {
    /// The left button.
    Left,
    /// The right button.
    Right,
    /// The middle button.
    Middle,
    /// The back button.
    Back,
    /// The forward button.
    Forward,
    /// Another button, by its number.
    Other(u16),
}

/// A pointer button as egui knows it.
#[derive(Clone, Copy, Debug, PartialEq, Eq, Hash)]
pub enum PointerButton {
    /// The primary (usually left) button.
    Primary,
    /// The secondary (usually right) button.
    Secondary,
    /// The middle button.
    Middle,
}

/// The unit in which the window system reports a scroll.
#[derive(Clone, Copy, Debug, PartialEq, Eq, Hash)]
pub enum MouseScrollUnit {
    /// Lines of text.
    Line,
    /// Pixels.
    Pixel,
}

/// The unit of an egui mouse wheel event.
#[derive(Clone, Copy, Debug, PartialEq, Eq, Hash)]
pub enum MouseWheelUnit {
    /// Lines of text.
    Line,
    /// Points.
    Point,
}

/// The phase of a touch, as the window system reports it.
#[derive(Clone, Copy, Debug, PartialEq, Eq, Hash)]
pub enum TouchPhase {
    /// A finger touched the screen.
    Started,
    /// A finger moved.
    Moved,
    /// A finger was lifted.
    Ended,
    /// The system cancelled the touch.
    Canceled,
}

/// The phase of an egui touch event.
#[derive(Clone, Copy, Debug, PartialEq, Eq, Hash)]
pub enum EguiTouchPhase {
    /// The touch started.
    Start,
    /// The touch moved.
    Move,
    /// The touch ended.
    End,
    /// The touch was cancelled.
    Cancel,
}

/// An egui input event, without the positions, deltas and forces that the caller takes
/// from the source event.
#[derive(Clone, Debug, PartialEq, Eq)]
pub enum EguiInputEvent {
    /// The pointer moved to the source event's position.
    PointerMoved,
    /// A pointer button changed state, at the pointer's position.
    PointerButton { button: PointerButton, pressed: bool, modifiers: Modifiers },
    /// The mouse wheel turned by the source event's delta.
    MouseWheel { unit: MouseWheelUnit, modifiers: Modifiers },
    /// Text was typed.
    Text(String),
    /// A key changed state.
    Key {
        key: EguiKey,
        pressed: bool,
        repeat: bool,
        modifiers: Modifiers,
        physical_key: Option<EguiKey>,
    },
    /// The copy shortcut.
    Copy,
    /// The cut shortcut.
    Cut,
    /// The paste shortcut: the caller reads the clipboard and hands its text on as a text
    /// event, or nothing when the clipboard gives nothing.
    PasteFromClipboard,
    /// A touch event, at the source event's position and force.
    Touch { id: u64, phase: EguiTouchPhase },
    /// The pointer left the window.
    PointerGone,
}

/// A keyboard event of the window system.
#[derive(Clone, Debug, PartialEq, Eq)]
pub struct KeyboardInput {
    /// The physical key.
    pub key_code: PhysicalKey,
    /// The logical key.
    pub logical_key: LogicalKey,
    /// Whether the key went down (`true`) or up.
    pub pressed: bool,
    /// The window that received the event, by its entity bits.
    pub window: u64,
}

/// The egui button for a mouse button.
pub open spec fn pointer_button_of(button: MouseButton) -> Option<PointerButton> {
    match button {
        MouseButton::Left => Some(PointerButton::Primary),
        MouseButton::Right => Some(PointerButton::Secondary),
        MouseButton::Middle => Some(PointerButton::Middle),
        _ => None,
    }
}

/// Maps a mouse button to egui's pointer button; the back, forward and other buttons have
/// none.
pub fn mouse_button_to_egui(button: MouseButton) -> (r: Option<PointerButton>)
    ensures
        r == pointer_button_of(button),
{
    match button {
        MouseButton::Left => Some(PointerButton::Primary),
        MouseButton::Right => Some(PointerButton::Secondary),
        MouseButton::Middle => Some(PointerButton::Middle),
        _ => None,
    }
}

/// The egui event for a mouse button event: a pointer button event at the pointer's
/// position for the three buttons that egui knows, nothing for the others.
pub fn mouse_button_event(button: MouseButton, pressed: bool, modifiers: Modifiers) -> (r: Option<EguiInputEvent>)
    ensures
        match pointer_button_of(button) {
            Some(b) => r == Some(EguiInputEvent::PointerButton { button: b, pressed, modifiers }),
            None => r is None,
        },
{
    match mouse_button_to_egui(button) {
        Some(b) => Some(EguiInputEvent::PointerButton { button: b, pressed, modifiers }),
        None => None,
    }
}

/// Maps a scroll unit to egui's wheel unit: lines stay lines, pixels become points.
pub fn scroll_unit_to_egui(unit: MouseScrollUnit) -> (r: MouseWheelUnit)
    ensures
        r == (match unit {
            MouseScrollUnit::Line => MouseWheelUnit::Line,
            MouseScrollUnit::Pixel => MouseWheelUnit::Point,
        }),
{
    match unit {
        MouseScrollUnit::Line => MouseWheelUnit::Line,
        MouseScrollUnit::Pixel => MouseWheelUnit::Point,
    }
}

/// The egui event for a mouse wheel event, whose delta the caller takes from the source.
pub fn mouse_wheel_event(unit: MouseScrollUnit, modifiers: Modifiers) -> (r: EguiInputEvent)
    ensures
        r == (EguiInputEvent::MouseWheel {
            unit: match unit {
                MouseScrollUnit::Line => MouseWheelUnit::Line,
                MouseScrollUnit::Pixel => MouseWheelUnit::Point,
            },
            modifiers,
        }),
{
    EguiInputEvent::MouseWheel { unit: scroll_unit_to_egui(unit), modifiers }
}

/// The egui phase for a touch phase.
pub open spec fn egui_touch_phase(phase: TouchPhase) -> EguiTouchPhase {
    match phase {
        TouchPhase::Started => EguiTouchPhase::Start,
        TouchPhase::Moved => EguiTouchPhase::Move,
        TouchPhase::Ended => EguiTouchPhase::End,
        TouchPhase::Canceled => EguiTouchPhase::Cancel,
    }
}

/// Maps a touch phase to egui's.
pub fn touch_phase_to_egui(phase: TouchPhase) -> (r: EguiTouchPhase)
    ensures
        r == egui_touch_phase(phase),
{
    match phase {
        TouchPhase::Started => EguiTouchPhase::Start,
        TouchPhase::Moved => EguiTouchPhase::Move,
        TouchPhase::Ended => EguiTouchPhase::End,
        TouchPhase::Canceled => EguiTouchPhase::Cancel,
    }
}

/// Unicode's control characters (general category Cc): U+0000 to U+001F and U+007F to U+009F.
pub open spec fn is_control_char(c: char) -> bool {
    (c as u32) <= 0x1f || (0x7f <= (c as u32) && (c as u32) <= 0x9f)
}

/// Calls std's `char::is_control`, which the standard library documents as true exactly
/// for the characters of Unicode's general category Cc.
#[verifier::external_body]
fn char_is_control(c: char) -> (r: bool)
    ensures
        r == is_control_char(c),
{
    c.is_control()
}

/// Whether a text holds no control character.
pub fn has_no_control_chars(s: &str) -> (r: bool)
    ensures
        r == (forall|i: int| 0 <= i < s@.len() ==> !is_control_char(#[trigger] s@[i])),
{
    let n = s.unicode_len();
    let mut i: usize = 0;
    while i < n
        invariant
            n == s@.len(),
            i <= n,
            forall|j: int| 0 <= j < i ==> !is_control_char(#[trigger] s@[j]),
        decreases n - i,
    {
        if char_is_control(s.get_char(i)) {
            return false;
        }
        i += 1;
    }
    true
}

/// The text event that a key press produces, if text is allowed at all: a character key's
/// text if it holds no control character, a space for the space bar, nothing otherwise.
pub open spec fn typed_text(key: LogicalKey) -> Option<Seq<char>> {
    match key {
        LogicalKey::Character(s) => if (forall|i: int| 0 <= i < s@.len() ==> !is_control_char(#[trigger] s@[i])) {
            Some(s@)
        } else {
            None
        },
        LogicalKey::Space => Some(seq![' ']),
        _ => None,
    }
}

/// The clipboard event that the command shortcut with a key produces.
pub open spec fn clipboard_shortcut(key: EguiKey) -> Option<EguiInputEvent> {
    match key {
        EguiKey::C => Some(EguiInputEvent::Copy),
        EguiKey::X => Some(EguiInputEvent::Cut),
        EguiKey::V => Some(EguiInputEvent::PasteFromClipboard),
        _ => None,
    }
}

/// `e` is a text event with the text `t`.
pub open spec fn is_text_event(e: EguiInputEvent, t: Seq<char>) -> bool {
    e matches EguiInputEvent::Text(s) && s@ == t
}

/// The egui events that a keyboard event produces in a window, given the modifier keys
/// held during the frame:
/// - a text event first, for a key press while text is allowed (see `text_allowed`), for a
///   character key without control characters or the space bar;
/// - then, if the logical key has an egui key, a key event that carries the physical key's
///   egui key too;
/// - then, where the integration handles clipboard shortcuts itself (`clipboard_shortcuts`:
///   not in a browser, whose page has clipboard events of its own, nor on Android), for a
///   key press while the command modifier is held, copy for C, cut for X and a paste from
///   the clipboard for V.
/// A key release never produces text, copy, cut or paste.
pub open spec fn keyboard_events_spec(ev: KeyboardInput, held: ModifierKeysView, is_macos: bool, clipboard_shortcuts: bool, r: Seq<EguiInputEvent>) -> bool {
    let modifiers = modifiers_of(held, is_macos);
    let text = if text_allowed(held, is_macos) && ev.pressed { typed_text(ev.logical_key) } else { None };
    let n_text: int = if text is Some { 1 } else { 0 };
    let key = logical_key_to_egui(ev.logical_key);
    let shortcut = match key {
        Some(k) => if clipboard_shortcuts && modifiers.command && ev.pressed { clipboard_shortcut(k) } else { None },
        None => None,
    };
    let n_key: int = if key is Some { 1 } else { 0 };
    let n_shortcut: int = if shortcut is Some { 1 } else { 0 };
    &&& r.len() == n_text + n_key + n_shortcut
    &&& text matches Some(t) ==> is_text_event(r[0], t)
    &&& key matches Some(k) ==> r[n_text] == EguiInputEvent::Key {
        key: k,
        pressed: ev.pressed,
        repeat: false,
        modifiers,
        physical_key: physical_key_to_egui(ev.key_code),
    }
    &&& shortcut matches Some(s) ==> r[n_text + n_key] == s
}

/// Turns a keyboard event of a window into egui events (see `keyboard_events_spec`).
pub fn keyboard_event_to_egui(event: &KeyboardInput, held: &ModifierKeysState, is_macos: bool, clipboard_shortcuts: bool) -> (r: Vec<EguiInputEvent>)
    ensures
        keyboard_events_spec(*event, held@, is_macos, clipboard_shortcuts, r@),
{
    let modifiers = held.modifiers(is_macos);
    let text_event_allowed = held.text_event_allowed(is_macos);
    let mut events: Vec<EguiInputEvent> = Vec::new();
    if text_event_allowed && event.pressed {
        match &event.logical_key {
            LogicalKey::Character(s) => {
                if has_no_control_chars(s.as_str()) {
                    events.push(EguiInputEvent::Text(s.clone()));
                }
            },
            LogicalKey::Space => {
                let space = " ".to_string();
                proof {
                    reveal_strlit(" ");
                    vstd::string::to_string_from_display_ensures_for_str(" ", space);
                    assert(space@ =~= seq![' ']);
                }
                events.push(EguiInputEvent::Text(space));
            },
            _ => {},
        }
    }
    let ghost n_text = events@.len();
    match bevy_to_egui_key(&event.logical_key) {
        Some(key) => {
            let physical_key = bevy_to_egui_physical_key(&event.key_code);
            events.push(EguiInputEvent::Key {
                key,
                pressed: event.pressed,
                repeat: false,
                modifiers,
                physical_key,
            });
            if clipboard_shortcuts && modifiers.command && event.pressed {
                match key {
                    EguiKey::C => events.push(EguiInputEvent::Copy),
                    EguiKey::X => events.push(EguiInputEvent::Cut),
                    EguiKey::V => events.push(EguiInputEvent::PasteFromClipboard),
                    _ => {},
                }
            }
        },
        None => {},
    }
    events
}

/// Whether a touch drives the pointer: when no touch does yet, or it is the touch that does.
pub open spec fn touch_drives_pointer(driver: Option<u64>, id: u64) -> bool {
    driver is None || driver == Some(id)
}

/// The pointer events with which a touch that drives the pointer emulates the mouse: a
/// start moves the pointer there and presses the primary button; a move moves the pointer;
/// an end releases the primary button and lets the pointer go; a cancel lets it go.
pub open spec fn emulated_pointer_events(phase: TouchPhase, modifiers: Modifiers) -> Seq<EguiInputEvent> {
    match phase {
        TouchPhase::Started => seq![
            EguiInputEvent::PointerMoved,
            EguiInputEvent::PointerButton { button: PointerButton::Primary, pressed: true, modifiers },
        ],
        TouchPhase::Moved => seq![EguiInputEvent::PointerMoved],
        TouchPhase::Ended => seq![
            EguiInputEvent::PointerButton { button: PointerButton::Primary, pressed: false, modifiers },
            EguiInputEvent::PointerGone,
        ],
        TouchPhase::Canceled => seq![EguiInputEvent::PointerGone],
    }
}

/// The touch that drives the pointer after a touch event: a driving touch that starts takes
/// the pointer, one that ends or is cancelled lets it go.
pub open spec fn driver_after_touch(driver: Option<u64>, id: u64, phase: TouchPhase) -> Option<u64> {
    if touch_drives_pointer(driver, id) {
        match phase {
            TouchPhase::Started => Some(id),
            TouchPhase::Moved => driver,
            TouchPhase::Ended | TouchPhase::Canceled => None,
        }
    } else {
        driver
    }
}

/// The egui events of a touch event: the touch itself, then the pointer events that emulate
/// the mouse if the touch drives the pointer.
pub open spec fn touch_events(driver: Option<u64>, id: u64, phase: TouchPhase, modifiers: Modifiers) -> Seq<EguiInputEvent> {
    seq![EguiInputEvent::Touch { id, phase: egui_touch_phase(phase) }] + if touch_drives_pointer(driver, id) {
        emulated_pointer_events(phase, modifiers)
    } else {
        Seq::empty()
    }
}

/// Turns a touch event of a window into egui events, and updates the touch that drives the window's
/// pointer (see `touch_events` and `driver_after_touch`).
pub fn touch_event_to_egui(pointer_touch_id: &mut Option<u64>, id: u64, phase: TouchPhase, modifiers: Modifiers) -> (r: Vec<EguiInputEvent>)
    ensures
        r@ == touch_events(*old(pointer_touch_id), id, phase, modifiers),
        *final(pointer_touch_id) == driver_after_touch(*old(pointer_touch_id), id, phase),
{
    let mut events: Vec<EguiInputEvent> = Vec::new();
    events.push(EguiInputEvent::Touch { id, phase: touch_phase_to_egui(phase) });
    let drives = match *pointer_touch_id {
        None => true,
        Some(t) => t == id,
    };
    if drives {
        match phase {
            TouchPhase::Started => {
                *pointer_touch_id = Some(id);
                events.push(EguiInputEvent::PointerMoved);
                events.push(EguiInputEvent::PointerButton { button: PointerButton::Primary, pressed: true, modifiers });
            },
            TouchPhase::Moved => {
                events.push(EguiInputEvent::PointerMoved);
            },
            TouchPhase::Ended => {
                *pointer_touch_id = None;
                events.push(EguiInputEvent::PointerButton { button: PointerButton::Primary, pressed: false, modifiers });
                events.push(EguiInputEvent::PointerGone);
            },
            TouchPhase::Canceled => {
                *pointer_touch_id = None;
                events.push(EguiInputEvent::PointerGone);
            },
        }
    }
    proof {
        assert(events@ =~= touch_events(*old(pointer_touch_id), id, phase, modifiers));
    }
    events
}

/// Law: a key release produces no text, copy, cut or paste: at most the key event itself.
pub proof fn law_release_is_only_a_key_event(ev: KeyboardInput, held: ModifierKeysView, is_macos: bool, clipboard_shortcuts: bool, r: Seq<EguiInputEvent>)
    requires
        keyboard_events_spec(ev, held, is_macos, clipboard_shortcuts, r),
        !ev.pressed,
    ensures
        r.len() <= 1,
        forall|i: int| 0 <= i < r.len() ==> (#[trigger] r[i] matches EguiInputEvent::Key { pressed, .. } && !pressed),
{
}

/// Law: where the integration handles clipboard shortcuts, with the command modifier held,
/// pressing the key that egui knows as C, X or V produces copy, cut or a paste from the
/// clipboard, right after the key event; where it does not, no keyboard event produces
/// copy, cut or paste.
pub proof fn law_clipboard_shortcuts(ev: KeyboardInput, held: ModifierKeysView, is_macos: bool, clipboard_shortcuts: bool, r: Seq<EguiInputEvent>)
    requires
        keyboard_events_spec(ev, held, is_macos, clipboard_shortcuts, r),
    ensures
        clipboard_shortcuts && ev.pressed && modifiers_of(held, is_macos).command ==> {
            &&& logical_key_to_egui(ev.logical_key) == Some(EguiKey::C) ==> r.last() == EguiInputEvent::Copy
            &&& logical_key_to_egui(ev.logical_key) == Some(EguiKey::X) ==> r.last() == EguiInputEvent::Cut
            &&& logical_key_to_egui(ev.logical_key) == Some(EguiKey::V) ==> r.last() == EguiInputEvent::PasteFromClipboard
        },
        !clipboard_shortcuts ==> forall|i: int| 0 <= i < r.len() ==> !(#[trigger] r[i] is Copy || r[i] is Cut || r[i] is PasteFromClipboard),
{
}

/// Law: while one touch drives the pointer, another touch produces only its touch event
/// and leaves the pointer to the first.
pub proof fn law_second_touch_leaves_pointer(driver: u64, id: u64, phase: TouchPhase, modifiers: Modifiers)
    requires
        driver != id,
    ensures
        touch_events(Some(driver), id, phase, modifiers) =~= seq![EguiInputEvent::Touch { id, phase: egui_touch_phase(phase) }],
        driver_after_touch(Some(driver), id, phase) == Some(driver),
{
}

/// Law: when the touch that drives the pointer ends or is cancelled, no touch drives it and
/// the pointer is let go; a new touch then takes the pointer when it starts.
pub proof fn law_touch_release_frees_pointer(driver: Option<u64>, id: u64, other: u64, modifiers: Modifiers)
    requires
        touch_drives_pointer(driver, id),
    ensures
        driver_after_touch(driver, id, TouchPhase::Ended) is None,
        driver_after_touch(driver, id, TouchPhase::Canceled) is None,
        touch_events(driver, id, TouchPhase::Ended, modifiers).last() == EguiInputEvent::PointerGone,
        touch_events(driver, id, TouchPhase::Canceled, modifiers).last() == EguiInputEvent::PointerGone,
        driver_after_touch(None, other, TouchPhase::Started) == Some(other),
{
}

/// Law: a touch emulates the mouse as a finger would drive it. Every touch event first
/// reports the touch itself in egui's matching phase. While it drives the pointer, a touch
/// that starts moves the pointer and presses the primary button, one that moves produces
/// exactly one pointer move, and one that ends releases the button; the pointer is let go
/// only when the driving touch ends or is cancelled, and is kept while it moves. A touch
/// that does not drive the pointer produces nothing but its touch event.
pub proof fn law_touch_emulates_pointer(driver: Option<u64>, id: u64, phase: TouchPhase, modifiers: Modifiers)
    ensures
        ({
            let r = touch_events(driver, id, phase, modifiers);
            &&& r.len() >= 1
            &&& r[0] == EguiInputEvent::Touch {
                id,
                phase: match phase {
                    TouchPhase::Started => EguiTouchPhase::Start,
                    TouchPhase::Moved => EguiTouchPhase::Move,
                    TouchPhase::Ended => EguiTouchPhase::End,
                    TouchPhase::Canceled => EguiTouchPhase::Cancel,
                },
            }
            &&& !touch_drives_pointer(driver, id) ==> r.len() == 1 && driver_after_touch(driver, id, phase) == driver
            &&& touch_drives_pointer(driver, id) && phase is Moved ==>
                r == seq![r[0], EguiInputEvent::PointerMoved] && driver_after_touch(driver, id, phase) == driver
            &&& touch_drives_pointer(driver, id) && phase is Started ==> r == seq![
                r[0],
                EguiInputEvent::PointerMoved,
                EguiInputEvent::PointerButton { button: PointerButton::Primary, pressed: true, modifiers },
            ] && driver_after_touch(driver, id, phase) == Some(id)
            &&& touch_drives_pointer(driver, id) && phase is Ended ==> r == seq![
                r[0],
                EguiInputEvent::PointerButton { button: PointerButton::Primary, pressed: false, modifiers },
                EguiInputEvent::PointerGone,
            ]
            &&& r.contains(EguiInputEvent::PointerGone) <==> touch_drives_pointer(driver, id) && (phase is Ended || phase is Canceled)
        }),
{
    let r = touch_events(driver, id, phase, modifiers);
    if r.contains(EguiInputEvent::PointerGone) {
        let k = choose|k: int| 0 <= k < r.len() && r[k] == EguiInputEvent::PointerGone;
        assert(k != 0);
    }
    if touch_drives_pointer(driver, id) && (phase is Ended || phase is Canceled) {
        assert(r[r.len() - 1] == EguiInputEvent::PointerGone);
    }
}

/// A mouse button event of the window system.
#[derive(Clone, Copy, Debug, PartialEq, Eq)]
pub struct MouseButtonInput {
    /// The window, by its entity bits.
    pub window: u64,
    /// The button.
    pub button: MouseButton,
    /// Whether the button went down.
    pub pressed: bool,
}

/// A mouse wheel event of the window system; the caller keeps its delta.
#[derive(Clone, Copy, Debug, PartialEq, Eq)]
pub struct MouseWheelInput {
    /// The window, by its entity bits.
    pub window: u64,
    /// The unit of the delta.
    pub unit: MouseScrollUnit,
}

/// A touch event of the window system; the caller keeps its position and force.
#[derive(Clone, Copy, Debug, PartialEq, Eq)]
pub struct TouchInput {
    /// The window, by its entity bits.
    pub window: u64,
    /// The finger's id.
    pub id: u64,
    /// The phase.
    pub phase: TouchPhase,
}

/// A frame's input events of the window system, by kind, each kind in the order received.
#[derive(Clone, Debug, PartialEq, Eq)]
pub struct InputFrame {
    /// The windows in which the cursor moved, one per event.
    pub cursor_moved: Vec<u64>,
    /// The mouse button events.
    pub mouse_buttons: Vec<MouseButtonInput>,
    /// The mouse wheel events.
    pub mouse_wheel: Vec<MouseWheelInput>,
    /// The keyboard events.
    pub keyboard: Vec<KeyboardInput>,
    /// The touch events.
    pub touches: Vec<TouchInput>,
    /// Whether a window lost keyboard focus during the frame.
    pub focus_lost: bool,
}

/// Where a frame's input goes: for each source event, the context (by position) that gets
/// it and its egui events, or nothing if the event's window has no context. The caller
/// hands the events on kind by kind, in this order, and fills in positions from the source
/// events; the cursor's position also becomes the context's pointer position.
#[derive(Clone, Debug, PartialEq, Eq)]
pub struct InputFrameOutput {
    /// The modifiers that every event of the frame carries.
    pub modifiers: Modifiers,
    /// The context of each cursor event; it gets a pointer move.
    pub cursor_moved: Vec<Option<usize>>,
    /// The context and event of each mouse button event.
    pub mouse_buttons: Vec<Option<(usize, EguiInputEvent)>>,
    /// The context and event of each mouse wheel event.
    pub mouse_wheel: Vec<Option<(usize, EguiInputEvent)>>,
    /// The context and events of each keyboard event.
    pub keyboard: Vec<Option<(usize, Vec<EguiInputEvent>)>>,
    /// The context and events of each touch event.
    pub touches: Vec<Option<(usize, Vec<EguiInputEvent>)>>,
}

/// The logical key and pressed state of each keyboard event.
pub open spec fn key_states(keyboard: Seq<KeyboardInput>) -> Seq<(LogicalKey, bool)> {
    keyboard.map_values(|e: KeyboardInput| (e.logical_key, e.pressed))
}

/// The routing of a frame's touch events, event by event: each touch goes to its window's
/// context, which emulates the mouse with it as `touch_events` says and keeps track of the
/// touch that drives its pointer.
pub open spec fn touches_fold(
    drivers: Seq<Option<u64>>,
    touches: Seq<TouchInput>,
    contexts: Seq<WindowContext>,
    modifiers: Modifiers,
) -> (Seq<Option<u64>>, Seq<Option<(usize, Seq<EguiInputEvent>)>>)
    decreases touches.len(),
{
    if touches.len() == 0 {
        (drivers, seq![])
    } else {
        let (ids, out) = touches_fold(drivers, touches.drop_last(), contexts, modifiers);
        let t = touches.last();
        match find_context(contexts, t.window) {
            None => (ids, out.push(None)),
            Some(c) => (
                ids.update(c as int, driver_after_touch(ids[c as int], t.id, t.phase)),
                out.push(Some((c, touch_events(ids[c as int], t.id, t.phase, modifiers)))),
            ),
        }
    }
}

/// The events of routed touches, as sequences.
pub open spec fn routed_view(out: Seq<Option<(usize, Vec<EguiInputEvent>)>>) -> Seq<Option<(usize, Seq<EguiInputEvent>)>> {
    out.map_values(|o: Option<(usize, Vec<EguiInputEvent>)>| match o {
        Some((c, v)) => Some((c, v@)),
        None => None,
    })
}

/// What a frame's input does (see `InputFrameOutput`): the modifier keys take the frame's
/// keyboard events and are released if focus was lost; every event then carries the
/// resulting modifiers. A cursor event moves its context's pointer; a button event of a
/// button that egui knows, and every wheel event, goes to its context; a keyboard event
/// goes to its context as `keyboard_events_spec` says; touches are routed as
/// `touches_fold` says.
pub open spec fn input_frame_spec(
    frame: InputFrame,
    old_held: ModifierKeysView,
    new_held: ModifierKeysView,
    is_macos: bool,
    clipboard_shortcuts: bool,
    contexts: Seq<WindowContext>,
    old_drivers: Seq<Option<u64>>,
    new_drivers: Seq<Option<u64>>,
    out: InputFrameOutput,
) -> bool {
    let modifiers = modifiers_of(new_held, is_macos);
    &&& new_held == after_frame(old_held, key_states(frame.keyboard@), frame.focus_lost)
    &&& out.modifiers == modifiers
    &&& out.cursor_moved@.len() == frame.cursor_moved@.len()
    &&& forall|i: int| 0 <= i < frame.cursor_moved@.len() ==> #[trigger] out.cursor_moved@[i] == find_context(contexts, frame.cursor_moved@[i])
    &&& out.mouse_buttons@.len() == frame.mouse_buttons@.len()
    &&& forall|i: int| 0 <= i < frame.mouse_buttons@.len() ==> {
        let b = frame.mouse_buttons@[i];
        #[trigger] out.mouse_buttons@[i] == match find_context(contexts, b.window) {
            None => None,
            Some(c) => match pointer_button_of(b.button) {
                Some(pb) => Some((c, EguiInputEvent::PointerButton { button: pb, pressed: b.pressed, modifiers })),
                None => None,
            },
        }
    }
    &&& out.mouse_wheel@.len() == frame.mouse_wheel@.len()
    &&& forall|i: int| 0 <= i < frame.mouse_wheel@.len() ==> {
        let w = frame.mouse_wheel@[i];
        #[trigger] out.mouse_wheel@[i] == match find_context(contexts, w.window) {
            None => None,
            Some(c) => Some((c, EguiInputEvent::MouseWheel {
                unit: match w.unit {
                    MouseScrollUnit::Line => MouseWheelUnit::Line,
                    MouseScrollUnit::Pixel => MouseWheelUnit::Point,
                },
                modifiers,
            })),
        }
    }
    &&& out.keyboard@.len() == frame.keyboard@.len()
    &&& forall|i: int| 0 <= i < frame.keyboard@.len() ==> {
        let ev = frame.keyboard@[i];
        match #[trigger] out.keyboard@[i] {
            None => find_context(contexts, ev.window) is None,
            Some((c, v)) => find_context(contexts, ev.window) == Some(c) && keyboard_events_spec(ev, new_held, is_macos, clipboard_shortcuts, v@),
        }
    }
    &&& (new_drivers, routed_view(out.touches@)) == touches_fold(old_drivers, frame.touches@, contexts, modifiers)
}

/// Processes a frame's input for the windows' contexts (see `input_frame_spec`);
/// `clipboard_shortcuts` says whether the platform's clipboard shortcuts are handled here
/// (see `keyboard_events_spec`). The modifier state and the touch that drives each context's pointer carry over to the next
/// frame.
pub fn process_input_frame(
    frame: &InputFrame,
    held: &mut ModifierKeysState,
    is_macos: bool,
    clipboard_shortcuts: bool,
    contexts: &Vec<WindowContext>,
    pointer_touch_ids: &mut Vec<Option<u64>>,
) -> (out: InputFrameOutput)
    requires
        old(pointer_touch_ids)@.len() == contexts@.len(),
    ensures
        final(pointer_touch_ids)@.len() == contexts@.len(),
        input_frame_spec(*frame, old(held)@, final(held)@, is_macos, clipboard_shortcuts, contexts@, old(pointer_touch_ids)@, final(pointer_touch_ids)@, out),
{
    // The modifier keys first take all of the frame's keyboard events.
    held.apply_frame(&frame.keyboard, frame.focus_lost);
    let modifiers = held.modifiers(is_macos);

    let mut cursor_moved: Vec<Option<usize>> = Vec::new();
    let mut i: usize = 0;
    while i < frame.cursor_moved.len()
        invariant
            i <= frame.cursor_moved@.len(),
            cursor_moved@.len() == i,
            forall|j: int| 0 <= j < i ==> #[trigger] cursor_moved@[j] == find_context(contexts@, frame.cursor_moved@[j]),
        decreases frame.cursor_moved@.len() - i,
    {
        cursor_moved.push(window_context(contexts, frame.cursor_moved[i]));
        i += 1;
    }

    let mut mouse_buttons: Vec<Option<(usize, EguiInputEvent)>> = Vec::new();
    let mut i: usize = 0;
    while i < frame.mouse_buttons.len()
        invariant
            i <= frame.mouse_buttons@.len(),
            mouse_buttons@.len() == i,
            forall|j: int| 0 <= j < i ==> {
                let b = frame.mouse_buttons@[j];
                #[trigger] mouse_buttons@[j] == match find_context(contexts@, b.window) {
                    None => None,
                    Some(c) => match pointer_button_of(b.button) {
                        Some(pb) => Some((c, EguiInputEvent::PointerButton { button: pb, pressed: b.pressed, modifiers })),
                        None => None,
                    },
                }
            },
        decreases frame.mouse_buttons@.len() - i,
    {
        let b = frame.mouse_buttons[i];
        let routed = match window_context(contexts, b.window) {
            None => None,
            Some(c) => match mouse_button_event(b.button, b.pressed, modifiers) {
                Some(ev) => Some((c, ev)),
                None => None,
            },
        };
        mouse_buttons.push(routed);
        i += 1;
    }

    let mut mouse_wheel: Vec<Option<(usize, EguiInputEvent)>> = Vec::new();
    let mut i: usize = 0;
    while i < frame.mouse_wheel.len()
        invariant
            i <= frame.mouse_wheel@.len(),
            mouse_wheel@.len() == i,
            forall|j: int| 0 <= j < i ==> {
                let w = frame.mouse_wheel@[j];
                #[trigger] mouse_wheel@[j] == match find_context(contexts@, w.window) {
                    None => None,
                    Some(c) => Some((c, EguiInputEvent::MouseWheel {
                        unit: match w.unit {
                            MouseScrollUnit::Line => MouseWheelUnit::Line,
                            MouseScrollUnit::Pixel => MouseWheelUnit::Point,
                        },
                        modifiers,
                    })),
                }
            },
        decreases frame.mouse_wheel@.len() - i,
    {
        let w = frame.mouse_wheel[i];
        let routed = match window_context(contexts, w.window) {
            None => None,
            Some(c) => Some((c, mouse_wheel_event(w.unit, modifiers))),
        };
        mouse_wheel.push(routed);
        i += 1;
    }

    let mut keyboard: Vec<Option<(usize, Vec<EguiInputEvent>)>> = Vec::new();
    let mut i: usize = 0;
    while i < frame.keyboard.len()
        invariant
            i <= frame.keyboard@.len(),
            keyboard@.len() == i,
            forall|j: int| 0 <= j < i ==> {
                let ev = frame.keyboard@[j];
                match #[trigger] keyboard@[j] {
                    None => find_context(contexts@, ev.window) is None,
                    Some((c, v)) => find_context(contexts@, ev.window) == Some(c) && keyboard_events_spec(ev, held@, is_macos, clipboard_shortcuts, v@),
                }
            },
        decreases frame.keyboard@.len() - i,
    {
        let routed = match window_context(contexts, frame.keyboard[i].window) {
            None => None,
            Some(c) => Some((c, keyboard_event_to_egui(&frame.keyboard[i], held, is_macos, clipboard_shortcuts))),
        };
        keyboard.push(routed);
        i += 1;
    }

    let mut touches: Vec<Option<(usize, Vec<EguiInputEvent>)>> = Vec::new();
    let mut i: usize = 0;
    while i < frame.touches.len()
        invariant
            i <= frame.touches@.len(),
            pointer_touch_ids@.len() == contexts@.len(),
            (pointer_touch_ids@, routed_view(touches@)) == touches_fold(old(pointer_touch_ids)@, frame.touches@.take(i as int), contexts@, modifiers),
        decreases frame.touches@.len() - i,
    {
        let t = frame.touches[i];
        let ghost prefix = frame.touches@.take(i as int);
        let ghost next = frame.touches@.take(i + 1);
        proof {
            assert(next.drop_last() =~= prefix);
            assert(next.last() == t);
        }
        let routed = match window_context(contexts, t.window) {
            None => None,
            Some(c) => {
                let mut driver = pointer_touch_ids[c];
                let events = touch_event_to_egui(&mut driver, t.id, t.phase, modifiers);
                pointer_touch_ids.set(c, driver);
                Some((c, events))
            },
        };
        let ghost before = touches@;
        touches.push(routed);
        proof {
            assert(routed_view(touches@) =~= routed_view(before).push(match routed {
                Some((c, v)) => Some((c, v@)),
                None => None,
            }));
        }
        i += 1;
    }
    proof {
        assert(frame.touches@.take(frame.touches@.len() as int) =~= frame.touches@);
    }
    InputFrameOutput { modifiers, cursor_moved, mouse_buttons, mouse_wheel, keyboard, touches }
}

} // verus!
