//! The decisions of the web platform support: which browsers count as mobile, what the
//! hidden text input (the text agent) does with its events, and how events that browser
//! callbacks send over channels reach egui.
use vstd::prelude::*;
use crate::input::EguiInputEvent;
use crate::keys::EguiKey;
use crate::modifiers::Modifiers;
use vstd::utf8::encode_utf8;

verus! {

/// Whether `pattern` occurs in `s` as a run of consecutive characters.
pub open spec fn contains_seq(s: Seq<char>, pattern: Seq<char>) -> bool {
    exists|i: int| 0 <= i && i + pattern.len() <= s.len() && #[trigger] s.subrange(i, i + pattern.len()) == pattern
}

/// Calls std's `str::contains` with a string pattern, documented as true exactly when the
/// pattern matches a sub-slice of the string.
#[verifier::external_body]
fn str_contains(s: &str, pattern: &str) -> (r: bool)
    ensures
        r == contains_seq(s@, pattern@),
{
    s.contains(pattern)
}

/// Whether a browser's user agent names a mobile device: Android, iPhone, iPad, iPod, webOS
/// or BlackBerry.
pub open spec fn is_mobile_user_agent_spec(user_agent: Seq<char>) -> bool {
    contains_seq(user_agent, "Android"@) || contains_seq(user_agent, "iPhone"@) || contains_seq(user_agent, "iPad"@)
        || contains_seq(user_agent, "iPod"@) || contains_seq(user_agent, "webOS"@) || contains_seq(user_agent, "BlackBerry"@)
}

/// Whether a browser's user agent names a mobile device (see `is_mobile_user_agent_spec`).
pub fn is_mobile_user_agent(user_agent: &str) -> (r: bool)
    ensures
        r == is_mobile_user_agent_spec(user_agent@),
{
    str_contains(user_agent, "Android") || str_contains(user_agent, "iPhone") || str_contains(user_agent, "iPad")
        || str_contains(user_agent, "iPod") || str_contains(user_agent, "webOS") || str_contains(user_agent, "BlackBerry")
}

/// Whether a browser's user agent is Safari on an iPhone, iPad or iPod.
pub open spec fn is_mobile_safari_user_agent_spec(user_agent: Seq<char>) -> bool {
    (contains_seq(user_agent, "iPhone"@) || contains_seq(user_agent, "iPad"@) || contains_seq(user_agent, "iPod"@))
        && contains_seq(user_agent, "Safari"@)
}

/// Whether a browser's user agent is mobile Safari (see `is_mobile_safari_user_agent_spec`).
pub fn is_mobile_safari_user_agent(user_agent: &str) -> (r: bool)
    ensures
        r == is_mobile_safari_user_agent_spec(user_agent@),
{
    let is_ios = str_contains(user_agent, "iPhone") || str_contains(user_agent, "iPad") || str_contains(user_agent, "iPod");
    let is_safari = str_contains(user_agent, "Safari");
    is_ios && is_safari
}

/// What the text agent does with its text after an input event.
#[derive(Clone, Debug, PartialEq, Eq)]
pub struct TextAgentInput {
    /// The agent's text is cleared.
    pub clear: bool,
    /// The agent is blurred and focused again, and this text goes to egui as a text event.
    pub send: Option<String>,
}

/// Handles an input event of the text agent on a mobile device: text that is not empty is
/// cleared from the agent, and a single byte of it is also sent to egui (with a blur and a
/// focus, which keeps the virtual keyboard open).
pub fn text_agent_input(text: &str) -> (r: TextAgentInput)
    ensures
        r.clear == (text@.len() > 0),
        r.send is Some <==> encode_utf8(text@).len() == 1,
        r.send matches Some(s) ==> s@ == text@,
{
    if !text.is_empty() {
        if text.as_bytes().len() == 1 {
            TextAgentInput { clear: true, send: Some(text.to_owned()) }
        } else {
            TextAgentInput { clear: true, send: None }
        }
    } else {
        proof {
            assert(encode_utf8(text@).len() == 0);
        }
        TextAgentInput { clear: false, send: None }
    }
}

/// The backspace key event that the text agent sends egui, with no modifiers.
pub open spec fn agent_backspace(pressed: bool) -> EguiInputEvent {
    EguiInputEvent::Key {
        key: EguiKey::Backspace,
        pressed,
        repeat: false,
        modifiers: Modifiers { alt: false, ctrl: false, shift: false, mac_cmd: false, command: false },
        physical_key: None,
    }
}

/// The key code that browsers report for key events during an IME composition.
pub const IME_KEY_CODE: u32 = 229;

/// Calls std's `==` on two strings, documented as comparing their characters.
#[verifier::external_body]
fn str_eq(a: &str, b: &str) -> (r: bool)
    ensures
        r == (a@ == b@),
{
    a == b
}

/// Handles a key going down while the text agent is used: nothing during an IME
/// composition; a pressed backspace for the backspace key; nothing for other keys.
pub fn text_agent_keydown(is_composing: bool, key_code: u32, key: &str) -> (r: Option<EguiInputEvent>)
    ensures
        r == (if is_composing || key_code == IME_KEY_CODE || key@ != "Backspace"@ { None } else { Some(agent_backspace(true)) }),
{
    if is_composing || key_code == IME_KEY_CODE {
        return None;
    }
    if str_eq("Backspace", key) {
        Some(EguiInputEvent::Key { key: EguiKey::Backspace, pressed: true, repeat: false, modifiers: Modifiers::none(), physical_key: None })
    } else {
        None
    }
}

/// Handles a key going up while the text agent is used (the agent is focused again in
/// any case): a released backspace for the backspace key, nothing for other keys.
pub fn text_agent_keyup(key: &str) -> (r: Option<EguiInputEvent>)
    ensures
        r == (if key@ == "Backspace"@ { Some(agent_backspace(false)) } else { None }),
{
    if str_eq("Backspace", key) {
        Some(EguiInputEvent::Key { key: EguiKey::Backspace, pressed: false, repeat: false, modifiers: Modifiers::none(), physical_key: None })
    } else {
        None
    }
}

/// What the text agent does to the virtual keyboard.
#[derive(Clone, Copy, Debug, PartialEq, Eq)]
pub enum TextAgentUpdate {
    /// Show and focus the agent, which opens the keyboard.
    OpenKeyboard,
    /// Blur and hide the agent, which closes the keyboard.
    CloseKeyboard,
    /// Leave the agent as it is.
    Keep,
}

/// Toggles the virtual keyboard: open it while egui edits text, close it when egui stops
/// and it is open, else leave it.
pub fn update_text_agent(editing_text: bool, keyboard_open: bool) -> (r: TextAgentUpdate)
    ensures
        r == (if editing_text {
            TextAgentUpdate::OpenKeyboard
        } else if keyboard_open {
            TextAgentUpdate::CloseKeyboard
        } else {
            TextAgentUpdate::Keep
        }),
{
    if editing_text {
        TextAgentUpdate::OpenKeyboard
    } else if keyboard_open {
        TextAgentUpdate::CloseKeyboard
    } else {
        TextAgentUpdate::Keep
    }
}

/// Whether egui edits text: an IME is active or the text under the cursor can be edited.
pub fn editing_text(ime_active: bool, mutable_text_under_cursor: bool) -> (r: bool)
    ensures
        r == (ime_active || mutable_text_under_cursor),
{
    ime_active || mutable_text_under_cursor
}

#[verifier::external_type_specification]
#[verifier::external_body]
#[verifier::reject_recursive_types(T)]
pub struct ExReceiver<T>(crossbeam_channel::Receiver<T>);

/// Calls crossbeam's `Receiver::try_recv`, which takes a message out of the channel
/// without waiting. The contract states nothing of the result: what the channel holds
/// depends on what other callbacks sent and when.
#[verifier::external_body]
fn receiver_try_recv<T>(rx: &crossbeam_channel::Receiver<T>) -> (r: Option<T>) {
    rx.try_recv().ok()
}

/// Calls crossbeam's `Receiver::try_iter` and collects what it yields: every message that
/// the channel holds now, without waiting. The contract states nothing of the result: what
/// the channel holds depends on what other callbacks sent and when.
#[verifier::external_body]
fn receiver_drain<T>(rx: &crossbeam_channel::Receiver<T>) -> (r: Vec<T>) {
    rx.try_iter().collect()
}

/// The receiving end of a channel from a browser callback, if the callback was installed.
#[verifier::reject_recursive_types(T)]
pub struct WebChannel<T> {
    rx: Option<crossbeam_channel::Receiver<T>>,
}

impl<T> WebChannel<T> {
    /// A channel whose callback is not installed.
    pub fn disconnected() -> (r: WebChannel<T>)
        ensures
            !r.is_connected(),
    {
        WebChannel { rx: None }
    }

    /// A channel that receives from the given receiver.
    pub fn new(rx: crossbeam_channel::Receiver<T>) -> (r: WebChannel<T>)
        ensures
            r.is_connected(),
    {
        WebChannel { rx: Some(rx) }
    }

    /// Whether the callback was installed.
    pub closed spec fn is_connected(&self) -> bool {
        self.rx is Some
    }

    /// Takes the next event that the user triggered, if there is one; a channel whose
    /// callback is not installed never has one. To be called each frame.
    pub fn try_read_clipboard_event(&mut self) -> (r: Option<T>)
        ensures
            !old(self).is_connected() ==> r is None,
            final(self).is_connected() == old(self).is_connected(),
    {
        match &self.rx {
            Some(rx) => receiver_try_recv(rx),
            None => None,
        }
    }
}

/// The channel of the page's paste events, which carry the pasted text.
pub type WebClipboardPaste = WebChannel<String>;

/// The first context, by position, that has keyboard focus.
pub open spec fn first_focused(focused: Seq<bool>, i: int) -> bool {
    0 <= i < focused.len() && focused[i] && forall|j: int| 0 <= j < i ==> !focused[j]
}

/// The first context, by position, that has keyboard focus, if one has.
pub fn first_focused_context(focused: &Vec<bool>) -> (r: Option<usize>)
    ensures
        r is None <==> forall|j: int| 0 <= j < focused@.len() ==> !focused@[j],
        r matches Some(i) ==> first_focused(focused@, i as int),
{
    let mut i: usize = 0;
    while i < focused.len()
        invariant
            i <= focused@.len(),
            forall|j: int| 0 <= j < i ==> !focused@[j],
        decreases focused@.len() - i,
    {
        if focused[i] {
            return Some(i);
        }
        i += 1;
    }
    None
}

/// Hands the events taken out of the text agent's channel to a context: the context gets
/// all of them, in the order the channel gave them, and the frame asks for a redraw
/// exactly when there was one.
pub fn deliver_text_events(context: usize, events: Vec<EguiInputEvent>) -> (r: (usize, Vec<EguiInputEvent>, bool))
    ensures
        r.0 == context,
        r.1@ == events@,
        r.2 == (events@.len() > 0),
{
    let redraw = events.len() > 0;
    (context, events, redraw)
}

/// Hands the text agent's events to the first context with keyboard focus: if there is
/// one, everything the channel holds is taken out for it (see `deliver_text_events`), and
/// the frame asks for a redraw exactly when something was taken; if no context has focus,
/// the channel is not touched.
pub fn propagate_text(focused: &Vec<bool>, rx: &crossbeam_channel::Receiver<EguiInputEvent>) -> (r: Option<(usize, Vec<EguiInputEvent>, bool)>)
    ensures
        r is None <==> forall|j: int| 0 <= j < focused@.len() ==> !focused@[j],
        r matches Some((i, events, redraw)) ==> first_focused(focused@, i as int) && redraw == (events@.len() > 0),
{
    match first_focused_context(focused) {
        Some(i) => Some(deliver_text_events(i, receiver_drain(rx))),
        None => None,
    }
}

/// Law: a user agent that is mobile Safari is a mobile one.
pub proof fn law_mobile_safari_is_mobile(user_agent: Seq<char>)
    ensures
        is_mobile_safari_user_agent_spec(user_agent) ==> is_mobile_user_agent_spec(user_agent),
{
}

} // verus!
