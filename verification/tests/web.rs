use bevy_egui::input::EguiInputEvent;
use bevy_egui::keys::EguiKey;
use bevy_egui::web::{
    editing_text, is_mobile_safari_user_agent, is_mobile_user_agent, propagate_text,
    text_agent_input, text_agent_keydown, text_agent_keyup, update_text_agent, TextAgentUpdate,
    WebChannel, IME_KEY_CODE,
};

const IPHONE_SAFARI: &str = "Mozilla/5.0 (iPhone; CPU iPhone OS 17_0 like Mac OS X) AppleWebKit/605.1.15 (KHTML, like Gecko) Version/17.0 Mobile/15E148 Safari/604.1";
const DESKTOP_CHROME: &str = "Mozilla/5.0 (X11; Linux x86_64) AppleWebKit/537.36 (KHTML, like Gecko) Chrome/120.0 Safari/537.36";
const ANDROID_CHROME: &str = "Mozilla/5.0 (Linux; Android 14) AppleWebKit/537.36 (KHTML, like Gecko) Chrome/120.0 Mobile Safari/537.36";

#[test]
fn user_agents() {
    assert!(is_mobile_user_agent(IPHONE_SAFARI));
    assert!(is_mobile_safari_user_agent(IPHONE_SAFARI));
    assert!(!is_mobile_user_agent(DESKTOP_CHROME));
    assert!(!is_mobile_safari_user_agent(DESKTOP_CHROME));
    assert!(is_mobile_user_agent(ANDROID_CHROME));
    assert!(!is_mobile_safari_user_agent(ANDROID_CHROME));
}

#[test]
fn text_agent_input_sends_single_bytes() {
    let one = text_agent_input("a");
    assert!(one.clear);
    assert_eq!(one.send, Some("a".to_string()));
    let many = text_agent_input("ab");
    assert!(many.clear);
    assert_eq!(many.send, None);
    let wide = text_agent_input("é");
    assert!(wide.clear);
    assert_eq!(wide.send, None);
    let none = text_agent_input("");
    assert!(!none.clear);
    assert_eq!(none.send, None);
}

#[test]
fn text_agent_keys() {
    let down = text_agent_keydown(false, 8, "Backspace");
    assert!(matches!(down, Some(EguiInputEvent::Key { key: EguiKey::Backspace, pressed: true, physical_key: None, .. })));
    assert_eq!(text_agent_keydown(true, 8, "Backspace"), None);
    assert_eq!(text_agent_keydown(false, IME_KEY_CODE, "Backspace"), None);
    assert_eq!(text_agent_keydown(false, 65, "a"), None);
    assert!(matches!(text_agent_keyup("Backspace"), Some(EguiInputEvent::Key { pressed: false, .. })));
    assert_eq!(text_agent_keyup("Enter"), None);
}

#[test]
fn virtual_keyboard_toggling() {
    assert_eq!(update_text_agent(true, false), TextAgentUpdate::OpenKeyboard);
    assert_eq!(update_text_agent(true, true), TextAgentUpdate::OpenKeyboard);
    assert_eq!(update_text_agent(false, true), TextAgentUpdate::CloseKeyboard);
    assert_eq!(update_text_agent(false, false), TextAgentUpdate::Keep);
    assert!(editing_text(true, false));
    assert!(editing_text(false, true));
    assert!(!editing_text(false, false));
}

#[test]
fn web_channels_deliver_in_order() {
    let (tx, rx) = crossbeam_channel::bounded(2);
    let mut channel = WebChannel::new(rx);
    assert_eq!(channel.try_read_clipboard_event(), None);
    tx.send("one".to_string()).unwrap();
    tx.send("two".to_string()).unwrap();
    assert_eq!(channel.try_read_clipboard_event(), Some("one".to_string()));
    assert_eq!(channel.try_read_clipboard_event(), Some("two".to_string()));
    let mut off: WebChannel<String> = WebChannel::disconnected();
    assert_eq!(off.try_read_clipboard_event(), None);
}

#[test]
fn text_goes_to_the_first_focused_context() {
    let (tx, rx) = crossbeam_channel::unbounded();
    tx.send(EguiInputEvent::Text("x".to_string())).unwrap();
    assert_eq!(propagate_text(&vec![false, false], &rx), None);
    let got = propagate_text(&vec![false, true, true], &rx).unwrap();
    assert_eq!(got, (1, vec![EguiInputEvent::Text("x".to_string())], true));
    let again = propagate_text(&vec![true], &rx).unwrap();
    assert_eq!(again, (0, vec![], false));
}
