use bevy_egui::input::KeyboardInput;
use bevy_egui::keys::{LogicalKey, PhysicalKey};
use bevy_egui::modifiers::{ModifierKeysState, Modifiers};

fn events(keys: Vec<(LogicalKey, bool)>) -> Vec<KeyboardInput> {
    keys.into_iter()
        .map(|(logical_key, pressed)| KeyboardInput { key_code: PhysicalKey::Other, logical_key, pressed, window: 0 })
        .collect()
}

#[test]
fn press_and_release_track_each_modifier() {
    let mut state = ModifierKeysState::new();
    state.update(&LogicalKey::Shift, true);
    state.update(&LogicalKey::Control, true);
    assert!(state.shift() && state.ctrl() && !state.alt() && !state.win());
    state.update(&LogicalKey::Shift, false);
    assert!(!state.shift() && state.ctrl());
    state.update(&LogicalKey::Meta, true);
    assert!(state.win());
    state.update(&LogicalKey::Super, false);
    assert!(!state.win());
    state.update(&LogicalKey::Enter, true);
    assert!(!state.shift() && state.ctrl() && !state.alt() && !state.win());
}

#[test]
fn focus_loss_clears_modifiers() {
    let mut state = ModifierKeysState::default();
    let keys = events(vec![(LogicalKey::Alt, true), (LogicalKey::Control, true), (LogicalKey::Shift, true)]);
    state.apply_frame(&keys, true);
    assert_eq!(state.modifiers(false), Modifiers::none());
    let mut kept = ModifierKeysState::default();
    kept.apply_frame(&keys, false);
    assert!(kept.alt() && kept.ctrl() && kept.shift());
}

#[test]
fn last_event_of_a_modifier_wins() {
    let mut state = ModifierKeysState::new();
    let keys = events(vec![(LogicalKey::Shift, true), (LogicalKey::Alt, true), (LogicalKey::Shift, false)]);
    state.apply_frame(&keys, false);
    assert!(!state.shift());
    assert!(state.alt());
}

#[test]
fn command_is_super_on_macos_and_ctrl_elsewhere() {
    let mut state = ModifierKeysState::new();
    state.update(&LogicalKey::Super, true);
    let mac = state.modifiers(true);
    assert!(mac.command && mac.mac_cmd && !mac.ctrl);
    let other = state.modifiers(false);
    assert!(!other.command && !other.mac_cmd);
    state.update(&LogicalKey::Super, false);
    state.update(&LogicalKey::Control, true);
    let other = state.modifiers(false);
    assert!(other.command && other.ctrl && !other.mac_cmd);
    let mac = state.modifiers(true);
    assert!(!mac.command && mac.ctrl);
}

#[test]
fn text_allowed_rules() {
    let mut state = ModifierKeysState::new();
    assert!(state.text_event_allowed(false));
    assert!(state.text_event_allowed(true));
    state.update(&LogicalKey::Control, true);
    assert!(!state.text_event_allowed(false));
    // AltGr is ctrl + alt outside macOS.
    state.update(&LogicalKey::Alt, true);
    assert!(state.text_event_allowed(false));
    let mut mac = ModifierKeysState::new();
    mac.update(&LogicalKey::Super, true);
    assert!(!mac.text_event_allowed(true));
    mac.update(&LogicalKey::Super, false);
    mac.update(&LogicalKey::Shift, true);
    assert!(mac.text_event_allowed(true));
}
