use bevy_egui::keys::{
    bevy_to_egui_key, bevy_to_egui_physical_key, key_from_name, EguiKey, LogicalKey, PhysicalKey,
    EGUI_KEY_COUNT,
};

#[test]
fn numpad_enter_is_enter() {
    assert_eq!(bevy_to_egui_physical_key(&PhysicalKey::NumpadEnter), Some(EguiKey::Enter));
    assert_eq!(bevy_to_egui_physical_key(&PhysicalKey::Enter), Some(EguiKey::Enter));
}

#[test]
fn numpad_digits_match_digit_row() {
    let pairs = [
        (PhysicalKey::Digit0, PhysicalKey::Numpad0, EguiKey::Num0),
        (PhysicalKey::Digit1, PhysicalKey::Numpad1, EguiKey::Num1),
        (PhysicalKey::Digit5, PhysicalKey::Numpad5, EguiKey::Num5),
        (PhysicalKey::Digit9, PhysicalKey::Numpad9, EguiKey::Num9),
    ];
    for (digit, numpad, key) in pairs {
        assert_eq!(bevy_to_egui_physical_key(&digit), Some(key));
        assert_eq!(bevy_to_egui_physical_key(&numpad), Some(key));
    }
}

#[test]
fn physical_punctuation_and_letters() {
    assert_eq!(bevy_to_egui_physical_key(&PhysicalKey::NumpadDivide), Some(EguiKey::Slash));
    assert_eq!(bevy_to_egui_physical_key(&PhysicalKey::NumpadSubtract), Some(EguiKey::Minus));
    assert_eq!(bevy_to_egui_physical_key(&PhysicalKey::NumpadAdd), Some(EguiKey::Plus));
    assert_eq!(bevy_to_egui_physical_key(&PhysicalKey::Equal), Some(EguiKey::Equals));
    assert_eq!(bevy_to_egui_physical_key(&PhysicalKey::BracketLeft), Some(EguiKey::OpenBracket));
    assert_eq!(bevy_to_egui_physical_key(&PhysicalKey::Backquote), Some(EguiKey::Backtick));
    assert_eq!(bevy_to_egui_physical_key(&PhysicalKey::KeyQ), Some(EguiKey::Q));
    assert_eq!(bevy_to_egui_physical_key(&PhysicalKey::F20), Some(EguiKey::F20));
    assert_eq!(bevy_to_egui_physical_key(&PhysicalKey::Other), None);
}

#[test]
fn logical_named_keys() {
    assert_eq!(bevy_to_egui_key(&LogicalKey::Enter), Some(EguiKey::Enter));
    assert_eq!(bevy_to_egui_key(&LogicalKey::Space), Some(EguiKey::Space));
    assert_eq!(bevy_to_egui_key(&LogicalKey::F13), Some(EguiKey::F13));
    assert_eq!(bevy_to_egui_key(&LogicalKey::Escape), Some(EguiKey::Escape));
    assert_eq!(bevy_to_egui_key(&LogicalKey::Shift), None);
    assert_eq!(bevy_to_egui_key(&LogicalKey::Super), None);
    assert_eq!(bevy_to_egui_key(&LogicalKey::Unidentified), None);
    assert_eq!(bevy_to_egui_key(&LogicalKey::Dead), None);
    assert_eq!(bevy_to_egui_key(&LogicalKey::Other), None);
}

#[test]
fn character_keys_are_looked_up_through_egui() {
    assert_eq!(bevy_to_egui_key(&LogicalKey::Character("a".to_string())), Some(EguiKey::A));
    assert_eq!(bevy_to_egui_key(&LogicalKey::Character("Z".to_string())), Some(EguiKey::Z));
    assert_eq!(bevy_to_egui_key(&LogicalKey::Character("+".to_string())), Some(EguiKey::Plus));
    assert_eq!(bevy_to_egui_key(&LogicalKey::Character("7".to_string())), Some(EguiKey::Num7));
    assert_eq!(bevy_to_egui_key(&LogicalKey::Character("é".to_string())), None);
    assert_eq!(key_from_name("Return"), Some(EguiKey::Enter));
    assert_eq!(key_from_name("F35"), Some(EguiKey::F35));
    assert_eq!(key_from_name("nonsense"), None);
}

#[test]
fn ordinals_follow_egui_declaration() {
    for key in egui::Key::ALL {
        let n = *key as u8;
        let ours = EguiKey::from_ordinal(n).expect("every egui key has a position");
        assert_eq!(format!("{:?}", ours), format!("{:?}", key));
    }
    assert_eq!(EguiKey::from_ordinal(EGUI_KEY_COUNT), None);
    assert_eq!(EguiKey::from_ordinal(255), None);
}
