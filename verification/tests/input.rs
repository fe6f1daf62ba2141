use bevy_egui::contexts::WindowContext;
use bevy_egui::input::{
    has_no_control_chars, keyboard_event_to_egui, mouse_button_event, mouse_button_to_egui,
    mouse_wheel_event, process_input_frame, scroll_unit_to_egui, touch_event_to_egui,
    touch_phase_to_egui, EguiInputEvent, EguiTouchPhase, InputFrame, KeyboardInput, MouseButton,
    MouseButtonInput, MouseScrollUnit, MouseWheelInput, MouseWheelUnit, PointerButton, TouchInput,
    TouchPhase,
};
use bevy_egui::keys::{EguiKey, LogicalKey, PhysicalKey};
use bevy_egui::modifiers::{ModifierKeysState, Modifiers};

fn key_event(logical: LogicalKey, physical: PhysicalKey, pressed: bool) -> KeyboardInput {
    KeyboardInput { key_code: physical, logical_key: logical, pressed, window: 1 }
}

#[test]
fn mouse_buttons_map_to_pointer_buttons() {
    assert_eq!(mouse_button_to_egui(MouseButton::Left), Some(PointerButton::Primary));
    assert_eq!(mouse_button_to_egui(MouseButton::Right), Some(PointerButton::Secondary));
    assert_eq!(mouse_button_to_egui(MouseButton::Middle), Some(PointerButton::Middle));
    assert_eq!(mouse_button_to_egui(MouseButton::Back), None);
    assert_eq!(mouse_button_to_egui(MouseButton::Other(7)), None);
    let m = Modifiers::none();
    assert_eq!(
        mouse_button_event(MouseButton::Left, true, m),
        Some(EguiInputEvent::PointerButton { button: PointerButton::Primary, pressed: true, modifiers: m })
    );
    assert_eq!(mouse_button_event(MouseButton::Forward, true, m), None);
}

#[test]
fn wheel_units_and_touch_phases() {
    assert_eq!(scroll_unit_to_egui(MouseScrollUnit::Line), MouseWheelUnit::Line);
    assert_eq!(scroll_unit_to_egui(MouseScrollUnit::Pixel), MouseWheelUnit::Point);
    let m = Modifiers::none();
    assert_eq!(
        mouse_wheel_event(MouseScrollUnit::Pixel, m),
        EguiInputEvent::MouseWheel { unit: MouseWheelUnit::Point, modifiers: m }
    );
    assert_eq!(touch_phase_to_egui(TouchPhase::Started), EguiTouchPhase::Start);
    assert_eq!(touch_phase_to_egui(TouchPhase::Moved), EguiTouchPhase::Move);
    assert_eq!(touch_phase_to_egui(TouchPhase::Ended), EguiTouchPhase::End);
    assert_eq!(touch_phase_to_egui(TouchPhase::Canceled), EguiTouchPhase::Cancel);
}

#[test]
fn control_characters_are_detected() {
    assert!(has_no_control_chars("abc"));
    assert!(has_no_control_chars(""));
    assert!(!has_no_control_chars("a\u{7}"));
    assert!(!has_no_control_chars("\u{85}"));
    assert!(has_no_control_chars("\u{a0}"));
}

#[test]
fn typing_a_letter_gives_text_then_key() {
    let held = ModifierKeysState::new();
    let events = keyboard_event_to_egui(&key_event(LogicalKey::Character("a".to_string()), PhysicalKey::KeyA, true), &held, false, true);
    assert_eq!(
        events,
        vec![
            EguiInputEvent::Text("a".to_string()),
            EguiInputEvent::Key { key: EguiKey::A, pressed: true, repeat: false, modifiers: Modifiers::none(), physical_key: Some(EguiKey::A) },
        ]
    );
}

#[test]
fn space_types_a_space() {
    let held = ModifierKeysState::new();
    let events = keyboard_event_to_egui(&key_event(LogicalKey::Space, PhysicalKey::Space, true), &held, false, true);
    assert_eq!(events[0], EguiInputEvent::Text(" ".to_string()));
    assert_eq!(events.len(), 2);
}

#[test]
fn release_gives_only_the_key_event() {
    let mut held = ModifierKeysState::new();
    held.update(&LogicalKey::Control, true);
    let events = keyboard_event_to_egui(&key_event(LogicalKey::Character("c".to_string()), PhysicalKey::KeyC, false), &held, false, true);
    assert_eq!(events.len(), 1);
    assert!(matches!(events[0], EguiInputEvent::Key { key: EguiKey::C, pressed: false, .. }));
}

#[test]
fn command_shortcuts_copy_cut_paste() {
    let mut held = ModifierKeysState::new();
    held.update(&LogicalKey::Control, true);
    let copy = keyboard_event_to_egui(&key_event(LogicalKey::Character("c".to_string()), PhysicalKey::KeyC, true), &held, false, true);
    assert_eq!(copy.len(), 2);
    assert_eq!(copy[1], EguiInputEvent::Copy);
    let cut = keyboard_event_to_egui(&key_event(LogicalKey::Character("x".to_string()), PhysicalKey::KeyX, true), &held, false, true);
    assert_eq!(cut[1], EguiInputEvent::Cut);
    let paste = keyboard_event_to_egui(&key_event(LogicalKey::Character("v".to_string()), PhysicalKey::KeyV, true), &held, false, true);
    assert_eq!(paste[1], EguiInputEvent::PasteFromClipboard);
    // On macOS, control is not the command modifier.
    let mac = keyboard_event_to_egui(&key_event(LogicalKey::Character("c".to_string()), PhysicalKey::KeyC, true), &held, true, true);
    assert!(!mac.contains(&EguiInputEvent::Copy));
    // Where the page's clipboard events stand for the shortcuts, none is made here.
    let web = keyboard_event_to_egui(&key_event(LogicalKey::Character("c".to_string()), PhysicalKey::KeyC, true), &held, false, false);
    assert_eq!(web.len(), 1);
    assert!(!web.contains(&EguiInputEvent::Copy));
}

#[test]
fn altgr_types_text_outside_macos() {
    let mut held = ModifierKeysState::new();
    held.update(&LogicalKey::Control, true);
    held.update(&LogicalKey::Alt, true);
    let events = keyboard_event_to_egui(&key_event(LogicalKey::Character("@".to_string()), PhysicalKey::Other, true), &held, false, true);
    assert_eq!(events, vec![EguiInputEvent::Text("@".to_string())]);
}

#[test]
fn control_character_text_is_dropped() {
    let held = ModifierKeysState::new();
    let events = keyboard_event_to_egui(&key_event(LogicalKey::Character("\u{8}".to_string()), PhysicalKey::Backspace, true), &held, false, true);
    assert!(events.is_empty());
}

#[test]
fn touch_emulates_the_mouse_for_one_finger() {
    let m = Modifiers::none();
    let mut driver = None;
    let start = touch_event_to_egui(&mut driver, 7, TouchPhase::Started, m);
    assert_eq!(driver, Some(7));
    assert_eq!(
        start,
        vec![
            EguiInputEvent::Touch { id: 7, phase: EguiTouchPhase::Start },
            EguiInputEvent::PointerMoved,
            EguiInputEvent::PointerButton { button: PointerButton::Primary, pressed: true, modifiers: m },
        ]
    );
    let other = touch_event_to_egui(&mut driver, 8, TouchPhase::Started, m);
    assert_eq!(other, vec![EguiInputEvent::Touch { id: 8, phase: EguiTouchPhase::Start }]);
    assert_eq!(driver, Some(7));
    let moved = touch_event_to_egui(&mut driver, 7, TouchPhase::Moved, m);
    assert_eq!(moved.len(), 2);
    let end = touch_event_to_egui(&mut driver, 7, TouchPhase::Ended, m);
    assert_eq!(driver, None);
    assert_eq!(
        end,
        vec![
            EguiInputEvent::Touch { id: 7, phase: EguiTouchPhase::End },
            EguiInputEvent::PointerButton { button: PointerButton::Primary, pressed: false, modifiers: m },
            EguiInputEvent::PointerGone,
        ]
    );
    let _ = touch_event_to_egui(&mut driver, 8, TouchPhase::Started, m);
    let cancel = touch_event_to_egui(&mut driver, 8, TouchPhase::Canceled, m);
    assert_eq!(driver, None);
    assert_eq!(cancel.last(), Some(&EguiInputEvent::PointerGone));
}

#[test]
fn a_frame_is_routed_to_window_contexts() {
    let contexts = vec![
        WindowContext { window: 10, is_primary: true },
        WindowContext { window: 20, is_primary: false },
    ];
    let mut drivers = vec![None, None];
    let mut held = ModifierKeysState::new();
    let frame = InputFrame {
        cursor_moved: vec![20, 99],
        mouse_buttons: vec![
            MouseButtonInput { window: 10, button: MouseButton::Left, pressed: true },
            MouseButtonInput { window: 10, button: MouseButton::Back, pressed: true },
        ],
        mouse_wheel: vec![MouseWheelInput { window: 99, unit: MouseScrollUnit::Line }],
        keyboard: vec![
            KeyboardInput { key_code: PhysicalKey::Other, logical_key: LogicalKey::Shift, pressed: true, window: 10 },
            KeyboardInput { key_code: PhysicalKey::KeyA, logical_key: LogicalKey::Character("A".to_string()), pressed: true, window: 20 },
        ],
        touches: vec![
            TouchInput { window: 20, id: 3, phase: TouchPhase::Started },
            TouchInput { window: 55, id: 4, phase: TouchPhase::Started },
        ],
        focus_lost: false,
    };
    let out = process_input_frame(&frame, &mut held, false, true, &contexts, &mut drivers);
    assert!(out.modifiers.shift);
    assert_eq!(out.cursor_moved, vec![Some(1), None]);
    assert!(matches!(out.mouse_buttons[0], Some((0, EguiInputEvent::PointerButton { button: PointerButton::Primary, pressed: true, .. }))));
    assert_eq!(out.mouse_buttons[1], None);
    assert_eq!(out.mouse_wheel, vec![None]);
    let (ctx, shift_events) = out.keyboard[0].clone().unwrap();
    assert_eq!(ctx, 0);
    assert!(shift_events.is_empty());
    let (ctx, a_events) = out.keyboard[1].clone().unwrap();
    assert_eq!(ctx, 1);
    assert_eq!(a_events[0], EguiInputEvent::Text("A".to_string()));
    assert!(matches!(a_events[1], EguiInputEvent::Key { key: EguiKey::A, modifiers: Modifiers { shift: true, .. }, .. }));
    assert_eq!(drivers, vec![None, Some(3)]);
    assert_eq!(out.touches[0].as_ref().map(|(c, e)| (*c, e.len())), Some((1, 3)));
    assert_eq!(out.touches[1], None);
}

#[test]
fn focus_loss_in_a_frame_releases_modifiers() {
    let contexts = vec![WindowContext { window: 1, is_primary: true }];
    let mut drivers = vec![None];
    let mut held = ModifierKeysState::new();
    let frame = InputFrame {
        cursor_moved: vec![],
        mouse_buttons: vec![],
        mouse_wheel: vec![],
        keyboard: vec![KeyboardInput { key_code: PhysicalKey::Other, logical_key: LogicalKey::Control, pressed: true, window: 1 }],
        touches: vec![],
        focus_lost: true,
    };
    let out = process_input_frame(&frame, &mut held, false, true, &contexts, &mut drivers);
    assert_eq!(out.modifiers, Modifiers::none());
    assert!(!held.ctrl());
}
