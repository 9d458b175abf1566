use servo_bridge::input::{
    handle_event, named_key_for, pointer_button_for, ButtonAction, InputCommand, KeyState, KeyValue,
    LoopAction, NamedKey, PointerButton, SdlEvent, SdlKeycode, SdlMouseButton,
};

#[test]
fn quit_and_reload() {
    let (a, v) = handle_event(SdlEvent::Quit);
    assert_eq!(a, LoopAction::Quit);
    assert!(v.is_empty());
    let (a, v) = handle_event(SdlEvent::KeyDown { keycode: Some(SdlKeycode::F5) });
    assert_eq!(a, LoopAction::Reload);
    assert!(v.is_empty());
    let (a, v) = handle_event(SdlEvent::KeyUp { keycode: Some(SdlKeycode::F5) });
    assert_eq!(a, LoopAction::Continue);
    assert!(v.is_empty());
}

#[test]
fn key_mapping() {
    assert_eq!(named_key_for(SdlKeycode::Return), Some(NamedKey::Enter));
    assert_eq!(named_key_for(SdlKeycode::Up), Some(NamedKey::ArrowUp));
    assert_eq!(named_key_for(SdlKeycode::Other), None);
    let (a, v) = handle_event(SdlEvent::KeyDown { keycode: Some(SdlKeycode::Backspace) });
    assert_eq!(a, LoopAction::Continue);
    assert!(matches!(
        v.as_slice(),
        [InputCommand::Keyboard { state: KeyState::Down, key: KeyValue::Named(NamedKey::Backspace) }]
    ));
    let (_, v) = handle_event(SdlEvent::KeyUp { keycode: Some(SdlKeycode::Left) });
    assert!(matches!(
        v.as_slice(),
        [InputCommand::Keyboard { state: KeyState::Up, key: KeyValue::Named(NamedKey::ArrowLeft) }]
    ));
    assert!(handle_event(SdlEvent::KeyDown { keycode: None }).1.is_empty());
    assert!(handle_event(SdlEvent::KeyDown { keycode: Some(SdlKeycode::Other) }).1.is_empty());
}

#[test]
fn mouse_buttons() {
    assert_eq!(pointer_button_for(SdlMouseButton::X1), PointerButton::Back);
    assert_eq!(pointer_button_for(SdlMouseButton::X2), PointerButton::Forward);
    assert_eq!(pointer_button_for(SdlMouseButton::Unknown), PointerButton::Other(0));
    let (_, v) = handle_event(SdlEvent::MouseButtonDown { button: SdlMouseButton::Right, x: 3, y: 4 });
    assert!(matches!(
        v.as_slice(),
        [InputCommand::MouseButton { action: ButtonAction::Down, button: PointerButton::Right, x: 3, y: 4 }]
    ));
    let (_, v) = handle_event(SdlEvent::MouseButtonUp { button: SdlMouseButton::Middle, x: -1, y: 0 });
    assert!(matches!(
        v.as_slice(),
        [InputCommand::MouseButton { action: ButtonAction::Up, button: PointerButton::Middle, x: -1, y: 0 }]
    ));
}

#[test]
fn motion_wheel_and_text() {
    let (_, v) = handle_event(SdlEvent::MouseMotion { x: 10, y: 20 });
    assert!(matches!(v.as_slice(), [InputCommand::MouseMove { x: 10, y: 20 }]));
    let (_, v) = handle_event(SdlEvent::MouseWheel { x: 1, y: 2 });
    assert!(matches!(v.as_slice(), [InputCommand::Wheel { dx: 38, dy_reversed: 76, at_x: 0, at_y: 0 }]));
    let (_, v) = handle_event(SdlEvent::MouseWheel { x: -2, y: 0 });
    match v.as_slice() {
        [InputCommand::Wheel { dx, dy_reversed, at_x: 0, at_y: 0 }] => {
            assert_eq!(*dx, -76);
            // A scroll with no vertical part reports -0.0, as SDL wheel value times -38.0 does.
            let vertical = -(*dy_reversed as f64);
            assert_eq!(vertical.to_bits(), (0.0f64 * -38.0).to_bits());
            assert_eq!((*dx as f64).to_bits(), ((-2i32 as f64) * 38.0).to_bits());
        },
        other => panic!("unexpected: {other:?}"),
    }
    let (_, v) = handle_event(SdlEvent::TextInput { text: "é".to_string() });
    match v.as_slice() {
        [InputCommand::Keyboard { state: KeyState::Down, key: KeyValue::Character(a) },
         InputCommand::Keyboard { state: KeyState::Up, key: KeyValue::Character(b) }] => {
            assert_eq!(a, "é");
            assert_eq!(b, "é");
        },
        other => panic!("unexpected: {other:?}"),
    }
    assert!(handle_event(SdlEvent::Other).1.is_empty());
}
