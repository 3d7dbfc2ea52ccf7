use gui_bridge::events::{
    convert_button, convert_key, handle_event, GuiEvent, GuiKey, GuiPointerButton, HostEvent,
    HostKey, HostMouseButton, ModifierKeys, Modifiers, RawInput, Vec2,
};

fn no_keys_held() -> ModifierKeys {
    ModifierKeys { ctrl: false, shift: false, alt: false }
}

fn origin() -> Vec2<f32> {
    Vec2 { x: 0.0, y: 0.0 }
}

#[test]
fn convert_key_spot_checks() {
    assert_eq!(convert_key(&HostKey::A), Some(GuiKey::A));
    assert_eq!(convert_key(&HostKey::Z), Some(GuiKey::Z));
    assert_eq!(convert_key(&HostKey::Num0), Some(GuiKey::Num0));
    assert_eq!(convert_key(&HostKey::Num9), Some(GuiKey::Num9));
    assert_eq!(convert_key(&HostKey::Up), Some(GuiKey::ArrowUp));
    assert_eq!(convert_key(&HostKey::Down), Some(GuiKey::ArrowDown));
    assert_eq!(convert_key(&HostKey::Left), Some(GuiKey::ArrowLeft));
    assert_eq!(convert_key(&HostKey::Right), Some(GuiKey::ArrowRight));
    assert_eq!(convert_key(&HostKey::Escape), Some(GuiKey::Escape));
    assert_eq!(convert_key(&HostKey::Enter), Some(GuiKey::Enter));
    assert_eq!(convert_key(&HostKey::PageDown), Some(GuiKey::PageDown));
}

#[test]
fn convert_key_unmapped_keys() {
    assert_eq!(convert_key(&HostKey::F1), None);
    assert_eq!(convert_key(&HostKey::F24), None);
    assert_eq!(convert_key(&HostKey::NumPad0), None);
    assert_eq!(convert_key(&HostKey::NumPadEnter), None);
    assert_eq!(convert_key(&HostKey::LeftCtrl), None);
    assert_eq!(convert_key(&HostKey::CapsLock), None);
    assert_eq!(convert_key(&HostKey::Semicolon), None);
}

#[test]
fn convert_key_is_injective_on_mapped_keys() {
    let mapped = [
        HostKey::A, HostKey::B, HostKey::C, HostKey::D, HostKey::E, HostKey::F,
        HostKey::G, HostKey::H, HostKey::I, HostKey::J, HostKey::K, HostKey::L,
        HostKey::M, HostKey::N, HostKey::O, HostKey::P, HostKey::Q, HostKey::R,
        HostKey::S, HostKey::T, HostKey::U, HostKey::V, HostKey::W, HostKey::X,
        HostKey::Y, HostKey::Z, HostKey::Num0, HostKey::Num1, HostKey::Num2,
        HostKey::Num3, HostKey::Num4, HostKey::Num5, HostKey::Num6, HostKey::Num7,
        HostKey::Num8, HostKey::Num9, HostKey::Escape, HostKey::Tab,
        HostKey::Backspace, HostKey::Enter, HostKey::Space, HostKey::Insert,
        HostKey::Delete, HostKey::Home, HostKey::End, HostKey::PageDown,
        HostKey::PageUp, HostKey::Up, HostKey::Down, HostKey::Left, HostKey::Right,
    ];
    let targets: Vec<GuiKey> = mapped.iter().map(|k| convert_key(k).unwrap()).collect();
    for (i, a) in targets.iter().enumerate() {
        for b in &targets[i + 1..] {
            assert_ne!(a, b);
        }
    }
}

#[test]
fn convert_button_table() {
    assert_eq!(convert_button(&HostMouseButton::Left), GuiPointerButton::Primary);
    assert_eq!(convert_button(&HostMouseButton::Right), GuiPointerButton::Secondary);
    assert_eq!(convert_button(&HostMouseButton::Middle), GuiPointerButton::Middle);
    assert_eq!(convert_button(&HostMouseButton::X1), GuiPointerButton::Primary);
    assert_eq!(convert_button(&HostMouseButton::X2), GuiPointerButton::Primary);
}

#[test]
fn key_press_then_release_yields_two_matching_events() {
    for key in [HostKey::A, HostKey::Z, HostKey::Num5, HostKey::Up, HostKey::Space] {
        let mut ri: RawInput<f32> = RawInput::new();
        handle_event(origin(), no_keys_held(), &mut ri, &HostEvent::KeyPressed { key });
        handle_event(origin(), no_keys_held(), &mut ri, &HostEvent::KeyReleased { key });
        assert_eq!(ri.events.len(), 2);
        match (&ri.events[0], &ri.events[1]) {
            (
                GuiEvent::Key { key: k1, pressed: p1, .. },
                GuiEvent::Key { key: k2, pressed: p2, .. },
            ) => {
                assert_eq!(k1, k2);
                assert!(*p1);
                assert!(!*p2);
            }
            _ => panic!("expected two key events"),
        }
    }
}

#[test]
fn unmapped_key_leaves_batch_unchanged() {
    let mut ri: RawInput<f32> = RawInput::new();
    handle_event(origin(), no_keys_held(), &mut ri, &HostEvent::KeyPressed { key: HostKey::F1 });
    assert_eq!(ri.events.len(), 0);
    handle_event(origin(), no_keys_held(), &mut ri, &HostEvent::KeyReleased { key: HostKey::F1 });
    assert_eq!(ri.events.len(), 0);
    assert_eq!(ri.scroll_delta, None);
}

#[test]
fn pointer_press_takes_position_from_live_query() {
    let mut ri: RawInput<f32> = RawInput::new();
    let queried = Vec2 { x: 123.5, y: -7.25 };
    handle_event(
        queried,
        no_keys_held(),
        &mut ri,
        &HostEvent::MouseButtonPressed { button: HostMouseButton::Left },
    );
    assert_eq!(ri.events.len(), 1);
    match &ri.events[0] {
        GuiEvent::PointerButton { pos, button, pressed, modifiers } => {
            assert_eq!(pos.x, 123.5);
            assert_eq!(pos.y, -7.25);
            assert_eq!(*button, GuiPointerButton::Primary);
            assert!(*pressed);
            assert_eq!(*modifiers, Modifiers::none());
        }
        _ => panic!("expected a pointer-button event"),
    }
}

#[test]
fn pointer_release_is_marked_released() {
    let mut ri: RawInput<f32> = RawInput::new();
    handle_event(
        origin(),
        no_keys_held(),
        &mut ri,
        &HostEvent::MouseButtonReleased { button: HostMouseButton::Middle },
    );
    match &ri.events[0] {
        GuiEvent::PointerButton { button, pressed, .. } => {
            assert_eq!(*button, GuiPointerButton::Middle);
            assert!(!*pressed);
        }
        _ => panic!("expected a pointer-button event"),
    }
}

#[test]
fn wheel_overwrites_rather_than_accumulates() {
    let mut ri: RawInput<f32> = RawInput::new();
    handle_event(
        origin(),
        no_keys_held(),
        &mut ri,
        &HostEvent::MouseWheelMoved { amount: Vec2 { x: 3.0, y: 0.0 } },
    );
    handle_event(
        origin(),
        no_keys_held(),
        &mut ri,
        &HostEvent::MouseWheelMoved { amount: Vec2 { x: 0.0, y: 5.0 } },
    );
    assert_eq!(ri.scroll_delta, Some(Vec2 { x: 0.0, y: 5.0 }));
    assert_eq!(ri.events.len(), 0);
}

#[test]
fn pointer_move_carries_absolute_position() {
    let mut ri: RawInput<f32> = RawInput::new();
    handle_event(
        origin(),
        no_keys_held(),
        &mut ri,
        &HostEvent::MouseMoved {
            position: Vec2 { x: 40.0, y: 60.0 },
            delta: Vec2 { x: 1.0, y: -1.0 },
        },
    );
    assert_eq!(ri.events, vec![GuiEvent::PointerMoved { pos: Vec2 { x: 40.0, y: 60.0 } }]);
}

#[test]
fn text_input_carries_string_unchanged() {
    let mut ri: RawInput<f32> = RawInput::new();
    handle_event(
        origin(),
        no_keys_held(),
        &mut ri,
        &HostEvent::TextInput { text: String::from("hi there") },
    );
    assert_eq!(ri.events, vec![GuiEvent::Text { text: String::from("hi there") }]);
}

#[test]
fn focus_lost_becomes_pointer_gone() {
    let mut ri: RawInput<f32> = RawInput::new();
    handle_event(origin(), no_keys_held(), &mut ri, &HostEvent::FocusLost);
    assert_eq!(ri.events, vec![GuiEvent::PointerGone]);
}

#[test]
fn unhandled_event_kinds_are_noops() {
    let mut ri: RawInput<f32> = RawInput::new();
    handle_event(origin(), no_keys_held(), &mut ri, &HostEvent::Resized { width: 800, height: 600 });
    handle_event(origin(), no_keys_held(), &mut ri, &HostEvent::FocusGained);
    handle_event(origin(), no_keys_held(), &mut ri, &HostEvent::Other);
    assert_eq!(ri.events.len(), 0);
    assert_eq!(ri.scroll_delta, None);
}

#[test]
fn modifiers_sampled_from_live_query_and_command_mirrors_ctrl() {
    let mut ri: RawInput<f32> = RawInput::new();
    handle_event(
        origin(),
        ModifierKeys { ctrl: true, shift: false, alt: true },
        &mut ri,
        &HostEvent::KeyPressed { key: HostKey::C },
    );
    match &ri.events[0] {
        GuiEvent::Key { modifiers, .. } => {
            assert!(modifiers.ctrl);
            assert!(modifiers.command);
            assert!(modifiers.alt);
            assert!(!modifiers.shift);
        }
        _ => panic!("expected a key event"),
    }
}
