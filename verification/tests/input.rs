use webview_core::input::{
    translate_key, translate_mouse, scale_lines, scroll_pixels, EngineMouseButton, Key,
    KeyEvent, KeyEventType, KeyPress, Modifiers, MouseButton, MouseEvent, MouseEventType,
    NamedKey, PointerOutcome, ScrollDelta, VirtualKey,
};

fn no_modifiers() -> Modifiers {
    Modifiers::none()
}

fn ctrl() -> Modifiers {
    Modifiers { alt: false, control: true, logo: false, shift: false }
}

#[test]
fn plain_character_becomes_char_event() {
    let ev = KeyEvent {
        press: KeyPress::Press,
        key: Key::Character('a'),
        modifiers: no_modifiers(),
        text: Some("a".to_string()),
    };
    let out = translate_key(&ev).expect("mapped key");
    assert_eq!(out.ty, KeyEventType::Char);
    assert_eq!(out.text, "a".to_string());
    assert_eq!(out.virtual_key, VirtualKey::A);
}

#[test]
fn control_chord_is_raw_key_down_with_empty_text() {
    let ev = KeyEvent {
        press: KeyPress::Press,
        key: Key::Character('a'),
        modifiers: ctrl(),
        text: Some("a".to_string()),
    };
    let out = translate_key(&ev).expect("mapped key");
    assert_eq!(out.ty, KeyEventType::RawKeyDown);
    assert_eq!(out.text, String::new());
    assert_eq!(out.virtual_key, VirtualKey::A);
}

#[test]
fn space_carries_its_fixed_text() {
    let ev = KeyEvent {
        press: KeyPress::Press,
        key: Key::Named(NamedKey::Space),
        modifiers: no_modifiers(),
        text: None,
    };
    let out = translate_key(&ev).expect("mapped key");
    assert_eq!(out.ty, KeyEventType::Char);
    assert_eq!(out.text, " ".to_string());
    assert_eq!(out.virtual_key, VirtualKey::Space);
}

#[test]
fn enter_is_raw_key_down_without_text() {
    let ev = KeyEvent {
        press: KeyPress::Press,
        key: Key::Named(NamedKey::Enter),
        modifiers: no_modifiers(),
        text: None,
    };
    let out = translate_key(&ev).expect("mapped key");
    assert_eq!(out.ty, KeyEventType::RawKeyDown);
    assert_eq!(out.text, String::new());
    assert_eq!(out.virtual_key, VirtualKey::Return);
}

#[test]
fn release_is_key_up() {
    let ev = KeyEvent {
        press: KeyPress::Unpress,
        key: Key::Character('z'),
        modifiers: no_modifiers(),
        text: None,
    };
    let out = translate_key(&ev).expect("mapped key");
    assert_eq!(out.ty, KeyEventType::KeyUp);
    assert_eq!(out.virtual_key, VirtualKey::Z);
}

#[test]
fn unmapped_keys_are_dropped_silently() {
    let unmapped = KeyEvent {
        press: KeyPress::Press,
        key: Key::Character('%'),
        modifiers: no_modifiers(),
        text: Some("%".to_string()),
    };
    assert!(translate_key(&unmapped).is_none());
    let unidentified = KeyEvent {
        press: KeyPress::Press,
        key: Key::Unidentified,
        modifiers: no_modifiers(),
        text: None,
    };
    assert!(translate_key(&unidentified).is_none());
}

#[test]
fn punctuation_rows_follow_the_table() {
    let ev = KeyEvent {
        press: KeyPress::Press,
        key: Key::Character(','),
        modifiers: no_modifiers(),
        text: Some(",".to_string()),
    };
    assert_eq!(translate_key(&ev).expect("mapped").virtual_key, VirtualKey::OemComma);
    let ev = KeyEvent {
        press: KeyPress::Press,
        key: Key::Character('['),
        modifiers: no_modifiers(),
        text: Some("[".to_string()),
    };
    assert_eq!(translate_key(&ev).expect("mapped").virtual_key, VirtualKey::Oem4);
}

#[test]
fn line_scrolls_scale_to_pixels() {
    assert_eq!(scroll_pixels(&ScrollDelta::Lines { x: 2, y: -3 }), (200, -300));
    assert_eq!(scroll_pixels(&ScrollDelta::Pixels { x: 7, y: -9 }), (7, -9));
}

#[test]
fn line_scaling_saturates_at_the_i32_bounds() {
    assert_eq!(scale_lines(i32::MAX), i32::MAX);
    assert_eq!(scale_lines(i32::MIN), i32::MIN);
    assert_eq!(scale_lines(0), 0);
    assert_eq!(scale_lines(-1), -100);
}

#[test]
fn left_button_press_maps_to_mouse_down() {
    let out = translate_mouse(&MouseEvent::ButtonPressed(MouseButton::Left, 3, 4));
    match out {
        PointerOutcome::Deliver(e) => {
            assert_eq!(e.ty, MouseEventType::MouseDown);
            assert_eq!(e.button, EngineMouseButton::Left);
            assert_eq!((e.x, e.y), (3, 4));
        },
        _ => panic!("expected a delivered pointer event"),
    }
}

#[test]
fn forward_and_back_buttons_map_to_history() {
    assert_eq!(
        translate_mouse(&MouseEvent::ButtonReleased(MouseButton::Forward, 0, 0)),
        PointerOutcome::HistoryForward
    );
    assert_eq!(
        translate_mouse(&MouseEvent::ButtonReleased(MouseButton::Back, 0, 0)),
        PointerOutcome::HistoryBack
    );
}

#[test]
fn motion_focus_and_scroll_map_directly() {
    assert_eq!(
        translate_mouse(&MouseEvent::CursorMoved(11, 12)),
        PointerOutcome::TrackPosition(11, 12)
    );
    assert_eq!(translate_mouse(&MouseEvent::CursorEntered), PointerOutcome::Focus);
    assert_eq!(translate_mouse(&MouseEvent::CursorLeft), PointerOutcome::Unfocus);
    assert_eq!(
        translate_mouse(&MouseEvent::WheelScrolled(ScrollDelta::Lines { x: 1, y: 2 })),
        PointerOutcome::ScrollBy(100, 200)
    );
}

#[test]
fn middle_button_is_ignored() {
    assert_eq!(
        translate_mouse(&MouseEvent::ButtonPressed(MouseButton::Middle, 1, 1)),
        PointerOutcome::Ignore
    );
}
