use kiss3d::camera::CoordinateSystem2d;
use kiss3d::event::{Action, Key, Modifier, Modifiers, MouseButton};
use kiss3d::input::{
    collect_window_event, translate_action, translate_modifiers, translate_mouse_button,
    translate_web_mouse_button, CanvasEvent, ElementState, ModifiersState, NativeMouseButton,
    NativeWindowEvent, PendingEvent,
};
use kiss3d::keyboard::{str_eq, translate_key, translate_web_key, KeyCode, PhysicalKey};

#[test]
fn coordinate_system_defaults_to_center_up() {
    assert_eq!(CoordinateSystem2d::default(), CoordinateSystem2d::CenterUp);
}

#[test]
fn modifiers_insert_and_contains() {
    let mut m = Modifiers::empty();
    assert!(!m.contains(Modifier::Shift));
    m.insert(Modifier::Shift);
    m.insert(Modifier::Super);
    assert!(m.contains(Modifier::Shift));
    assert!(m.contains(Modifier::Super));
    assert!(!m.contains(Modifier::Control));
    assert!(!m.contains(Modifier::Alt));
}

#[test]
fn native_keys_translate() {
    assert_eq!(translate_key(PhysicalKey::Code(KeyCode::KeyA)), Key::A);
    assert_eq!(translate_key(PhysicalKey::Code(KeyCode::Digit0)), Key::Key0);
    assert_eq!(translate_key(PhysicalKey::Code(KeyCode::SuperLeft)), Key::LWin);
    assert_eq!(translate_key(PhysicalKey::Code(KeyCode::PrintScreen)), Key::Snapshot);
    assert_eq!(translate_key(PhysicalKey::Code(KeyCode::IntlBackslash)), Key::OEM102);
    assert_eq!(translate_key(PhysicalKey::Code(KeyCode::NumpadClear)), Key::NumpadEquals);
    assert_eq!(translate_key(PhysicalKey::Code(KeyCode::F24)), Key::F24);
    assert_eq!(translate_key(PhysicalKey::Code(KeyCode::Cut)), Key::Cut);
    assert_eq!(translate_key(PhysicalKey::Code(KeyCode::Other)), Key::Unknown);
    assert_eq!(translate_key(PhysicalKey::Unidentified), Key::Unknown);
}

#[test]
fn web_keys_translate() {
    assert_eq!(translate_web_key("KeyA"), Key::A);
    assert_eq!(translate_web_key("Digit1"), Key::Key1);
    assert_eq!(translate_web_key("MetaLeft"), Key::LWin);
    assert_eq!(translate_web_key("MetaRight"), Key::RWin);
    assert_eq!(translate_web_key("Tab"), Key::Tab);
    assert_eq!(translate_web_key("ArrowUp"), Key::Up);
    assert_eq!(translate_web_key("F12"), Key::F12);
    // Keys that only the native table knows.
    assert_eq!(translate_web_key("F13"), Key::Unknown);
    assert_eq!(translate_web_key("SuperLeft"), Key::Unknown);
    // Matching is exact.
    assert_eq!(translate_web_key("keya"), Key::Unknown);
    assert_eq!(translate_web_key("KeyA "), Key::Unknown);
    assert_eq!(translate_web_key(""), Key::Unknown);
}

#[test]
fn web_and_native_tables_agree_on_shared_codes() {
    let shared = [
        ("KeyQ", KeyCode::KeyQ),
        ("Digit7", KeyCode::Digit7),
        ("Escape", KeyCode::Escape),
        ("NumpadEnter", KeyCode::NumpadEnter),
        ("Backquote", KeyCode::Backquote),
        ("ShiftRight", KeyCode::ShiftRight),
        ("Quote", KeyCode::Quote),
    ];
    for (web, native) in shared {
        assert_eq!(translate_web_key(web), translate_key(PhysicalKey::Code(native)));
    }
}

#[test]
fn string_equality() {
    assert!(str_eq("abc", "abc"));
    assert!(!str_eq("abc", "abd"));
    assert!(!str_eq("abc", "ab"));
    assert!(str_eq("", ""));
    assert!(str_eq("é", "é"));
    assert!(!str_eq("é", "e"));
}

#[test]
fn actions_and_buttons_translate() {
    assert_eq!(translate_action(ElementState::Pressed), Action::Press);
    assert_eq!(translate_action(ElementState::Released), Action::Release);
    assert_eq!(translate_mouse_button(NativeMouseButton::Left), MouseButton::Button1);
    assert_eq!(translate_mouse_button(NativeMouseButton::Right), MouseButton::Button2);
    assert_eq!(translate_mouse_button(NativeMouseButton::Middle), MouseButton::Button3);
    assert_eq!(translate_mouse_button(NativeMouseButton::Back), MouseButton::Button4);
    assert_eq!(translate_mouse_button(NativeMouseButton::Forward), MouseButton::Button4);
    assert_eq!(translate_mouse_button(NativeMouseButton::Other(9)), MouseButton::Button4);
}

#[test]
fn web_buttons_translate() {
    assert_eq!(translate_web_mouse_button(0), MouseButton::Button1);
    assert_eq!(translate_web_mouse_button(1), MouseButton::Button3);
    assert_eq!(translate_web_mouse_button(2), MouseButton::Button2);
    assert_eq!(translate_web_mouse_button(3), MouseButton::Button4);
    assert_eq!(translate_web_mouse_button(4), MouseButton::Button5);
    assert_eq!(translate_web_mouse_button(5), MouseButton::Button1);
    assert_eq!(translate_web_mouse_button(-1), MouseButton::Button1);
}

#[test]
fn modifiers_translate() {
    let m = translate_modifiers(ModifiersState { shift: true, control: false, alt: true, super_key: false });
    assert!(m.contains(Modifier::Shift));
    assert!(!m.contains(Modifier::Control));
    assert!(m.contains(Modifier::Alt));
    assert!(!m.contains(Modifier::Super));
    let none = translate_modifiers(ModifiersState { shift: false, control: false, alt: false, super_key: false });
    assert_eq!(none, Modifiers::empty());
}

#[test]
fn close_request_is_handed_on() {
    assert_eq!(
        collect_window_event(NativeWindowEvent::CloseRequested),
        vec![PendingEvent::Emit(CanvasEvent::Close)]
    );
}

#[test]
fn zero_sized_resize_is_dropped() {
    assert!(collect_window_event(NativeWindowEvent::Resized { width: 0, height: 600 }).is_empty());
    assert!(collect_window_event(NativeWindowEvent::Resized { width: 800, height: 0 }).is_empty());
}

#[test]
fn resize_updates_surface_then_reports_framebuffer() {
    assert_eq!(
        collect_window_event(NativeWindowEvent::Resized { width: 800, height: 600 }),
        vec![
            PendingEvent::Resize { width: 800, height: 600 },
            PendingEvent::Emit(CanvasEvent::FramebufferSize(800, 600)),
        ]
    );
}

#[test]
fn mouse_input_records_state_and_is_handed_on() {
    assert_eq!(
        collect_window_event(NativeWindowEvent::MouseInput {
            state: ElementState::Pressed,
            button: NativeMouseButton::Right,
        }),
        vec![
            PendingEvent::ButtonState(MouseButton::Button2, Action::Press),
            PendingEvent::Emit(CanvasEvent::MouseButton(MouseButton::Button2, Action::Press, Modifiers::empty())),
        ]
    );
}

#[test]
fn keyboard_input_records_state_then_characters() {
    assert_eq!(
        collect_window_event(NativeWindowEvent::KeyboardInput {
            state: ElementState::Pressed,
            physical_key: PhysicalKey::Code(KeyCode::KeyH),
            text: vec!['h', 'é'],
        }),
        vec![
            PendingEvent::KeyState(Key::H, Action::Press),
            PendingEvent::Emit(CanvasEvent::Key(Key::H, Action::Press, Modifiers::empty())),
            PendingEvent::Emit(CanvasEvent::Character('h')),
            PendingEvent::Emit(CanvasEvent::Character('é')),
        ]
    );
    assert_eq!(
        collect_window_event(NativeWindowEvent::KeyboardInput {
            state: ElementState::Released,
            physical_key: PhysicalKey::Unidentified,
            text: vec![],
        }),
        vec![
            PendingEvent::KeyState(Key::Unknown, Action::Release),
            PendingEvent::Emit(CanvasEvent::Key(Key::Unknown, Action::Release, Modifiers::empty())),
        ]
    );
}

#[test]
fn modifier_change_only_updates_state() {
    let events = collect_window_event(NativeWindowEvent::ModifiersChanged(ModifiersState {
        shift: false,
        control: true,
        alt: false,
        super_key: false,
    }));
    assert_eq!(events.len(), 1);
    match events[0] {
        PendingEvent::Modifiers(m) => {
            assert!(m.contains(Modifier::Control));
            assert!(!m.contains(Modifier::Shift));
        }
        _ => panic!("expected a modifier update"),
    }
    assert!(collect_window_event(NativeWindowEvent::Other).is_empty());
}

#[test]
fn named_keys_come_from_one_code_only() {
    let codes = [
        KeyCode::KeyA, KeyCode::KeyZ, KeyCode::Digit0, KeyCode::Digit9, KeyCode::F1, KeyCode::F24,
        KeyCode::ShiftLeft, KeyCode::ShiftRight, KeyCode::ControlLeft, KeyCode::ControlRight,
        KeyCode::AltLeft, KeyCode::AltRight, KeyCode::SuperLeft, KeyCode::SuperRight,
        KeyCode::Numpad0, KeyCode::NumpadAdd, KeyCode::NumpadEnter, KeyCode::Enter,
        KeyCode::Copy, KeyCode::Paste, KeyCode::Cut, KeyCode::NumpadClear, KeyCode::Equal,
    ];
    for (i, a) in codes.iter().enumerate() {
        for b in &codes[i + 1..] {
            assert_ne!(translate_key(PhysicalKey::Code(*a)), translate_key(PhysicalKey::Code(*b)));
        }
    }
    let web = ["KeyA", "KeyZ", "Digit0", "MetaLeft", "MetaRight", "ShiftLeft", "NumpadEnter", "Enter", "Equal"];
    for (i, a) in web.iter().enumerate() {
        for b in &web[i + 1..] {
            assert_ne!(translate_web_key(a), translate_web_key(b));
        }
    }
}
