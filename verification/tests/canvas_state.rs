use kiss3d::canvas::{
    depth_sample_count, present_mode, render_targets, texture_extent, CanvasState, PresentMode,
    RenderTargets, SurfaceResize,
};
use kiss3d::event::{Action, Key, Modifier, Modifiers, MouseButton};
use kiss3d::input::{
    collect_window_event, CanvasEvent, ElementState, NativeMouseButton, NativeWindowEvent, PendingEvent,
};
use kiss3d::keyboard::{KeyCode, PhysicalKey};

#[test]
fn new_state_has_everything_released() {
    let s = CanvasState::new(640, 480, 4);
    assert_eq!(s.get_key(Key::A), Action::Release);
    assert_eq!(s.get_key(Key::Unknown), Action::Release);
    assert_eq!(s.get_key(Key::Key1), Action::Release);
    assert_eq!(s.get_mouse_button(MouseButton::Button1), Action::Release);
    assert_eq!(s.get_mouse_button(MouseButton::Button8), Action::Release);
    assert_eq!(s.size(), (640, 480));
    assert_eq!(s.sample_count(), 4);
}

#[test]
fn zero_window_size_is_raised_to_one_pixel() {
    let s = CanvasState::new(0, 0, 1);
    assert_eq!(s.size(), (1, 1));
    let s = CanvasState::new(0, 300, 1);
    assert_eq!(s.size(), (1, 300));
}

#[test]
fn sample_count_is_never_zero() {
    assert_eq!(CanvasState::new(10, 10, 0).sample_count(), 1);
    assert_eq!(CanvasState::new(10, 10, 1).sample_count(), 1);
    assert_eq!(CanvasState::new(10, 10, 8).sample_count(), 8);
}

#[test]
fn key_state_reads_back_last_write() {
    let mut s = CanvasState::new(100, 100, 1);
    assert_eq!(s.apply(PendingEvent::KeyState(Key::W, Action::Press)), None);
    assert_eq!(s.get_key(Key::W), Action::Press);
    assert_eq!(s.get_key(Key::S), Action::Release);
    s.apply(PendingEvent::KeyState(Key::S, Action::Press));
    s.apply(PendingEvent::KeyState(Key::W, Action::Release));
    assert_eq!(s.get_key(Key::W), Action::Release);
    assert_eq!(s.get_key(Key::S), Action::Press);
    s.apply(PendingEvent::KeyState(Key::Unknown, Action::Press));
    assert_eq!(s.get_key(Key::Unknown), Action::Press);
    assert_eq!(s.get_key(Key::Cut), Action::Release);
}

#[test]
fn button_state_reads_back_last_write() {
    let mut s = CanvasState::new(100, 100, 1);
    s.apply(PendingEvent::ButtonState(MouseButton::Button2, Action::Press));
    assert_eq!(s.get_mouse_button(MouseButton::Button2), Action::Press);
    assert_eq!(s.get_mouse_button(MouseButton::Button1), Action::Release);
    assert_eq!(s.get_key(Key::A), Action::Release);
    s.apply(PendingEvent::ButtonState(MouseButton::Button8, Action::Press));
    assert_eq!(s.get_mouse_button(MouseButton::Button8), Action::Press);
}

#[test]
fn handed_on_events_do_not_change_state() {
    let mut s = CanvasState::new(100, 50, 1);
    assert_eq!(s.apply(PendingEvent::Emit(CanvasEvent::Key(Key::A, Action::Press, Modifiers::empty()))), None);
    assert_eq!(s.get_key(Key::A), Action::Release);
    assert_eq!(s.apply(PendingEvent::Emit(CanvasEvent::FramebufferSize(3, 3))), None);
    assert_eq!(s.size(), (100, 50));
}

#[test]
fn modifier_update_changes_no_key() {
    let mut m = Modifiers::empty();
    m.insert(Modifier::Alt);
    let mut s = CanvasState::new(100, 50, 1);
    assert_eq!(s.apply(PendingEvent::Modifiers(m)), None);
    assert_eq!(s.get_key(Key::LAlt), Action::Release);
    assert_eq!(s.size(), (100, 50));
}

#[test]
fn resize_changes_size_and_plans_render_targets() {
    let mut s = CanvasState::new(100, 50, 4);
    let plan = s.apply(PendingEvent::Resize { width: 300, height: 200 });
    assert_eq!(
        plan,
        Some(SurfaceResize {
            width: 300,
            height: 200,
            targets: RenderTargets { width: 300, height: 200, depth_sample_count: 4, msaa_sample_count: Some(4) },
        })
    );
    assert_eq!(s.size(), (300, 200));
    assert_eq!(s.render_targets().width, 300);
    assert_eq!(s.render_targets().height, 200);
}

#[test]
fn resize_without_multisampling_plans_no_msaa_target() {
    let mut s = CanvasState::new(100, 50, 0);
    let plan = s.apply(PendingEvent::Resize { width: 10, height: 20 }).unwrap();
    assert_eq!(plan.targets.msaa_sample_count, None);
    assert_eq!(plan.targets.depth_sample_count, 1);
}

#[test]
fn web_resize_follows_canvas_size() {
    let mut s = CanvasState::new(100, 50, 1);
    assert_eq!(s.web_resize(100, 50), None);
    assert_eq!(s.web_resize(0, 70), None);
    assert_eq!(s.web_resize(70, 0), None);
    assert_eq!(s.size(), (100, 50));
    let plan = s.web_resize(120, 50).unwrap();
    assert_eq!((plan.width, plan.height), (120, 50));
    assert_eq!(s.size(), (120, 50));
}

#[test]
fn render_target_sizes() {
    assert_eq!(texture_extent(0, 0), (1, 1));
    assert_eq!(texture_extent(5, 0), (5, 1));
    assert_eq!(texture_extent(800, 600), (800, 600));
    assert_eq!(depth_sample_count(0), 1);
    assert_eq!(depth_sample_count(4), 4);
    assert_eq!(
        render_targets(0, 7, 1),
        RenderTargets { width: 1, height: 7, depth_sample_count: 1, msaa_sample_count: None }
    );
    assert_eq!(
        render_targets(8, 7, 2),
        RenderTargets { width: 8, height: 7, depth_sample_count: 2, msaa_sample_count: Some(2) }
    );
}

#[test]
fn present_mode_follows_vsync() {
    assert_eq!(present_mode(true), PresentMode::AutoVsync);
    assert_eq!(present_mode(false), PresentMode::AutoNoVsync);
}

#[test]
fn native_events_drive_the_state() {
    let mut s = CanvasState::new(320, 240, 1);
    let mut handed_on = Vec::new();
    let events = vec![
        NativeWindowEvent::KeyboardInput {
            state: ElementState::Pressed,
            physical_key: PhysicalKey::Code(KeyCode::KeyD),
            text: vec!['d'],
        },
        NativeWindowEvent::MouseInput { state: ElementState::Pressed, button: NativeMouseButton::Left },
        NativeWindowEvent::Resized { width: 0, height: 0 },
        NativeWindowEvent::Resized { width: 640, height: 480 },
        NativeWindowEvent::MouseInput { state: ElementState::Released, button: NativeMouseButton::Left },
    ];
    for event in events {
        for pending in collect_window_event(event) {
            if let PendingEvent::Emit(e) = pending {
                handed_on.push(e);
            }
            s.apply(pending);
        }
    }
    assert_eq!(s.get_key(Key::D), Action::Press);
    assert_eq!(s.get_key(Key::A), Action::Release);
    assert_eq!(s.get_mouse_button(MouseButton::Button1), Action::Release);
    assert_eq!(s.size(), (640, 480));
    assert_eq!(handed_on.len(), 5);
    assert_eq!(handed_on[1], CanvasEvent::Character('d'));
    assert_eq!(handed_on[3], CanvasEvent::FramebufferSize(640, 480));
}
