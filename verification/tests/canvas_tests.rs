use kiss3d::canvas::{Canvas, CanvasSetup, PlatformEvent};
use kiss3d::event::{
    translate_modifiers, translate_web_mouse_button, Action, Key, Modifiers, MouseButton, WindowEvent,
};
use kiss3d::input::{InputState, MouseCaptureState};
use kiss3d::NumSamples;

fn open() -> Canvas {
    Canvas::open(640, 480, None, "kiss3d", true)
}

#[test]
fn canvas_setup_default() {
    let s = CanvasSetup::default();
    assert!(s.vsync);
    assert_eq!(s.samples, NumSamples::Four);
    assert_eq!(s.canvas_id, "canvas");
}

#[test]
fn open_uses_setup() {
    let c = open();
    assert_eq!(c.size(), (640, 480));
    assert_eq!(c.sample_count(), 4);
    assert!(c.vsync());
    assert_eq!(c.title(), "kiss3d");
    assert!(c.is_visible());
    assert!(!c.is_fullscreen());
    let setup = CanvasSetup { vsync: false, samples: NumSamples::One, canvas_id: "c".to_string() };
    let c = Canvas::open(10, 20, Some(setup), "t", false);
    assert!(!c.vsync());
    assert_eq!(c.sample_count(), 1);
    assert!(!c.is_visible());
}

#[test]
fn poll_events_translates_in_order() {
    let mut c = open();
    c.push_platform_event(PlatformEvent::ModifiersChanged(Modifiers::shift()));
    c.push_platform_event(PlatformEvent::KeyboardInput(Key::A, Action::Press, vec!['A']));
    c.push_platform_event(PlatformEvent::MouseInput(MouseButton::Button2, Action::Press));
    c.push_platform_event(PlatformEvent::Resized(0, 0));
    c.push_platform_event(PlatformEvent::Resized(800, 600));
    c.push_platform_event(PlatformEvent::CloseRequested);
    c.push_platform_event(PlatformEvent::DroppedFile("a.png".to_string()));
    // nothing is handled before the poll
    assert!(c.take_events().is_empty());
    c.poll_events();
    let shift = Modifiers::shift();
    assert_eq!(
        c.take_events(),
        vec![
            WindowEvent::Key(Key::A, Action::Press, shift),
            WindowEvent::Char('A'),
            WindowEvent::MouseButton(MouseButton::Button2, Action::Press, shift),
            WindowEvent::FramebufferSize(800, 600),
            WindowEvent::Close,
        ]
    );
    assert_eq!(c.get_key(Key::A), Action::Press);
    assert_eq!(c.get_key(Key::B), Action::Release);
    assert_eq!(c.get_mouse_button(MouseButton::Button2), Action::Press);
    assert_eq!(c.get_mouse_button(MouseButton::Button1), Action::Release);
    assert_eq!(c.size(), (800, 600));
    assert_eq!(c.take_dropped_files(), vec!["a.png".to_string()]);
    assert!(c.take_dropped_files().is_empty());
    assert!(c.take_events().is_empty());
}

#[test]
fn key_release_after_press() {
    let mut c = open();
    c.push_platform_event(PlatformEvent::KeyboardInput(Key::Space, Action::Press, vec![' ']));
    c.push_platform_event(PlatformEvent::KeyboardInput(Key::Space, Action::Release, vec![]));
    c.poll_events();
    assert_eq!(c.get_key(Key::Space), Action::Release);
    assert_eq!(c.take_events().len(), 3);
}

#[test]
fn settings_setters() {
    let mut c = open();
    c.set_samples(NumSamples::One);
    assert_eq!(c.sample_count(), 1);
    c.set_vsync(false);
    assert!(!c.vsync());
    c.set_title("other");
    assert_eq!(c.title(), "other");
    c.set_cursor_grab(true);
    assert!(c.is_cursor_grabbed());
    c.hide_cursor(true);
    assert!(c.is_cursor_hidden());
    c.set_fullscreen(true);
    assert!(c.is_fullscreen());
    c.set_keyboard_visible(true);
    assert!(c.is_keyboard_visible());
    c.hide_window();
    assert!(!c.is_visible());
    c.show();
    assert!(c.is_visible());
    c.resize(32, 16);
    assert_eq!(c.size(), (32, 16));
}

fn rgba_2x2() -> Vec<u8> {
    // pixel (row, col): value 10 * (2 * row + col) + channel
    let mut v = Vec::new();
    for p in 0..4u8 {
        for ch in 0..4u8 {
            v.push(10 * p + ch);
        }
    }
    v
}

#[test]
fn read_pixels_gives_rgb_rect() {
    let mut c = open();
    c.copy_to_readback(rgba_2x2(), 2, 2);
    let mut out = vec![99u8];
    c.read_pixels(&mut out, 0, 0, 2, 2);
    assert_eq!(out, vec![0, 1, 2, 10, 11, 12, 20, 21, 22, 30, 31, 32]);
    c.read_pixels(&mut out, 1, 1, 1, 1);
    assert_eq!(out, vec![30, 31, 32]);
}

#[test]
fn async_readback() {
    let mut c = open();
    c.copy_to_readback(rgba_2x2(), 2, 2);
    let mut out = vec![7u8];
    assert_eq!(c.finish_read_pixels(&mut out), None);
    assert_eq!(out, vec![7]);
    c.begin_read_pixels(0, 1, 2, 1);
    // the readback captures the texture as it was when it began
    c.copy_to_readback(vec![0; 16], 2, 2);
    assert_eq!(c.finish_read_pixels(&mut out), Some((2, 1)));
    assert_eq!(out, vec![20, 21, 22, 30, 31, 32]);
    assert_eq!(c.finish_read_pixels(&mut out), None);
}

#[test]
fn modifiers_translation() {
    let m = translate_modifiers(true, false, true, false);
    assert!(m.shift && !m.control && m.alt && !m.super_key);
    assert!(m.contains(Modifiers::shift()));
    assert!(!m.contains(Modifiers::control()));
    assert_eq!(translate_modifiers(false, false, false, false), Modifiers::empty());
}

#[test]
fn web_mouse_buttons() {
    assert_eq!(translate_web_mouse_button(0), MouseButton::Button1);
    assert_eq!(translate_web_mouse_button(1), MouseButton::Button3);
    assert_eq!(translate_web_mouse_button(2), MouseButton::Button2);
    assert_eq!(translate_web_mouse_button(3), MouseButton::Button4);
    assert_eq!(translate_web_mouse_button(4), MouseButton::Button5);
    assert_eq!(translate_web_mouse_button(-1), MouseButton::Button5);
    assert_eq!(translate_web_mouse_button(9), MouseButton::Button5);
}

#[test]
fn mouse_capture_state_machine() {
    let mut input = InputState::new();
    let mut s = MouseCaptureState::NotCaptured;
    let m = Modifiers::empty();
    // press outside: ignored until every button is up
    assert_eq!(s.mouse_down(true, MouseButton::Button1, m, &mut input), None);
    assert_eq!(s, MouseCaptureState::OtherElement);
    assert!(!s.mouse_move(false));
    assert_eq!(s.mouse_up(1, MouseButton::Button1, m, &mut input), None);
    assert_eq!(s, MouseCaptureState::OtherElement);
    assert_eq!(s.mouse_up(0, MouseButton::Button1, m, &mut input), None);
    assert_eq!(s, MouseCaptureState::NotCaptured);
    // press over the canvas: captured until released
    assert_eq!(
        s.mouse_down(false, MouseButton::Button1, m, &mut input),
        Some(WindowEvent::MouseButton(MouseButton::Button1, Action::Press, m))
    );
    assert_eq!(s, MouseCaptureState::Captured);
    assert!(s.mouse_move(true));
    assert_eq!(input.get_mouse_button(MouseButton::Button1), Action::Press);
    assert_eq!(
        s.mouse_up(0, MouseButton::Button1, m, &mut input),
        Some(WindowEvent::MouseButton(MouseButton::Button1, Action::Release, m))
    );
    assert_eq!(s, MouseCaptureState::NotCaptured);
    assert!(input.all_buttons_released());
}
