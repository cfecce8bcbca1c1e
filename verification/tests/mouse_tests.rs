use frame_loop::events::InputEvent;
use frame_loop::mouse::Mouse;

#[test]
fn fresh_mouse_reports_nothing() {
    let m = Mouse::new();
    for b in 0..10 {
        assert!(!m.is_pressed(b));
        assert!(!m.pressed_this_frame(b));
        assert!(!m.released_this_frame(b));
    }
    assert_eq!(m.get_pos(), (0, 0));
    assert_eq!(m.get_delta(), (0, 0));
    assert_eq!(m.get_scroll(), (0, 0));
}

#[test]
fn button_ten_is_rejected_without_effect() {
    let mut m = Mouse::new();
    m.handle_event(&InputEvent::Button { index: 3, pressed: true });
    m.handle_event(&InputEvent::Button { index: 10, pressed: true });
    m.handle_event(&InputEvent::Button { index: 10, pressed: false });
    m.handle_event(&InputEvent::Button { index: 250, pressed: true });
    for b in 0..10 {
        assert_eq!(m.is_pressed(b), b == 3);
        assert_eq!(m.pressed_this_frame(b), b == 3);
        assert!(!m.released_this_frame(b));
    }
}

#[test]
fn button_press_and_release_edges() {
    let mut m = Mouse::new();
    m.handle_event(&InputEvent::Button { index: 0, pressed: true });
    assert!(m.is_pressed(0));
    assert!(m.pressed_this_frame(0));
    m.next_frame();
    assert!(m.is_pressed(0));
    assert!(!m.pressed_this_frame(0));
    m.handle_event(&InputEvent::Button { index: 0, pressed: false });
    assert!(!m.is_pressed(0));
    assert!(m.released_this_frame(0));
    m.next_frame();
    assert!(!m.released_this_frame(0));
}

#[test]
fn cursor_move_overwrites_position_only() {
    let mut m = Mouse::new();
    m.handle_event(&InputEvent::CursorMoved { x: 11, y: -7 });
    m.handle_event(&InputEvent::CursorMoved { x: 40, y: 2 });
    assert_eq!(m.get_pos(), (40, 2));
    assert_eq!(m.get_delta(), (0, 0));
}

#[test]
fn motion_accumulates_while_focused() {
    let mut m = Mouse::new();
    m.handle_event(&InputEvent::Motion { dx: 1500, dy: -250 });
    m.handle_event(&InputEvent::Motion { dx: 500, dy: 250 });
    assert_eq!(m.get_delta(), (2000, 0));
    m.handle_event(&InputEvent::Focused { focused: false });
    m.handle_event(&InputEvent::Motion { dx: 9000, dy: 9000 });
    assert_eq!(m.get_delta(), (2000, 0));
    m.handle_event(&InputEvent::Focused { focused: true });
    m.handle_event(&InputEvent::Motion { dx: 1, dy: 1 });
    assert_eq!(m.get_delta(), (2001, 1));
}

#[test]
fn scroll_accumulates_while_focused() {
    let mut m = Mouse::new();
    m.handle_event(&InputEvent::Wheel { dx: 1000, dy: 0 });
    m.handle_event(&InputEvent::Wheel { dx: 2000, dy: -500 });
    assert_eq!(m.get_scroll(), (3000, -500));
    m.handle_event(&InputEvent::Focused { focused: false });
    m.handle_event(&InputEvent::Wheel { dx: 1000, dy: 1000 });
    assert_eq!(m.get_scroll(), (3000, -500));
}

#[test]
fn next_frame_zeroes_accumulators_and_edges() {
    let mut m = Mouse::new();
    m.handle_event(&InputEvent::Button { index: 2, pressed: true });
    m.handle_event(&InputEvent::Motion { dx: 123, dy: 456 });
    m.handle_event(&InputEvent::Wheel { dx: 7, dy: 8 });
    m.handle_event(&InputEvent::CursorMoved { x: 5, y: 6 });
    m.next_frame();
    assert_eq!(m.get_delta(), (0, 0));
    assert_eq!(m.get_scroll(), (0, 0));
    assert!(m.is_pressed(2));
    assert!(!m.pressed_this_frame(2));
    assert_eq!(m.get_pos(), (5, 6));
}

#[test]
fn translate_saturates_instead_of_wrapping() {
    let mut m = Mouse::new();
    m.translate((i64::MAX, i64::MIN));
    m.translate((1, -1));
    assert_eq!(m.get_delta(), (i64::MAX, i64::MIN));
}
