use candle_chart::types::{
    Button, Cursor, Event, Key, KeyboardEvent, MouseEvent, Point, Rectangle, ScrollDelta,
};
use candle_chart::viewport::{Mode, ViewportManager};

fn bounds() -> Rectangle {
    Rectangle { x: 0, y: 0, width: 800, height: 600 }
}

fn at(x: i64, y: i64) -> Cursor {
    Cursor::Available(Point { x, y })
}

fn wheel(d: ScrollDelta) -> Event {
    Event::Mouse(MouseEvent::WheelScrolled(d))
}

fn key_down(k: Key) -> Event {
    Event::Keyboard(KeyboardEvent::KeyPressed(k))
}

fn key_up(k: Key) -> Event {
    Event::Keyboard(KeyboardEvent::KeyReleased(k))
}

#[test]
fn new_has_initial_values() {
    let vp = ViewportManager::new();
    assert_eq!(vp.offset_x, 0);
    assert_eq!(vp.offset_y, 117420);
    assert_eq!(vp.scale, 1000);
    assert_eq!(vp.height, 60000);
    assert_eq!(vp.mode, Mode::Default);
    assert_eq!(vp.drag_state, None);
}

#[test]
fn anchor_price_maps_to_right_centre() {
    let vp = ViewportManager::new();
    let b = bounds();
    assert_eq!(vp.transform(0, 117420, &b), Point { x: 800, y: 300 });
    let b2 = Rectangle { x: 10, y: 20, width: 1234, height: 1000 };
    assert_eq!(vp.transform(0, 117420, &b2), Point { x: 1234, y: 500 });
    assert_eq!(vp.transform_point(Point { x: 0, y: 117420 }, &b2), Point { x: 1234, y: 500 });
}

#[test]
fn transform_inverts_vertical_axis() {
    let vp = ViewportManager::new();
    let b = bounds();
    // The top of the visible range is the anchor plus the half span.
    assert_eq!(vp.transform(0, 177420, &b).y, 0);
    assert_eq!(vp.transform(0, 57420, &b).y, 600);
    assert!(vp.transform(0, 130000, &b).y < vp.transform(0, 100000, &b).y);
    // One bar of 10 units at scale one moves 10 pixels to the left.
    assert_eq!(vp.transform(10, 117420, &b).x, 790);
}

#[test]
fn untransform_omits_width_in_x() {
    let vp = ViewportManager::new();
    let b = bounds();
    assert_eq!(vp.untransform(0, 300, &b), Point { x: 0, y: 117420 });
    assert_eq!(vp.untransform(800, 0, &b), Point { x: 800, y: 177420 });
    assert_eq!(vp.untransform(0, 600, &b).y, 57420);
}

#[test]
fn window_spans_the_view() {
    let vp = ViewportManager::new();
    let w = vp.get_window(&bounds());
    assert_eq!(w.x, 800);
    assert_eq!(w.y, 57420);
    assert_eq!(w.width, -800);
    assert_eq!(w.height, 120000);
}

#[test]
fn drag_pans_and_release_stops() {
    let mut vp = ViewportManager::new();
    let b = bounds();
    let down = Event::Mouse(MouseEvent::ButtonPressed(Button::Left));
    assert!(vp.on_event(&down, b, at(100, 100)));
    assert_eq!(vp.drag_state, Some(Point { x: 100, y: 100 }));
    let mv = Event::Mouse(MouseEvent::CursorMoved(Point { x: 130, y: 80 }));
    assert!(vp.on_event(&mv, b, at(130, 80)));
    assert_eq!(vp.offset_x, 30);
    assert_eq!(vp.offset_y, 117420 - 4000);
    let up = Event::Mouse(MouseEvent::ButtonReleased(Button::Left));
    assert!(!vp.on_event(&up, b, at(130, 80)));
    let mv2 = Event::Mouse(MouseEvent::CursorMoved(Point { x: 200, y: 200 }));
    assert!(!vp.on_event(&mv2, b, at(200, 200)));
    assert_eq!(vp.offset_x, 30);
    assert_eq!(vp.offset_y, 113420);
}

#[test]
fn press_outside_bounds_does_not_drag() {
    let mut vp = ViewportManager::new();
    let b = Rectangle { x: 100, y: 100, width: 200, height: 200 };
    let down = Event::Mouse(MouseEvent::ButtonPressed(Button::Left));
    assert!(!vp.on_event(&down, b, at(50, 50)));
    assert_eq!(vp.drag_state, None);
    assert!(vp.on_event(&down, b, at(150, 120)));
    assert_eq!(vp.drag_state, Some(Point { x: 50, y: 20 }));
    assert!(!vp.on_event(&down, b, Cursor::Unavailable));
    let right = Event::Mouse(MouseEvent::ButtonPressed(Button::Right));
    let mut other = ViewportManager::new();
    assert!(!other.on_event(&right, b, at(150, 120)));
    assert_eq!(other, ViewportManager::new());
}

#[test]
fn wheel_zoom_clamps_at_largest_scale() {
    let mut vp = ViewportManager::new();
    let b = bounds();
    for _ in 0..5 {
        assert!(vp.on_event(&wheel(ScrollDelta::Lines(100)), b, at(400, 300)));
        assert_eq!(vp.scale, 10000);
    }
}

#[test]
fn wheel_zoom_clamps_at_smallest_scale() {
    let mut vp = ViewportManager::new();
    let b = bounds();
    for _ in 0..5 {
        assert!(vp.on_event(&wheel(ScrollDelta::Lines(-100)), b, at(400, 300)));
        assert_eq!(vp.scale, 100);
    }
}

#[test]
fn wheel_zoom_steps_by_a_tenth_per_line() {
    let mut vp = ViewportManager::new();
    let b = bounds();
    vp.offset_x = 100;
    assert!(vp.on_event(&wheel(ScrollDelta::Lines(1)), b, at(400, 300)));
    assert_eq!(vp.scale, 1100);
    assert_eq!(vp.offset_x, 110);
    // Twenty pixels count as one line.
    assert!(vp.on_event(&wheel(ScrollDelta::Pixels(-20)), b, at(400, 300)));
    assert_eq!(vp.scale, 1000);
    assert_eq!(vp.offset_x, 100);
}

#[test]
fn wheel_outside_bounds_is_ignored() {
    let mut vp = ViewportManager::new();
    let b = bounds();
    assert!(!vp.on_event(&wheel(ScrollDelta::Lines(1)), b, at(900, 300)));
    assert_eq!(vp, ViewportManager::new());
}

#[test]
fn ctrl_zoom_pivots_on_pointer() {
    let mut vp = ViewportManager::new();
    let b = bounds();
    assert!(!vp.on_event(&key_down(Key::Control), b, at(400, 300)));
    assert_eq!(vp.mode, Mode::CtrlHeld);
    assert!(vp.on_event(&wheel(ScrollDelta::Lines(10)), b, at(400, 300)));
    // pivot = 400 - 800 = -400; offset = -400 + (0 + 400) * 2 = 400
    assert_eq!(vp.scale, 2000);
    assert_eq!(vp.offset_x, 400);
}

#[test]
fn shift_wheel_pans_horizontally() {
    let mut vp = ViewportManager::new();
    let b = bounds();
    vp.on_event(&key_down(Key::Shift), b, at(400, 300));
    assert_eq!(vp.mode, Mode::ShiftHeld);
    assert!(vp.on_event(&wheel(ScrollDelta::Lines(2)), b, at(400, 300)));
    assert_eq!(vp.offset_x, 100);
    assert_eq!(vp.scale, 1000);
}

#[test]
fn alt_wheel_zooms_vertically_with_floor() {
    let mut vp = ViewportManager::new();
    let b = bounds();
    vp.on_event(&key_down(Key::Alt), b, at(400, 300));
    assert_eq!(vp.mode, Mode::AltHeld);
    assert!(vp.on_event(&wheel(ScrollDelta::Lines(2)), b, at(400, 300)));
    assert_eq!(vp.height, 50000);
    assert!(vp.on_event(&wheel(ScrollDelta::Lines(-1)), b, at(400, 300)));
    assert_eq!(vp.height, 55000);
    assert!(vp.on_event(&wheel(ScrollDelta::Lines(100)), b, at(400, 300)));
    assert_eq!(vp.height, 1000);
}

#[test]
fn releasing_any_modifier_returns_to_default() {
    let mut vp = ViewportManager::new();
    let b = bounds();
    vp.on_event(&key_down(Key::Control), b, Cursor::Unavailable);
    vp.on_event(&key_down(Key::Shift), b, Cursor::Unavailable);
    assert_eq!(vp.mode, Mode::ShiftHeld);
    assert!(!vp.on_event(&key_up(Key::Control), b, Cursor::Unavailable));
    assert_eq!(vp.mode, Mode::Default);
    vp.on_event(&key_down(Key::Alt), b, Cursor::Unavailable);
    vp.on_event(&key_up(Key::Other), b, Cursor::Unavailable);
    assert_eq!(vp.mode, Mode::AltHeld);
    vp.on_event(&key_down(Key::Other), b, Cursor::Unavailable);
    assert_eq!(vp.mode, Mode::AltHeld);
    assert!(!vp.on_event(&Event::Other, b, Cursor::Unavailable));
}
