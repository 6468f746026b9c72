use candle_chart::app::{CandleChart, Message};
use candle_chart::candles::Candle;
use candle_chart::chart::State;
use candle_chart::example::{self, CardExample};
use candle_chart::style;
use candle_chart::types::{Cursor, Event, Key, KeyboardEvent, MouseEvent, Point, Rectangle, ScrollDelta};

fn bounds() -> Rectangle {
    Rectangle { x: 0, y: 0, width: 800, height: 600 }
}

fn data() -> Vec<Candle> {
    vec![
        Candle { open: 117000, high: 118000, low: 116500, close: 117500 },
        Candle { open: 117200, high: 117400, low: 116800, close: 117000 },
    ]
}

fn drawn(s: &mut State, cursor: Cursor) {
    s.draw(&style::default(), bounds(), cursor);
}

#[test]
fn wheel_clears_both_layers() {
    let mut s = State::new(data());
    drawn(&mut s, Cursor::Unavailable);
    assert!(s.cache.primary.is_some() && s.cache.overlay.is_some());
    let at = Cursor::Available(Point { x: 400, y: 300 });
    assert!(s.update(&Event::Mouse(MouseEvent::WheelScrolled(ScrollDelta::Lines(1))), bounds(), at));
    assert!(s.cache.primary.is_none());
    assert!(s.cache.overlay.is_none());
}

#[test]
fn control_key_alone_keeps_layers() {
    let mut s = State::new(data());
    drawn(&mut s, Cursor::Unavailable);
    let before = s.cache.primary.as_ref().unwrap().primitives.clone();
    assert!(!s.update(&Event::Keyboard(KeyboardEvent::KeyPressed(Key::Control)), bounds(), Cursor::Unavailable));
    assert!(s.cache.primary.is_some() && s.cache.overlay.is_some());
    assert_eq!(s.cache.primary.as_ref().unwrap().primitives, before);
}

#[test]
fn hover_keeps_stale_crosshair() {
    let mut s = State::new(data());
    drawn(&mut s, Cursor::Available(Point { x: 100, y: 100 }));
    let before = s.cache.overlay.as_ref().unwrap().primitives.clone();
    let to = Cursor::Available(Point { x: 500, y: 400 });
    assert!(!s.update(&Event::Mouse(MouseEvent::CursorMoved(Point { x: 500, y: 400 })), bounds(), to));
    drawn(&mut s, to);
    assert_eq!(s.cache.overlay.as_ref().unwrap().primitives, before);
}

#[test]
fn resize_rebuilds_layers() {
    let mut s = State::new(data());
    drawn(&mut s, Cursor::Unavailable);
    let b2 = Rectangle { x: 0, y: 0, width: 400, height: 300 };
    s.draw(&style::default(), b2, Cursor::Unavailable);
    assert_eq!(s.cache.primary.as_ref().unwrap().size.width, 400);
    assert_eq!(s.cache.overlay.as_ref().unwrap().size.height, 300);
}

#[test]
fn new_data_clears_layers() {
    let mut s = State::new(data());
    drawn(&mut s, Cursor::Unavailable);
    s.set_data(Vec::new());
    assert!(s.cache.primary.is_none() && s.cache.overlay.is_none());
    drawn(&mut s, Cursor::Unavailable);
    assert_eq!(s.cache.primary.as_ref().unwrap().primitives.len(), 1);
}

#[test]
fn app_messages_drive_the_chart() {
    let mut c = CandleChart::new(data());
    c.state.draw(&style::default(), bounds(), Cursor::Unavailable);
    let at = Cursor::Available(Point { x: 100, y: 100 });
    let m = Message::Viewport(Event::Mouse(MouseEvent::ButtonPressed(candle_chart::types::Button::Left)), bounds(), at);
    assert!(c.update(m));
    assert!(c.state.cache.primary.is_none());
    let k = Message::Viewport(Event::Keyboard(KeyboardEvent::KeyPressed(Key::Shift)), bounds(), at);
    assert!(!c.update(k));
}

#[test]
fn example_submit_changes_nothing() {
    let mut e = CardExample::new();
    e.update(example::Message::Submit);
    assert_eq!(e, CardExample::new());
}
