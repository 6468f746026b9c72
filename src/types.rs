//! Plain screen-space values and input events.
use vstd::prelude::*;

verus! {

/// A screen point in whole pixels.
#[derive(Clone, Copy, Debug, PartialEq, Eq, Structural)]
pub struct Point {
    pub x: i64,
    pub y: i64,
}

/// A size in whole pixels.
#[derive(Clone, Copy, Debug, PartialEq, Eq, Structural)]
pub struct Size {
    pub width: u32,
    pub height: u32,
}

/// The screen area of a widget: top-left corner and size.
#[derive(Clone, Copy, Debug, PartialEq, Eq, Structural)]
pub struct Rectangle {
    pub x: i32,
    pub y: i32,
    pub width: u32,
    pub height: u32,
}

/// A rectangle in data space; its width and height may be negative.
#[derive(Clone, Copy, Debug, PartialEq, Eq, Structural)]
pub struct Window {
    pub x: i64,
    pub y: i64,
    pub width: i64,
    pub height: i64,
}

impl Rectangle {
    /// Whether `p` lies inside: the top and left edges are inside, the
    /// bottom and right edges are not.
    pub open spec fn contains_spec(self, p: Point) -> bool {
        self.x <= p.x < self.x + self.width && self.y <= p.y < self.y + self.height
    }

    pub open spec fn size_spec(self) -> Size {
        Size { width: self.width, height: self.height }
    }

    pub fn size(&self) -> (r: Size)
        ensures
            r == self.size_spec(),
    {
        Size { width: self.width, height: self.height }
    }

    pub fn contains(&self, p: Point) -> (r: bool)
        ensures
            r == self.contains_spec(p),
    {
        self.x as i64 <= p.x && p.x < self.x as i64 + self.width as i64 && self.y as i64 <= p.y
            && p.y < self.y as i64 + self.height as i64
    }
}

/// Where the pointer is, if the host knows.
#[derive(Clone, Copy, Debug, PartialEq, Eq, Structural)]
pub enum Cursor {
    Available(Point),
    Unavailable,
}

impl Cursor {
    /// The pointer position relative to `bounds`, when it lies inside them.
    pub open spec fn position_in_spec(self, bounds: Rectangle) -> Option<Point> {
        match self {
            Cursor::Available(p) => if bounds.contains_spec(p) {
                Some(Point { x: (p.x - bounds.x) as i64, y: (p.y - bounds.y) as i64 })
            } else {
                None
            },
            Cursor::Unavailable => None,
        }
    }

    pub fn position_in(&self, bounds: Rectangle) -> (r: Option<Point>)
        ensures
            r == self.position_in_spec(bounds),
    {
        match self {
            Cursor::Available(p) => if bounds.contains(*p) {
                Some(Point { x: p.x - bounds.x as i64, y: p.y - bounds.y as i64 })
            } else {
                None
            },
            Cursor::Unavailable => None,
        }
    }
}

#[derive(Clone, Copy, Debug, PartialEq, Eq, Structural)]
pub enum Button {
    Left,
    Right,
    Middle,
    Other,
}

/// A wheel movement, in whole lines or in whole pixels.
#[derive(Clone, Copy, Debug, PartialEq, Eq, Structural)]
pub enum ScrollDelta {
    Lines(i32),
    Pixels(i32),
}

impl ScrollDelta {
    /// The delta in twentieths of a line: a pixel is a twentieth of a line.
    pub open spec fn twentieths_spec(self) -> int {
        match self {
            ScrollDelta::Lines(y) => 20 * y,
            ScrollDelta::Pixels(y) => y as int,
        }
    }

    pub fn twentieths(&self) -> (r: i64)
        ensures
            r == self.twentieths_spec(),
    {
        match self {
            ScrollDelta::Lines(y) => 20 * (*y as i64),
            ScrollDelta::Pixels(y) => *y as i64,
        }
    }
}

#[derive(Clone, Copy, Debug, PartialEq, Eq, Structural)]
pub enum MouseEvent {
    ButtonPressed(Button),
    ButtonReleased(Button),
    CursorMoved(Point),
    WheelScrolled(ScrollDelta),
}

/// The keys the viewport reacts to; every other key is `Other`.
#[derive(Clone, Copy, Debug, PartialEq, Eq, Structural)]
pub enum Key {
    Control,
    Shift,
    Alt,
    Other,
}

#[derive(Clone, Copy, Debug, PartialEq, Eq, Structural)]
pub enum KeyboardEvent {
    KeyPressed(Key),
    KeyReleased(Key),
}

/// An input event as delivered by the host.
#[derive(Clone, Copy, Debug, PartialEq, Eq, Structural)]
pub enum Event {
    Mouse(MouseEvent),
    Keyboard(KeyboardEvent),
    Other,
}

} // verus!
