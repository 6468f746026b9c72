//! The viewport: pan, zoom and modifier state, the data/screen transform,
//! and the state machine that input events drive.
use vstd::prelude::*;
use crate::arith::{clamp_i64, floor_div, saturate_i64};
use crate::types::{
    Button, Cursor, Event, Key, KeyboardEvent, MouseEvent, Point, Rectangle, ScrollDelta, Window,
};

verus! {

/// Smallest zoom scale, in thousandths.
pub const MIN_SCALE: u32 = 100;

/// Largest zoom scale, in thousandths.
pub const MAX_SCALE: u32 = 10000;

/// Smallest vertical half span, in price units.
pub const MIN_HALF_SPAN: i64 = 1000;

/// The modifier that changes what the wheel does. Only one is active:
/// releasing any of them returns to `Default`.
#[derive(Clone, Copy, Debug, PartialEq, Eq, Structural)]
pub enum Mode {
    Default,
    CtrlHeld,
    ShiftHeld,
    AltHeld,
}

/// Pan/zoom state. `scale` is in thousandths (1000 is a scale of one);
/// `height` is the vertical half span in price units; offsets are in
/// screen pixels (x) and price units (y).
#[derive(Clone, Copy, Debug, PartialEq, Eq, Structural)]
pub struct ViewportManager {
    pub offset_x: i64,
    pub offset_y: i64,
    pub scale: u32,
    pub height: i64,
    pub mode: Mode,
    pub drag_state: Option<Point>,
}

/// Horizontal screen coordinate of data x: `width - x * scale + offset_x`,
/// rounded down. Data x grows to the left from the right edge.
pub open spec fn screen_x(vp: ViewportManager, x: int, bounds: Rectangle) -> int {
    clamp_i64((1000 * bounds.width - x * vp.scale + 1000 * vp.offset_x) / 1000)
}

/// Vertical screen coordinate of a price given in thousandths:
/// `(1/2 - (y - offset_y) / (2 * half_span)) * height`, rounded down. Higher
/// prices are higher up, that is at smaller screen y.
pub open spec fn screen_y_milli(vp: ViewportManager, y_milli: int, bounds: Rectangle) -> int {
    clamp_i64(((1000 * vp.height - (y_milli - 1000 * vp.offset_y)) * bounds.height) / (2000
        * vp.height))
}

/// Data x for screen x: `(sx + offset_x) / scale`, rounded down. The bounds
/// width of `screen_x` does not enter here, so the two are not inverses.
pub open spec fn data_x(vp: ViewportManager, sx: int) -> int {
    clamp_i64(((sx + vp.offset_x) * 1000) / (vp.scale as int))
}

/// Price under screen y: `offset_y + (1/2 - sy / height) * 2 * half_span`,
/// rounded down.
pub open spec fn data_y(vp: ViewportManager, sy: int, bounds: Rectangle) -> int {
    clamp_i64(vp.offset_y + ((bounds.height - 2 * sy) * vp.height) / (bounds.height as int))
}

/// The visible data-space window.
pub open spec fn window_of(vp: ViewportManager, bounds: Rectangle) -> Window {
    let x0 = data_x(vp, bounds.width as int);
    let y0 = data_y(vp, bounds.height as int, bounds);
    Window {
        x: x0 as i64,
        y: y0 as i64,
        width: clamp_i64(data_x(vp, 0) - x0) as i64,
        height: clamp_i64(data_y(vp, 0, bounds) - y0) as i64,
    }
}

/// Clamps a scale into its allowed range.
pub open spec fn clamp_scale(s: int) -> int {
    if s < MIN_SCALE {
        MIN_SCALE as int
    } else if s > MAX_SCALE {
        MAX_SCALE as int
    } else {
        s
    }
}

impl ViewportManager {
    /// The invariants: scale within its range, half span at least its
    /// minimum, and a drag anchor that is a position relative to the bounds.
    pub open spec fn wf(self) -> bool {
        &&& MIN_SCALE <= self.scale <= MAX_SCALE
        &&& self.height >= MIN_HALF_SPAN
        &&& self.drag_state matches Some(p) ==> 0 <= p.x < 0x1_0000_0000 && 0 <= p.y < 0x1_0000_0000
    }

    /// State after a drag step from `last` to `pos`.
    pub open spec fn dragged(self, last: Point, pos: Point, bounds: Rectangle) -> Self {
        ViewportManager {
            offset_x: clamp_i64(self.offset_x + pos.x - last.x) as i64,
            offset_y: clamp_i64(
                self.offset_y + ((pos.y - last.y) * 2 * self.height) / (bounds.height as int),
            ) as i64,
            drag_state: Some(pos),
            ..self
        }
    }

    /// State after a wheel movement of `d` twentieths of a line at `pos`.
    pub open spec fn scrolled(self, d: int, pos: Point, bounds: Rectangle) -> Self {
        match self.mode {
            Mode::AltHeld => {
                let h = clamp_i64(self.height - 250 * d);
                ViewportManager {
                    height: (if h < MIN_HALF_SPAN {
                        MIN_HALF_SPAN as int
                    } else {
                        h
                    }) as i64,
                    ..self
                }
            },
            Mode::ShiftHeld => ViewportManager {
                offset_x: clamp_i64(self.offset_x + (d * self.scale) / 400) as i64,
                ..self
            },
            _ => {
                let s = clamp_scale(self.scale + 5 * d);
                let pivot = if self.mode == Mode::Default {
                    0
                } else {
                    pos.x - bounds.width
                };
                ViewportManager {
                    scale: s as u32,
                    offset_x: clamp_i64(
                        pivot + ((self.offset_x - pivot) * s) / (self.scale as int),
                    ) as i64,
                    ..self
                }
            },
        }
    }

    /// State and redraw request after a mouse event.
    pub open spec fn after_mouse(self, e: MouseEvent, bounds: Rectangle, cursor: Cursor) -> (
        Self,
        bool,
    ) {
        let at = cursor.position_in_spec(bounds);
        match e {
            MouseEvent::ButtonPressed(Button::Left) => (
                ViewportManager { drag_state: at, ..self },
                at is Some,
            ),
            MouseEvent::ButtonReleased(Button::Left) => (
                ViewportManager { drag_state: None, ..self },
                false,
            ),
            MouseEvent::CursorMoved(_) => match (at, self.drag_state) {
                (Some(pos), Some(last)) => (self.dragged(last, pos, bounds), true),
                _ => (self, false),
            },
            MouseEvent::WheelScrolled(delta) => match at {
                Some(pos) => (self.scrolled(delta.twentieths_spec(), pos, bounds), true),
                None => (self, false),
            },
            _ => (self, false),
        }
    }

    /// State after a keyboard event; keys never request a redraw.
    pub open spec fn after_key(self, e: KeyboardEvent) -> Self {
        match e {
            KeyboardEvent::KeyPressed(Key::Control) => ViewportManager { mode: Mode::CtrlHeld, ..self },
            KeyboardEvent::KeyPressed(Key::Shift) => ViewportManager { mode: Mode::ShiftHeld, ..self },
            KeyboardEvent::KeyPressed(Key::Alt) => ViewportManager { mode: Mode::AltHeld, ..self },
            KeyboardEvent::KeyReleased(Key::Other) => self,
            KeyboardEvent::KeyReleased(_) => ViewportManager { mode: Mode::Default, ..self },
            _ => self,
        }
    }

    /// State and redraw request after any event.
    pub open spec fn after(self, e: Event, bounds: Rectangle, cursor: Cursor) -> (Self, bool) {
        match e {
            Event::Mouse(m) => self.after_mouse(m, bounds, cursor),
            Event::Keyboard(k) => (self.after_key(k), false),
            Event::Other => (self, false),
        }
    }

    /// The initial viewport: price 117420 at the vertical centre, a scale
    /// of one, a half span of 60000, no modifier and no drag.
    pub open spec fn new_spec() -> Self {
        ViewportManager {
            offset_x: 0,
            offset_y: 117420,
            scale: 1000,
            height: 60000,
            mode: Mode::Default,
            drag_state: None,
        }
    }

    pub fn new() -> (r: Self)
        ensures
            r.wf(),
            r == Self::new_spec(),
    {
        ViewportManager {
            offset_x: 0,
            offset_y: 117420,
            scale: 1000,
            height: 60000,
            mode: Mode::Default,
            drag_state: None,
        }
    }
    /// Screen point of a data point.
    pub fn transform(&self, x: i64, y: i64, bounds: &Rectangle) -> (r: Point)
        requires
            self.wf(),
        ensures
            r.x == screen_x(*self, x as int, *bounds),
            r.y == screen_y_milli(*self, 1000 * y, *bounds),
    {
        self.transform_milli(x as i128, y as i128 * 1000, bounds)
    }

    /// Screen point of a data point whose price is given in thousandths.
    pub fn transform_milli(&self, x: i128, y_milli: i128, bounds: &Rectangle) -> (r: Point)
        requires
            self.wf(),
            -0x1_0000_0000_0000_0000_0000_0000 <= x <= 0x1_0000_0000_0000_0000_0000_0000,
            -0x1_0000_0000_0000_0000_0000 <= y_milli <= 0x1_0000_0000_0000_0000_0000,
        ensures
            r.x == screen_x(*self, x as int, *bounds),
            r.y == screen_y_milli(*self, y_milli as int, *bounds),
    {
        proof {
            assert(-0x1_0000_0000_0000_0000_0000_0000 * 10000 <= x * self.scale
                <= 0x1_0000_0000_0000_0000_0000_0000 * 10000) by (nonlinear_arith)
                requires
                    -0x1_0000_0000_0000_0000_0000_0000 <= x <= 0x1_0000_0000_0000_0000_0000_0000,
                    0 <= self.scale <= 10000,
            ;
        }
        let nx: i128 = 1000 * bounds.width as i128 - x * self.scale as i128 + 1000
            * self.offset_x as i128;
        let sx = floor_div(nx, 1000);
        let span: i128 = 1000 * self.height as i128 - (y_milli - 1000 * self.offset_y as i128);
        proof {
            assert(-0x4_0000_0000_0000_0000_0000 * 0x1_0000_0000 <= span * bounds.height
                <= 0x4_0000_0000_0000_0000_0000 * 0x1_0000_0000) by (nonlinear_arith)
                requires
                    -0x4_0000_0000_0000_0000_0000 <= span <= 0x4_0000_0000_0000_0000_0000,
                    0 <= bounds.height < 0x1_0000_0000,
            ;
        }
        let sy = floor_div(span * bounds.height as i128, 2000 * self.height as i128);
        proof {
            assert(-(span * bounds.height) <= sy <= span * bounds.height || span * bounds.height
                <= sy <= -(span * bounds.height)) by (nonlinear_arith)
                requires
                    sy == (span * bounds.height) / (2000 * self.height),
                    self.height >= 1,
            ;
        }
        Point { x: saturate_i64(sx), y: saturate_i64(sy) }
    }

    /// Screen point of a data point.
    pub fn transform_point(&self, point: Point, bounds: &Rectangle) -> (r: Point)
        requires
            self.wf(),
        ensures
            r.x == screen_x(*self, point.x as int, *bounds),
            r.y == screen_y_milli(*self, 1000 * point.y, *bounds),
    {
        self.transform(point.x, point.y, bounds)
    }

    /// Data point under a screen point. This is not the inverse of
    /// `transform` in x: the bounds width does not enter here.
    pub fn untransform(&self, x: i64, y: i64, bounds: &Rectangle) -> (r: Point)
        requires
            self.wf(),
            bounds.height > 0,
            -0x100_0000_0000 <= y <= 0x100_0000_0000,
        ensures
            r.x == data_x(*self, x as int),
            r.y == data_y(*self, y as int, *bounds),
    {
        let nx: i128 = (x as i128 + self.offset_x as i128) * 1000;
        let dx = floor_div(nx, self.scale as i128);
        proof {
            assert(-nx <= dx <= nx || nx <= dx <= -nx) by (nonlinear_arith)
                requires
                    dx == (nx as int) / (self.scale as int),
                    self.scale >= 1,
            ;
        }
        let ny: i128 = bounds.height as i128 - 2 * y as i128;
        proof {
            assert(-0x400_0000_0000 * 0x8000_0000_0000_0000 <= ny * self.height
                <= 0x400_0000_0000 * 0x8000_0000_0000_0000) by (nonlinear_arith)
                requires
                    -0x400_0000_0000 <= ny <= 0x400_0000_0000,
                    0 <= self.height < 0x8000_0000_0000_0000,
            ;
        }
        let q = floor_div(ny * self.height as i128, bounds.height as i128);
        proof {
            assert(-(ny * self.height) <= q <= ny * self.height || ny * self.height <= q <= -(ny
                * self.height)) by (nonlinear_arith)
                requires
                    q == (ny * self.height) / (bounds.height as int),
                    bounds.height >= 1,
            ;
        }
        Point { x: saturate_i64(dx), y: saturate_i64(self.offset_y as i128 + q) }
    }

    /// The data-space rectangle that the bounds show: its corner is the
    /// data point under the bottom-right screen corner, and its size runs to
    /// the data point under the top-left one.
    pub fn get_window(&self, bounds: &Rectangle) -> (r: Window)
        requires
            self.wf(),
            bounds.height > 0,
        ensures
            r == window_of(*self, *bounds),
    {
        let pos0 = self.untransform(bounds.width as i64, bounds.height as i64, bounds);
        let pos1 = self.untransform(0, 0, bounds);
        Window {
            x: pos0.x,
            y: pos0.y,
            width: saturate_i64(pos1.x as i128 - pos0.x as i128),
            height: saturate_i64(pos1.y as i128 - pos0.y as i128),
        }
    }

    /// Applies one input event; returns whether the view changed enough to
    /// need a redraw (and so a cleared render cache).
    pub fn on_event(&mut self, event: &Event, bounds: Rectangle, cursor: Cursor) -> (r: bool)
        requires
            old(self).wf(),
        ensures
            final(self).wf(),
            (*final(self), r) == old(self).after(*event, bounds, cursor),
    {
        match event {
            Event::Mouse(m) => self.on_event_mouse(m, bounds, cursor),
            Event::Keyboard(k) => self.on_event_keyboard(k),
            Event::Other => false,
        }
    }

    fn on_event_mouse(&mut self, event: &MouseEvent, bounds: Rectangle, cursor: Cursor) -> (r: bool)
        requires
            old(self).wf(),
        ensures
            final(self).wf(),
            (*final(self), r) == old(self).after_mouse(*event, bounds, cursor),
    {
        match event {
            MouseEvent::ButtonPressed(Button::Left) => {
                self.drag_state = cursor.position_in(bounds);
                self.drag_state.is_some()
            },
            MouseEvent::ButtonReleased(Button::Left) => {
                self.drag_state = None;
                false
            },
            MouseEvent::CursorMoved(_) => {
                if let Some(pos) = cursor.position_in(bounds) {
                    if let Some(last) = self.drag_state {
                        self.drag_to(last, pos, bounds);
                        return true;
                    }
                }
                false
            },
            MouseEvent::WheelScrolled(delta) => {
                if let Some(pos) = cursor.position_in(bounds) {
                    self.scroll(delta.twentieths(), pos, bounds);
                    return true;
                }
                false
            },
            _ => false,
        }
    }

    fn drag_to(&mut self, last: Point, pos: Point, bounds: Rectangle)
        requires
            old(self).wf(),
            bounds.height > 0,
            -0x1_0000_0000 < last.y < 0x1_0000_0000,
            -0x1_0000_0000 < pos.y < 0x1_0000_0000,
        ensures
            *final(self) == old(self).dragged(last, pos, bounds),
    {
        let dx: i128 = pos.x as i128 - last.x as i128;
        let dy: i128 = pos.y as i128 - last.y as i128;
        proof {
            assert(-0x2_0000_0000 <= dy <= 0x2_0000_0000);
            assert(-0x2_0000_0000 * 0x1_0000_0000_0000_0000 <= dy * 2 * self.height <= 0x2_0000_0000
                * 0x1_0000_0000_0000_0000) by (nonlinear_arith)
                requires
                    -0x2_0000_0000 <= dy <= 0x2_0000_0000,
                    0 <= self.height < 0x8000_0000_0000_0000,
            ;
        }
        let shift = floor_div(dy * 2 * self.height as i128, bounds.height as i128);
        proof {
            assert(-(dy * 2 * self.height) <= shift <= dy * 2 * self.height || dy * 2
                * self.height <= shift <= -(dy * 2 * self.height)) by (nonlinear_arith)
                requires
                    shift == (dy * 2 * self.height) / (bounds.height as int),
                    bounds.height >= 1,
            ;
        }
        self.offset_x = saturate_i64(self.offset_x as i128 + dx);
        self.offset_y = saturate_i64(self.offset_y as i128 + shift);
        self.drag_state = Some(pos);
    }

    fn scroll(&mut self, d: i64, pos: Point, bounds: Rectangle)
        requires
            old(self).wf(),
            -0x1_0000_0000_0000 < d < 0x1_0000_0000_0000,
            -0x1_0000_0000 < pos.x < 0x1_0000_0000,
        ensures
            final(self).wf(),
            *final(self) == old(self).scrolled(d as int, pos, bounds),
    {
        match self.mode {
            Mode::AltHeld => {
                let h = saturate_i64(self.height as i128 - 250 * d as i128);
                self.height = if h < MIN_HALF_SPAN {
                    MIN_HALF_SPAN
                } else {
                    h
                };
            },
            Mode::ShiftHeld => {
                proof {
                    assert(-0x1_0000_0000_0000 * 10000 <= d * self.scale <= 0x1_0000_0000_0000
                        * 10000) by (nonlinear_arith)
                        requires
                            -0x1_0000_0000_0000 < d < 0x1_0000_0000_0000,
                            0 <= self.scale <= 10000,
                    ;
                }
                let shift = floor_div(d as i128 * self.scale as i128, 400);
                self.offset_x = saturate_i64(self.offset_x as i128 + shift);
            },
            _ => {
                let old_scale = self.scale;
                let raw: i128 = old_scale as i128 + 5 * d as i128;
                let s: u32 = if raw < MIN_SCALE as i128 {
                    MIN_SCALE
                } else if raw > MAX_SCALE as i128 {
                    MAX_SCALE
                } else {
                    raw as u32
                };
                let pivot: i128 = if self.mode == Mode::Default {
                    0
                } else {
                    pos.x as i128 - bounds.width as i128
                };
                let rel: i128 = self.offset_x as i128 - pivot;
                proof {
                    assert(-0x1_0000_0000_0000_0000 * 10000 <= rel * s <= 0x1_0000_0000_0000_0000
                        * 10000) by (nonlinear_arith)
                        requires
                            -0x1_0000_0000_0000_0000 <= rel <= 0x1_0000_0000_0000_0000,
                            0 <= s <= 10000,
                    ;
                }
                let q = floor_div(rel * s as i128, old_scale as i128);
                proof {
                    assert(-(rel * s) <= q <= rel * s || rel * s <= q <= -(rel * s))
                        by (nonlinear_arith)
                        requires
                            q == (rel * s) / (old_scale as int),
                            old_scale >= 1,
                    ;
                }
                self.scale = s;
                self.offset_x = saturate_i64(pivot + q);
            },
        }
    }

    fn on_event_keyboard(&mut self, event: &KeyboardEvent) -> (r: bool)
        ensures
            *final(self) == old(self).after_key(*event),
            !r,
    {
        match event {
            KeyboardEvent::KeyPressed(key) => match key {
                Key::Control => self.mode = Mode::CtrlHeld,
                Key::Shift => self.mode = Mode::ShiftHeld,
                Key::Alt => self.mode = Mode::AltHeld,
                Key::Other => {},
            },
            KeyboardEvent::KeyReleased(key) => match key {
                Key::Control | Key::Shift | Key::Alt => self.mode = Mode::Default,
                Key::Other => {},
            },
        }
        false
    }
}

/// In the initial viewport the anchor price 117420 at data x 0 lands on the
/// right edge, halfway down, for any bounds.
pub proof fn lemma_anchor_at_right_centre(bounds: Rectangle)
    ensures
        screen_x(ViewportManager::new_spec(), 0, bounds) == bounds.width,
        screen_y_milli(ViewportManager::new_spec(), 117420000int, bounds) == bounds.height / 2,
{
    let vp = ViewportManager::new_spec();
    assert((1000 * bounds.width - 0 * vp.scale + 1000 * vp.offset_x) / 1000 == bounds.width as int)
        by (nonlinear_arith)
        requires
            vp.offset_x == 0,
    ;
    assert(((1000 * vp.height - (1000 * 117420 - 1000 * vp.offset_y)) * bounds.height) / (2000
        * vp.height) == bounds.height / 2) by (nonlinear_arith)
        requires
            vp.height == 60000,
            vp.offset_y == 117420,
    ;
}

/// In the default mode a wheel movement of a hundred lines inside the
/// bounds zooms to exactly the largest scale, and one of minus a hundred
/// lines to exactly the smallest; the scale never leaves its range.
pub proof fn lemma_wheel_zoom_clamps(vp: ViewportManager, bounds: Rectangle, cursor: Cursor)
    requires
        vp.wf(),
        vp.mode == Mode::Default,
        cursor.position_in_spec(bounds) is Some,
    ensures
        vp.after(Event::Mouse(MouseEvent::WheelScrolled(ScrollDelta::Lines(100))), bounds, cursor).0.scale
            == MAX_SCALE,
        vp.after(Event::Mouse(MouseEvent::WheelScrolled(ScrollDelta::Lines(-100i32))), bounds, cursor).0.scale
            == MIN_SCALE,
        forall|e: Event| #[trigger] vp.after(e, bounds, cursor).0.wf(),
{
    assert forall|e: Event| #[trigger] vp.after(e, bounds, cursor).0.wf() by {
        lemma_after_keeps_invariant(vp, e, bounds, cursor);
    }
}

/// Every event keeps the viewport's invariants.
pub proof fn lemma_after_keeps_invariant(vp: ViewportManager, e: Event, bounds: Rectangle, cursor: Cursor)
    requires
        vp.wf(),
    ensures
        vp.after(e, bounds, cursor).0.wf(),
{
    if let Event::Mouse(MouseEvent::WheelScrolled(d)) = e {
        if let Some(pos) = cursor.position_in_spec(bounds) {
            let t = d.twentieths_spec();
            if vp.mode != Mode::AltHeld && vp.mode != Mode::ShiftHeld {
                let s = clamp_scale(vp.scale + 5 * t);
                assert(MIN_SCALE <= s <= MAX_SCALE);
            }
        }
    }
}

} // verus!
