//! Geometry of the chart: what is drawn, where, and in which colour.
//! Building geometry is a pure function of the viewport, the style, the
//! data, the cursor and the bounds.
use vstd::prelude::*;
use crate::arith::{clamp_i64, lemma_round_div_scaled, round_div, round_div_spec, saturate_i64};
use crate::candles::Candle;
use crate::style::{Color, Style};
use crate::ticks::{find_step, step_for, tick_bounds, tick_count, tick_values};
use crate::types::{Cursor, Point, Rectangle, Window};
use crate::viewport::{data_y, screen_x, screen_y_milli, ViewportManager};

verus! {

/// How a stroke is dashed: solid, or `on` units drawn then `off` skipped.
#[derive(Clone, Copy, Debug, PartialEq, Eq, Structural)]
pub enum Dash {
    Solid,
    Pattern(u32, u32),
}

/// One drawing primitive, in screen pixels relative to the bounds.
#[derive(Clone, Copy, Debug, PartialEq, Eq, Structural)]
pub enum Primitive {
    /// A filled rectangle: top-left corner and a non-negative size.
    Fill { x: i64, y: i64, width: i64, height: i64, color: Color },
    /// A straight line.
    Stroke { from: Point, to: Point, line_width: u32, dash: Dash, color: Color },
    /// A price label; the value is in thousandths and shown with one decimal.
    Text { value_milli: i128, position: Point, color: Color },
}

/// Screen point of data x and a price in thousandths.
pub open spec fn screen_point(vp: ViewportManager, x: int, y_milli: int, bounds: Rectangle) -> Point {
    Point { x: screen_x(vp, x, bounds) as i64, y: screen_y_milli(vp, y_milli, bounds) as i64 }
}

/// Bullish colour for a bar that closed above its open, bearish otherwise.
pub open spec fn candle_color(c: Candle, style: Style) -> Color {
    if c.close > c.open {
        style.bullish
    } else {
        style.bearish
    }
}

pub open spec fn abs_diff(a: int, b: int) -> int {
    if a >= b {
        a - b
    } else {
        b - a
    }
}

/// The filled rectangle with corners `p` and `q`, whatever their order.
pub open spec fn rect_between(p: Point, q: Point, color: Color) -> Primitive {
    Primitive::Fill {
        x: if p.x <= q.x { p.x } else { q.x },
        y: if p.y <= q.y { p.y } else { q.y },
        width: clamp_i64(abs_diff(p.x as int, q.x as int)) as i64,
        height: clamp_i64(abs_diff(p.y as int, q.y as int)) as i64,
        color,
    }
}

pub open spec fn background_of(style: Style, bounds: Rectangle) -> Primitive {
    Primitive::Fill {
        x: 0,
        y: 0,
        width: bounds.width as i64,
        height: bounds.height as i64,
        color: style.background,
    }
}

/// The wick of bar `i`: a 2-unit solid line from high to low at `i * spacing`.
pub open spec fn wick_of(vp: ViewportManager, style: Style, c: Candle, i: int, bounds: Rectangle) -> Primitive {
    let x = i * style.candle_spacing;
    Primitive::Stroke {
        from: screen_point(vp, x, 1000 * c.high, bounds),
        to: screen_point(vp, x, 1000 * c.low, bounds),
        line_width: 2,
        dash: Dash::Solid,
        color: candle_color(c, style),
    }
}

/// The body of bar `i`: the rectangle between data points
/// `(x - width, open)` and `(x + width, close)`.
pub open spec fn body_of(vp: ViewportManager, style: Style, c: Candle, i: int, bounds: Rectangle) -> Primitive {
    let x = i * style.candle_spacing;
    rect_between(
        screen_point(vp, x - style.candle_width, 1000 * c.open, bounds),
        screen_point(vp, x + style.candle_width, 1000 * c.close, bounds),
        candle_color(c, style),
    )
}

/// Wick and body of every bar, in order: wick of bar `k` at `2k`, body at `2k + 1`.
pub open spec fn bars_of(vp: ViewportManager, style: Style, candles: Seq<Candle>, bounds: Rectangle) -> Seq<Primitive> {
    Seq::new(
        2 * candles.len(),
        |k: int|
            if k % 2 == 0 {
                wick_of(vp, style, candles[k / 2], k / 2, bounds)
            } else {
                body_of(vp, style, candles[k / 2], k / 2, bounds)
            },
    )
}

/// A dotted line across the window at the close of `c`, in its colour.
pub open spec fn price_line_of(vp: ViewportManager, style: Style, c: Candle, window: Window, bounds: Rectangle) -> Primitive {
    Primitive::Stroke {
        from: screen_point(vp, window.x as int, 1000 * c.close, bounds),
        to: screen_point(vp, window.x + window.width, 1000 * c.close, bounds),
        line_width: 1,
        dash: Dash::Pattern(1, 2),
        color: candle_color(c, style),
    }
}

/// Background, then every bar, then the price line of the newest bar, if any.
pub open spec fn chart_of(vp: ViewportManager, style: Style, candles: Seq<Candle>, window: Window, bounds: Rectangle) -> Seq<Primitive> {
    seq![background_of(style, bounds)] + bars_of(vp, style, candles, bounds) + if candles.len() > 0 {
        seq![price_line_of(vp, style, candles[0], window, bounds)]
    } else {
        Seq::empty()
    }
}

/// Data x of the bar nearest to screen x `cx`.
pub open spec fn snap_x(vp: ViewportManager, style: Style, cx: int, bounds: Rectangle) -> int {
    style.candle_spacing * round_div_spec(
        (bounds.width - cx + vp.offset_x) * 1000,
        vp.scale * style.candle_spacing,
    )
}

/// The crosshair for a pointer at `p` (relative to the bounds): a vertical
/// line over the window's height at the nearest bar, and a horizontal line
/// over the window's width at the price under the pointer.
pub open spec fn crosshair_of(vp: ViewportManager, style: Style, p: Point, window: Window, bounds: Rectangle) -> Seq<Primitive> {
    let x = snap_x(vp, style, p.x as int, bounds);
    let price = data_y(vp, p.y as int, bounds);
    seq![
        Primitive::Stroke {
            from: screen_point(vp, x, 1000 * window.y, bounds),
            to: screen_point(vp, x, 1000 * (window.y + window.height), bounds),
            line_width: 1,
            dash: Dash::Pattern(5, 6),
            color: style.crosshair,
        },
        Primitive::Stroke {
            from: screen_point(vp, window.x as int, 1000 * price, bounds),
            to: screen_point(vp, window.x + window.width, 1000 * price, bounds),
            line_width: 1,
            dash: Dash::Pattern(5, 6),
            color: style.crosshair,
        },
    ]
}

/// The label of tick value `v` (in thousandths): 100 pixels left and 8 up
/// from the window's far edge at that price.
pub open spec fn label_of(vp: ViewportManager, style: Style, v: int, window: Window, bounds: Rectangle) -> Primitive {
    let e = screen_point(vp, window.x + window.width, v, bounds);
    Primitive::Text {
        value_milli: v as i128,
        position: Point { x: clamp_i64(e.x - 100) as i64, y: clamp_i64(e.y - 8) as i64 },
        color: style.axis_color,
    }
}

/// One label per tick of the window's height, lowest first; none for a
/// window without height.
pub open spec fn price_scale_of(vp: ViewportManager, style: Style, window: Window, bounds: Rectangle) -> Seq<Primitive> {
    if window.height <= 0 {
        Seq::empty()
    } else {
        let s = step_for(window.height as int);
        let a = tick_bounds(window.y as int, window.height as int, s).0;
        Seq::new(
            tick_count(window.y as int, window.height as int, s) as nat,
            |j: int| label_of(vp, style, (a + j) * s, window, bounds),
        )
    }
}

/// The crosshair when the pointer is inside the bounds, then the labels.
pub open spec fn overlay_of(vp: ViewportManager, style: Style, cursor: Cursor, window: Window, bounds: Rectangle) -> Seq<Primitive> {
    (match cursor.position_in_spec(bounds) {
        Some(p) => crosshair_of(vp, style, p, window, bounds),
        None => Seq::empty(),
    }) + price_scale_of(vp, style, window, bounds)
}

/// Builds the chart's geometry.
pub struct CandleRenderer;

impl CandleRenderer {
    fn get_candle_color(candle: &Candle, style: &Style) -> (r: Color)
        ensures
            r == candle_color(*candle, *style),
    {
        if candle.close > candle.open {
            style.bullish
        } else {
            style.bearish
        }
    }

    fn rectangle(p: Point, q: Point, color: Color) -> (r: Primitive)
        ensures
            r == rect_between(p, q, color),
    {
        let x = if p.x <= q.x { p.x } else { q.x };
        let y = if p.y <= q.y { p.y } else { q.y };
        let w: i128 = if p.x >= q.x { p.x as i128 - q.x as i128 } else { q.x as i128 - p.x as i128 };
        let h: i128 = if p.y >= q.y { p.y as i128 - q.y as i128 } else { q.y as i128 - p.y as i128 };
        Primitive::Fill { x, y, width: saturate_i64(w), height: saturate_i64(h), color }
    }

    fn draw_candle(
        viewport: &ViewportManager,
        style: &Style,
        candle: &Candle,
        index: usize,
        bounds: &Rectangle,
    ) -> (r: (Primitive, Primitive))
        requires
            viewport.wf(),
            style.wf(),
        ensures
            r.0 == wick_of(*viewport, *style, *candle, index as int, *bounds),
            r.1 == body_of(*viewport, *style, *candle, index as int, *bounds),
    {
        proof {
            assert(0 <= index * style.candle_spacing <= 0x1_0000_0000_0000_0000 * 0x8000_0000)
                by (nonlinear_arith)
                requires
                    0 <= index < 0x1_0000_0000_0000_0000,
                    0 < style.candle_spacing <= 0x8000_0000,
            ;
        }
        let base_x: i128 = index as i128 * style.candle_spacing as i128;
        let color = Self::get_candle_color(candle, style);
        let wick = Primitive::Stroke {
            from: viewport.transform_milli(base_x, candle.high as i128 * 1000, bounds),
            to: viewport.transform_milli(base_x, candle.low as i128 * 1000, bounds),
            line_width: 2,
            dash: Dash::Solid,
            color,
        };
        let opos = viewport.transform_milli(
            base_x - style.candle_width as i128,
            candle.open as i128 * 1000,
            bounds,
        );
        let cpos = viewport.transform_milli(
            base_x + style.candle_width as i128,
            candle.close as i128 * 1000,
            bounds,
        );
        (wick, Self::rectangle(opos, cpos, color))
    }

    fn draw_price_line(
        viewport: &ViewportManager,
        style: &Style,
        candle: &Candle,
        window: &Window,
        bounds: &Rectangle,
    ) -> (r: Primitive)
        requires
            viewport.wf(),
        ensures
            r == price_line_of(*viewport, *style, *candle, *window, *bounds),
    {
        let price: i128 = candle.close as i128 * 1000;
        Primitive::Stroke {
            from: viewport.transform_milli(window.x as i128, price, bounds),
            to: viewport.transform_milli(window.x as i128 + window.width as i128, price, bounds),
            line_width: 1,
            dash: Dash::Pattern(1, 2),
            color: Self::get_candle_color(candle, style),
        }
    }

    fn draw_crosshair(
        viewport: &ViewportManager,
        style: &Style,
        cursor: Point,
        window: &Window,
        bounds: &Rectangle,
    ) -> (r: (Primitive, Primitive))
        requires
            viewport.wf(),
            style.wf(),
            bounds.height > 0,
            0 <= cursor.x < 0x1_0000_0000,
            0 <= cursor.y < 0x1_0000_0000,
        ensures
            seq![r.0, r.1] == crosshair_of(*viewport, *style, cursor, *window, *bounds),
    {
        let a: i128 = (bounds.width as i128 - cursor.x as i128 + viewport.offset_x as i128) * 1000;
        proof {
            assert(100 <= viewport.scale * style.candle_spacing <= 10000 * 0x8000_0000)
                by (nonlinear_arith)
                requires
                    100 <= viewport.scale <= 10000,
                    1 <= style.candle_spacing <= 0x8000_0000,
            ;
        }
        let d: i128 = viewport.scale as i128 * style.candle_spacing as i128;
        let idx = round_div(a, d);
        proof {
            lemma_round_div_scaled(a as int, d as int);
            let b: int = 0x1000_0000_0000_0000_0000;
            assert(-b <= idx * style.candle_spacing <= b) by (nonlinear_arith)
                requires
                    a - d <= idx * d <= a + d,
                    d == viewport.scale * style.candle_spacing,
                    viewport.scale >= 1,
                    -0x800_0000_0000_0000_0000 <= a <= 0x800_0000_0000_0000_0000,
                    d <= 10000 * 0x8000_0000,
                    b == 0x1000_0000_0000_0000_0000,
            ;
        }
        let snap: i128 = style.candle_spacing as i128 * idx;
        let stroke_color = style.crosshair;
        let v_line = Primitive::Stroke {
            from: viewport.transform_milli(snap, window.y as i128 * 1000, bounds),
            to: viewport.transform_milli(
                snap,
                (window.y as i128 + window.height as i128) * 1000,
                bounds,
            ),
            line_width: 1,
            dash: Dash::Pattern(5, 6),
            color: stroke_color,
        };
        let price: i128 = viewport.untransform(cursor.x, cursor.y, bounds).y as i128 * 1000;
        let h_line = Primitive::Stroke {
            from: viewport.transform_milli(window.x as i128, price, bounds),
            to: viewport.transform_milli(window.x as i128 + window.width as i128, price, bounds),
            line_width: 1,
            dash: Dash::Pattern(5, 6),
            color: stroke_color,
        };
        (v_line, h_line)
    }
    fn draw_price_scale(
        viewport: &ViewportManager,
        style: &Style,
        window: &Window,
        bounds: &Rectangle,
    ) -> (r: Vec<Primitive>)
        requires
            viewport.wf(),
        ensures
            r@ == price_scale_of(*viewport, *style, *window, *bounds),
    {
        let mut out: Vec<Primitive> = Vec::new();
        if window.height <= 0 {
            return out;
        }
        let step = find_step(window.height as u64);
        let ticks = tick_values(window.y, window.height, step);
        let ghost a = tick_bounds(window.y as int, window.height as int, step as int).0;
        let far_x: i128 = window.x as i128 + window.width as i128;
        let mut i: usize = 0;
        while i < ticks.len()
            invariant
                viewport.wf(),
                0 <= step < 100 * window.height,
                far_x == window.x + window.width,
                i <= ticks@.len(),
                out@.len() == i,
                forall|j: int| 0 <= j < ticks@.len() ==> #[trigger] ticks@[j] == (a + j) * step,
                forall|j: int|
                    0 <= j < ticks@.len() ==> 1000 * window.y - step <= #[trigger] ticks@[j] <= 1000
                        * (window.y + window.height) + step,
                forall|j: int|
                    0 <= j < i ==> #[trigger] out@[j] == label_of(
                        *viewport,
                        *style,
                        (a + j) * step,
                        *window,
                        *bounds,
                    ),
            decreases ticks@.len() - i,
        {
            let v = ticks[i];
            let e = viewport.transform_milli(far_x, v, bounds);
            out.push(
                Primitive::Text {
                    value_milli: v,
                    position: Point {
                        x: saturate_i64(e.x as i128 - 100),
                        y: saturate_i64(e.y as i128 - 8),
                    },
                    color: style.axis_color,
                },
            );
            i = i + 1;
        }
        assert(out@ =~= price_scale_of(*viewport, *style, *window, *bounds));
        out
    }

    /// The chart's main layer: background, bars and price line.
    pub fn draw_chart(
        viewport: &ViewportManager,
        style: &Style,
        candles: &Vec<Candle>,
        window: &Window,
        bounds: &Rectangle,
    ) -> (r: Vec<Primitive>)
        requires
            viewport.wf(),
            style.wf(),
        ensures
            r@ == chart_of(*viewport, *style, candles@, *window, *bounds),
    {
        let mut out: Vec<Primitive> = Vec::new();
        out.push(
            Primitive::Fill {
                x: 0,
                y: 0,
                width: bounds.width as i64,
                height: bounds.height as i64,
                color: style.background,
            },
        );
        let ghost bars = bars_of(*viewport, *style, candles@, *bounds);
        let mut i: usize = 0;
        while i < candles.len()
            invariant
                viewport.wf(),
                style.wf(),
                bars == bars_of(*viewport, *style, candles@, *bounds),
                i <= candles@.len(),
                out@.len() == 1 + 2 * i,
                out@[0] == background_of(*style, *bounds),
                forall|k: int| 0 <= k < 2 * i ==> #[trigger] out@[1 + k] == bars[k],
            decreases candles@.len() - i,
        {
            let (wick, body) = Self::draw_candle(viewport, style, &candles[i], i, bounds);
            out.push(wick);
            out.push(body);
            proof {
                assert((2 * i) % 2 == 0 && (2 * i) / 2 == i as int);
                assert((2 * i + 1) % 2 == 1 && (2 * i + 1) / 2 == i as int);
            }
            i = i + 1;
        }
        if candles.len() > 0 {
            let line = Self::draw_price_line(viewport, style, &candles[0], window, bounds);
            out.push(line);
        }
        proof {
            let expect = chart_of(*viewport, *style, candles@, *window, *bounds);
            let head = seq![background_of(*style, *bounds)] + bars;
            assert(head.len() == 1 + 2 * candles@.len());
            assert forall|k: int| 0 <= k < out@.len() implies out@[k] == expect[k] by {
                if 1 <= k < 1 + 2 * candles@.len() {
                    assert(out@[1 + (k - 1)] == bars[k - 1]);
                    assert(expect[k] == head[k]);
                } else if k == 0 {
                    assert(expect[k] == head[k]);
                }
            }
            assert(out@ =~= expect);
        }
        out
    }

    /// The overlay layer: crosshair (when the pointer is inside the bounds)
    /// and price labels.
    pub fn draw_overlay(
        viewport: &ViewportManager,
        style: &Style,
        cursor: &Cursor,
        window: &Window,
        bounds: &Rectangle,
    ) -> (r: Vec<Primitive>)
        requires
            viewport.wf(),
            style.wf(),
        ensures
            r@ == overlay_of(*viewport, *style, *cursor, *window, *bounds),
    {
        let mut out: Vec<Primitive> = Vec::new();
        if let Some(pos) = cursor.position_in(*bounds) {
            let (v_line, h_line) = Self::draw_crosshair(viewport, style, pos, window, bounds);
            out.push(v_line);
            out.push(h_line);
        }
        let mut labels = Self::draw_price_scale(viewport, style, window, bounds);
        out.append(&mut labels);
        assert(out@ =~= overlay_of(*viewport, *style, *cursor, *window, *bounds));
        out
    }
}

} // verus!
