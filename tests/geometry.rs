use candle_chart::arith::{floor_div, round_div};
use candle_chart::candles::Candle;
use candle_chart::renderer::{CandleRenderer, Dash, Primitive};
use candle_chart::style::{self, Color};
use candle_chart::ticks::{find_step, tick_values};
use candle_chart::types::{Cursor, Point, Rectangle};
use candle_chart::viewport::ViewportManager;

fn bounds() -> Rectangle {
    Rectangle { x: 0, y: 0, width: 800, height: 600 }
}

#[test]
fn find_step_for_one_hundred() {
    // Steps are in thousandths: 5000 is a step of 5.
    assert_eq!(find_step(100), 5000);
}

#[test]
fn find_step_for_two_hundred_fifty() {
    // 250/25 = 10 is not strictly below 10, so the step is 20: 12.5 steps.
    let s = find_step(250);
    assert_eq!(s, 20000);
    let ticks = 250 * 1000 / s;
    assert!(10 <= ticks && ticks <= 25);
}

#[test]
fn find_step_examples() {
    assert_eq!(find_step(0), 0);
    assert_eq!(find_step(1), 50);
    assert_eq!(find_step(120000), 5_000_000);
    assert_eq!(find_step(2000), 100_000);
    assert_eq!(find_step(60), 2500);
    for span in 1..3000u64 {
        let s = find_step(span);
        assert!(25 * s > 1000 * span as u128);
        assert!(10 * s < 1000 * span as u128);
    }
}

#[test]
fn tick_values_cover_window() {
    let t = tick_values(57420, 120000, 5_000_000);
    assert_eq!(t.len(), 25);
    assert_eq!(t[0], 55_000_000);
    assert_eq!(t[24], 175_000_000);
    assert_eq!(tick_values(10, -20, 1000).len(), 0);
}

#[test]
fn rounding_helpers() {
    assert_eq!(floor_div(-7, 2), -4);
    assert_eq!(floor_div(7, 2), 3);
    assert_eq!(round_div(5, 2), 3);
    assert_eq!(round_div(-5, 2), -3);
    assert_eq!(round_div(4, 3), 1);
}

#[test]
fn candle_body_and_wick() {
    let vp = ViewportManager::new();
    let st = style::default();
    let b = bounds();
    let c = Candle { open: 100, high: 130, low: 90, close: 120 };
    let w = vp.get_window(&b);
    let out = CandleRenderer::draw_chart(&vp, &st, &vec![c], &w, &b);
    assert_eq!(out.len(), 4);
    let p = vp.transform(-4, 100, &b);
    let q = vp.transform(4, 120, &b);
    match out[2] {
        Primitive::Fill { x, y, width, height, color } => {
            assert_eq!(x, p.x.min(q.x));
            assert_eq!(y, p.y.min(q.y));
            assert_eq!(width, (p.x - q.x).abs());
            assert_eq!(height, (p.y - q.y).abs());
            assert!(width >= 0 && height >= 0);
            assert_eq!(color, st.bullish);
        }
        _ => panic!("expected the body"),
    }
    match out[1] {
        Primitive::Stroke { from, to, line_width, dash, color } => {
            assert_eq!(from, vp.transform(0, 130, &b));
            assert_eq!(to, vp.transform(0, 90, &b));
            assert_eq!(line_width, 2);
            assert_eq!(dash, Dash::Solid);
            assert_eq!(color, st.bullish);
        }
        _ => panic!("expected the wick"),
    }
}

#[test]
fn chart_layers_in_order() {
    let vp = ViewportManager::new();
    let st = style::default();
    let b = bounds();
    let w = vp.get_window(&b);
    let candles = vec![
        Candle { open: 120, high: 125, low: 100, close: 110 },
        Candle { open: 100, high: 130, low: 90, close: 120 },
    ];
    let out = CandleRenderer::draw_chart(&vp, &st, &candles, &w, &b);
    assert_eq!(out.len(), 6);
    assert_eq!(
        out[0],
        Primitive::Fill { x: 0, y: 0, width: 800, height: 600, color: Color { r: 15, g: 15, b: 15 } }
    );
    match out[5] {
        Primitive::Stroke { from, to, line_width, dash, color } => {
            assert_eq!(from, vp.transform(w.x, 110, &b));
            assert_eq!(from.x, 0);
            assert_eq!(to.x, 800);
            assert_eq!(line_width, 1);
            assert_eq!(dash, Dash::Pattern(1, 2));
            assert_eq!(color, st.bearish);
        }
        _ => panic!("expected the price line"),
    }
    match out[3] {
        Primitive::Stroke { from, .. } => assert_eq!(from.x, 790),
        _ => panic!("expected the second wick"),
    }
}

#[test]
fn empty_chart_keeps_background() {
    let vp = ViewportManager::new();
    let st = style::default();
    let b = bounds();
    let w = vp.get_window(&b);
    let out = CandleRenderer::draw_chart(&vp, &st, &Vec::new(), &w, &b);
    assert_eq!(out.len(), 1);
}

#[test]
fn overlay_crosshair_and_labels() {
    let vp = ViewportManager::new();
    let st = style::default();
    let b = bounds();
    let w = vp.get_window(&b);
    let out = CandleRenderer::draw_overlay(&vp, &st, &Cursor::Available(Point { x: 786, y: 300 }), &w, &b);
    assert_eq!(out.len(), 2 + 25);
    match out[0] {
        Primitive::Stroke { from, to, dash, color, .. } => {
            // x = 800 - 786 = 14 data units snaps to the bar at 10.
            assert_eq!(from.x, 790);
            assert_eq!(to.x, 790);
            assert_eq!(from.y, 600);
            assert_eq!(to.y, 0);
            assert_eq!(dash, Dash::Pattern(5, 6));
            assert_eq!(color, st.crosshair);
        }
        _ => panic!("expected the vertical line"),
    }
    match out[1] {
        Primitive::Stroke { from, to, .. } => {
            assert_eq!(from, Point { x: 0, y: 300 });
            assert_eq!(to, Point { x: 800, y: 300 });
        }
        _ => panic!("expected the horizontal line"),
    }
    match out[2] {
        Primitive::Text { value_milli, position, color } => {
            assert_eq!(value_milli, 55_000_000);
            let e = vp.transform(w.x + w.width, 55000, &b);
            assert_eq!(position, Point { x: e.x - 100, y: e.y - 8 });
            assert_eq!(color, st.axis_color);
        }
        _ => panic!("expected a label"),
    }
    let none = CandleRenderer::draw_overlay(&vp, &st, &Cursor::Unavailable, &w, &b);
    assert_eq!(none.len(), 25);
}
