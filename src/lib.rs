//! Core of an interactive candlestick chart: the data/screen transform, the
//! viewport state machine, the axis tick planner, the render cache and the
//! geometry builder.
//!
//! Everything is in integers. Screen coordinates are whole pixels, prices
//! are whole price units (thousandths where a tick step needs them), the
//! zoom scale is in thousandths, and wheel movements are in twentieths of a
//! line. Each division rounds down unless its contract says otherwise, and
//! results that leave the range of `i64` saturate at its ends.
use vstd::prelude::*;

pub mod arith;
pub mod types;
pub mod viewport;
pub mod ticks;
pub mod style;
pub mod candles;
pub mod renderer;
pub mod cache;
pub mod chart;
pub mod app;
pub mod example;
