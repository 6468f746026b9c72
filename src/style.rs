//! Colours and sizes used to draw the chart.
use vstd::prelude::*;

verus! {

/// An opaque RGB colour, one byte per channel.
#[derive(Clone, Copy, Debug, PartialEq, Eq, Structural)]
pub struct Color {
    pub r: u8,
    pub g: u8,
    pub b: u8,
}

/// The drawing style. `candle_width` is the half width of a candle body
/// and `candle_spacing` the distance between bars, both in data units.
#[derive(Clone, Copy, Debug, PartialEq, Eq, Structural)]
pub struct Style {
    pub background: Color,
    pub bullish: Color,
    pub bearish: Color,
    pub crosshair: Color,
    pub axis_color: Color,
    pub candle_width: i64,
    pub candle_spacing: i64,
}

impl Style {
    /// Sizes that keep every bar position well inside machine range.
    pub open spec fn wf(self) -> bool {
        0 <= self.candle_width <= 0x8000_0000 && 0 < self.candle_spacing <= 0x8000_0000
    }
}

/// The default dark style.
pub fn default() -> (r: Style)
    ensures
        r.wf(),
        r.candle_width == 4,
        r.candle_spacing == 10,
{
    Style {
        background: Color { r: 15, g: 15, b: 15 },
        bullish: Color { r: 8, g: 153, b: 128 },
        bearish: Color { r: 242, g: 54, b: 69 },
        crosshair: Color { r: 77, g: 77, b: 77 },
        axis_color: Color { r: 184, g: 184, b: 184 },
        candle_width: 4,
        candle_spacing: 10,
    }
}

} // verus!
