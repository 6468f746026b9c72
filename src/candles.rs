//! Price bars.
use vstd::prelude::*;

verus! {

/// One OHLC price bar, in price units. Callers keep `high` at or above
/// `open` and `close`, and `low` at or below them; drawing does not rely on it.
#[derive(Clone, Copy, Debug, PartialEq, Eq, Structural)]
pub struct Candle {
    pub open: i64,
    pub high: i64,
    pub low: i64,
    pub close: i64,
}

} // verus!
