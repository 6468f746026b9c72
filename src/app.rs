//! A chart driven by messages, as a host application holds it.
use vstd::prelude::*;
use crate::candles::Candle;
use crate::chart::State;
use crate::types::{Cursor, Event, Rectangle};

verus! {

/// A message for the chart: an input event with the bounds and pointer it
/// arrived with.
#[derive(Clone, Copy, Debug, PartialEq, Eq, Structural)]
pub enum Message {
    Viewport(Event, Rectangle, Cursor),
}

/// A standalone chart.
#[derive(Debug)]
pub struct CandleChart {
    pub state: State,
}

impl CandleChart {
    pub fn new(data: Vec<Candle>) -> (r: Self)
        ensures
            r.state.wf(),
            r.state.data@ == data@,
            r.state.cache.primary is None,
            r.state.cache.overlay is None,
    {
        CandleChart { state: State::new(data) }
    }

    /// Handles a message; returns whether a redraw is needed, in which case
    /// both cached layers have been dropped.
    pub fn update(&mut self, message: Message) -> (r: bool)
        requires
            old(self).state.wf(),
        ensures
            final(self).state.wf(),
            final(self).state.data@ == old(self).state.data@,
            match message {
                Message::Viewport(e, b, c) => (final(self).state.viewport, r) == old(self).state.viewport.after(e, b, c),
            },
            r ==> final(self).state.cache.primary is None && final(self).state.cache.overlay is None,
            !r ==> final(self).state.cache.primary == old(self).state.cache.primary && final(self).state.cache.overlay == old(self).state.cache.overlay,
    {
        match message {
            Message::Viewport(event, bounds, cursor) => self.state.update(&event, bounds, cursor),
        }
    }
}

} // verus!
