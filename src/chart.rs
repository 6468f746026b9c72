//! The state of one chart: viewport, render cache and bars, and how events
//! and draws act on it.
use vstd::prelude::*;
use crate::cache::{fresh_for, Layer, RenderCache};
use crate::candles::Candle;
use crate::renderer::{chart_of, overlay_of, CandleRenderer};
use crate::style::Style;
use crate::types::{Cursor, Event, Key, KeyboardEvent, MouseEvent, Rectangle, ScrollDelta};
use crate::viewport::{window_of, ViewportManager};

verus! {

/// One chart: its viewport, its cached layers and its bars, newest first.
#[derive(Debug)]
pub struct State {
    pub cache: RenderCache,
    pub viewport: ViewportManager,
    pub data: Vec<Candle>,
}

impl State {
    pub open spec fn wf(self) -> bool {
        self.viewport.wf()
    }

    /// A chart over `data` with the initial viewport and nothing cached.
    pub fn new(data: Vec<Candle>) -> (r: Self)
        ensures
            r.wf(),
            r.viewport == ViewportManager::new_spec(),
            r.data@ == data@,
            r.cache.primary is None,
            r.cache.overlay is None,
    {
        State { cache: RenderCache::new(), viewport: ViewportManager::new(), data }
    }

    /// Feeds one event to the viewport. When it reports a change both
    /// layers are dropped and the result asks for a redraw; otherwise the
    /// cache is left as it was.
    pub fn update(&mut self, event: &Event, bounds: Rectangle, cursor: Cursor) -> (r: bool)
        requires
            old(self).wf(),
        ensures
            final(self).wf(),
            (final(self).viewport, r) == old(self).viewport.after(*event, bounds, cursor),
            final(self).data@ == old(self).data@,
            r ==> final(self).cache.primary is None && final(self).cache.overlay is None,
            !r ==> final(self).cache.primary == old(self).cache.primary && final(self).cache.overlay
                == old(self).cache.overlay,
    {
        let upd = self.viewport.on_event(event, bounds, cursor);
        if upd {
            self.cache.clear();
        }
        upd
    }

    /// Replaces the bars and drops both layers.
    pub fn set_data(&mut self, data: Vec<Candle>)
        ensures
            final(self).viewport == old(self).viewport,
            final(self).data@ == data@,
            final(self).cache.primary is None,
            final(self).cache.overlay is None,
    {
        self.data = data;
        self.cache.clear();
    }

    /// Makes both layers current for `bounds`: a layer built for the same
    /// size is kept as it is, any other is rebuilt from the present state.
    pub fn draw(&mut self, style: &Style, bounds: Rectangle, cursor: Cursor)
        requires
            old(self).wf(),
            style.wf(),
            bounds.height > 0,
        ensures
            final(self).wf(),
            final(self).viewport == old(self).viewport,
            final(self).data@ == old(self).data@,
            fresh_for(final(self).cache.primary, bounds.size_spec()),
            fresh_for(final(self).cache.overlay, bounds.size_spec()),
            fresh_for(old(self).cache.primary, bounds.size_spec()) ==> final(self).cache.primary
                == old(self).cache.primary,
            !fresh_for(old(self).cache.primary, bounds.size_spec()) ==> final(self).cache.primary.unwrap().primitives@ == chart_of(
                old(self).viewport,
                *style,
                old(self).data@,
                window_of(old(self).viewport, bounds),
                bounds,
            ),
            fresh_for(old(self).cache.overlay, bounds.size_spec()) ==> final(self).cache.overlay
                == old(self).cache.overlay,
            !fresh_for(old(self).cache.overlay, bounds.size_spec()) ==> final(self).cache.overlay.unwrap().primitives@ == overlay_of(
                old(self).viewport,
                *style,
                cursor,
                window_of(old(self).viewport, bounds),
                bounds,
            ),
    {
        let size = bounds.size();
        let window = self.viewport.get_window(&bounds);
        if !self.cache.primary_is_fresh(size) {
            let primitives = CandleRenderer::draw_chart(
                &self.viewport,
                style,
                &self.data,
                &window,
                &bounds,
            );
            self.cache.primary = Some(Layer { size, primitives });
        }
        if !self.cache.overlay_is_fresh(size) {
            let primitives = CandleRenderer::draw_overlay(
                &self.viewport,
                style,
                &cursor,
                &window,
                &bounds,
            );
            self.cache.overlay = Some(Layer { size, primitives });
        }
    }
}

/// A wheel movement with the pointer inside the bounds always asks for a
/// redraw, so `State::update` drops both layers; a key press or release
/// alone never does, so the layers stay as they were.
pub proof fn lemma_cache_invalidation(
    vp: ViewportManager,
    delta: ScrollDelta,
    key: Key,
    bounds: Rectangle,
    cursor: Cursor,
)
    requires
        vp.wf(),
    ensures
        cursor.position_in_spec(bounds) is Some ==> vp.after(
            Event::Mouse(MouseEvent::WheelScrolled(delta)),
            bounds,
            cursor,
        ).1,
        !vp.after(Event::Keyboard(KeyboardEvent::KeyPressed(key)), bounds, cursor).1,
        !vp.after(Event::Keyboard(KeyboardEvent::KeyReleased(key)), bounds, cursor).1,
{
}

} // verus!
