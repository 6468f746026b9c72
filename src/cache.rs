//! Two independently invalidated layers of built geometry.
use vstd::prelude::*;
use crate::renderer::Primitive;
use crate::types::Size;

verus! {

/// Geometry built for one target size.
#[derive(Debug)]
pub struct Layer {
    pub size: Size,
    pub primitives: Vec<Primitive>,
}

/// The cached main layer and overlay; `None` means it must be rebuilt.
#[derive(Debug)]
pub struct RenderCache {
    pub primary: Option<Layer>,
    pub overlay: Option<Layer>,
}

/// A cached layer is usable for `size` when it was built for that size.
pub open spec fn fresh_for(layer: Option<Layer>, size: Size) -> bool {
    match layer {
        Some(l) => l.size == size,
        None => false,
    }
}

impl RenderCache {
    pub fn new() -> (r: Self)
        ensures
            r.primary is None,
            r.overlay is None,
    {
        RenderCache { primary: None, overlay: None }
    }

    /// Drops both layers.
    pub fn clear(&mut self)
        ensures
            final(self).primary is None,
            final(self).overlay is None,
    {
        self.primary = None;
        self.overlay = None;
    }

    pub fn primary_is_fresh(&self, size: Size) -> (r: bool)
        ensures
            r == fresh_for(self.primary, size),
    {
        match &self.primary {
            Some(l) => l.size == size,
            None => false,
        }
    }

    pub fn overlay_is_fresh(&self, size: Size) -> (r: bool)
        ensures
            r == fresh_for(self.overlay, size),
    {
        match &self.overlay {
            Some(l) => l.size == size,
            None => false,
        }
    }
}

} // verus!
