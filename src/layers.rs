//! Redraw bookkeeping for one cached visual layer: a dirty flag and the
//! viewport size the layer was last built for.
use crate::geometry::Viewport;
use vstd::prelude::*;

verus! {

#[derive(Clone, Copy, Debug, PartialEq, Eq, Structural)]
pub struct LayerCache {
    pub dirty: bool,
    pub size: Viewport,
}

/// The layer with its dirty flag raised and its size kept.
pub open spec fn invalidated(l: LayerCache) -> LayerCache {
    LayerCache { dirty: true, size: l.size }
}

impl LayerCache {
    /// A layer that has never been built: due for a build.
    pub fn new(size: Viewport) -> (r: LayerCache)
        ensures
            r.dirty,
            r.size == size,
    {
        LayerCache { dirty: true, size }
    }

    /// The layer must be rebuilt for viewport `v`.
    pub open spec fn due(self, v: Viewport) -> bool {
        self.dirty || self.size != v
    }

    /// Whether the layer must be rebuilt this frame: it is dirty, or the
    /// viewport changed since it was last built.
    pub fn should_rebuild(&self, v: Viewport) -> (r: bool)
        ensures
            r == self.due(v),
    {
        self.dirty || self.size != v
    }

    /// Records that the layer was just rebuilt for viewport `v`.
    pub fn mark_rebuilt(&mut self, v: Viewport)
        ensures
            !final(self).dirty,
            final(self).size == v,
            !final(self).due(v),
    {
        self.dirty = false;
        self.size = v;
    }

    /// Raises the dirty flag, keeping the recorded size.
    pub fn invalidate(&mut self)
        ensures
            *final(self) == invalidated(*old(self)),
    {
        self.dirty = true;
    }
}

} // verus!
