//! A handle to a native window: its identifier and a cached geometry
//! snapshot.
//!
//! The cached geometry is taken when the handle is built and re-fetched by
//! the surrounding application on each poll, so a handle's cached value may
//! go stale between polls by design.

use crate::geometry::Geometry;
use vstd::prelude::*;

verus! {

/// A native window: its windowing-system identifier and the geometry
/// snapshot taken when the handle was built.
#[derive(Clone, Copy, Debug, PartialEq, Eq, Structural)]
pub struct Window {
    pub xid: u64,
    pub geometry: Geometry,
}

impl Window {
    pub fn new(xid: u64, geometry: Geometry) -> (r: Self)
        ensures
            r == (Window { xid, geometry }),
    {
        Self { xid, geometry }
    }

    /// Move the cached geometry's origin to `(0, 0)`, keeping its size; used
    /// when the captured pixels start at the window's own origin.
    pub fn reset_position(&mut self)
        ensures
            final(self).xid == old(self).xid,
            final(self).geometry == (Geometry {
                x: 0i32,
                y: 0i32,
                width: old(self).geometry.width,
                height: old(self).geometry.height,
            }),
    {
        self.geometry.x = 0;
        self.geometry.y = 0;
    }

    /// The capture area this window offers under the given padding.
    pub fn area(&self, padding: crate::geometry::Padding) -> (r: Geometry)
        ensures
            r == self.geometry.spec_padded(padding),
    {
        self.geometry.padded(padding)
    }
}

} // verus!
