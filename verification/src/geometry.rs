//! Screen rectangles, and the geometry the overlay takes to cover its target.

use vstd::prelude::*;
use crate::handle::NativeWindowHandle;

verus! {

/// A rectangle in screen coordinates, by its edges. Nothing is promised of the
/// edges' order: a minimised or destroyed window may report a rectangle whose
/// right edge lies left of its left edge.
#[derive(Clone, Copy, Debug, PartialEq, Eq, Structural)]
pub struct Rect {
    pub left: i32,
    pub top: i32,
    pub right: i32,
    pub bottom: i32,
}

impl Rect {
    /// The rectangle's width, which may be zero or negative.
    pub open spec fn extent_x(self) -> int {
        self.right - self.left
    }

    /// The rectangle's height, which may be zero or negative.
    pub open spec fn extent_y(self) -> int {
        self.bottom - self.top
    }

    /// The rectangle with the given edges.
    pub fn new(left: i32, top: i32, right: i32, bottom: i32) -> (rect: Rect)
        ensures
            rect == (Rect { left, top, right, bottom }),
    {
        Rect { left, top, right, bottom }
    }

    /// The distance from the left edge to the right edge: exact for every
    /// rectangle, zero or negative where the edges coincide or are swapped.
    pub fn width(&self) -> (width: i64)
        ensures
            width == self.extent_x(),
    {
        let right: i64 = self.right as i64;
        let left: i64 = self.left as i64;
        right - left
    }

    /// The distance from the top edge to the bottom edge: exact for every
    /// rectangle, zero or negative where the edges coincide or are swapped.
    pub fn height(&self) -> (height: i64)
        ensures
            height == self.extent_y(),
    {
        let bottom: i64 = self.bottom as i64;
        let top: i64 = self.top as i64;
        bottom - top
    }
}

/// Where a window is put and how large it is made.
#[derive(Clone, Copy, Debug, PartialEq, Eq, Structural)]
pub struct OverlayGeometry {
    pub left: i32,
    pub top: i32,
    pub width: i64,
    pub height: i64,
}

impl OverlayGeometry {
    /// The geometry that covers `rect` exactly.
    pub open spec fn covering(rect: Rect) -> OverlayGeometry {
        OverlayGeometry {
            left: rect.left,
            top: rect.top,
            width: rect.extent_x() as i64,
            height: rect.extent_y() as i64,
        }
    }

    /// The right edge of a window with this geometry.
    pub open spec fn right(self) -> int {
        self.left + self.width
    }

    /// The bottom edge of a window with this geometry.
    pub open spec fn bottom(self) -> int {
        self.top + self.height
    }
}

/// An order to move and resize a window.
#[derive(Clone, Copy, Debug, PartialEq, Eq, Structural)]
pub struct GeometryWrite {
    /// The window to move and resize.
    pub handle: NativeWindowHandle,
    /// Its new position and size.
    pub geometry: OverlayGeometry,
}

/// Keeps the overlay on top of its target. It reads the target and orders
/// writes to the overlay only.
#[derive(Clone, Copy, Debug, PartialEq, Eq, Structural)]
pub struct GeometrySynchronizer {
    /// The window that is followed.
    pub target: NativeWindowHandle,
    /// The overlay's own window.
    pub overlay: NativeWindowHandle,
}

impl GeometrySynchronizer {
    /// A synchronizer that makes `overlay` follow `target`.
    pub fn new(target: NativeWindowHandle, overlay: NativeWindowHandle) -> (synchronizer:
        GeometrySynchronizer)
        ensures
            synchronizer.target == target,
            synchronizer.overlay == overlay,
    {
        GeometrySynchronizer { target, overlay }
    }

    /// Given the rectangle just read for the target, orders the overlay onto
    /// exactly that rectangle. The rectangle is taken as it is, degenerate or
    /// not.
    pub fn sync(&self, queried: Rect) -> (write: GeometryWrite)
        ensures
            write.handle == self.overlay,
            write.geometry == OverlayGeometry::covering(queried),
            write.geometry.left == queried.left,
            write.geometry.top == queried.top,
            write.geometry.width == queried.right - queried.left,
            write.geometry.height == queried.bottom - queried.top,
    {
        GeometryWrite {
            handle: self.overlay,
            geometry: OverlayGeometry {
                left: queried.left,
                top: queried.top,
                width: queried.width(),
                height: queried.height(),
            },
        }
    }
}

/// A window with the geometry that covers a rectangle has that rectangle's
/// four edges, and so its position and its size.
pub proof fn lemma_covering_geometry_is_exact(rect: Rect)
    ensures
        OverlayGeometry::covering(rect).left == rect.left,
        OverlayGeometry::covering(rect).top == rect.top,
        OverlayGeometry::covering(rect).right() == rect.right,
        OverlayGeometry::covering(rect).bottom() == rect.bottom,
        OverlayGeometry::covering(rect).width == rect.extent_x(),
        OverlayGeometry::covering(rect).height == rect.extent_y(),
{
}

/// Two rectangles are covered by the same geometry only if they are the same
/// rectangle.
pub proof fn lemma_covering_geometry_is_injective(first: Rect, second: Rect)
    requires
        OverlayGeometry::covering(first) == OverlayGeometry::covering(second),
    ensures
        first == second,
{
    lemma_covering_geometry_is_exact(first);
    lemma_covering_geometry_is_exact(second);
}

} // verus!
