//! Screen coordinates, window rectangles and display bounds.

use vstd::prelude::*;

verus! {

/// A pointer position in display coordinates.  Coordinates may be negative
/// (a pointer on a secondary monitor left of or above the primary display).
#[derive(Clone, Copy, Debug, PartialEq, Eq, Structural)]
pub struct ScreenPoint {
    pub x: i32,
    pub y: i32,
}

/// A window rectangle in the same coordinate space as [`ScreenPoint`].
#[derive(Clone, Copy, Debug, PartialEq, Eq, Structural)]
pub struct WindowBounds {
    pub left: i32,
    pub top: i32,
    pub right: i32,
    pub bottom: i32,
}

/// Width and height of the primary display, in pixels.
#[derive(Clone, Copy, Debug, PartialEq, Eq, Structural)]
pub struct DisplaySize {
    pub width: i32,
    pub height: i32,
}

/// A point is inside a window rectangle when it lies within
/// `[left, right] x [top, bottom]`, inclusive on both axes.
pub open spec fn spec_contains(rect: WindowBounds, p: ScreenPoint) -> bool {
    rect.left <= p.x <= rect.right && rect.top <= p.y <= rect.bottom
}

/// A point is on the primary display when it lies within
/// `[0, width) x [0, height)`.
pub open spec fn spec_on_display(d: DisplaySize, p: ScreenPoint) -> bool {
    0 <= p.x < d.width && 0 <= p.y < d.height
}

/// Inclusive containment test used to decide whether the pointer is over the
/// consumer's own window.
pub fn contains(rect: &WindowBounds, p: ScreenPoint) -> (r: bool)
    ensures
        r == spec_contains(*rect, p),
{
    rect.left <= p.x && p.x <= rect.right && rect.top <= p.y && p.y <= rect.bottom
}

/// Whether the pointer lies on the primary display.
pub fn on_display(d: &DisplaySize, p: ScreenPoint) -> (r: bool)
    ensures
        r == spec_on_display(*d, p),
{
    0 <= p.x && p.x < d.width && 0 <= p.y && p.y < d.height
}

/// Containment is inclusive: a pointer exactly on the bottom-right corner of
/// a well-formed rectangle counts as inside.
pub proof fn lemma_boundary_inclusive(rect: WindowBounds)
    requires
        rect.left <= rect.right,
        rect.top <= rect.bottom,
    ensures
        spec_contains(rect, ScreenPoint { x: rect.right, y: rect.bottom }),
        spec_contains(rect, ScreenPoint { x: rect.left, y: rect.top }),
{
}

} // verus!
