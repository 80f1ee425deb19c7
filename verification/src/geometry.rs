//! Screen rectangles, used when a window is created.

use vstd::prelude::*;

verus! {

/// A rectangle in screen coordinates, given by its edges.
///
/// A rectangle whose width or height is zero or negative is a valid request:
/// it asks the native side to choose the size of the window.
#[derive(Clone, Copy, Debug, PartialEq, Eq, Structural)]
pub struct Rect {
    pub left: i32,
    pub top: i32,
    pub right: i32,
    pub bottom: i32,
}

impl Rect {
    /// Distance from the left edge to the right edge.
    pub open spec fn spec_width(&self) -> int {
        self.right - self.left
    }

    /// Distance from the top edge to the bottom edge.
    pub open spec fn spec_height(&self) -> int {
        self.bottom - self.top
    }

    /// Whether the rectangle covers any area at all.
    pub open spec fn spec_has_area(&self) -> bool {
        self.spec_width() > 0 && self.spec_height() > 0
    }

    /// The rectangle to ask a window of, where the size is left to the
    /// native side whenever the rectangle covers no area.
    pub open spec fn spec_frame(&self) -> Option<Rect> {
        if self.spec_has_area() {
            Some(*self)
        } else {
            None
        }
    }

    pub fn new(left: i32, top: i32, right: i32, bottom: i32) -> (rc: Rect)
        ensures
            rc == (Rect { left, top, right, bottom }),
    {
        Rect { left, top, right, bottom }
    }

    /// The width, which cannot overflow whatever the edges are.
    pub fn width(&self) -> (w: i64)
        ensures
            w == self.spec_width(),
    {
        self.right as i64 - self.left as i64
    }

    /// The height, which cannot overflow whatever the edges are.
    pub fn height(&self) -> (h: i64)
        ensures
            h == self.spec_height(),
    {
        self.bottom as i64 - self.top as i64
    }

    #[verifier::when_used_as_spec(spec_has_area)]
    pub fn has_area(&self) -> (b: bool)
        ensures
            b == self.spec_has_area(),
    {
        self.width() > 0 && self.height() > 0
    }

    /// `Some` of the rectangle itself if it covers an area, `None` to let the
    /// native side choose.
    #[verifier::when_used_as_spec(spec_frame)]
    pub fn frame(&self) -> (f: Option<Rect>)
        ensures
            f == self.spec_frame(),
    {
        if self.has_area() {
            Some(*self)
        } else {
            None
        }
    }
}

} // verus!
