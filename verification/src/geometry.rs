use vstd::prelude::*;

verus! {

/// An axis-aligned rectangle in screen coordinates, as the window system
/// reports them: `left`/`top` inclusive origin, `right`/`bottom` far edges.
#[derive(Clone, Copy, Debug, PartialEq, Eq, Structural)]
pub struct Rectangle {
    pub left: i32,
    pub top: i32,
    pub right: i32,
    pub bottom: i32,
}

impl Rectangle {
    /// A rectangle is well formed when its sides are ordered and its extents
    /// fit in machine arithmetic.
    pub open spec fn wf(self) -> bool {
        &&& self.left <= self.right
        &&& self.top <= self.bottom
        &&& self.right - self.left <= i32::MAX
        &&& self.bottom - self.top <= i32::MAX
    }

    pub open spec fn spec_width(self) -> int {
        self.right - self.left
    }

    pub open spec fn spec_height(self) -> int {
        self.bottom - self.top
    }

    pub fn width(&self) -> (w: i32)
        requires
            self.wf(),
        ensures
            w == self.spec_width(),
    {
        self.right - self.left
    }

    pub fn height(&self) -> (h: i32)
        requires
            self.wf(),
        ensures
            h == self.spec_height(),
    {
        self.bottom - self.top
    }
}

} // verus!
