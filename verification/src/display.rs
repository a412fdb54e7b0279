use vstd::prelude::*;

use crate::geometry::Rectangle;

verus! {

/// A read-only monitor descriptor: identity, working area, and DPI. Supplied
/// by the window system and immutable for the compositor's purposes.
#[derive(Clone, Copy, Debug)]
pub struct Display {
    pub id: i32,
    pub dpi: u32,
    pub working_area: Rectangle,
}

impl Display {
    pub open spec fn wf(self) -> bool {
        self.working_area.wf()
    }

    pub open spec fn spec_working_area_width(self) -> int {
        self.working_area.spec_width()
    }

    pub fn working_area_width(&self) -> (w: i32)
        requires
            self.wf(),
        ensures
            w == self.spec_working_area_width(),
    {
        self.working_area.width()
    }
}

} // verus!
