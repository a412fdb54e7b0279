use vstd::prelude::*;

use crate::display::Display;
use crate::item::{section_width, section_wf, ItemSection};

verus! {

/// One bar per display: the owning window, the display it belongs to, and
/// the previous frame's three sections, which are the diff baseline for the
/// next draw.
#[derive(Clone, Debug)]
pub struct Bar {
    pub window_id: i32,
    pub display: Display,
    pub left: ItemSection,
    pub center: ItemSection,
    pub right: ItemSection,
}

/// A bar's stored sections always reflect a completed draw (or the empty
/// state before the first one): the left section starts at zero, a non-empty
/// center section is centered in the display's working area, and a non-empty
/// right section ends at its right edge.
pub open spec fn bar_wf(b: Bar) -> bool {
    &&& b.display.wf()
    &&& section_wf(b.left)
    &&& section_wf(b.center)
    &&& section_wf(b.right)
    &&& b.left.left == 0
    &&& (section_width(b.center) > 0 ==> b.center.left == b.display.spec_working_area_width() / 2
        - section_width(b.center) / 2)
    &&& (section_width(b.right) > 0 ==> b.right.right == b.display.spec_working_area_width())
}

/// A freshly created bar: its window, its display, and empty sections.
pub open spec fn is_empty_bar(b: Bar, window_id: i32, display: Display) -> bool {
    &&& b.window_id == window_id
    &&& b.display == display
    &&& b.left.left == 0 && b.left.right == 0 && b.left.items@.len() == 0
    &&& b.center.left == 0 && b.center.right == 0 && b.center.items@.len() == 0
    &&& b.right.left == 0 && b.right.right == 0 && b.right.items@.len() == 0
}

impl Bar {
    /// The bar registered when a display gains its window, before any draw.
    pub fn new(window_id: i32, display: Display) -> (b: Bar)
        requires
            display.wf(),
        ensures
            is_empty_bar(b, window_id, display),
            bar_wf(b),
    {
        Bar {
            window_id,
            display,
            left: ItemSection::empty(),
            center: ItemSection::empty(),
            right: ItemSection::empty(),
        }
    }
}

} // verus!
