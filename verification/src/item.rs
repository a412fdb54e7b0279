use vstd::prelude::*;

verus! {

/// One of the three alignment regions of a bar.
#[derive(Clone, Copy, Debug, PartialEq, Eq, Structural)]
pub enum Alignment {
    Left,
    Center,
    Right,
}

/// One component's rendered instance within a section. `left` and `right`
/// are section-relative bounds; `widths` holds one item-relative `(left,
/// right)` sub-range per fragment, for fragment-level hit testing.
/// `component` is the index of the originating component within the
/// section's component list, so a click can be dispatched to the live
/// component rather than to a stale copy.
#[derive(Clone, Debug)]
pub struct Item {
    pub left: i32,
    pub right: i32,
    pub widths: Vec<(i32, i32)>,
    pub component: usize,
    pub clickable: bool,
}

/// An ordered sequence of items for one alignment region, with the region's
/// aggregate bounds after alignment placement. Items are contiguous,
/// non-overlapping, and in component order.
#[derive(Clone, Debug)]
pub struct ItemSection {
    pub left: i32,
    pub right: i32,
    pub items: Vec<Item>,
}

pub open spec fn item_wf(it: Item) -> bool {
    &&& 0 <= it.left
    &&& it.left <= it.right
    &&& (it.widths@.len() == 0 ==> it.right == it.left)
    &&& (it.widths@.len() > 0 ==> it.widths@[0].0 == 0 && it.widths@.last().1 == it.right
        - it.left)
    &&& forall|j: int| 0 <= j < it.widths@.len() ==> (#[trigger] it.widths@[j]).0
        <= it.widths@[j].1
    &&& forall|j: int|
        0 < j < it.widths@.len() ==> (#[trigger] it.widths@[j]).0 == it.widths@[j - 1].1
}

pub open spec fn section_width(s: ItemSection) -> int {
    s.right - s.left
}

pub open spec fn section_wf(s: ItemSection) -> bool {
    &&& s.left <= s.right
    &&& s.right - s.left <= i32::MAX
    &&& forall|i: int| 0 <= i < s.items@.len() ==> item_wf(#[trigger] s.items@[i])
    &&& (s.items@.len() > 0 ==> s.items@[0].left == 0)
    &&& forall|i: int| 0 < i < s.items@.len() ==> (#[trigger] s.items@[i]).left == s.items@[i
        - 1].right
    &&& (s.items@.len() == 0 ==> s.right == s.left)
    &&& (s.items@.len() > 0 ==> s.items@.last().right == s.right - s.left)
}

impl ItemSection {
    /// The empty section, the state of a bar before its first draw.
    pub fn empty() -> (s: ItemSection)
        ensures
            s.left == 0,
            s.right == 0,
            s.items@.len() == 0,
            section_wf(s),
    {
        ItemSection { left: 0, right: 0, items: Vec::new() }
    }

    pub fn width(&self) -> (w: i32)
        requires
            section_wf(*self),
        ensures
            w == section_width(*self),
    {
        self.right - self.left
    }
}

/// Items of a well-formed section are ordered and non-overlapping: an
/// earlier item ends no later than a later one begins.
pub proof fn lemma_section_items_ordered(s: ItemSection, i: int, j: int)
    requires
        section_wf(s),
        0 <= i < j < s.items@.len(),
    ensures
        s.items@[i].right <= s.items@[j].left,
    decreases j - i,
{
    if i + 1 == j {
        assert(s.items@[j].left == s.items@[j - 1].right);
    } else {
        lemma_section_items_ordered(s, i, j - 1);
        assert(s.items@[j].left == s.items@[j - 1].right);
        assert(item_wf(s.items@[j - 1]));
    }
}

/// Every item of a well-formed section lies within the section's width.
pub proof fn lemma_section_item_bounds(s: ItemSection, i: int)
    requires
        section_wf(s),
        0 <= i < s.items@.len(),
    ensures
        0 <= s.items@[i].left,
        s.items@[i].right <= s.right - s.left,
    decreases s.items@.len() - i,
{
    assert(item_wf(s.items@[i]));
    if i + 1 == s.items@.len() {
        assert(s.items@.last() == s.items@[i]);
    } else {
        lemma_section_items_ordered(s, i, s.items@.len() - 1);
        assert(item_wf(s.items@[s.items@.len() - 1]));
        assert(s.items@.last() == s.items@[s.items@.len() - 1]);
    }
}

} // verus!
