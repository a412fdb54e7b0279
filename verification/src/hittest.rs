use vstd::prelude::*;

use crate::bar::Bar;
use crate::item::{section_wf, Alignment, Item, ItemSection};
use crate::registry::{first_bar_at, no_bar_for, registry_wf};

verus! {

/// `lx` (a section-relative coordinate) lies within the item's closed
/// bounds.
pub open spec fn item_hit(it: Item, lx: int) -> bool {
    it.left <= lx <= it.right
}

/// `x` (an absolute coordinate) lies within the section's closed bounds.
pub open spec fn section_hit(s: ItemSection, x: int) -> bool {
    s.left <= x <= s.right
}

/// Item `i` is what hit-testing the section at absolute coordinate `x`
/// finds: the section contains `x`, the item contains the section-relative
/// coordinate, and no earlier item does (first match wins at shared
/// boundaries).
pub open spec fn section_item_at(s: ItemSection, x: int, i: int) -> bool {
    &&& section_hit(s, x)
    &&& 0 <= i < s.items@.len()
    &&& item_hit(s.items@[i], x - s.left)
    &&& forall|j: int| 0 <= j < i ==> !item_hit(#[trigger] s.items@[j], x - s.left)
}

/// Hit-testing the section at `x` finds some item.
pub open spec fn section_has_hit(s: ItemSection, x: int) -> bool {
    &&& section_hit(s, x)
    &&& exists|i: int| 0 <= i < s.items@.len() && item_hit(#[trigger] s.items@[i], x - s.left)
}

/// Hit-testing the bar at `x` finds item `i` in the region `al`, scanning
/// the regions in the fixed order left, center, right.
pub open spec fn bar_item_at(b: Bar, x: int, al: Alignment, i: int) -> bool {
    match al {
        Alignment::Left => section_item_at(b.left, x, i),
        Alignment::Center => !section_has_hit(b.left, x) && section_item_at(b.center, x, i),
        Alignment::Right => !section_has_hit(b.left, x) && !section_has_hit(b.center, x)
            && section_item_at(b.right, x, i),
    }
}

pub open spec fn bar_has_hit(b: Bar, x: int) -> bool {
    ||| section_has_hit(b.left, x)
    ||| section_has_hit(b.center, x)
    ||| section_has_hit(b.right, x)
}

/// Where a hit-test landed: which bar, which alignment region, which item.
#[derive(Clone, Copy, Debug, PartialEq, Eq, Structural)]
pub struct ItemLocation {
    pub bar: usize,
    pub section: Alignment,
    pub item: usize,
}

fn locate_in_section(s: &ItemSection, x: i32) -> (r: Option<usize>)
    requires
        section_wf(*s),
    ensures
        r matches Some(i) ==> section_item_at(*s, x as int, i as int),
        r is None <==> !section_has_hit(*s, x as int),
{
    if x < s.left || x > s.right {
        return None;
    }
    let lx = x - s.left;
    let n = s.items.len();
    for i in 0..n
        invariant
            n == s.items@.len(),
            section_wf(*s),
            s.left <= x <= s.right,
            lx == x - s.left,
            forall|j: int| 0 <= j < i ==> !item_hit(#[trigger] s.items@[j], x - s.left),
    {
        let it = &s.items[i];
        if it.left <= lx && lx <= it.right {
            return Some(i);
        }
    }
    None
}

/// Hit-test: map an absolute pointer coordinate to the item under it in the
/// bar owning window `id`, scanning regions left, center, right and items in
/// order, first match wins. A missing window or an empty spot under the
/// pointer is a defined miss, never an error.
pub fn with_item_at_pos(bars: &Vec<Bar>, id: i32, x: i32) -> (r: Option<ItemLocation>)
    requires
        registry_wf(bars@),
    ensures
        r matches Some(loc) ==> first_bar_at(bars@, id, loc.bar as int) && bar_item_at(
            bars@[loc.bar as int],
            x as int,
            loc.section,
            loc.item as int,
        ),
        r is None <==> (no_bar_for(bars@, id) || exists|i: int|
            #[trigger] first_bar_at(bars@, id, i) && !bar_has_hit(bars@[i], x as int)),
{
    let n = bars.len();
    for b in 0..n
        invariant
            n == bars@.len(),
            registry_wf(bars@),
            forall|k: int| 0 <= k < b ==> (#[trigger] bars@[k]).window_id != id,
    {
        let bar = &bars[b];
        if bar.window_id == id {
            assert(first_bar_at(bars@, id, b as int));
            if let Some(i) = locate_in_section(&bar.left, x) {
                return Some(ItemLocation { bar: b, section: Alignment::Left, item: i });
            }
            if let Some(i) = locate_in_section(&bar.center, x) {
                return Some(ItemLocation { bar: b, section: Alignment::Center, item: i });
            }
            if let Some(i) = locate_in_section(&bar.right, x) {
                return Some(ItemLocation { bar: b, section: Alignment::Right, item: i });
            }
            return None;
        }
    }
    None
}

/// `fx` (an item-relative coordinate) lies within the fragment sub-range.
pub open spec fn fragment_hit(w: (i32, i32), fx: int) -> bool {
    w.0 <= fx <= w.1
}

/// Fragment `j` is what scanning the item's sub-ranges at item-relative
/// coordinate `fx` finds: the first sub-range containing `fx`.
pub open spec fn item_fragment_at(it: Item, fx: int, j: int) -> bool {
    &&& 0 <= j < it.widths@.len()
    &&& fragment_hit(it.widths@[j], fx)
    &&& forall|k: int| 0 <= k < j ==> !fragment_hit(#[trigger] it.widths@[k], fx)
}

/// A resolved click: the located item, the index of its originating
/// component within its section's component list, and the fragment index to
/// hand to the component's click handler.
#[derive(Clone, Copy, Debug, PartialEq, Eq, Structural)]
pub struct ClickTarget {
    pub location: ItemLocation,
    pub component: usize,
    pub fragment: usize,
}

/// Click event: resolve the pointer coordinate to a clickable item's
/// fragment. Nothing under the pointer, a non-clickable item, or a
/// coordinate in no fragment's sub-range is a no-op, not an error.
pub fn click_target(bars: &Vec<Bar>, id: i32, x: i32) -> (r: Option<ClickTarget>)
    requires
        registry_wf(bars@),
    ensures
        r matches Some(t) ==> ({
            let b = bars@[t.location.bar as int];
            let s = match t.location.section {
                Alignment::Left => b.left,
                Alignment::Center => b.center,
                Alignment::Right => b.right,
            };
            let it = s.items@[t.location.item as int];
            &&& first_bar_at(bars@, id, t.location.bar as int)
            &&& bar_item_at(b, x as int, t.location.section, t.location.item as int)
            &&& it.clickable
            &&& t.component == it.component
            &&& item_fragment_at(it, x - s.left - it.left, t.fragment as int)
        }),
        r is None <==> !exists|i: int, al: Alignment, j: int, f: int|
            first_bar_at(bars@, id, i) && #[trigger] bar_item_at(bars@[i], x as int, al, j)
                && section_of(bars@[i], al).items@[j].clickable && #[trigger] item_fragment_at(
                section_of(bars@[i], al).items@[j],
                x - section_of(bars@[i], al).left - section_of(bars@[i], al).items@[j].left,
                f,
            ),
{
    let loc = match with_item_at_pos(bars, id, x) {
        Some(loc) => loc,
        None => {
            proof {
                lemma_no_located_item_no_click(bars@, id, x as int);
            }
            return None;
        },
    };
    let bar = &bars[loc.bar];
    let s = match loc.section {
        Alignment::Left => &bar.left,
        Alignment::Center => &bar.center,
        Alignment::Right => &bar.right,
    };
    let it = &s.items[loc.item];
    if !it.clickable {
        proof {
            lemma_first_bar_unique(bars@, id, loc.bar as int);
            lemma_bar_item_at_unique(bars@[loc.bar as int], x as int);
        }
        return None;
    }
    proof {
        crate::item::lemma_section_item_bounds(*s, loc.item as int);
    }
    let fx = (x - s.left) - it.left;
    let m = it.widths.len();
    for j in 0..m
        invariant
            first_bar_at(bars@, id, loc.bar as int),
            bar_item_at(bars@[loc.bar as int], x as int, loc.section, loc.item as int),
            *s == section_of(bars@[loc.bar as int], loc.section),
            0 <= loc.item < s.items@.len(),
            *it == s.items@[loc.item as int],
            it.clickable,
            m == it.widths@.len(),
            fx == x - s.left - it.left,
            forall|k: int| 0 <= k < j ==> !fragment_hit(#[trigger] it.widths@[k], fx as int),
    {
        let w = it.widths[j];
        if w.0 <= fx && fx <= w.1 {
            proof {
                let gi = loc.bar as int;
                let gal = loc.section;
                let gs = section_of(bars@[gi], gal);
                assert(gs == *s);
                assert(bar_item_at(bars@[gi], x as int, gal, loc.item as int));
                assert(item_fragment_at(
                    gs.items@[loc.item as int],
                    x - gs.left - gs.items@[loc.item as int].left,
                    j as int,
                ));
            }
            return Some(
                ClickTarget { location: loc, component: it.component, fragment: j },
            );
        }
    }
    proof {
        lemma_first_bar_unique(bars@, id, loc.bar as int);
        lemma_bar_item_at_unique(bars@[loc.bar as int], x as int);
    }
    None
}

/// A located hit implies the bar has a hit at that coordinate.
proof fn lemma_bar_item_at_implies_hit(b: Bar, x: int, al: Alignment, j: int)
    requires
        bar_item_at(b, x, al, j),
    ensures
        bar_has_hit(b, x),
{
    let s = section_of(b, al);
    assert(section_item_at(s, x, j));
    assert(0 <= j < s.items@.len() && item_hit(#[trigger] s.items@[j], x - s.left));
    assert(section_has_hit(s, x));
}

/// When the hit-test finds nothing, no clickable fragment is under the
/// pointer either.
proof fn lemma_no_located_item_no_click(bars: Seq<Bar>, id: i32, x: int)
    requires
        no_bar_for(bars, id) || exists|i: int|
            #[trigger] first_bar_at(bars, id, i) && !bar_has_hit(bars[i], x),
    ensures
        !exists|i: int, al: Alignment, j: int, f: int|
            first_bar_at(bars, id, i) && #[trigger] bar_item_at(bars[i], x, al, j)
                && section_of(bars[i], al).items@[j].clickable && #[trigger] item_fragment_at(
                section_of(bars[i], al).items@[j],
                x - section_of(bars[i], al).left - section_of(bars[i], al).items@[j].left,
                f,
            ),
{
    assert forall|i: int, al: Alignment, j: int|
        first_bar_at(bars, id, i) && #[trigger] bar_item_at(bars[i], x, al, j) implies false by {
        if no_bar_for(bars, id) {
            assert(bars[i].window_id != id);
        } else {
            let i0 = choose|i0: int|
                #[trigger] first_bar_at(bars, id, i0) && !bar_has_hit(bars[i0], x);
            lemma_first_bar_unique(bars, id, i0);
            lemma_bar_item_at_implies_hit(bars[i], x, al, j);
        }
    }
}

/// The cursor shape hover feedback selects.
#[derive(Clone, Copy, Debug, PartialEq, Eq, Structural)]
pub enum CursorKind {
    Clickable,
    Default,
}

/// Pointer-move event: choose the cursor shape — the clickable indicator
/// over a clickable item, the default cursor everywhere else. Pure feedback;
/// no bar state changes.
pub fn hover_cursor(bars: &Vec<Bar>, id: i32, x: i32) -> (r: CursorKind)
    requires
        registry_wf(bars@),
    ensures
        r == CursorKind::Clickable ==> exists|i: int, al: Alignment, j: int|
            first_bar_at(bars@, id, i) && #[trigger] bar_item_at(bars@[i], x as int, al, j)
                && section_of(bars@[i], al).items@[j].clickable,
        r == CursorKind::Default ==> !exists|i: int, al: Alignment, j: int|
            first_bar_at(bars@, id, i) && #[trigger] bar_item_at(bars@[i], x as int, al, j)
                && section_of(bars@[i], al).items@[j].clickable,
{
    if let Some(loc) = with_item_at_pos(bars, id, x) {
        let bar = &bars[loc.bar];
        let s = match loc.section {
            Alignment::Left => &bar.left,
            Alignment::Center => &bar.center,
            Alignment::Right => &bar.right,
        };
        if s.items[loc.item].clickable {
            proof {
                lemma_first_bar_unique(bars@, id, loc.bar as int);
            }
            return CursorKind::Clickable;
        }
        proof {
            lemma_first_bar_unique(bars@, id, loc.bar as int);
            lemma_bar_item_at_unique(bars@[loc.bar as int], x as int);
        }
        return CursorKind::Default;
    }
    proof {
        lemma_no_hit_no_clickable(bars@, id, x as int);
    }
    CursorKind::Default
}

/// The section of a bar selected by an alignment.
pub open spec fn section_of(b: Bar, al: Alignment) -> ItemSection {
    match al {
        Alignment::Left => b.left,
        Alignment::Center => b.center,
        Alignment::Right => b.right,
    }
}

/// Only one registry index can hold the first bar of a window.
pub proof fn lemma_first_bar_unique(bars: Seq<Bar>, id: i32, i: int)
    requires
        first_bar_at(bars, id, i),
    ensures
        forall|k: int| #[trigger] first_bar_at(bars, id, k) ==> k == i,
{
}

/// Hit-testing a bar finds at most one item: the alignment scan order and
/// the first-match rule pin both the region and the index.
pub proof fn lemma_bar_item_at_unique(b: Bar, x: int)
    ensures
        forall|al1: Alignment, i1: int, al2: Alignment, i2: int|
            #[trigger] bar_item_at(b, x, al1, i1) && #[trigger] bar_item_at(b, x, al2, i2)
                ==> al1 == al2 && i1 == i2,
{
    assert forall|al1: Alignment, i1: int, al2: Alignment, i2: int|
        #[trigger] bar_item_at(b, x, al1, i1) && #[trigger] bar_item_at(
            b,
            x,
            al2,
            i2,
        ) implies al1 == al2 && i1 == i2 by {
        assert(section_item_at(section_of(b, al1), x, i1));
        assert(section_item_at(section_of(b, al2), x, i2));
    }
}

proof fn lemma_no_hit_no_clickable(bars: Seq<Bar>, id: i32, x: int)
    requires
        no_bar_for(bars, id) || exists|i: int|
            #[trigger] first_bar_at(bars, id, i) && !bar_has_hit(bars[i], x),
    ensures
        !exists|i: int, al: Alignment, j: int|
            first_bar_at(bars, id, i) && #[trigger] bar_item_at(bars[i], x, al, j)
                && section_of(bars[i], al).items@[j].clickable,
{
}

/// Containment: every coordinate within an item's bounds hit-tests to that
/// item, except an interior left edge, which the preceding item owns (items
/// touch, and the first match wins).
pub proof fn lemma_item_containment(s: ItemSection, i: int, lx: int)
    requires
        section_wf(s),
        0 <= i < s.items@.len(),
        s.items@[i].left <= lx <= s.items@[i].right,
        i > 0 ==> s.items@[i].left < lx,
    ensures
        section_item_at(s, s.left + lx, i),
{
    crate::item::lemma_section_item_bounds(s, i);
    assert(s.left + lx <= s.right);
    assert forall|j: int| 0 <= j < i implies !item_hit(#[trigger] s.items@[j], lx) by {
        crate::item::lemma_section_items_ordered(s, j, i);
    }
}

/// A coordinate outside a section's bounds hits no item of it; one outside
/// all three regions of a bar hits nothing at all.
pub proof fn lemma_outside_misses(b: Bar, x: int)
    requires
        !section_hit(b.left, x),
        !section_hit(b.center, x),
        !section_hit(b.right, x),
    ensures
        !bar_has_hit(b, x),
{
}

} // verus!
