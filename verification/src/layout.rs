use vstd::prelude::*;

use crate::component::{
    components_measured, component_width, lemma_sum_component_nonneg,
    lemma_sum_component_prefix_le, lemma_sum_component_take_step, lemma_sum_text_nonneg,
    lemma_sum_text_prefix_le, lemma_sum_text_take_step, sum_component_widths, sum_text_widths,
    texts_measured, RenderedComponent,
};
use crate::item::{item_wf, section_wf, Item, ItemSection};

verus! {

/// `it` is the placed instance of component `c`, the `idx`-th of its
/// section, starting at section-relative offset `offset`: the item spans the
/// component's total width and its fragment sub-ranges are the fragment
/// widths' running sums.
pub open spec fn item_matches(it: Item, c: RenderedComponent, idx: int, offset: int) -> bool {
    &&& it.component == idx
    &&& it.clickable == c.clickable
    &&& it.left == offset
    &&& it.right == offset + component_width(c)
    &&& it.widths@.len() == c.texts@.len()
    &&& forall|j: int|
        0 <= j < c.texts@.len() ==> (#[trigger] it.widths@[j]).0 == sum_text_widths(
            c.texts@.take(j),
        ) && it.widths@[j].1 == sum_text_widths(c.texts@.take(j + 1))
}

/// `s` is the layout of the component list `cs`, shifted so that the section
/// begins at `shift`: one item per component, in order, each beginning where
/// the previous one ended, with the section's aggregate bounds spanning the
/// total content width.
pub open spec fn is_layout_at(s: ItemSection, cs: Seq<RenderedComponent>, shift: int) -> bool {
    &&& s.left == shift
    &&& s.right == shift + sum_component_widths(cs)
    &&& s.items@.len() == cs.len()
    &&& forall|i: int|
        0 <= i < cs.len() ==> item_matches(
            #[trigger] s.items@[i],
            cs[i],
            i,
            sum_component_widths(cs.take(i)),
        )
}

/// A raw or shifted layout of measured components is a well-formed section.
pub proof fn lemma_layout_wf(s: ItemSection, cs: Seq<RenderedComponent>, shift: int)
    requires
        is_layout_at(s, cs, shift),
        components_measured(cs),
    ensures
        section_wf(s),
{
    lemma_sum_component_nonneg(cs);
    assert forall|i: int| 0 <= i < s.items@.len() implies item_wf(#[trigger] s.items@[i]) by {
        let c = cs[i];
        let ts = c.texts@;
        lemma_sum_component_prefix_le(cs, i);
        lemma_sum_text_nonneg(ts);
        assert(ts.take(0) =~= Seq::<crate::component::MeasuredText>::empty());
        assert(ts.take(ts.len() as int) =~= ts);
        assert forall|j: int| 0 <= j < ts.len() implies (#[trigger] s.items@[i].widths@[j]).0
            <= s.items@[i].widths@[j].1 by {
            lemma_sum_text_take_step(ts, j);
            assert(texts_measured(ts));
            assert(ts[j].width >= 0);
        }
        assert forall|j: int| 0 < j < ts.len() implies (#[trigger] s.items@[i].widths@[j]).0
            == s.items@[i].widths@[j - 1].1 by {
        }
    }
    if s.items@.len() > 0 {
        assert(cs.take(0) =~= Seq::<RenderedComponent>::empty());
        let n = cs.len() as int;
        lemma_sum_component_take_step(cs, n - 1);
        assert(cs.take(n) =~= cs);
        assert(s.items@.last() == s.items@[n - 1]);
    }
    assert forall|i: int| 0 < i < s.items@.len() implies (#[trigger] s.items@[i]).left
        == s.items@[i - 1].right by {
        lemma_sum_component_take_step(cs, i - 1);
    }
}

/// Raw layout: turn an ordered, measured component list into a positioned
/// section starting at offset zero. Empty fragments still occupy their
/// measured width, matching the drawing device's view of the text run.
pub fn components_to_section(components: &Vec<RenderedComponent>) -> (s: ItemSection)
    requires
        components_measured(components@),
        sum_component_widths(components@) <= i32::MAX,
    ensures
        is_layout_at(s, components@, 0),
        section_wf(s),
{
    let ghost cs = components@;
    let mut items: Vec<Item> = Vec::new();
    let mut component_offset: i32 = 0;
    let n = components.len();

    proof {
        assert(cs.take(0) =~= Seq::<RenderedComponent>::empty());
    }

    for i in 0..n
        invariant
            n == cs.len(),
            cs == components@,
            components_measured(cs),
            sum_component_widths(cs) <= i32::MAX,
            component_offset == sum_component_widths(cs.take(i as int)),
            items@.len() == i,
            forall|k: int|
                0 <= k < i ==> item_matches(
                    #[trigger] items@[k],
                    cs[k],
                    k,
                    sum_component_widths(cs.take(k)),
                ),
    {
        let c = &components[i];
        let ghost ts = c.texts@;
        let mut widths: Vec<(i32, i32)> = Vec::new();
        let mut text_offset: i32 = 0;
        let m = c.texts.len();

        proof {
            lemma_sum_component_prefix_le(cs, i as int);
            lemma_sum_component_take_step(cs, i as int);
            lemma_sum_component_prefix_le(cs, i as int + 1);
            assert(sum_text_widths(ts) <= i32::MAX);
            assert(ts.take(0) =~= Seq::<crate::component::MeasuredText>::empty());
        }

        for j in 0..m
            invariant
                m == ts.len(),
                ts == c.texts@,
                components_measured(components@),
                texts_measured(ts),
                sum_text_widths(ts) <= i32::MAX,
                text_offset == sum_text_widths(ts.take(j as int)),
                widths@.len() == j,
                forall|k: int|
                    0 <= k < j ==> (#[trigger] widths@[k]).0 == sum_text_widths(ts.take(k))
                        && widths@[k].1 == sum_text_widths(ts.take(k + 1)),
        {
            let w = c.texts[j].width;
            proof {
                lemma_sum_text_prefix_le(ts, j as int);
                lemma_sum_text_take_step(ts, j as int);
                lemma_sum_text_prefix_le(ts, j as int + 1);
            }
            let left = text_offset;
            let right = text_offset + w;
            widths.push((left, right));
            text_offset = right;
        }

        proof {
            assert(ts.take(m as int) =~= ts);
            lemma_sum_text_nonneg(ts);
        }

        let item = Item {
            left: component_offset,
            right: component_offset + text_offset,
            widths,
            component: i,
            clickable: c.clickable,
        };
        items.push(item);
        component_offset = component_offset + text_offset;
        proof {
            lemma_sum_component_take_step(cs, i as int);
        }
    }

    proof {
        assert(cs.take(n as int) =~= cs);
    }
    let s = ItemSection { left: 0, right: component_offset, items };
    proof {
        lemma_layout_wf(s, cs, 0);
    }
    s
}

/// Alignment pass for the center section: place the raw layout so that its
/// midpoint sits at half the working-area width.
pub fn align_center(section: &mut ItemSection, working_area_width: i32)
    requires
        section_wf(*old(section)),
        old(section).left == 0,
        working_area_width >= 0,
    ensures
        final(section).items == old(section).items,
        final(section).left == working_area_width / 2 - old(section).right / 2,
        final(section).right == final(section).left + old(section).right,
        section_wf(*final(section)),
{
    let shift = working_area_width / 2 - section.right / 2;
    proof {
        let c = section.right as int;
        let w = working_area_width as int;
        assert(c >= 0);
        assert(c + (w / 2 - c / 2) <= i32::MAX);
        assert(c + (w / 2 - c / 2) >= i32::MIN);
    }
    section.right = section.right + shift;
    section.left = shift;
}

/// Alignment pass for the right section: place the raw layout so that its
/// right edge coincides with the working-area width.
pub fn align_right(section: &mut ItemSection, working_area_width: i32)
    requires
        section_wf(*old(section)),
        old(section).left == 0,
        working_area_width >= 0,
    ensures
        final(section).items == old(section).items,
        final(section).left == working_area_width - old(section).right,
        final(section).right == working_area_width,
        section_wf(*final(section)),
{
    let shift = working_area_width - section.right;
    section.right = section.right + shift;
    section.left = shift;
}

/// Center placement splits the slack evenly: for any working-area width and
/// any raw content width, the placed bounds' midpoint is half the
/// working-area width.
pub proof fn lemma_center_midpoint(working: int, content: int)
    requires
        0 <= working,
        0 <= content,
    ensures
        ({
            let left = working / 2 - content / 2;
            let right = left + content;
            left + (right - left) / 2 == working / 2
        }),
{
}

} // verus!
