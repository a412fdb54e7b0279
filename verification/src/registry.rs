use vstd::prelude::*;

use crate::bar::{bar_wf, is_empty_bar, Bar};
use crate::component::{components_measured, sum_component_widths, RenderedComponent};
use crate::display::Display;
use crate::draw::{cmds_view, section_cmds, BarStyle, FillRect, TextDraw};
use crate::layout::is_layout_at;
use crate::repaint::{
    center_clears, commit_frame, compute_frame, left_clears, right_clears,
};

verus! {

/// The registry invariant: every bar is well formed and no two bars share a
/// display.
pub open spec fn registry_wf(bars: Seq<Bar>) -> bool {
    &&& forall|i: int| 0 <= i < bars.len() ==> bar_wf(#[trigger] bars[i])
    &&& forall|i: int, j: int|
        0 <= i < j < bars.len() ==> (#[trigger] bars[i]).display.id != (
        #[trigger] bars[j]).display.id
}

/// Some bar of the registry belongs to display `id`.
pub open spec fn has_display(bars: Seq<Bar>, id: i32) -> bool {
    exists|i: int| 0 <= i < bars.len() && (#[trigger] bars[i]).display.id == id
}

/// How many bars of the registry belong to display `id`.
pub open spec fn count_display(bars: Seq<Bar>, id: i32) -> nat
    decreases bars.len(),
{
    if bars.len() == 0 {
        0
    } else {
        count_display(bars.drop_last(), id) + if bars.last().display.id == id {
            1nat
        } else {
            0nat
        }
    }
}

/// The registry after a create event for bar `b`: unchanged when `b`'s
/// display already has a bar (the duplicate is rejected, not merged),
/// extended by `b` otherwise.
pub open spec fn create_step(bars: Seq<Bar>, b: Bar) -> Seq<Bar> {
    if has_display(bars, b.display.id) {
        bars
    } else {
        bars.push(b)
    }
}

/// Index `i` holds the first bar of the registry owning window `id`.
pub open spec fn first_bar_at(bars: Seq<Bar>, id: i32, i: int) -> bool {
    &&& 0 <= i < bars.len()
    &&& bars[i].window_id == id
    &&& forall|k: int| 0 <= k < i ==> (#[trigger] bars[k]).window_id != id
}

/// No bar of the registry owns window `id`.
pub open spec fn no_bar_for(bars: Seq<Bar>, id: i32) -> bool {
    forall|k: int| 0 <= k < bars.len() ==> (#[trigger] bars[k]).window_id != id
}

pub proof fn lemma_count_display_zero(bars: Seq<Bar>, id: i32)
    ensures
        count_display(bars, id) == 0 <==> !has_display(bars, id),
    decreases bars.len(),
{
    if bars.len() > 0 {
        lemma_count_display_zero(bars.drop_last(), id);
        if has_display(bars.drop_last(), id) {
            let k = choose|k: int|
                0 <= k < bars.drop_last().len() && (#[trigger] bars.drop_last()[k]).display.id
                    == id;
            assert(bars[k].display.id == id);
        }
        if has_display(bars, id) && bars.last().display.id != id {
            let k = choose|k: int| 0 <= k < bars.len() && (#[trigger] bars[k]).display.id == id;
            assert(bars.drop_last()[k] == bars[k]);
        }
    }
}

/// A registry that holds its invariant never has two bars for one display.
pub proof fn lemma_count_display_le_one(bars: Seq<Bar>, id: i32)
    requires
        registry_wf(bars),
    ensures
        count_display(bars, id) <= 1,
    decreases bars.len(),
{
    if bars.len() > 0 {
        assert(registry_wf(bars.drop_last()));
        lemma_count_display_le_one(bars.drop_last(), id);
        if bars.last().display.id == id {
            lemma_count_display_zero(bars.drop_last(), id);
            if has_display(bars.drop_last(), id) {
                let k = choose|k: int|
                    0 <= k < bars.drop_last().len() && (#[trigger] bars.drop_last()[k]).display.id
                        == id;
                assert(bars[k].display.id == id);
                assert(bars[k].display.id != bars[bars.len() - 1].display.id);
            }
        }
    }
}

pub proof fn lemma_count_display_push(bars: Seq<Bar>, b: Bar, id: i32)
    ensures
        count_display(bars.push(b), id) == count_display(bars, id) + if b.display.id == id {
            1nat
        } else {
            0nat
        },
{
    assert(bars.push(b).drop_last() =~= bars);
}

/// Duplicate-create rejection: two create events for the same display leave
/// the registry with exactly one bar for it, the second event changing
/// nothing.
pub proof fn lemma_duplicate_create_rejected(bars: Seq<Bar>, b1: Bar, b2: Bar)
    requires
        registry_wf(bars),
        b1.display.id == b2.display.id,
    ensures
        create_step(create_step(bars, b1), b2) == create_step(bars, b1),
        count_display(create_step(create_step(bars, b1), b2), b1.display.id) == 1,
{
    let id = b1.display.id;
    let mid = create_step(bars, b1);
    if has_display(bars, id) {
        lemma_count_display_zero(bars, id);
        lemma_count_display_le_one(bars, id);
    } else {
        lemma_count_display_zero(bars, id);
        lemma_count_display_push(bars, b1, id);
        assert(bars.push(b1).last() == b1);
        assert(has_display(mid, id)) by {
            assert(mid[mid.len() - 1].display.id == id);
        }
    }
}

/// Create event: register a bar for `display` owning `window_id`. A display
/// that already has a bar keeps it untouched and the event is rejected —
/// non-fatal, the rest of startup proceeds.
pub fn create_bar(bars: &mut Vec<Bar>, window_id: i32, display: Display) -> (created: bool)
    requires
        registry_wf(old(bars)@),
        display.wf(),
    ensures
        registry_wf(final(bars)@),
        created == !has_display(old(bars)@, display.id),
        !created ==> final(bars)@ == old(bars)@,
        created ==> final(bars)@.len() == old(bars)@.len() + 1 && final(bars)@.drop_last() == old(bars)@
            && is_empty_bar(final(bars)@.last(), window_id, display),
        final(bars)@ == create_step(old(bars)@, final(bars)@.last()),
        has_display(final(bars)@, display.id),
{
    let n = bars.len();
    for i in 0..n
        invariant
            n == bars@.len(),
            bars@ == old(bars)@,
            registry_wf(bars@),
            forall|k: int| 0 <= k < i ==> (#[trigger] bars@[k]).display.id != display.id,
    {
        if bars[i].display.id == display.id {
            assert(has_display(bars@, display.id));
            return false;
        }
    }
    assert(!has_display(bars@, display.id));
    let b = Bar::new(window_id, display);
    bars.push(b);
    proof {
        let prev = old(bars)@;
        assert(bars@.drop_last() =~= prev);
        assert(bars@.last() == b);
        assert forall|i: int, j: int| 0 <= i < j < bars@.len() implies (
        #[trigger] bars@[i]).display.id != (#[trigger] bars@[j]).display.id by {
            if j == bars@.len() - 1 {
                assert(bars@[i] == prev[i]);
            }
        }
        assert(has_display(bars@, display.id)) by {
            assert(bars@[bars@.len() - 1].display.id == display.id);
        }
    }
    true
}

/// Close event: remove the bar owning `window_id` from the registry. An
/// unknown window identity (for instance one closed mid-flight) is a normal
/// empty lookup and the event is a no-op.
pub fn closed(bars: &mut Vec<Bar>, window_id: i32)
    requires
        registry_wf(old(bars)@),
    ensures
        registry_wf(final(bars)@),
        no_bar_for(old(bars)@, window_id) ==> final(bars)@ == old(bars)@,
        !no_bar_for(old(bars)@, window_id) ==> exists|i: int|
            #[trigger] first_bar_at(old(bars)@, window_id, i) && final(bars)@ == old(bars)@.remove(i),
{
    let n = bars.len();
    for i in 0..n
        invariant
            n == bars@.len(),
            bars@ == old(bars)@,
            registry_wf(bars@),
            forall|k: int| 0 <= k < i ==> (#[trigger] bars@[k]).window_id != window_id,
    {
        if bars[i].window_id == window_id {
            let ghost prev = bars@;
            bars.remove(i);
            proof {
                assert(first_bar_at(prev, window_id, i as int));
                assert(bars@ == prev.remove(i as int));
                assert forall|a: int| 0 <= a < bars@.len() implies bars@[a] == if a < i as int {
                    prev[a]
                } else {
                    prev[a + 1]
                } by {
                }
                assert forall|a: int, b: int| 0 <= a < b < bars@.len() implies (
                #[trigger] bars@[a]).display.id != (#[trigger] bars@[b]).display.id by {
                }
            }
            return;
        }
    }
}

/// Draw event for the bar owning `window_id`: lay the three component lists
/// out, compute the paint and clear commands against the stored baseline,
/// and commit the new sections as the next baseline. Returns the bar's index
/// with the commands, or nothing (and changes nothing) when no bar owns the
/// window.
#[verifier::rlimit(60)]
pub fn handle_draw(
    bars: &mut Vec<Bar>,
    window_id: i32,
    left_components: &Vec<RenderedComponent>,
    center_components: &Vec<RenderedComponent>,
    right_components: &Vec<RenderedComponent>,
    style: &BarStyle,
) -> (r: Option<(usize, Vec<TextDraw>, Vec<FillRect>)>)
    requires
        registry_wf(old(bars)@),
        components_measured(left_components@),
        components_measured(center_components@),
        components_measured(right_components@),
        sum_component_widths(left_components@) <= i32::MAX,
        sum_component_widths(center_components@) <= i32::MAX,
        sum_component_widths(right_components@) <= i32::MAX,
    ensures
        registry_wf(final(bars)@),
        r is None <==> no_bar_for(old(bars)@, window_id),
        r is None ==> final(bars)@ == old(bars)@,
        r matches Some(t) ==> ({
            let i = t.0 as int;
            let prev = old(bars)@[i];
            let now = final(bars)@[i];
            let w = prev.display.spec_working_area_width();
            let cshift = w / 2 - sum_component_widths(center_components@) / 2;
            let rshift = w - sum_component_widths(right_components@);
            &&& first_bar_at(old(bars)@, window_id, i)
            &&& final(bars)@ == old(bars)@.update(i, now)
            &&& now.window_id == prev.window_id
            &&& now.display == prev.display
            &&& is_layout_at(now.left, left_components@, 0)
            &&& is_layout_at(now.center, center_components@, cshift)
            &&& is_layout_at(now.right, right_components@, rshift)
            &&& cmds_view(t.1@) == section_cmds(left_components@, *style, 0) + section_cmds(
                center_components@,
                *style,
                cshift,
            ) + section_cmds(right_components@, *style, rshift)
            &&& t.2@ == left_clears(prev.left, now.left, *style) + center_clears(
                prev.center,
                now.center,
                *style,
            ) + right_clears(prev.right, now.right, *style)
        }),
{
    let n = bars.len();
    for i in 0..n
        invariant
            n == bars@.len(),
            bars@ == old(bars)@,
            registry_wf(bars@),
            components_measured(left_components@),
            components_measured(center_components@),
            components_measured(right_components@),
            sum_component_widths(left_components@) <= i32::MAX,
            sum_component_widths(center_components@) <= i32::MAX,
            sum_component_widths(right_components@) <= i32::MAX,
            forall|k: int| 0 <= k < i ==> (#[trigger] bars@[k]).window_id != window_id,
    {
        if bars[i].window_id == window_id {
            let ghost prev_bars = bars@;
            let mut b = bars.remove(i);
            let frame = compute_frame(
                &b,
                left_components,
                center_components,
                right_components,
                style,
            );
            let (texts, clears) = commit_frame(&mut b, frame);
            bars.insert(i, b);
            proof {
                assert(first_bar_at(prev_bars, window_id, i as int));
                assert(bars@ =~= prev_bars.update(i as int, bars@[i as int]));
                assert forall|a: int, c: int| 0 <= a < c < bars@.len() implies (
                #[trigger] bars@[a]).display.id != (#[trigger] bars@[c]).display.id by {
                    assert(bars@[a].display.id == prev_bars[a].display.id);
                    assert(bars@[c].display.id == prev_bars[c].display.id);
                }
                assert forall|a: int| 0 <= a < bars@.len() implies bar_wf(
                    #[trigger] bars@[a],
                ) by {
                    if a != i as int {
                        assert(bars@[a] == prev_bars[a]);
                    }
                }
            }
            return Some((i, texts, clears));
        }
    }
    None
}

} // verus!
