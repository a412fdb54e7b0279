use vstd::prelude::*;

use crate::bar::{bar_wf, Bar};
use crate::component::{
    components_measured, lemma_sum_component_nonneg, sum_component_widths, RenderedComponent,
};
use crate::draw::{
    clear_section, cmds_view, draw_components, fill_between, section_cmds, BarStyle, FillRect,
    TextDraw,
};
use crate::item::{section_width, section_wf, ItemSection};
use crate::layout::{align_center, align_right, components_to_section, is_layout_at};

verus! {

/// Clearing rule for the left section: when it shrank, blank the strip
/// between the new and the old right edge.
pub open spec fn left_clears(prev: ItemSection, new: ItemSection, style: BarStyle) -> Seq<
    FillRect,
> {
    if section_width(prev) > section_width(new) {
        seq![fill_between(style, new.right as int, prev.right as int)]
    } else {
        Seq::empty()
    }
}

/// Clearing rule for the center section: when it shrank, split the shrink
/// amount in half and blank the two symmetric margins at both ends of the
/// previous bounds.
pub open spec fn center_clears(prev: ItemSection, new: ItemSection, style: BarStyle) -> Seq<
    FillRect,
> {
    if section_width(prev) > section_width(new) {
        let delta = (section_width(prev) - section_width(new)) / 2;
        seq![
            fill_between(style, prev.left as int, prev.left + delta),
            fill_between(style, prev.right - delta, prev.right as int),
        ]
    } else {
        Seq::empty()
    }
}

/// Clearing rule for the right section: when it shrank, blank the strip
/// between the old and the new left edge.
pub open spec fn right_clears(prev: ItemSection, new: ItemSection, style: BarStyle) -> Seq<
    FillRect,
> {
    if section_width(prev) > section_width(new) {
        seq![fill_between(style, prev.left as int, new.left as int)]
    } else {
        Seq::empty()
    }
}

/// Redrawing with unchanged section widths is idempotent on the screen: when
/// no section shrank, the frame carries zero clear rectangles.
pub proof fn lemma_no_shrink_no_clears(
    prev_left: ItemSection,
    new_left: ItemSection,
    prev_center: ItemSection,
    new_center: ItemSection,
    prev_right: ItemSection,
    new_right: ItemSection,
    style: BarStyle,
)
    requires
        section_width(new_left) >= section_width(prev_left),
        section_width(new_center) >= section_width(prev_center),
        section_width(new_right) >= section_width(prev_right),
    ensures
        left_clears(prev_left, new_left, style).len() == 0,
        center_clears(prev_center, new_center, style).len() == 0,
        right_clears(prev_right, new_right, style).len() == 0,
{
}

/// One computed frame: the three newly laid-out sections, the text draw
/// commands that paint them, and the clear commands that blank whatever the
/// previous frame covered beyond them. Nothing is committed to the bar until
/// the frame is, so a failed draw leaves the diff baseline untouched.
pub struct Frame {
    pub left: ItemSection,
    pub center: ItemSection,
    pub right: ItemSection,
    pub texts: Vec<TextDraw>,
    pub clears: Vec<FillRect>,
}

/// The three sections a frame may replace a bar's baseline with: well formed
/// and placed by the alignment rules for that bar's display.
pub open spec fn sections_commitable(
    b: Bar,
    left: ItemSection,
    center: ItemSection,
    right: ItemSection,
) -> bool {
    let w = b.display.spec_working_area_width();
    &&& section_wf(left)
    &&& section_wf(center)
    &&& section_wf(right)
    &&& left.left == 0
    &&& (section_width(center) > 0 ==> center.left == w / 2 - section_width(center) / 2)
    &&& (section_width(right) > 0 ==> right.right == w)
}

/// Lay the three component lists out against `bar`'s display, and diff the
/// result against `bar`'s stored sections. The bar itself is not touched:
/// the caller draws the frame and then commits it.
#[verifier::rlimit(60)]
pub fn compute_frame(
    bar: &Bar,
    left_components: &Vec<RenderedComponent>,
    center_components: &Vec<RenderedComponent>,
    right_components: &Vec<RenderedComponent>,
    style: &BarStyle,
) -> (frame: Frame)
    requires
        bar_wf(*bar),
        components_measured(left_components@),
        components_measured(center_components@),
        components_measured(right_components@),
        sum_component_widths(left_components@) <= i32::MAX,
        sum_component_widths(center_components@) <= i32::MAX,
        sum_component_widths(right_components@) <= i32::MAX,
    ensures
        ({
            let w = bar.display.spec_working_area_width();
            let cshift = w / 2 - sum_component_widths(center_components@) / 2;
            let rshift = w - sum_component_widths(right_components@);
            &&& is_layout_at(frame.left, left_components@, 0)
            &&& is_layout_at(frame.center, center_components@, cshift)
            &&& is_layout_at(frame.right, right_components@, rshift)
            &&& sections_commitable(*bar, frame.left, frame.center, frame.right)
            &&& cmds_view(frame.texts@) == section_cmds(left_components@, *style, 0)
                + section_cmds(center_components@, *style, cshift) + section_cmds(
                right_components@,
                *style,
                rshift,
            )
            &&& frame.clears@ == left_clears(bar.left, frame.left, *style) + center_clears(
                bar.center,
                frame.center,
                *style,
            ) + right_clears(bar.right, frame.right, *style)
        }),
{
    let w = bar.display.working_area_width();
    let ghost cw = sum_component_widths(center_components@);
    let ghost rw = sum_component_widths(right_components@);

    let left = components_to_section(left_components);
    let mut center = components_to_section(center_components);
    align_center(&mut center, w);
    let mut right = components_to_section(right_components);
    align_right(&mut right, w);

    proof {
        lemma_sum_component_nonneg(left_components@);
        lemma_sum_component_nonneg(center_components@);
        lemma_sum_component_nonneg(right_components@);
        assert(center.left + cw <= i32::MAX);
        assert(right.left + rw <= i32::MAX);
    }

    let mut texts = draw_components(style, left.left, left_components);
    let mut center_texts = draw_components(style, center.left, center_components);
    let mut right_texts = draw_components(style, right.left, right_components);
    let ghost t0 = texts@;
    texts.append(&mut center_texts);
    let ghost t1 = texts@;
    texts.append(&mut right_texts);
    proof {
        let w_ = bar.display.spec_working_area_width();
        let cshift = w_ / 2 - cw / 2;
        let rshift = w_ - rw;
        assert(cmds_view(texts@) =~= section_cmds(left_components@, *style, 0) + section_cmds(
            center_components@,
            *style,
            cshift,
        ) + section_cmds(right_components@, *style, rshift));
    }

    let mut clears: Vec<FillRect> = Vec::new();
    if bar.left.width() > left.width() {
        clears.push(clear_section(style, left.right, bar.left.right));
    }
    if bar.center.width() > center.width() {
        let delta = (bar.center.width() - center.width()) / 2;
        clears.push(clear_section(style, bar.center.left, bar.center.left + delta));
        clears.push(clear_section(style, bar.center.right - delta, bar.center.right));
    }
    if bar.right.width() > right.width() {
        clears.push(clear_section(style, bar.right.left, right.left));
    }
    proof {
        assert(clears@ =~= left_clears(bar.left, left, *style) + center_clears(
            bar.center,
            center,
            *style,
        ) + right_clears(bar.right, right, *style));
    }

    Frame { left, center, right, texts, clears }
}

/// Replace the bar's diff baseline with the frame's sections, atomically
/// with respect to the bar value, and hand the frame's draw and clear
/// commands back to the caller.
pub fn commit_frame(bar: &mut Bar, frame: Frame) -> (cmds: (Vec<TextDraw>, Vec<FillRect>))
    requires
        bar_wf(*old(bar)),
        sections_commitable(*old(bar), frame.left, frame.center, frame.right),
    ensures
        final(bar).window_id == old(bar).window_id,
        final(bar).display == old(bar).display,
        final(bar).left == frame.left,
        final(bar).center == frame.center,
        final(bar).right == frame.right,
        bar_wf(*final(bar)),
        cmds.0 == frame.texts,
        cmds.1 == frame.clears,
{
    let Frame { left, center, right, texts, clears } = frame;
    bar.left = left;
    bar.center = center;
    bar.right = right;
    (texts, clears)
}

} // verus!
