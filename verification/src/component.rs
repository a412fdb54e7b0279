use vstd::prelude::*;

verus! {

/// One text fragment produced by a component: the text and optional
/// foreground/background color overrides. Recomputed on every draw.
#[derive(Clone, Debug)]
pub struct ComponentText {
    pub text: String,
    pub fg: Option<u32>,
    pub bg: Option<u32>,
}

/// A fragment together with its pixel width, as reported by the drawing
/// device's deterministic text measurer.
#[derive(Clone, Debug)]
pub struct MeasuredText {
    pub content: ComponentText,
    pub width: i32,
}

/// One component's output for the current frame: its ordered, measured
/// fragments and whether the component accepts clicks.
#[derive(Clone, Debug)]
pub struct RenderedComponent {
    pub texts: Vec<MeasuredText>,
    pub clickable: bool,
}

/// Total pixel width of a fragment sequence.
pub open spec fn sum_text_widths(ts: Seq<MeasuredText>) -> int
    decreases ts.len(),
{
    if ts.len() == 0 {
        0
    } else {
        sum_text_widths(ts.drop_last()) + ts.last().width
    }
}

pub open spec fn component_width(c: RenderedComponent) -> int {
    sum_text_widths(c.texts@)
}

/// Total pixel width of a component sequence.
pub open spec fn sum_component_widths(cs: Seq<RenderedComponent>) -> int
    decreases cs.len(),
{
    if cs.len() == 0 {
        0
    } else {
        sum_component_widths(cs.drop_last()) + component_width(cs.last())
    }
}

/// The measurer never reports a negative width.
pub open spec fn texts_measured(ts: Seq<MeasuredText>) -> bool {
    forall|i: int| 0 <= i < ts.len() ==> (#[trigger] ts[i]).width >= 0
}

pub open spec fn components_measured(cs: Seq<RenderedComponent>) -> bool {
    forall|i: int| 0 <= i < cs.len() ==> texts_measured((#[trigger] cs[i]).texts@)
}

pub proof fn lemma_sum_text_take_step(ts: Seq<MeasuredText>, n: int)
    requires
        0 <= n < ts.len(),
    ensures
        sum_text_widths(ts.take(n + 1)) == sum_text_widths(ts.take(n)) + ts[n].width,
{
    assert(ts.take(n + 1).drop_last() =~= ts.take(n));
    assert(ts.take(n + 1).last() == ts[n]);
}

pub proof fn lemma_sum_text_nonneg(ts: Seq<MeasuredText>)
    requires
        texts_measured(ts),
    ensures
        sum_text_widths(ts) >= 0,
    decreases ts.len(),
{
    if ts.len() > 0 {
        assert(texts_measured(ts.drop_last()));
        lemma_sum_text_nonneg(ts.drop_last());
    }
}

/// Each prefix sum is bounded by the total.
pub proof fn lemma_sum_text_prefix_le(ts: Seq<MeasuredText>, n: int)
    requires
        texts_measured(ts),
        0 <= n <= ts.len(),
    ensures
        sum_text_widths(ts.take(n)) <= sum_text_widths(ts),
        sum_text_widths(ts.take(n)) >= 0,
    decreases ts.len() - n,
{
    assert(texts_measured(ts.take(n)));
    lemma_sum_text_nonneg(ts.take(n));
    if n == ts.len() {
        assert(ts.take(n) =~= ts);
    } else {
        lemma_sum_text_take_step(ts, n);
        lemma_sum_text_prefix_le(ts, n + 1);
    }
}

pub proof fn lemma_sum_component_take_step(cs: Seq<RenderedComponent>, n: int)
    requires
        0 <= n < cs.len(),
    ensures
        sum_component_widths(cs.take(n + 1)) == sum_component_widths(cs.take(n))
            + component_width(cs[n]),
{
    assert(cs.take(n + 1).drop_last() =~= cs.take(n));
    assert(cs.take(n + 1).last() == cs[n]);
}

pub proof fn lemma_sum_component_nonneg(cs: Seq<RenderedComponent>)
    requires
        components_measured(cs),
    ensures
        sum_component_widths(cs) >= 0,
    decreases cs.len(),
{
    if cs.len() > 0 {
        assert(components_measured(cs.drop_last()));
        lemma_sum_component_nonneg(cs.drop_last());
        lemma_sum_text_nonneg(cs.last().texts@);
    }
}

/// Each prefix sum is bounded by the total.
pub proof fn lemma_sum_component_prefix_le(cs: Seq<RenderedComponent>, n: int)
    requires
        components_measured(cs),
        0 <= n <= cs.len(),
    ensures
        sum_component_widths(cs.take(n)) <= sum_component_widths(cs),
        sum_component_widths(cs.take(n)) >= 0,
    decreases cs.len() - n,
{
    assert(components_measured(cs.take(n)));
    lemma_sum_component_nonneg(cs.take(n));
    if n == cs.len() {
        assert(cs.take(n) =~= cs);
    } else {
        lemma_sum_component_take_step(cs, n);
        lemma_sum_text_nonneg(cs[n].texts@);
        lemma_sum_component_prefix_le(cs, n + 1);
    }
}

} // verus!
