use vstd::prelude::*;
use vstd::string::StrSliceExecFns;

use crate::component::{
    components_measured, component_width, lemma_sum_component_nonneg,
    lemma_sum_component_prefix_le, lemma_sum_component_take_step, lemma_sum_text_nonneg,
    lemma_sum_text_prefix_le, lemma_sum_text_take_step, sum_component_widths, sum_text_widths,
    ComponentText, MeasuredText, RenderedComponent,
};

verus! {

/// Default foreground color of the light theme.
pub const LIGHT_THEME_FOREGROUND: u32 = 0x00333333;

/// Default foreground color of the dark theme.
pub const DARK_THEME_FOREGROUND: u32 = 0x00ffffff;

/// The bar settings a repaint needs: pixel height, background color, and the
/// theme flag selecting the default foreground.
#[derive(Clone, Copy, Debug)]
pub struct BarStyle {
    pub height: i32,
    pub color: u32,
    pub light_theme: bool,
}

/// A command for the drawing device: write `text` at `(x, 0)` with the given
/// foreground and background colors, the bar's full height tall.
#[derive(Clone, Debug)]
pub struct TextDraw {
    pub text: String,
    pub x: i32,
    pub fg: u32,
    pub bg: u32,
}

/// The mathematical image of a `TextDraw`.
pub ghost struct TextDrawModel {
    pub text: Seq<char>,
    pub x: int,
    pub fg: u32,
    pub bg: u32,
}

impl View for TextDraw {
    type V = TextDrawModel;

    open spec fn view(&self) -> TextDrawModel {
        TextDrawModel { text: self.text@, x: self.x as int, fg: self.fg, bg: self.bg }
    }
}

pub open spec fn cmds_view(v: Seq<TextDraw>) -> Seq<TextDrawModel> {
    v.map_values(|c: TextDraw| c@)
}

/// A command for the drawing device: fill the rectangle at `(x, y)` of size
/// `w` by `h` with `color`.
#[derive(Clone, Copy, Debug, PartialEq, Eq, Structural)]
pub struct FillRect {
    pub x: i32,
    pub y: i32,
    pub w: i32,
    pub h: i32,
    pub color: u32,
}

/// The fill command that blanks the bar-height strip between two x
/// coordinates with the bar's background color.
pub open spec fn fill_between(style: BarStyle, left: int, right: int) -> FillRect {
    FillRect {
        x: left as i32,
        y: 0,
        w: (right - left) as i32,
        h: style.height,
        color: style.color,
    }
}

/// The foreground a fragment is drawn with: its own override, or the theme's
/// default.
pub open spec fn resolved_fg(style: BarStyle, t: ComponentText) -> u32 {
    match t.fg {
        Some(c) => c,
        None => if style.light_theme {
            LIGHT_THEME_FOREGROUND
        } else {
            DARK_THEME_FOREGROUND
        },
    }
}

/// The background a fragment is drawn with: its own override, or the bar's
/// configured background.
pub open spec fn resolved_bg(style: BarStyle, t: ComponentText) -> u32 {
    match t.bg {
        Some(c) => c,
        None => style.color,
    }
}

/// The draw commands for one component's fragment run starting at `offset`:
/// one command per non-empty fragment, at the running sum of the widths of
/// the fragments before it. Empty fragments are skipped but still advance
/// the offset by their measured width.
pub open spec fn frag_cmds(ts: Seq<MeasuredText>, style: BarStyle, offset: int) -> Seq<
    TextDrawModel,
>
    decreases ts.len(),
{
    if ts.len() == 0 {
        Seq::empty()
    } else {
        let rest = frag_cmds(ts.drop_last(), style, offset);
        let t = ts.last();
        if t.content.text@.len() == 0 {
            rest
        } else {
            rest.push(
                TextDrawModel {
                    text: t.content.text@,
                    x: offset + sum_text_widths(ts.drop_last()),
                    fg: resolved_fg(style, t.content),
                    bg: resolved_bg(style, t.content),
                },
            )
        }
    }
}

/// The draw commands for a whole component list starting at `offset`: each
/// component's fragment run begins where the previous component's ended.
pub open spec fn section_cmds(cs: Seq<RenderedComponent>, style: BarStyle, offset: int) -> Seq<
    TextDrawModel,
>
    decreases cs.len(),
{
    if cs.len() == 0 {
        Seq::empty()
    } else {
        section_cmds(cs.drop_last(), style, offset) + frag_cmds(
            cs.last().texts@,
            style,
            offset + sum_component_widths(cs.drop_last()),
        )
    }
}

pub proof fn lemma_frag_cmds_take_step(ts: Seq<MeasuredText>, style: BarStyle, offset: int, j: int)
    requires
        0 <= j < ts.len(),
    ensures
        frag_cmds(ts.take(j + 1), style, offset) == if ts[j].content.text@.len() == 0 {
            frag_cmds(ts.take(j), style, offset)
        } else {
            frag_cmds(ts.take(j), style, offset).push(
                TextDrawModel {
                    text: ts[j].content.text@,
                    x: offset + sum_text_widths(ts.take(j)),
                    fg: resolved_fg(style, ts[j].content),
                    bg: resolved_bg(style, ts[j].content),
                },
            )
        },
{
    assert(ts.take(j + 1).drop_last() =~= ts.take(j));
    assert(ts.take(j + 1).last() == ts[j]);
}

pub proof fn lemma_section_cmds_take_step(
    cs: Seq<RenderedComponent>,
    style: BarStyle,
    offset: int,
    i: int,
)
    requires
        0 <= i < cs.len(),
    ensures
        section_cmds(cs.take(i + 1), style, offset) == section_cmds(cs.take(i), style, offset)
            + frag_cmds(cs[i].texts@, style, offset + sum_component_widths(cs.take(i))),
{
    assert(cs.take(i + 1).drop_last() =~= cs.take(i));
    assert(cs.take(i + 1).last() == cs[i]);
}

/// Compute the draw command for one fragment at horizontal position `x`:
/// none for empty text, otherwise the text with its resolved colors.
pub fn draw_component_text(style: &BarStyle, x: i32, text: &ComponentText) -> (r: Option<TextDraw>)
    ensures
        text.text@.len() == 0 <==> r is None,
        r matches Some(cmd) ==> cmd@ == (TextDrawModel {
            text: text.text@,
            x: x as int,
            fg: resolved_fg(*style, *text),
            bg: resolved_bg(*style, *text),
        }),
{
    if text.text.as_str().unicode_len() == 0 {
        return None;
    }
    let fg = match text.fg {
        Some(c) => c,
        None => if style.light_theme {
            LIGHT_THEME_FOREGROUND
        } else {
            DARK_THEME_FOREGROUND
        },
    };
    let bg = match text.bg {
        Some(c) => c,
        None => style.color,
    };
    Some(TextDraw { text: text.text.clone(), x, fg, bg })
}

/// Compute the draw commands for a component list laid out from `offset`:
/// every non-empty fragment of every component, left to right.
pub fn draw_components(style: &BarStyle, offset: i32, components: &Vec<RenderedComponent>) -> (r:
    Vec<TextDraw>)
    requires
        components_measured(components@),
        offset + sum_component_widths(components@) <= i32::MAX,
    ensures
        cmds_view(r@) == section_cmds(components@, *style, offset as int),
{
    let ghost cs = components@;
    let mut r: Vec<TextDraw> = Vec::new();
    let mut x: i32 = offset;
    let n = components.len();

    proof {
        assert(cs.take(0) =~= Seq::<RenderedComponent>::empty());
        assert(cmds_view(r@) =~= section_cmds(cs.take(0), *style, offset as int));
    }

    for i in 0..n
        invariant
            n == cs.len(),
            cs == components@,
            components_measured(cs),
            offset + sum_component_widths(cs) <= i32::MAX,
            x == offset + sum_component_widths(cs.take(i as int)),
            cmds_view(r@) == section_cmds(cs.take(i as int), *style, offset as int),
    {
        let c = &components[i];
        let ghost ts = c.texts@;
        let ghost base = x as int;
        let m = c.texts.len();

        proof {
            lemma_sum_component_prefix_le(cs, i as int);
            lemma_sum_component_take_step(cs, i as int);
            lemma_sum_component_prefix_le(cs, i as int + 1);
            lemma_sum_component_nonneg(cs);
            assert(base + sum_text_widths(ts) <= i32::MAX);
            assert(ts.take(0) =~= Seq::<MeasuredText>::empty());
            assert(frag_cmds(ts.take(0), *style, base) =~= Seq::<TextDrawModel>::empty());
            assert(cmds_view(r@) =~= section_cmds(cs.take(i as int), *style, offset as int)
                + frag_cmds(ts.take(0), *style, base));
        }

        for j in 0..m
            invariant
                m == ts.len(),
                ts == c.texts@,
                crate::component::texts_measured(ts),
                base + sum_text_widths(ts) <= i32::MAX,
                x == base + sum_text_widths(ts.take(j as int)),
                cmds_view(r@) == section_cmds(cs.take(i as int), *style, offset as int)
                    + frag_cmds(ts.take(j as int), *style, base),
        {
            proof {
                lemma_sum_text_prefix_le(ts, j as int);
                lemma_sum_text_take_step(ts, j as int);
                lemma_sum_text_prefix_le(ts, j as int + 1);
            }
            let t = &c.texts[j];
            let cmd = draw_component_text(style, x, &t.content);
            proof {
                lemma_frag_cmds_take_step(ts, *style, base, j as int);
            }
            match cmd {
                Some(cmd) => {
                    let ghost before = r@;
                    r.push(cmd);
                    proof {
                        assert(cmds_view(r@) =~= cmds_view(before).push(cmd@));
                    }
                },
                None => {},
            }
            x = x + t.width;
        }

        proof {
            assert(ts.take(m as int) =~= ts);
            lemma_section_cmds_take_step(cs, *style, offset as int, i as int);
        }
    }

    proof {
        assert(cs.take(n as int) =~= cs);
    }
    r
}

/// Compute the fill command that clears the bar-height strip between two x
/// coordinates with the bar's background color.
pub fn clear_section(style: &BarStyle, left: i32, right: i32) -> (r: FillRect)
    requires
        left <= right,
        right - left <= i32::MAX,
    ensures
        r == fill_between(*style, left as int, right as int),
{
    FillRect { x: left, y: 0, w: right - left, h: style.height, color: style.color }
}

} // verus!
