use nog_bar::component::{ComponentText, MeasuredText, RenderedComponent};
use nog_bar::bar::Bar;
use nog_bar::display::Display;
use nog_bar::draw::{
    clear_section, draw_component_text, draw_components, BarStyle, FillRect,
    DARK_THEME_FOREGROUND, LIGHT_THEME_FOREGROUND,
};
use nog_bar::geometry::Rectangle;
use nog_bar::hittest::{click_target, hover_cursor, with_item_at_pos, CursorKind};
use nog_bar::item::{Alignment, ItemSection};
use nog_bar::layout::{align_center, align_right, components_to_section};

fn fragment(text: &str, width: i32) -> MeasuredText {
    MeasuredText {
        content: ComponentText { text: String::from(text), fg: None, bg: None },
        width,
    }
}

fn component(texts: Vec<MeasuredText>, clickable: bool) -> RenderedComponent {
    RenderedComponent { texts, clickable }
}

fn style() -> BarStyle {
    BarStyle { height: 20, color: 0x002c1a4d, light_theme: false }
}

fn display(width: i32) -> Display {
    Display {
        id: 0,
        dpi: 96,
        working_area: Rectangle { left: 0, top: 0, right: width, bottom: 800 },
    }
}

/// The three sample components: a workspace label of width 40, a clock of
/// width 50, and a clickable app button made of two fragments of width 30.
fn sample_components() -> Vec<RenderedComponent> {
    vec![
        component(vec![fragment("Mon0", 40)], false),
        component(vec![fragment("09:41", 50)], false),
        component(vec![fragment("Ap", 30), fragment("ps", 30)], true),
    ]
}

fn sample_bar(working_width: i32) -> Bar {
    let section = components_to_section(&sample_components());
    let mut bar = Bar::new(7, display(working_width));
    bar.left = section;
    bar
}

#[test]
fn layout_produces_contiguous_items_in_order() {
    let section = components_to_section(&sample_components());
    assert_eq!(section.left, 0);
    assert_eq!(section.right, 150);
    assert_eq!(section.items.len(), 3);
    let bounds: Vec<(i32, i32)> =
        section.items.iter().map(|it| (it.left, it.right)).collect();
    assert_eq!(bounds, vec![(0, 40), (40, 90), (90, 150)]);
    for (i, it) in section.items.iter().enumerate() {
        assert_eq!(it.component, i);
        if i > 0 {
            assert_eq!(it.left, section.items[i - 1].right);
        }
    }
}

#[test]
fn layout_records_fragment_subranges() {
    let section = components_to_section(&sample_components());
    assert_eq!(section.items[2].widths, vec![(0, 30), (30, 60)]);
    assert!(section.items[2].clickable);
    assert!(!section.items[0].clickable);
}

#[test]
fn layout_of_empty_list_is_empty() {
    let section = components_to_section(&Vec::new());
    assert_eq!(section.left, 0);
    assert_eq!(section.right, 0);
    assert!(section.items.is_empty());
}

#[test]
fn center_alignment_centers_on_working_area() {
    let mut section = components_to_section(&sample_components());
    align_center(&mut section, 400);
    assert_eq!(section.left, 125);
    assert_eq!(section.right, 275);
    // The placed midpoint is half the working-area width.
    assert_eq!(section.left + (section.right - section.left) / 2, 200);
}

#[test]
fn center_alignment_midpoint_holds_for_odd_widths() {
    let mut section = components_to_section(&vec![component(vec![fragment("abc", 33)], false)]);
    align_center(&mut section, 401);
    assert_eq!(section.right - section.left, 33);
    assert_eq!(section.left + (section.right - section.left) / 2, 401 / 2);
}

#[test]
fn right_alignment_ends_at_working_area_width() {
    let mut section = components_to_section(&sample_components());
    align_right(&mut section, 400);
    assert_eq!(section.left, 250);
    assert_eq!(section.right, 400);
}

#[test]
fn click_resolves_item_and_fragment_by_summed_widths() {
    let bars = vec![sample_bar(400)];
    // x = 100 lies in the third item (90..150); its item-relative
    // coordinate 10 lies in the first fragment sub-range (0..30).
    let hit = with_item_at_pos(&bars, 7, 100).expect("item under pointer");
    assert_eq!(hit.bar, 0);
    assert_eq!(hit.section, Alignment::Left);
    assert_eq!(hit.item, 2);
    let target = click_target(&bars, 7, 100).expect("clickable item under pointer");
    assert_eq!(target.component, 2);
    assert_eq!(target.fragment, 0);
    // x = 125 maps to item-relative coordinate 35, the second sub-range.
    let target = click_target(&bars, 7, 125).expect("clickable item under pointer");
    assert_eq!(target.fragment, 1);
}

#[test]
fn click_on_non_clickable_item_is_a_no_op() {
    let bars = vec![sample_bar(400)];
    // x = 50 lies in the clock item, which takes no clicks.
    assert!(with_item_at_pos(&bars, 7, 50).is_some());
    assert!(click_target(&bars, 7, 50).is_none());
}

#[test]
fn containment_every_inner_coordinate_resolves_to_its_item() {
    let bars = vec![sample_bar(400)];
    let expected = [(0i32, 40i32, 0usize), (40, 90, 1), (90, 150, 2)];
    for &(left, right, idx) in &expected {
        for x in left..=right {
            // A shared boundary belongs to the earlier item.
            let owner = if x == left && idx > 0 { idx - 1 } else { idx };
            let hit = with_item_at_pos(&bars, 7, x).expect("coordinate inside an item");
            assert_eq!(hit.item, owner, "at x = {}", x);
        }
    }
}

#[test]
fn coordinates_outside_all_items_resolve_to_none() {
    let bars = vec![sample_bar(400)];
    assert!(with_item_at_pos(&bars, 7, -1).is_none());
    assert!(with_item_at_pos(&bars, 7, 151).is_none());
    assert!(with_item_at_pos(&bars, 7, 399).is_none());
    // An unknown window identity is a normal empty lookup.
    assert!(with_item_at_pos(&bars, 8, 100).is_none());
}

#[test]
fn hover_sets_clickable_cursor_only_over_clickable_items() {
    let bars = vec![sample_bar(400)];
    assert_eq!(hover_cursor(&bars, 7, 100), CursorKind::Clickable);
    assert_eq!(hover_cursor(&bars, 7, 50), CursorKind::Default);
    assert_eq!(hover_cursor(&bars, 7, 300), CursorKind::Default);
    assert_eq!(hover_cursor(&bars, 8, 100), CursorKind::Default);
}

#[test]
fn hit_testing_translates_center_and_right_sections() {
    let mut center =
        components_to_section(&vec![component(vec![fragment("Hi", 50)], true)]);
    align_center(&mut center, 400);
    let mut right =
        components_to_section(&vec![component(vec![fragment("net", 40)], false)]);
    align_right(&mut right, 400);
    let mut bar = Bar::new(7, display(400));
    bar.center = center;
    bar.right = right;
    let bars = vec![bar];
    // Center bounds are 175..225; an absolute coordinate inside them maps
    // to the item through the section's own origin.
    let hit = with_item_at_pos(&bars, 7, 200).expect("inside the centered item");
    assert_eq!(hit.section, Alignment::Center);
    assert_eq!(hit.item, 0);
    let target = click_target(&bars, 7, 200).expect("centered item is clickable");
    assert_eq!(target.fragment, 0);
    assert!(with_item_at_pos(&bars, 7, 174).is_none());
    // Right bounds are 360..400.
    let hit = with_item_at_pos(&bars, 7, 380).expect("inside the right item");
    assert_eq!(hit.section, Alignment::Right);
    assert!(with_item_at_pos(&bars, 7, 359).is_none());
}

#[test]
fn hit_testing_picks_the_bar_by_window_identity() {
    let second_display = Display {
        id: 1,
        dpi: 96,
        working_area: Rectangle { left: 0, top: 0, right: 640, bottom: 800 },
    };
    let mut other = Bar::new(9, second_display);
    other.left = components_to_section(&sample_components());
    let bars = vec![sample_bar(400), other];
    let hit = with_item_at_pos(&bars, 9, 100).expect("item in the second bar");
    assert_eq!(hit.bar, 1);
    assert_eq!(hit.item, 2);
}

#[test]
fn empty_text_is_skipped_but_keeps_its_width() {
    let st = style();
    assert!(draw_component_text(&st, 0, &ComponentText {
        text: String::new(),
        fg: None,
        bg: None,
    })
    .is_none());
    let comps = vec![component(vec![fragment("", 10), fragment("a", 20)], false)];
    let cmds = draw_components(&st, 100, &comps);
    assert_eq!(cmds.len(), 1);
    assert_eq!(cmds[0].text, "a");
    // The empty fragment drew nothing but still advanced the offset.
    assert_eq!(cmds[0].x, 110);
}

#[test]
fn colors_resolve_to_overrides_then_theme_defaults() {
    let dark = style();
    let light = BarStyle { light_theme: true, ..dark };
    let plain = ComponentText { text: String::from("t"), fg: None, bg: None };
    let cmd = draw_component_text(&dark, 5, &plain).unwrap();
    assert_eq!(cmd.x, 5);
    assert_eq!(cmd.fg, DARK_THEME_FOREGROUND);
    assert_eq!(cmd.bg, dark.color);
    let cmd = draw_component_text(&light, 5, &plain).unwrap();
    assert_eq!(cmd.fg, LIGHT_THEME_FOREGROUND);
    let styled = ComponentText {
        text: String::from("t"),
        fg: Some(0x00ff0000),
        bg: Some(0x0000ff00),
    };
    let cmd = draw_component_text(&dark, 5, &styled).unwrap();
    assert_eq!(cmd.fg, 0x00ff0000);
    assert_eq!(cmd.bg, 0x0000ff00);
}

#[test]
fn draw_commands_follow_the_layout_offsets() {
    let st = style();
    let cmds = draw_components(&st, 0, &sample_components());
    let placed: Vec<(String, i32)> =
        cmds.iter().map(|c| (c.text.clone(), c.x)).collect();
    assert_eq!(
        placed,
        vec![
            (String::from("Mon0"), 0),
            (String::from("09:41"), 40),
            (String::from("Ap"), 90),
            (String::from("ps"), 120),
        ]
    );
}

#[test]
fn clear_section_fills_the_exact_strip() {
    let st = style();
    let rect = clear_section(&st, 90, 150);
    assert_eq!(
        rect,
        FillRect { x: 90, y: 0, w: 60, h: st.height, color: st.color }
    );
}

#[test]
fn empty_section_reports_zero_width() {
    let s = ItemSection::empty();
    assert_eq!(s.width(), 0);
}
