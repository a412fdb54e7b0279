use nog_bar::bar::Bar;
use nog_bar::component::{ComponentText, MeasuredText, RenderedComponent};
use nog_bar::display::Display;
use nog_bar::draw::{BarStyle, FillRect};
use nog_bar::geometry::Rectangle;
use nog_bar::registry::{closed, create_bar, handle_draw};
use nog_bar::repaint::{commit_frame, compute_frame};
use nog_bar::scheduler::{refresh_tick, RefreshAction};

fn fragment(text: &str, width: i32) -> MeasuredText {
    MeasuredText {
        content: ComponentText { text: String::from(text), fg: None, bg: None },
        width,
    }
}

fn label(text: &str, width: i32) -> RenderedComponent {
    RenderedComponent { texts: vec![fragment(text, width)], clickable: false }
}

fn style() -> BarStyle {
    BarStyle { height: 20, color: 0x002c1a4d, light_theme: false }
}

fn display(id: i32, width: i32) -> Display {
    Display {
        id,
        dpi: 96,
        working_area: Rectangle { left: 0, top: 0, right: width, bottom: 800 },
    }
}

#[test]
fn duplicate_create_leaves_exactly_one_bar() {
    let mut bars: Vec<Bar> = Vec::new();
    assert!(create_bar(&mut bars, 7, display(0, 400)));
    assert!(!create_bar(&mut bars, 9, display(0, 400)));
    assert_eq!(bars.len(), 1);
    // The existing bar is untouched: it still owns the window it was
    // created with.
    assert_eq!(bars[0].window_id, 7);
    // A different display still gets its own bar.
    assert!(create_bar(&mut bars, 9, display(1, 640)));
    assert_eq!(bars.len(), 2);
}

#[test]
fn close_removes_the_bar_and_unknown_ids_are_no_ops() {
    let mut bars: Vec<Bar> = Vec::new();
    create_bar(&mut bars, 7, display(0, 400));
    create_bar(&mut bars, 9, display(1, 640));
    closed(&mut bars, 7);
    assert_eq!(bars.len(), 1);
    assert_eq!(bars[0].window_id, 9);
    // Events for a window closed mid-flight find nothing and change nothing.
    closed(&mut bars, 7);
    assert_eq!(bars.len(), 1);
}

#[test]
fn draw_commits_the_new_sections_as_the_baseline() {
    let mut bars: Vec<Bar> = Vec::new();
    create_bar(&mut bars, 7, display(0, 400));
    let st = style();
    let lc = vec![label("left", 150)];
    let cc = vec![label("mid", 50)];
    let rc = vec![label("right", 60)];
    let (idx, texts, clears) =
        handle_draw(&mut bars, 7, &lc, &cc, &rc, &st).expect("bar exists");
    assert_eq!(idx, 0);
    // First draw over an empty baseline clears nothing.
    assert!(clears.is_empty());
    assert_eq!(texts.len(), 3);
    assert_eq!((texts[0].text.as_str(), texts[0].x), ("left", 0));
    assert_eq!((texts[1].text.as_str(), texts[1].x), ("mid", 175));
    assert_eq!((texts[2].text.as_str(), texts[2].x), ("right", 340));
    assert_eq!((bars[0].left.left, bars[0].left.right), (0, 150));
    assert_eq!((bars[0].center.left, bars[0].center.right), (175, 225));
    assert_eq!((bars[0].right.left, bars[0].right.right), (340, 400));
}

#[test]
fn redraw_with_unchanged_output_clears_nothing() {
    let mut bars: Vec<Bar> = Vec::new();
    create_bar(&mut bars, 7, display(0, 400));
    let st = style();
    let lc = vec![label("left", 150)];
    let cc = vec![label("mid", 50)];
    let rc = vec![label("right", 60)];
    handle_draw(&mut bars, 7, &lc, &cc, &rc, &st).expect("bar exists");
    let (_, texts, clears) =
        handle_draw(&mut bars, 7, &lc, &cc, &rc, &st).expect("bar exists");
    assert!(clears.is_empty());
    // The content itself is repainted as before.
    assert_eq!(texts.len(), 3);
}

#[test]
fn shrinking_left_section_clears_the_stale_strip() {
    let mut bars: Vec<Bar> = Vec::new();
    create_bar(&mut bars, 7, display(0, 400));
    let st = style();
    let empty: Vec<RenderedComponent> = Vec::new();
    let wide = vec![label("wide", 150)];
    let narrow = vec![label("now", 90)];
    handle_draw(&mut bars, 7, &wide, &empty, &empty, &st).expect("bar exists");
    let (_, _, clears) =
        handle_draw(&mut bars, 7, &narrow, &empty, &empty, &st).expect("bar exists");
    assert_eq!(
        clears,
        vec![FillRect { x: 90, y: 0, w: 60, h: st.height, color: st.color }]
    );
}

#[test]
fn growing_left_section_clears_nothing() {
    let mut bars: Vec<Bar> = Vec::new();
    create_bar(&mut bars, 7, display(0, 400));
    let st = style();
    let empty: Vec<RenderedComponent> = Vec::new();
    let narrow = vec![label("now", 90)];
    let wide = vec![label("wide", 150)];
    handle_draw(&mut bars, 7, &narrow, &empty, &empty, &st).expect("bar exists");
    let (_, _, clears) =
        handle_draw(&mut bars, 7, &wide, &empty, &empty, &st).expect("bar exists");
    assert!(clears.is_empty());
}

#[test]
fn shrinking_center_section_clears_both_margins() {
    let mut bars: Vec<Bar> = Vec::new();
    create_bar(&mut bars, 7, display(0, 400));
    let st = style();
    let empty: Vec<RenderedComponent> = Vec::new();
    let wide = vec![label("wide", 100)];
    let narrow = vec![label("now", 60)];
    handle_draw(&mut bars, 7, &empty, &wide, &empty, &st).expect("bar exists");
    // Previous center bounds: 150..250. Shrink by 40, so each margin
    // loses 20.
    let (_, _, clears) =
        handle_draw(&mut bars, 7, &empty, &narrow, &empty, &st).expect("bar exists");
    assert_eq!(
        clears,
        vec![
            FillRect { x: 150, y: 0, w: 20, h: st.height, color: st.color },
            FillRect { x: 230, y: 0, w: 20, h: st.height, color: st.color },
        ]
    );
}

#[test]
fn shrinking_right_section_clears_its_left_strip() {
    let mut bars: Vec<Bar> = Vec::new();
    create_bar(&mut bars, 7, display(0, 400));
    let st = style();
    let empty: Vec<RenderedComponent> = Vec::new();
    let wide = vec![label("wide", 100)];
    let narrow = vec![label("now", 60)];
    handle_draw(&mut bars, 7, &empty, &empty, &wide, &st).expect("bar exists");
    // Previous right bounds: 300..400; new ones 340..400.
    let (_, _, clears) =
        handle_draw(&mut bars, 7, &empty, &empty, &narrow, &st).expect("bar exists");
    assert_eq!(
        clears,
        vec![FillRect { x: 300, y: 0, w: 40, h: st.height, color: st.color }]
    );
}

#[test]
fn draw_for_an_unknown_window_changes_nothing() {
    let mut bars: Vec<Bar> = Vec::new();
    create_bar(&mut bars, 7, display(0, 400));
    let st = style();
    let lc = vec![label("left", 150)];
    let empty: Vec<RenderedComponent> = Vec::new();
    assert!(handle_draw(&mut bars, 9, &lc, &empty, &empty, &st).is_none());
    assert_eq!(bars[0].left.right, 0);
}

#[test]
fn uncommitted_frame_leaves_the_baseline_untouched() {
    let mut bars: Vec<Bar> = Vec::new();
    create_bar(&mut bars, 7, display(0, 400));
    let st = style();
    let lc = vec![label("left", 150)];
    let empty: Vec<RenderedComponent> = Vec::new();
    let frame = compute_frame(&bars[0], &lc, &empty, &empty, &st);
    assert_eq!(frame.left.right, 150);
    // Until the frame is committed the diff baseline stays as it was.
    assert_eq!(bars[0].left.right, 0);
    let (texts, clears) = commit_frame(&mut bars[0], frame);
    assert_eq!(texts.len(), 1);
    assert!(clears.is_empty());
    assert_eq!(bars[0].left.right, 150);
}

#[test]
fn refresh_clock_runs_while_windows_exist_and_then_stops() {
    assert_eq!(refresh_tick(0), RefreshAction::Stop);
    assert_eq!(refresh_tick(1), RefreshAction::RequestRedraw);
    assert_eq!(refresh_tick(12), RefreshAction::RequestRedraw);
}
