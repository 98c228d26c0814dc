//! Render behavior: walk geometry, layer isolation, and the commands
//! leaves produce.

use egrikor::button::{text_button, COLOR, COLOR_HOVER};
use egrikor::dropdown::{dropdown, DropdownItem};
use egrikor::flex::{row, FlexContent, FlexItem, Then};
use egrikor::geom::{LayoutConstraint, Point, Rect, Size};
use egrikor::input::{InputState, Modifiers};
use egrikor::layout::layout;
use egrikor::render::{layer_input_state, render, DrawCmd, RenderCtx};
use egrikor::theme::{RectTheme, TextTheme, Theme, WidgetTheme, WidgetVariants};
use egrikor::widget::{new_state, Action, LayoutCtx, Widget, WidgetState};

fn render_theme() -> Theme {
    let rect = RectTheme {
        background_color: (0x00_77_FF_FF, 0x00_77_FF_FF),
        foreground_color: (0xFF_FF_FF_FF, 0xFF_FF_FF_FF),
        border_color: (0x00_00_00_FF, 0x00_00_00_FF),
        border_width: 1,
        padding: 16,
        margin: 4,
    };
    let text = TextTheme { font: "Arial", size: 16 };
    Theme {
        rect: WidgetTheme {
            enabled: WidgetVariants { normal: rect, active: rect, danger: rect },
            disabled: WidgetVariants { normal: rect, active: rect, danger: rect },
        },
        rect_outline: WidgetTheme {
            enabled: WidgetVariants { normal: rect, active: rect, danger: rect },
            disabled: WidgetVariants { normal: rect, active: rect, danger: rect },
        },
        text: WidgetTheme {
            enabled: WidgetVariants { normal: text, active: text, danger: text },
            disabled: WidgetVariants { normal: text, active: text, danger: text },
        },
    }
}

fn fill_rects(cmds: &[DrawCmd]) -> Vec<Rect> {
    cmds.iter()
        .filter_map(|c| match c {
            DrawCmd::FillRect { rect, .. } => Some(*rect),
            _ => None,
        })
        .collect()
}

fn fill_colors(cmds: &[DrawCmd]) -> Vec<u32> {
    cmds.iter()
        .filter_map(|c| match c {
            DrawCmd::FillRect { color, .. } => Some(*color),
            _ => None,
        })
        .collect()
}

#[test]
fn three_children_row_renders_at_expected_offsets() {
    // Two fixed children measuring 40 and 60 around one expanding
    // child, under a primary constraint of 200: the expanding child is
    // rendered 100 wide and the children sit at offsets 0, 40, 140.
    let b40 = FlexItem {
        widget: text_button("a".to_string(), Size { width: 8, height: 10 }, Action::Emit(1)),
        expand: false,
    };
    let bexp = FlexItem {
        widget: text_button("b".to_string(), Size { width: 8, height: 10 }, Action::Emit(2)),
        expand: true,
    };
    let b60 = FlexItem {
        widget: text_button("c".to_string(), Size { width: 28, height: 10 }, Action::Emit(3)),
        expand: false,
    };
    let w = row(FlexContent::Chain(Box::new(Then {
        a: FlexContent::Chain(Box::new(Then {
            a: FlexContent::Item(b40),
            b: FlexContent::Item(bexp),
        })),
        b: FlexContent::Item(b60),
    })));
    let ctx = LayoutCtx { theme: render_theme() };
    let mut s = new_state(&w);
    layout(&w, &mut s, LayoutConstraint { x: Some(200), y: Some(60) }, &ctx);
    let mut rctx = RenderCtx { theme: render_theme(), cmds: Vec::new() };
    let ist = InputState::empty();
    render(
        &w,
        &s,
        Rect { x0: 0, y0: 0, x1: 200, y1: 60 },
        0,
        true,
        &ist,
        &mut rctx,
    );
    let rects = fill_rects(&rctx.cmds);
    assert_eq!(rects.len(), 3);
    assert_eq!((rects[0].x0, rects[0].x1), (0, 40));
    assert_eq!((rects[1].x0, rects[1].x1), (40, 140));
    assert_eq!((rects[2].x0, rects[2].x1), (140, 200));
}

#[test]
fn layers_below_the_top_see_an_empty_input_state() {
    // A row holding a button and an open dropdown has one extra layer.
    // Rendering layer 0 with the cursor really hovering the button must
    // hand the button an empty input state: it draws in its idle color,
    // not the hover color.
    let button = FlexItem {
        widget: text_button("b".to_string(), Size { width: 8, height: 10 }, Action::Emit(1)),
        expand: false,
    };
    let dd = FlexItem {
        widget: dropdown(
            "p".to_string(),
            Size { width: 8, height: 10 },
            vec![DropdownItem {
                value: 1,
                label: "x".to_string(),
                label_size: Size { width: 8, height: 10 },
            }],
        ),
        expand: false,
    };
    let w = row(FlexContent::Chain(Box::new(Then {
        a: FlexContent::Item(button),
        b: FlexContent::Item(dd),
    })));
    let ctx = LayoutCtx { theme: render_theme() };
    let mut s = new_state(&w);
    let c = LayoutConstraint { x: Some(200), y: Some(60) };
    layout(&w, &mut s, c, &ctx);
    // Hover the button while the dropdown is closed: hover color.
    let hovering = InputState {
        cursor_pos: Some(Point { x: 10, y: 10 }),
        mouse_down: false,
        mods: Modifiers { shift: false, ctrl: false, alt: false, meta: false },
    };
    let rect = Rect { x0: 0, y0: 0, x1: 200, y1: 60 };
    let mut rctx = RenderCtx { theme: render_theme(), cmds: Vec::new() };
    render(&w, &s, rect, 0, true, &hovering, &mut rctx);
    assert_eq!(fill_colors(&rctx.cmds)[0], COLOR_HOVER);
    // Open the dropdown: the row's top layer is now 1, and layer 0 is
    // rendered with an empty input state — the same hover draws idle.
    let theme = render_theme();
    let mut actions: Vec<Action> = Vec::new();
    egrikor::cursor::handle_cursor_input(
        &w,
        &mut s,
        rect,
        Point { x: 50, y: 10 },
        0,
        egrikor::input::CursorInput::Up(egrikor::input::MouseButton::Primary),
        &hovering,
        &theme,
        true,
        &mut actions,
    );
    layout(&w, &mut s, c, &ctx);
    assert_eq!(s.extra_layers(), 1);
    let mut rctx2 = RenderCtx { theme: render_theme(), cmds: Vec::new() };
    render(&w, &s, rect, 0, true, &hovering, &mut rctx2);
    assert_eq!(fill_colors(&rctx2.cmds)[0], COLOR);
}

#[test]
fn layer_input_state_blanks_lower_layers() {
    let ist = InputState {
        cursor_pos: Some(Point { x: 5, y: 5 }),
        mouse_down: true,
        mods: Modifiers { shift: true, ctrl: false, alt: false, meta: false },
    };
    let blanked = layer_input_state(0, 1, &ist);
    assert_eq!(blanked, InputState::empty());
    let passed = layer_input_state(1, 1, &ist);
    assert_eq!(passed, ist);
}

#[test]
fn text_is_drawn_centered() {
    let w = egrikor::drawables::text("hi".to_string(), Size { width: 20, height: 10 });
    let ctx = LayoutCtx { theme: render_theme() };
    let mut s = new_state(&w);
    layout(&w, &mut s, LayoutConstraint { x: None, y: None }, &ctx);
    let mut rctx = RenderCtx { theme: render_theme(), cmds: Vec::new() };
    let ist = InputState::empty();
    render(&w, &s, Rect { x0: 0, y0: 0, x1: 100, y1: 50 }, 0, false, &ist, &mut rctx);
    assert_eq!(rctx.cmds.len(), 1);
    match &rctx.cmds[0] {
        DrawCmd::Glyphs { pos, text, .. } => {
            assert_eq!(text, "hi");
            // Centered: x = (100 - 20) / 2, y = 50 / 2 - 10 / 2.
            assert_eq!(*pos, Point { x: 40, y: 20 });
        },
        other => panic!("unexpected command {:?}", other),
    }
}

#[test]
fn open_dropdown_draws_overlay_on_layer_one() {
    let w = dropdown(
        "p".to_string(),
        Size { width: 8, height: 10 },
        vec![DropdownItem {
            value: 1,
            label: "x".to_string(),
            label_size: Size { width: 8, height: 10 },
        }],
    );
    let ctx = LayoutCtx { theme: render_theme() };
    let mut s = new_state(&w);
    let c = LayoutConstraint { x: Some(100), y: Some(40) };
    layout(&w, &mut s, c, &ctx);
    let rect = Rect { x0: 0, y0: 0, x1: 100, y1: 40 };
    // Closed: layer 1 draws nothing.
    let mut rctx = RenderCtx { theme: render_theme(), cmds: Vec::new() };
    let ist = InputState::empty();
    render(&w, &s, rect, 1, false, &ist, &mut rctx);
    assert!(rctx.cmds.is_empty());
    // Open it: layer 1 now draws the option column inside the popup
    // rectangle, which is anchored to the base rectangle.
    if let WidgetState::Dropdown(ds) = &mut s {
        ds.open = true;
    }
    layout(&w, &mut s, c, &ctx);
    let mut rctx2 = RenderCtx { theme: render_theme(), cmds: Vec::new() };
    render(&w, &s, rect, 1, false, &ist, &mut rctx2);
    let rects = fill_rects(&rctx2.cmds);
    assert_eq!(rects.len(), 1);
    assert_eq!(rects[0], rect);
}

#[test]
fn uneven_leftover_shares_floor_and_cover() {
    // Three expanding children under a primary constraint of 100: each
    // gets the floored share of 33; the children cover 99 of the 100,
    // leaving a remainder smaller than the number of expanding
    // children.
    let mk = |tag: u64| FlexItem {
        widget: text_button("e".to_string(), Size { width: 8, height: 10 }, Action::Emit(tag)),
        expand: true,
    };
    let w = row(FlexContent::Chain(Box::new(Then {
        a: FlexContent::Chain(Box::new(Then {
            a: FlexContent::Item(mk(1)),
            b: FlexContent::Item(mk(2)),
        })),
        b: FlexContent::Item(mk(3)),
    })));
    let ctx = LayoutCtx { theme: render_theme() };
    let mut s = new_state(&w);
    layout(&w, &mut s, LayoutConstraint { x: Some(100), y: Some(60) }, &ctx);
    let mut rctx = RenderCtx { theme: render_theme(), cmds: Vec::new() };
    let ist = InputState::empty();
    render(&w, &s, Rect { x0: 0, y0: 0, x1: 100, y1: 60 }, 0, true, &ist, &mut rctx);
    let rects = fill_rects(&rctx.cmds);
    assert_eq!(rects.len(), 3);
    assert_eq!((rects[0].x0, rects[0].x1), (0, 33));
    assert_eq!((rects[1].x0, rects[1].x1), (33, 66));
    assert_eq!((rects[2].x0, rects[2].x1), (66, 99));
}
