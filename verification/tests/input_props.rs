//! Input routing: popup dismissal, focus bubbling, dropdown toggling,
//! selection commit, and hit-testing.

use egrikor::button::text_button;
use egrikor::cursor::handle_cursor_input;
use egrikor::dropdown::{dropdown, DropdownItem};
use egrikor::flex::{col, row, FlexContent, FlexItem, Then};
use egrikor::geom::{LayoutConstraint, Point, Rect, Size};
use egrikor::hit::test_input_pos_layer;
use egrikor::input::{CursorInput, InputState, MouseButton};
use egrikor::layout::layout;
use egrikor::popup::Popup;
use egrikor::textbox::TextBox;
use egrikor::theme::{RectTheme, TextTheme, Theme, WidgetTheme, WidgetVariants};
use egrikor::widget::{new_state, Action, LayoutCtx, Widget, WidgetState};

fn input_theme() -> Theme {
    let rect = RectTheme {
        background_color: (0x00_77_FF_FF, 0x00_77_FF_FF),
        foreground_color: (0xFF_FF_FF_FF, 0xFF_FF_FF_FF),
        border_color: (0x00_00_00_FF, 0x00_00_00_FF),
        border_width: 1,
        padding: 16,
        margin: 4,
    };
    let text = TextTheme { font: "Arial", size: 16 };
    Theme {
        rect: WidgetTheme {
            enabled: WidgetVariants { normal: rect, active: rect, danger: rect },
            disabled: WidgetVariants { normal: rect, active: rect, danger: rect },
        },
        rect_outline: WidgetTheme {
            enabled: WidgetVariants { normal: rect, active: rect, danger: rect },
            disabled: WidgetVariants { normal: rect, active: rect, danger: rect },
        },
        text: WidgetTheme {
            enabled: WidgetVariants { normal: text, active: text, danger: text },
            disabled: WidgetVariants { normal: text, active: text, danger: text },
        },
    }
}

fn sample_dropdown() -> Widget {
    dropdown(
        "pick".to_string(),
        Size { width: 20, height: 10 },
        vec![
            DropdownItem { value: 10, label: "a".to_string(), label_size: Size { width: 8, height: 10 } },
            DropdownItem { value: 11, label: "b".to_string(), label_size: Size { width: 8, height: 10 } },
            DropdownItem { value: 12, label: "c".to_string(), label_size: Size { width: 8, height: 10 } },
        ],
    )
}

fn rect_200x90() -> Rect {
    Rect { x0: 0, y0: 0, x1: 200, y1: 90 }
}

fn up() -> CursorInput {
    CursorInput::Up(MouseButton::Primary)
}

fn down() -> CursorInput {
    CursorInput::Down(MouseButton::Primary)
}

fn send(
    w: &Widget,
    s: &mut WidgetState,
    rect: Rect,
    pos: Point,
    input: CursorInput,
) -> (bool, Vec<Action>) {
    let ist = InputState::empty();
    let theme = input_theme();
    let mut actions: Vec<Action> = Vec::new();
    let r = handle_cursor_input(w, s, rect, pos, 0, input, &ist, &theme, true, &mut actions);
    (r.demand_focus, actions)
}

#[test]
fn click_opens_closed_dropdown() {
    // Clicking inside a closed dropdown's button rectangle toggles its
    // local open flag; the next layout raises its extra layers by one.
    let w = sample_dropdown();
    let ctx = LayoutCtx { theme: input_theme() };
    let mut s = new_state(&w);
    layout(&w, &mut s, LayoutConstraint { x: Some(200), y: Some(90) }, &ctx);
    assert_eq!(s.extra_layers(), 0);
    let (_, actions) = send(&w, &mut s, rect_200x90(), Point { x: 10, y: 10 }, up());
    assert!(actions.is_empty());
    if let WidgetState::Dropdown(ds) = &s {
        assert!(ds.open);
    } else {
        panic!("not a dropdown state");
    }
    layout(&w, &mut s, LayoutConstraint { x: Some(200), y: Some(90) }, &ctx);
    assert_eq!(s.extra_layers(), 1);
}

#[test]
fn outside_release_dismisses_open_dropdown() {
    let w = sample_dropdown();
    let ctx = LayoutCtx { theme: input_theme() };
    let mut s = new_state(&w);
    layout(&w, &mut s, LayoutConstraint { x: Some(200), y: Some(90) }, &ctx);
    send(&w, &mut s, rect_200x90(), Point { x: 10, y: 10 }, up());
    layout(&w, &mut s, LayoutConstraint { x: Some(200), y: Some(90) }, &ctx);
    // A release outside the popup's rectangle closes it without any
    // action reaching the caller.
    let (_, actions) = send(&w, &mut s, rect_200x90(), Point { x: 1000, y: 1000 }, up());
    assert!(actions.is_empty());
    if let WidgetState::Dropdown(ds) = &s {
        assert!(!ds.open);
    } else {
        panic!("not a dropdown state");
    }
    layout(&w, &mut s, LayoutConstraint { x: Some(200), y: Some(90) }, &ctx);
    assert_eq!(s.extra_layers(), 0);
}

#[test]
fn inside_release_commits_selection() {
    let w = sample_dropdown();
    let ctx = LayoutCtx { theme: input_theme() };
    let mut s = new_state(&w);
    layout(&w, &mut s, LayoutConstraint { x: Some(200), y: Some(90) }, &ctx);
    send(&w, &mut s, rect_200x90(), Point { x: 10, y: 10 }, up());
    layout(&w, &mut s, LayoutConstraint { x: Some(200), y: Some(90) }, &ctx);
    // Three expanding options share the 90 high popup evenly: 30 each.
    // A release at y = 10 lands in the first option: the dropdown
    // closes and re-raises the committed value.
    let (_, actions) = send(&w, &mut s, rect_200x90(), Point { x: 10, y: 10 }, up());
    assert_eq!(actions, vec![Action::Select(10)]);
    if let WidgetState::Dropdown(ds) = &s {
        assert!(!ds.open);
    } else {
        panic!("not a dropdown state");
    }
    // A release in the last option's strip commits that value instead.
    send(&w, &mut s, rect_200x90(), Point { x: 10, y: 10 }, up());
    layout(&w, &mut s, LayoutConstraint { x: Some(200), y: Some(90) }, &ctx);
    let (_, actions) = send(&w, &mut s, rect_200x90(), Point { x: 10, y: 80 }, up());
    assert_eq!(actions, vec![Action::Select(12)]);
}

#[test]
fn popup_fires_on_close_only_for_outside_release() {
    let overlay = text_button("o".to_string(), Size { width: 8, height: 10 }, Action::Emit(7));
    let base = text_button("b".to_string(), Size { width: 8, height: 10 }, Action::Emit(8));
    let w = Widget::Popup(Box::new(Popup {
        base,
        popup: Some(overlay),
        on_close: Action::Emit(99),
    }));
    let ctx = LayoutCtx { theme: input_theme() };
    let mut s = new_state(&w);
    layout(&w, &mut s, LayoutConstraint { x: Some(100), y: Some(50) }, &ctx);
    let rect = Rect { x0: 0, y0: 0, x1: 100, y1: 50 };
    // Outside release: exactly the close callback fires.
    let (_, actions) = send(&w, &mut s, rect, Point { x: 500, y: 500 }, up());
    assert_eq!(actions, vec![Action::Emit(99)]);
    // Inside release: the overlay's button fires, never on_close.
    let (_, actions) = send(&w, &mut s, rect, Point { x: 10, y: 10 }, up());
    assert_eq!(actions, vec![Action::Emit(7)]);
    // A move outside is not a release: nothing fires, nothing closes.
    let (_, actions) = send(&w, &mut s, rect, Point { x: 500, y: 500 }, CursorInput::Move);
    assert!(actions.is_empty());
}

#[test]
fn press_in_textbox_bubbles_focus_to_every_ancestor() {
    // row[ button, col[ textbox ] ]: a press inside the textbox makes
    // the textbox demand focus; the col points its focus index at the
    // textbox, the row at the col, and the demand reaches the root.
    let button = FlexItem {
        widget: text_button("b".to_string(), Size { width: 8, height: 10 }, Action::Emit(1)),
        expand: false,
    };
    let tb = FlexItem {
        widget: Widget::TextBox(TextBox {
            text: String::new(),
            text_size: Size { width: 20, height: 10 },
        }),
        expand: false,
    };
    let inner = FlexItem { widget: col(FlexContent::Item(tb)), expand: false };
    let w = row(FlexContent::Chain(Box::new(Then {
        a: FlexContent::Item(button),
        b: FlexContent::Item(inner),
    })));
    let ctx = LayoutCtx { theme: input_theme() };
    let mut s = new_state(&w);
    layout(&w, &mut s, LayoutConstraint { x: Some(300), y: Some(50) }, &ctx);
    // The button is 40 wide; the textbox starts at x = 40.
    let (demand, _) = send(
        &w,
        &mut s,
        Rect { x0: 0, y0: 0, x1: 300, y1: 50 },
        Point { x: 60, y: 5 },
        down(),
    );
    assert!(demand);
    if let WidgetState::Flex(fs) = &s {
        assert_eq!(fs.focus, Some(1));
        if let egrikor::flex::FlexContentState::Chain(ts) = &fs.content_state {
            if let egrikor::flex::FlexContentState::Item(is) = &ts.b {
                if let Some(WidgetState::Flex(inner_fs)) = &is.state {
                    assert_eq!(inner_fs.focus, Some(0));
                } else {
                    panic!("inner col state missing");
                }
            } else {
                panic!("not an item state");
            }
        } else {
            panic!("not a chain state");
        }
    } else {
        panic!("not a flex state");
    }
    // A press on the button demands nothing and leaves the focus alone.
    let (demand, _) = send(
        &w,
        &mut s,
        Rect { x0: 0, y0: 0, x1: 300, y1: 50 },
        Point { x: 10, y: 5 },
        down(),
    );
    assert!(!demand);
    if let WidgetState::Flex(fs) = &s {
        assert_eq!(fs.focus, Some(1));
    }
}

#[test]
fn dropdown_rebuild_keeps_flag_and_rebuilds_subtree() {
    // Toggling the open flag between two frames changes the shape of
    // the built subtree; the pass where it changed gets a freshly
    // constructed inner state while the flag itself survives.
    let w = sample_dropdown();
    let ctx = LayoutCtx { theme: input_theme() };
    let mut s = new_state(&w);
    layout(&w, &mut s, LayoutConstraint { x: Some(200), y: Some(90) }, &ctx);
    send(&w, &mut s, rect_200x90(), Point { x: 10, y: 10 }, up());
    layout(&w, &mut s, LayoutConstraint { x: Some(200), y: Some(90) }, &ctx);
    // Mark the overlay's focus; a dismiss-and-reopen must not find it
    // again, because the overlay state is rebuilt from scratch.
    if let WidgetState::Dropdown(ds) = &mut s {
        assert!(ds.open);
        if let WidgetState::Popup(ps) = &mut ds.widget_state {
            if let Some(WidgetState::Flex(fs)) = &mut ps.popup {
                fs.focus = Some(1);
            } else {
                panic!("overlay state missing");
            }
        } else {
            panic!("not a popup state");
        }
    } else {
        panic!("not a dropdown state");
    }
    send(&w, &mut s, rect_200x90(), Point { x: 1000, y: 1000 }, up());
    layout(&w, &mut s, LayoutConstraint { x: Some(200), y: Some(90) }, &ctx);
    send(&w, &mut s, rect_200x90(), Point { x: 10, y: 10 }, up());
    layout(&w, &mut s, LayoutConstraint { x: Some(200), y: Some(90) }, &ctx);
    if let WidgetState::Dropdown(ds) = &s {
        assert!(ds.open);
        if let WidgetState::Popup(ps) = &ds.widget_state {
            if let Some(WidgetState::Flex(fs)) = &ps.popup {
                assert_eq!(fs.focus, None);
            } else {
                panic!("overlay state missing");
            }
        } else {
            panic!("not a popup state");
        }
    } else {
        panic!("not a dropdown state");
    }
}

#[test]
fn hit_test_shifts_layer_while_open() {
    let w = sample_dropdown();
    let ctx = LayoutCtx { theme: input_theme() };
    let mut s = new_state(&w);
    layout(&w, &mut s, LayoutConstraint { x: Some(200), y: Some(90) }, &ctx);
    let inside = Point { x: 10, y: 10 };
    let outside = Point { x: 1000, y: 10 };
    assert_eq!(test_input_pos_layer(&w, &s, rect_200x90(), inside), Some(0));
    assert_eq!(test_input_pos_layer(&w, &s, rect_200x90(), outside), None);
    send(&w, &mut s, rect_200x90(), inside, up());
    layout(&w, &mut s, LayoutConstraint { x: Some(200), y: Some(90) }, &ctx);
    assert_eq!(test_input_pos_layer(&w, &s, rect_200x90(), inside), Some(1));
    assert_eq!(test_input_pos_layer(&w, &s, rect_200x90(), outside), None);
}
