//! Geometry and the smaller input plumbing: saturating arithmetic,
//! rectangle tests, theme rectangle helpers, and keyboard routing.

use egrikor::button::text_button;
use egrikor::flex::{row, FlexContent, FlexItem, Then};
use egrikor::geom::{sat_add, sat_sub, LayoutConstraint, Point, Rect, Size};
use egrikor::input::{InputState, KeyEvent, KeyboardInput, Modifiers};
use egrikor::keyboard::handle_keyboard_input;
use egrikor::layout::layout;
use egrikor::textbox::TextBox;
use egrikor::theme::{RectTheme, TextTheme, Theme, WidgetTheme, WidgetVariants};
use egrikor::widget::{new_state, Action, LayoutCtx, Widget, WidgetState};

fn geom_theme() -> Theme {
    let rect = RectTheme {
        background_color: (0x00_77_FF_FF, 0x00_77_FF_FF),
        foreground_color: (0xFF_FF_FF_FF, 0xFF_FF_FF_FF),
        border_color: (0x00_00_00_FF, 0x00_00_00_FF),
        border_width: 5,
        padding: 16,
        margin: 4,
    };
    let text = TextTheme { font: "Arial", size: 16 };
    Theme {
        rect: WidgetTheme {
            enabled: WidgetVariants { normal: rect, active: rect, danger: rect },
            disabled: WidgetVariants { normal: rect, active: rect, danger: rect },
        },
        rect_outline: WidgetTheme {
            enabled: WidgetVariants { normal: rect, active: rect, danger: rect },
            disabled: WidgetVariants { normal: rect, active: rect, danger: rect },
        },
        text: WidgetTheme {
            enabled: WidgetVariants { normal: text, active: text, danger: text },
            disabled: WidgetVariants { normal: text, active: text, danger: text },
        },
    }
}

#[test]
fn arithmetic_saturates_instead_of_wrapping() {
    assert_eq!(sat_add(u32::MAX - 1, 1), u32::MAX);
    assert_eq!(sat_add(u32::MAX, 1), u32::MAX);
    assert_eq!(sat_add(3, 4), 7);
    assert_eq!(sat_sub(3, 4), 0);
    assert_eq!(sat_sub(4, 3), 1);
}

#[test]
fn rect_contains_includes_edges() {
    let r = Rect { x0: 10, y0: 10, x1: 20, y1: 20 };
    assert!(r.contains(Point { x: 10, y: 10 }));
    assert!(r.contains(Point { x: 20, y: 20 }));
    assert!(r.contains(Point { x: 15, y: 12 }));
    assert!(!r.contains(Point { x: 9, y: 15 }));
    assert!(!r.contains(Point { x: 15, y: 21 }));
}

#[test]
fn rect_inset_collapses_rather_than_crossing() {
    let r = Rect { x0: 0, y0: 0, x1: 10, y1: 10 };
    let inner = r.inset(3);
    assert_eq!(inner, Rect { x0: 3, y0: 3, x1: 7, y1: 7 });
    let collapsed = r.inset(8);
    assert_eq!(collapsed.x0, 8);
    assert_eq!(collapsed.x1, 8);
}

#[test]
fn theme_rect_helpers_measure_margins() {
    let rect = geom_theme().rect.get(egrikor::theme::WidgetVariant::Normal, true);
    // padding 16 + margin 4 + border 5 / 2 rounded down.
    assert_eq!(rect.full_border_width(), 22);
    // The margin is taken off every side before the containment test.
    let pos = Point { x: 0, y: 0 };
    let size = Size { width: 20, height: 20 };
    assert!(rect.point_in_rect(pos, size, Point { x: 4, y: 4 }));
    assert!(rect.point_in_rect(pos, size, Point { x: 16, y: 16 }));
    assert!(!rect.point_in_rect(pos, size, Point { x: 3, y: 10 }));
    assert!(!rect.point_in_rect(pos, size, Point { x: 10, y: 17 }));
}

#[test]
fn keyboard_routing_follows_focus_and_changes_nothing() {
    // The engine routes a key along the focus path; the engine's own
    // state is untouched — editing lives at the platform boundary.
    let tb = FlexItem {
        widget: Widget::TextBox(TextBox {
            text: String::new(),
            text_size: Size { width: 20, height: 10 },
        }),
        expand: false,
    };
    let button = FlexItem {
        widget: text_button("b".to_string(), Size { width: 8, height: 10 }, Action::Emit(1)),
        expand: false,
    };
    let w = row(FlexContent::Chain(Box::new(Then {
        a: FlexContent::Item(button),
        b: FlexContent::Item(tb),
    })));
    let ctx = LayoutCtx { theme: geom_theme() };
    let mut s = new_state(&w);
    layout(&w, &mut s, LayoutConstraint { x: Some(300), y: Some(50) }, &ctx);
    if let WidgetState::Flex(fs) = &mut s {
        fs.focus = Some(1);
    }
    let before = format!("{:?}", s);
    let theme = geom_theme();
    let key = KeyboardInput::KeyDown(KeyEvent {
        key: 97,
        mods: Modifiers { shift: false, ctrl: false, alt: false, meta: false },
    });
    let path = handle_keyboard_input(
        &w,
        &s,
        Rect { x0: 0, y0: 0, x1: 300, y1: 50 },
        &key,
        &InputState::empty(),
        &theme,
        true,
    );
    // The key follows the focus path: the row's child 1 (the textbox).
    assert_eq!(path, vec![1]);
    let after = format!("{:?}", s);
    assert_eq!(before, after);
    // Without focus at the root, nothing receives the key.
    let path2 = handle_keyboard_input(
        &w,
        &s,
        Rect { x0: 0, y0: 0, x1: 300, y1: 50 },
        &key,
        &InputState::empty(),
        &theme,
        false,
    );
    assert!(path2.is_empty());
}
