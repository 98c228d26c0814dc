//! The smaller pieces of the public surface: theme lookup, the
//! either-combinator accessors, the pass protocol, and the checkbox.

use egrikor::button::{checkbox, CHECKBOX_SIZE};
use egrikor::drawables::{Checkmark, FixedRect};
use egrikor::geom::{LayoutConstraint, Point, Rect, Size};
use egrikor::input::{InputReturn, InputState};
use egrikor::or::OrState;
use egrikor::pass::{Pass, PassResult, PassWidgetWidget, WidgetPassWidget};
use egrikor::popup::popup_rect;
use egrikor::render::RenderCtx;
use egrikor::theme::{
    RectTheme, TextTheme, Theme, WidgetTheme, WidgetVariant, WidgetVariants,
};
use egrikor::widget::{new_state, Action, Widget};

fn api_theme() -> Theme {
    let rect = RectTheme {
        background_color: (0x00_77_FF_FF, 0x00_77_FF_FF),
        foreground_color: (0xFF_FF_FF_FF, 0xFF_FF_FF_FF),
        border_color: (0x00_00_00_FF, 0x00_00_00_FF),
        border_width: 1,
        padding: 16,
        margin: 4,
    };
    let text = TextTheme { font: "Arial", size: 16 };
    Theme {
        rect: WidgetTheme {
            enabled: WidgetVariants { normal: rect, active: rect, danger: rect },
            disabled: WidgetVariants { normal: rect, active: rect, danger: rect },
        },
        rect_outline: WidgetTheme {
            enabled: WidgetVariants { normal: rect, active: rect, danger: rect },
            disabled: WidgetVariants { normal: rect, active: rect, danger: rect },
        },
        text: WidgetTheme {
            enabled: WidgetVariants { normal: text, active: text, danger: text },
            disabled: WidgetVariants { normal: text, active: text, danger: text },
        },
    }
}

#[test]
fn widget_theme_get_selects_variant_and_enabledness() {
    let t = WidgetTheme {
        enabled: WidgetVariants { normal: 1u32, active: 2u32, danger: 3u32 },
        disabled: WidgetVariants { normal: 4u32, active: 5u32, danger: 6u32 },
    };
    assert_eq!(t.get(WidgetVariant::Normal, true), 1);
    assert_eq!(t.get(WidgetVariant::Active, true), 2);
    assert_eq!(t.get(WidgetVariant::Danger, true), 3);
    assert_eq!(t.get(WidgetVariant::Normal, false), 4);
    assert_eq!(t.get(WidgetVariant::Active, false), 5);
    assert_eq!(t.get(WidgetVariant::Danger, false), 6);
}

#[test]
fn or_state_accessors_answer_the_held_variant() {
    let mut s: OrState<u32, bool, u32, bool> = OrState::A(7);
    assert_eq!(s.as_a(), Some(&7));
    assert_eq!(s.as_b(), None);
    assert_eq!(s.as_c(), None);
    assert_eq!(s.as_d(), None);
    if let Some(v) = s.as_a_mut() {
        *v = 9;
    }
    assert_eq!(s.as_a(), Some(&9));
    assert!(s.as_b_mut().is_none());
    assert!(s.as_c_mut().is_none());
    assert!(s.as_d_mut().is_none());
    s = OrState::D(true);
    assert_eq!(s.as_a(), None);
    assert_eq!(s.as_d(), Some(&true));
    s = OrState::B(false);
    assert_eq!(s.as_b(), Some(&false));
    s = OrState::C(11);
    assert_eq!(s.as_c(), Some(&11));
}

#[test]
fn checkbox_shows_checkmark_only_when_checked() {
    let checked = checkbox(true, Action::Emit(1));
    match checked {
        Widget::Button(b) => match b.widget {
            Widget::Checkmark(Checkmark(sz)) => {
                assert_eq!(sz, Size { width: CHECKBOX_SIZE, height: CHECKBOX_SIZE });
            },
            other => panic!("unexpected inner widget {:?}", other),
        },
        other => panic!("unexpected widget {:?}", other),
    }
    let unchecked = checkbox(false, Action::Emit(1));
    match unchecked {
        Widget::Button(b) => match b.widget {
            Widget::FixedRect(FixedRect(sz)) => {
                assert_eq!(sz, Size { width: CHECKBOX_SIZE, height: CHECKBOX_SIZE });
            },
            other => panic!("unexpected inner widget {:?}", other),
        },
        other => panic!("unexpected widget {:?}", other),
    }
}

#[test]
fn popup_rect_is_anchored_to_the_base() {
    let base = Rect { x0: 3, y0: 4, x1: 30, y1: 40 };
    assert_eq!(popup_rect(base, Size { width: 500, height: 500 }), base);
}

#[test]
fn pass_protocol_dispatches_the_five_operations() {
    let w = egrikor::button::text_button(
        "b".to_string(),
        Size { width: 8, height: 10 },
        Action::Emit(42),
    );
    let mut s = new_state(&w);
    let wrapped = PassWidgetWidget(WidgetPassWidget(w));
    let ist = InputState::empty();
    let mut rctx = RenderCtx { theme: api_theme(), cmds: Vec::new() };
    let mut actions: Vec<Action> = Vec::new();
    wrapped.layout(
        &mut s,
        LayoutConstraint { x: None, y: None },
        &ist,
        &mut rctx,
        &mut actions,
    );
    assert_eq!(s.min_size(), Size { width: 40, height: 42 });
    let rect = Rect { x0: 0, y0: 0, x1: 40, y1: 42 };
    let hit = wrapped.test_input_pos_layer(
        &mut s,
        rect,
        Point { x: 5, y: 5 },
        &ist,
        &mut rctx,
        &mut actions,
    );
    assert_eq!(hit, Some(0));
    let ret = wrapped.handle_cursor_input(
        &mut s,
        rect,
        Point { x: 5, y: 5 },
        0,
        egrikor::input::CursorInput::Up(egrikor::input::MouseButton::Primary),
        true,
        &ist,
        &mut rctx,
        &mut actions,
    );
    assert_eq!(ret, InputReturn { demand_focus: false });
    assert_eq!(actions, vec![Action::Emit(42)]);
    wrapped.render(&mut s, rect, 0, false, &ist, &mut rctx, &mut actions);
    assert!(!rctx.cmds.is_empty());
    let path = wrapped.handle_keyboard_input(
        &mut s,
        rect,
        egrikor::input::KeyboardInput::KeyDown(egrikor::input::KeyEvent {
            key: 13,
            mods: egrikor::input::Modifiers { shift: false, ctrl: false, alt: false, meta: false },
        }),
        true,
        &ist,
        &mut rctx,
        &mut actions,
    );
    // A bare button routes no key anywhere.
    assert!(path.is_empty());
    // The raw pass protocol answers the same hit test.
    let inner = &wrapped.0;
    let pr = inner.pass(
        &mut s,
        Pass::TestInputPosLayer { rect, input_pos: Point { x: 500, y: 5 } },
        &ist,
        &mut rctx,
        &mut actions,
    );
    assert_eq!(pr, PassResult::Layer(None));
}
