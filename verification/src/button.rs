//! The button widget: an inner drawable wrapped in a padded, clickable
//! rectangle, and the checkbox built from it.

use vstd::prelude::*;
use crate::drawables::{Checkmark, FixedRect, TextWidget};
use crate::geom::Size;
use crate::theme::WidgetVariant;
use crate::widget::{Action, Widget, WidgetState};

verus! {

/// Padding between a button's border and its content, per side.
pub const PADDING: u32 = 16;

/// Background colors of a clickable rectangle, as `0xRRGGBBAA`.
pub const COLOR: u32 = 0x00_00_00_FF;

pub const COLOR_HOVER: u32 = 0x33_33_33_FF;

pub const COLOR_DOWN: u32 = 0x44_44_44_FF;

/// Width of the optional border of a clickable rectangle.
pub const BORDER_WIDTH: u32 = 2;

pub const BORDER_COLOR: u32 = 0xFF_FF_FF_FF;

/// The side length of the box a checkbox draws its mark in.
pub const CHECKBOX_SIZE: u32 = 16;

/// A widget wrapped in a padded, clickable rectangle; a release inside
/// the rectangle fires `on_click`.
#[derive(Debug)]
pub struct Button {
    pub widget: Widget,
    pub on_click: Action,
}

/// Persistent state of [`Button`]: the inner widget's state and the
/// padded size of the last layout.
#[derive(Debug)]
pub struct ButtonState {
    pub variant: WidgetVariant,
    pub state: WidgetState,
    pub layout: Size,
}

/// A button over a text label whose measured size is `text_size`;
/// a release inside it fires `on_click`.
pub fn text_button(text: String, text_size: Size, on_click: Action) -> (r: Widget)
    ensures
        r == spec_text_button(text, text_size, on_click),
{
    Widget::Button(Box::new(Button {
        widget: Widget::Text(TextWidget { text, text_size }),
        on_click,
    }))
}

/// The widget [`text_button`] builds.
pub open spec fn spec_text_button(text: String, text_size: Size, on_click: Action) -> Widget {
    Widget::Button(Box::new(Button {
        widget: Widget::Text(TextWidget { text, text_size }),
        on_click,
    }))
}

/// A checkbox: a button around a checkmark when `checked`, around an
/// empty box of the same size otherwise.
pub fn checkbox(checked: bool, on_click: Action) -> (r: Widget)
    ensures
        ({
            &&& r matches Widget::Button(b)
            &&& b.on_click == on_click
            &&& b.widget == if checked {
                Widget::Checkmark(Checkmark(Size { width: CHECKBOX_SIZE, height: CHECKBOX_SIZE }))
            } else {
                Widget::FixedRect(FixedRect(Size { width: CHECKBOX_SIZE, height: CHECKBOX_SIZE }))
            }
        }),
{
    let size = Size { width: CHECKBOX_SIZE, height: CHECKBOX_SIZE };
    Widget::Button(Box::new(Button {
        widget: if checked {
            Widget::Checkmark(Checkmark(size))
        } else {
            Widget::FixedRect(FixedRect(size))
        },
        on_click,
    }))
}

} // verus!
