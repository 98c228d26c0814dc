//! Leaf widgets: a text label, a checkmark, a fixed-size rectangle, and
//! the empty widget.
//!
//! Text shaping and measurement belong to the platform's text backend; a
//! `TextWidget` therefore carries the measured size of its label as a
//! plain value, supplied by that boundary.  A label that could not be
//! measured is carried with a zero size, so layout degrades
//! deterministically instead of failing.

use vstd::prelude::*;
use crate::geom::Size;
use crate::theme::WidgetVariant;
use crate::widget::Widget;

verus! {

/// A widget that draws nothing and occupies no space.
#[derive(Clone, Copy, Debug, PartialEq, Eq, Structural)]
pub struct NoneWidget;

/// State of [`NoneWidget`]: nothing persists.
#[derive(Clone, Copy, Debug, PartialEq, Eq, Structural)]
pub struct NoneWidgetState;

/// A text label with its platform-measured size.
#[derive(Clone, Debug, PartialEq, Eq)]
pub struct TextWidget {
    pub text: String,
    pub text_size: Size,
}

/// State of [`TextWidget`]: the size the label was laid out at.
#[derive(Clone, Copy, Debug, PartialEq, Eq, Structural)]
pub struct TextState {
    pub variant: WidgetVariant,
    pub layout: Size,
}

/// A fixed-size widget that renders a checkmark.
#[derive(Clone, Copy, Debug, PartialEq, Eq, Structural)]
pub struct Checkmark(pub Size);

/// State of [`Checkmark`]: its fixed size.
#[derive(Clone, Copy, Debug, PartialEq, Eq, Structural)]
pub struct CheckmarkState(pub Size);

/// A widget of fixed size that draws nothing itself.
#[derive(Clone, Copy, Debug, PartialEq, Eq, Structural)]
pub struct FixedRect(pub Size);

/// State of [`FixedRect`]: its fixed size.
#[derive(Clone, Copy, Debug, PartialEq, Eq, Structural)]
pub struct FixedRectState(pub Size);

/// A text label widget over `label` whose measured size is `text_size`.
pub fn text(label: String, text_size: Size) -> (r: Widget)
    ensures
        r == Widget::Text(TextWidget { text: label, text_size }),
{
    Widget::Text(TextWidget { text: label, text_size })
}

} // verus!
