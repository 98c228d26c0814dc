//! The text-input widget, at the engine's level of concern.
//!
//! The caret/selection editing buffer is an external collaborator: text
//! shaping, grapheme handling, and edits happen there.  What belongs to
//! the engine — and is verified here — is the widget's part in layout and
//! focus routing: a fixed-width box sized from the measured text metrics,
//! and the demand-focus protocol on a press inside its rectangle.

use vstd::prelude::*;
use crate::geom::Size;

verus! {

/// The fixed width a textbox asks for.
pub const TEXTBOX_WIDTH: u32 = 100;

/// Horizontal inset between the box border and the text, per side.
pub const TEXTBOX_INSET_X: u32 = 4;

/// Vertical inset between the box border and the text, per side.
pub const TEXTBOX_INSET_Y: u32 = 2;

/// Background color of a textbox.
pub const TEXTBOX_BG: u32 = 0x3A_3A_3A_FF;

/// Border color of a focused textbox.
pub const TEXTBOX_BORDER_FOCUSED: u32 = 0x00_8D_DD_FF;

/// Border color of an unfocused textbox.
pub const TEXTBOX_BORDER: u32 = 0x3A_3A_3A_FF;

/// A text-input box over the current text snapshot; `text_size` is the
/// measured size of the laid-out text, supplied by the text backend.
#[derive(Debug)]
pub struct TextBox {
    pub text: String,
    pub text_size: Size,
}

/// Persistent state of [`TextBox`]: the size of the last layout.
#[derive(Clone, Copy, Debug, PartialEq, Eq, Structural)]
pub struct TextBoxState {
    pub min_size: Size,
}

/// A textbox widget over the current text snapshot.
pub fn textbox(text: String, text_size: Size) -> (r: crate::widget::Widget)
    ensures
        r == crate::widget::Widget::TextBox(TextBox { text, text_size }),
{
    crate::widget::Widget::TextBox(TextBox { text, text_size })
}

} // verus!
