//! The layered-overlay composite: a base widget plus an optional overlay
//! that draws and receives input on the layers above it, with
//! outside-click-to-dismiss semantics.

use vstd::prelude::*;
use crate::geom::{Rect, Size};
use crate::widget::{Action, Widget, WidgetState};

verus! {

/// A base widget composed with an optional overlay.  When the overlay is
/// present, a cursor release outside its rectangle fires `on_close`
/// instead of being delivered anywhere.
#[derive(Debug)]
pub struct Popup {
    pub base: Widget,
    pub popup: Option<Widget>,
    pub on_close: Action,
}

/// Persistent state of [`Popup`]: the base's state, the overlay's state
/// while one is shown, and the cached measurements.
#[derive(Debug)]
pub struct PopupState {
    pub base: WidgetState,
    pub popup: Option<WidgetState>,
    pub min_size: Size,
    pub extra_layers: u8,
}

/// The rectangle an overlay is shown in, anchored to the base rectangle.
pub open spec fn popup_rect_spec(base_rect: Rect) -> Rect {
    base_rect
}

/// Exec form of [`popup_rect_spec`].
pub fn popup_rect(base_rect: Rect, popup_min_size: Size) -> (r: Rect)
    ensures
        r == popup_rect_spec(base_rect),
{
    let _ = popup_min_size;
    base_rect
}

} // verus!
