//! The widget capability model: the tree of widget values, the parallel
//! tree of persistent per-slot state, and the actions widgets fire.
//!
//! Every control is a variant of [`Widget`]; its persistent state is the
//! corresponding variant of [`WidgetState`].  A widget value is rebuilt
//! by the caller each frame; the state tree is the only thing that
//! persists, one state node per alive widget slot.

use vstd::prelude::*;
use crate::button::{Button, ButtonState};
use crate::drawables::{
    Checkmark, CheckmarkState, FixedRect, FixedRectState, NoneWidget, NoneWidgetState, TextState,
    TextWidget,
};
use crate::dropdown::{Dropdown, StatefulWidgetState};
use crate::flex::{
    EmptyFlexContentState, Flex, FlexContent, FlexContentState, FlexItemState, FlexState,
    IterFlexContentState, ThenState,
};
use crate::geom::Size;
use crate::popup::{Popup, PopupState};
use crate::textbox::{TextBox, TextBoxState};
use crate::theme::{Theme, WidgetVariant};

verus! {

/// A callback as a plain value.  Actions fired by a widget bubble up the
/// tree; the nearest enclosing dropdown consumes the ones addressed to
/// its private state and the rest reach the caller of the root.
#[derive(Clone, Copy, Debug, PartialEq, Eq, Structural)]
pub enum Action {
    /// Open or close the enclosing dropdown's popup.
    SetOpen(bool),
    /// Commit the item with this value in the enclosing dropdown; the
    /// dropdown closes and re-raises the action to its own caller.
    Select(u64),
    /// An application-defined event, passed through unchanged.
    Emit(u64),
}

/// What layout passes read: the ambient theme.  (Text measurement is the
/// platform's: measured sizes travel inside the widget values.)
pub struct LayoutCtx {
    pub theme: Theme,
}

/// A widget value: the declarative description of one control, rebuilt
/// each frame by the caller.
#[derive(Debug)]
pub enum Widget {
    Nothing(NoneWidget),
    Text(TextWidget),
    Checkmark(Checkmark),
    FixedRect(FixedRect),
    TextBox(TextBox),
    Button(Box<Button>),
    Flex(Box<Flex>),
    Popup(Box<Popup>),
    Dropdown(Box<Dropdown>),
}

/// The persistent state of one widget slot, shaped like the widget that
/// owns it.
#[derive(Debug)]
pub enum WidgetState {
    Nothing(NoneWidgetState),
    Text(TextState),
    Checkmark(CheckmarkState),
    FixedRect(FixedRectState),
    TextBox(TextBoxState),
    Button(Box<ButtonState>),
    Flex(Box<FlexState>),
    Popup(Box<PopupState>),
    Dropdown(Box<StatefulWidgetState>),
}

/// `max` on layer counts.
pub open spec fn max8(a: u8, b: u8) -> u8 {
    if a >= b {
        a
    } else {
        b
    }
}

/// Clamp a mathematical integer into `u8`.
pub open spec fn clamp_u8(v: int) -> u8 {
    if v > u8::MAX as int {
        u8::MAX
    } else if v < 0 {
        0u8
    } else {
        v as u8
    }
}

/// Clamp a mathematical integer into `u32`.
pub open spec fn clamp_u32(v: int) -> u32 {
    if v > u32::MAX as int {
        u32::MAX
    } else if v < 0 {
        0u32
    } else {
        v as u32
    }
}

impl WidgetState {
    /// The minimal size reported by the last layout of this slot.
    pub open spec fn min_size_spec(&self) -> Size {
        match self {
            WidgetState::Nothing(_) => Size::zero_spec(),
            WidgetState::Text(ts) => ts.layout,
            WidgetState::Checkmark(cs) => cs.0,
            WidgetState::FixedRect(fs) => fs.0,
            WidgetState::TextBox(ts) => ts.min_size,
            WidgetState::Button(bs) => bs.layout,
            WidgetState::Flex(fs) => fs.size,
            WidgetState::Popup(ps) => ps.min_size,
            WidgetState::Dropdown(ds) => ds.min_size,
        }
    }

    /// How many rendering/hit-test layers beyond the base layer this
    /// slot's subtree needs.
    pub open spec fn extra_layers_spec(&self) -> u8 {
        match self {
            WidgetState::Nothing(_) => 0,
            WidgetState::Text(_) => 0,
            WidgetState::Checkmark(_) => 0,
            WidgetState::FixedRect(_) => 0,
            WidgetState::TextBox(_) => 0,
            WidgetState::Button(_) => 0,
            WidgetState::Flex(fs) => fs.extra_layers,
            WidgetState::Popup(ps) => ps.extra_layers,
            WidgetState::Dropdown(ds) => ds.extra_layers,
        }
    }

    pub fn min_size(&self) -> (r: Size)
        ensures
            r == self.min_size_spec(),
    {
        match self {
            WidgetState::Nothing(_) => Size::zero(),
            WidgetState::Text(ts) => ts.layout,
            WidgetState::Checkmark(cs) => cs.0,
            WidgetState::FixedRect(fs) => fs.0,
            WidgetState::TextBox(ts) => ts.min_size,
            WidgetState::Button(bs) => bs.layout,
            WidgetState::Flex(fs) => fs.size,
            WidgetState::Popup(ps) => ps.min_size,
            WidgetState::Dropdown(ds) => ds.min_size,
        }
    }

    pub fn extra_layers(&self) -> (r: u8)
        ensures
            r == self.extra_layers_spec(),
    {
        match self {
            WidgetState::Nothing(_) => 0,
            WidgetState::Text(_) => 0,
            WidgetState::Checkmark(_) => 0,
            WidgetState::FixedRect(_) => 0,
            WidgetState::TextBox(_) => 0,
            WidgetState::Button(_) => 0,
            WidgetState::Flex(fs) => fs.extra_layers,
            WidgetState::Popup(ps) => ps.extra_layers,
            WidgetState::Dropdown(ds) => ds.extra_layers,
        }
    }
}

/// Structural size of a widget tree, used as the termination measure of
/// every tree walk.  A dropdown counts for more than the subtree it
/// builds from its state, so walking into the built subtree decreases
/// the measure.
pub open spec fn wsize(w: Widget) -> nat
    decreases w,
{
    match w {
        Widget::Nothing(_) => 1,
        Widget::Text(_) => 1,
        Widget::Checkmark(_) => 1,
        Widget::FixedRect(_) => 1,
        Widget::TextBox(_) => 1,
        Widget::Button(b) => 1 + wsize(b.widget),
        Widget::Flex(f) => 1 + csize(f.content),
        Widget::Popup(p) => 1 + wsize(p.base) + match p.popup {
            Some(ow) => 1 + wsize(ow),
            None => 0,
        },
        Widget::Dropdown(d) => 12 + 5 * d.items@.len(),
    }
}

/// Structural size of a child list.
pub open spec fn csize(content: FlexContent) -> nat
    decreases content,
{
    match content {
        FlexContent::Empty(_) => 1,
        FlexContent::Item(it) => 1 + wsize(it.widget),
        FlexContent::Chain(t) => 1 + csize(t.a) + csize(t.b),
        FlexContent::Iter(itr) => 1 + isizes(itr.items@),
    }
}

/// Structural size of a sequence of child items.
pub open spec fn isizes(items: Seq<crate::flex::FlexItem>) -> nat
    decreases items,
{
    if items.len() == 0 {
        0
    } else {
        isizes(items.drop_last()) + 1 + wsize(items.last().widget)
    }
}

/// How many direct children a child list declares.
pub open spec fn children_count(content: FlexContent) -> int
    decreases content,
{
    match content {
        FlexContent::Empty(_) => 0,
        FlexContent::Item(_) => 1,
        FlexContent::Chain(t) => children_count(t.a) + children_count(t.b),
        FlexContent::Iter(itr) => itr.items@.len() as int,
    }
}

/// A fresh state skeleton for `w`: empty slots everywhere, measurements
/// zeroed, no focus, and a closed dropdown.  The first layout pass fills
/// it in.
pub fn new_state(w: &Widget) -> (r: WidgetState)
    ensures
        variant_matches(*w, r),
        r.min_size_spec() == Size::zero_spec(),
        r.extra_layers_spec() == 0,
        w is Text ==> r == WidgetState::Text(
            TextState { variant: WidgetVariant::Normal, layout: Size::zero_spec() },
        ),
        w is Button ==> (r matches WidgetState::Button(bs) && bs.variant
            == WidgetVariant::Normal),
        w is Flex ==> (r matches WidgetState::Flex(fs) && fs.focus is None),
        w is Popup ==> (r matches WidgetState::Popup(ps) && ps.popup is None),
        w is Dropdown ==> (r matches WidgetState::Dropdown(ds) && ds.open == false
            && ds.widget_state is Nothing),
    decreases wsize(*w),
{
    match w {
        Widget::Nothing(_) => WidgetState::Nothing(NoneWidgetState),
        Widget::Text(_) => WidgetState::Text(
            TextState { variant: WidgetVariant::Normal, layout: Size::zero() },
        ),
        Widget::Checkmark(_) => WidgetState::Checkmark(CheckmarkState(Size::zero())),
        Widget::FixedRect(_) => WidgetState::FixedRect(FixedRectState(Size::zero())),
        Widget::TextBox(_) => WidgetState::TextBox(TextBoxState { min_size: Size::zero() }),
        Widget::Button(b) => WidgetState::Button(Box::new(ButtonState {
            variant: WidgetVariant::Normal,
            state: new_state(&b.widget),
            layout: Size::zero(),
        })),
        Widget::Flex(f) => WidgetState::Flex(Box::new(FlexState {
            content_state: new_content_state(&f.content),
            focus: None,
            size: Size::zero(),
            no_expand_size: 0,
            expand_count: 0,
            extra_layers: 0,
        })),
        Widget::Popup(p) => WidgetState::Popup(Box::new(PopupState {
            base: new_state(&p.base),
            popup: None,
            min_size: Size::zero(),
            extra_layers: 0,
        })),
        Widget::Dropdown(_) => WidgetState::Dropdown(Box::new(StatefulWidgetState {
            open: false,
            widget_state: WidgetState::Nothing(NoneWidgetState),
            min_size: Size::zero(),
            extra_layers: 0,
        })),
    }
}

/// A fresh state skeleton for a child list: one empty slot per declared
/// position, and no slots yet for an iterated list.
pub fn new_content_state(content: &FlexContent) -> (r: FlexContentState)
    decreases csize(*content),
{
    match content {
        FlexContent::Empty(_) => FlexContentState::Empty(EmptyFlexContentState),
        FlexContent::Item(_) => FlexContentState::Item(FlexItemState { state: None }),
        FlexContent::Chain(t) => FlexContentState::Chain(Box::new(ThenState {
            a: new_content_state(&t.a),
            b: new_content_state(&t.b),
        })),
        FlexContent::Iter(_) => FlexContentState::Iter(IterFlexContentState { state: Vec::new() }),
    }
}

/// Whether `s` is the state variant belonging to `w`.  Layout replaces a
/// state of the wrong variant with a fresh skeleton; the passes after
/// layout require the match to hold.
pub open spec fn variant_matches(w: Widget, s: WidgetState) -> bool {
    match w {
        Widget::Nothing(_) => s is Nothing,
        Widget::Text(_) => s is Text,
        Widget::Checkmark(_) => s is Checkmark,
        Widget::FixedRect(_) => s is FixedRect,
        Widget::TextBox(_) => s is TextBox,
        Widget::Button(_) => s is Button,
        Widget::Flex(_) => s is Flex,
        Widget::Popup(_) => s is Popup,
        Widget::Dropdown(_) => s is Dropdown,
    }
}

/// Exec test for [`variant_matches`].
pub fn check_variant_matches(w: &Widget, s: &WidgetState) -> (r: bool)
    ensures
        r == variant_matches(*w, *s),
{
    match (w, s) {
        (Widget::Nothing(_), WidgetState::Nothing(_)) => true,
        (Widget::Text(_), WidgetState::Text(_)) => true,
        (Widget::Checkmark(_), WidgetState::Checkmark(_)) => true,
        (Widget::FixedRect(_), WidgetState::FixedRect(_)) => true,
        (Widget::TextBox(_), WidgetState::TextBox(_)) => true,
        (Widget::Button(_), WidgetState::Button(_)) => true,
        (Widget::Flex(_), WidgetState::Flex(_)) => true,
        (Widget::Popup(_), WidgetState::Popup(_)) => true,
        (Widget::Dropdown(_), WidgetState::Dropdown(_)) => true,
        _ => false,
    }
}

} // verus!
