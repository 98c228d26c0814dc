//! The flex container (row / column) and its child-list algebra.
//!
//! A child list is composed from three primitives: a single item, the
//! concatenation of two lists, and a homogeneous iterated list.  The
//! container walks the list in declaration order; state lives in a
//! parallel tree of per-position slots.

use vstd::prelude::*;
use crate::geom::{Axis, Size};
use crate::widget::{Widget, WidgetState};

verus! {

/// One declared child: a widget and whether it takes a share of the
/// container's leftover primary-axis space.
#[derive(Debug)]
pub struct FlexItem {
    pub widget: Widget,
    pub expand: bool,
}

/// The state slot of a single child; empty until the child's first layout.
#[derive(Debug)]
pub struct FlexItemState {
    pub state: Option<WidgetState>,
}

/// Concatenation of two child lists, in order.
#[derive(Debug)]
pub struct Then {
    pub a: FlexContent,
    pub b: FlexContent,
}

/// State of [`Then`]: the two lists' states, concatenated correspondingly.
#[derive(Debug)]
pub struct ThenState {
    pub a: FlexContentState,
    pub b: FlexContentState,
}

/// The empty child list.
#[derive(Clone, Copy, Debug, PartialEq, Eq, Structural)]
pub struct EmptyFlexContent;

/// State of [`EmptyFlexContent`]: nothing.
#[derive(Clone, Copy, Debug, PartialEq, Eq, Structural)]
pub struct EmptyFlexContentState;

/// A homogeneous, variable-length child list.
#[derive(Debug)]
pub struct IterFlexContent {
    pub items: Vec<FlexItem>,
}

/// State of [`IterFlexContent`]: one slot per index, grown on first
/// layout and truncated when the list shrinks.
#[derive(Debug)]
pub struct IterFlexContentState {
    pub state: Vec<FlexItemState>,
}

/// A child list a flex container walks each pass.
#[derive(Debug)]
pub enum FlexContent {
    Empty(EmptyFlexContent),
    Item(FlexItem),
    Chain(Box<Then>),
    Iter(IterFlexContent),
}

/// The state tree parallel to a [`FlexContent`] list.
#[derive(Debug)]
pub enum FlexContentState {
    Empty(EmptyFlexContentState),
    Item(FlexItemState),
    Chain(Box<ThenState>),
    Iter(IterFlexContentState),
}

/// A flex container over a primary axis: a row lays its children out
/// horizontally, a column vertically.
#[derive(Debug)]
pub struct Flex {
    pub axis: Axis,
    pub content: FlexContent,
}

/// Persistent state of a flex container: the child slots, the focused
/// child (if any), and the measurements of the last layout pass.
#[derive(Debug)]
pub struct FlexState {
    pub content_state: FlexContentState,
    pub focus: Option<u16>,
    pub size: Size,
    pub no_expand_size: u32,
    pub expand_count: u32,
    pub extra_layers: u8,
}

/// A horizontal flex container over `content`.
pub fn row(content: FlexContent) -> (r: Widget)
    ensures
        r matches Widget::Flex(f) && f.axis == Axis::Horizontal && f.content == content,
{
    Widget::Flex(Box::new(Flex { axis: Axis::Horizontal, content }))
}

/// A vertical flex container over `content`.
pub fn col(content: FlexContent) -> (r: Widget)
    ensures
        r matches Widget::Flex(f) && f.axis == Axis::Vertical && f.content == content,
{
    Widget::Flex(Box::new(Flex { axis: Axis::Vertical, content }))
}

impl FlexContent {
    /// Concatenate two child lists, preserving order.
    pub fn then(self, other: FlexContent) -> (r: FlexContent)
        ensures
            r matches FlexContent::Chain(t) && t.a == self && t.b == other,
    {
        FlexContent::Chain(Box::new(Then { a: self, b: other }))
    }
}

} // verus!
