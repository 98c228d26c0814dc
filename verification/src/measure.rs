//! The mathematical model of the two-pass flex layout and of every
//! widget's measured size.
//!
//! `measure_spec` says what size a widget reports for a given constraint.
//! For a flex container it is the two-pass formula: pass A measures the
//! non-expanding children with the primary axis unconstrained and counts
//! the expanding ones; pass B gives each expanding child an equal share
//! of the leftover primary space.  The exec layout pass is proved to
//! leave exactly these values in the state tree.

use vstd::prelude::*;
use crate::button::PADDING;
use crate::dropdown::{Dropdown, StatefulWidgetState};
use crate::flex::{FlexContent, FlexContentState, FlexItem, FlexItemState};
use crate::geom::{clamp_reported_spec, Axis, LayoutConstraint, Size};
use crate::textbox::{TEXTBOX_INSET_Y, TEXTBOX_WIDTH};
use crate::widget::{children_count, clamp_u32, clamp_u8, max8, Widget, WidgetState};

verus! {

/// What pass A of the flex layout accumulates over a child list: the
/// summed primary extent of the non-expanding children, the largest
/// secondary extent seen, and the number of expanding children.
pub ghost struct PassA {
    pub no_expand: int,
    pub cross: int,
    pub expand_count: int,
}

/// What pass B accumulates: the summed primary extent of the expanding
/// children and the largest secondary extent seen among them.
pub ghost struct PassB {
    pub sum: int,
    pub cross: int,
}

/// `max` over mathematical integers.
pub open spec fn max_int(a: int, b: int) -> int {
    if a >= b {
        a
    } else {
        b
    }
}

/// Take `by` off an optional maximum extent, floored at zero.
pub open spec fn shrink_constraint(c: Option<u32>, by: u32) -> Option<u32> {
    match c {
        Some(w) => Some(if w >= by { (w - by) as u32 } else { 0u32 }),
        None => None,
    }
}

/// A measured size widened by a button's padding on every side.
pub open spec fn grow_by_padding(m: Size) -> Size {
    Size {
        width: clamp_u32(m.width as int + 2 * PADDING as int),
        height: clamp_u32(m.height as int + 2 * PADDING as int),
    }
}

/// A text label fills its constraint but never reports less than its
/// measured size.
pub open spec fn text_measure(text_size: Size, c: LayoutConstraint) -> Size {
    Size {
        width: clamp_reported_spec(c.x, text_size.width),
        height: clamp_reported_spec(c.y, text_size.height),
    }
}

/// What a button around a label of measured size `text_size` reports:
/// the label measured under the padded-down constraint, padded back up.
pub open spec fn text_button_measure(text_size: Size, c: LayoutConstraint) -> Size {
    grow_by_padding(
        text_measure(
            text_size,
            LayoutConstraint {
                x: shrink_constraint(c.x, PADDING),
                y: shrink_constraint(c.y, PADDING),
            },
        ),
    )
}

/// The even primary-axis share each expanding child is laid out with:
/// the leftover after the non-expanding children, divided evenly.
pub open spec fn expand_share(given: u32, no_expand: u32, count: u32) -> u32 {
    if count > 0 {
        (((if given >= no_expand {
            given - no_expand
        } else {
            0int
        })) / count as int) as u32
    } else {
        0u32
    }
}

/// Combine two pass-A accumulations of adjacent child lists.
pub open spec fn pass_a_combine(a: PassA, b: PassA) -> PassA {
    PassA {
        no_expand: a.no_expand + b.no_expand,
        cross: max_int(a.cross, b.cross),
        expand_count: a.expand_count + b.expand_count,
    }
}

/// Combine two pass-B accumulations of adjacent child lists.
pub open spec fn pass_b_combine(a: PassB, b: PassB) -> PassB {
    PassB { sum: a.sum + b.sum, cross: max_int(a.cross, b.cross) }
}

/// Pass A over one child.
pub open spec fn pass_a_one(it: FlexItem, axis: Axis, sec: Option<u32>) -> PassA
    decreases it, 3int,
{
    if it.expand {
        PassA { no_expand: 0, cross: 0, expand_count: 1 }
    } else {
        let m = measure_spec(it.widget, LayoutConstraint::from_axes_spec(axis, None, sec));
        PassA {
            no_expand: m.primary_spec(axis) as int,
            cross: m.secondary_spec(axis) as int,
            expand_count: 0,
        }
    }
}

/// Pass A over a child list.
pub open spec fn pass_a(content: FlexContent, axis: Axis, sec: Option<u32>) -> PassA
    decreases content, 0int,
{
    match content {
        FlexContent::Empty(_) => PassA { no_expand: 0, cross: 0, expand_count: 0 },
        FlexContent::Item(it) => pass_a_one(it, axis, sec),
        FlexContent::Chain(t) => pass_a_combine(
            pass_a(t.a, axis, sec),
            pass_a(t.b, axis, sec),
        ),
        FlexContent::Iter(itr) => pass_a_items(itr.items@, axis, sec),
    }
}

/// Pass A over an iterated child list.
pub open spec fn pass_a_items(items: Seq<FlexItem>, axis: Axis, sec: Option<u32>) -> PassA
    decreases items, 0int,
{
    if items.len() == 0 {
        PassA { no_expand: 0, cross: 0, expand_count: 0 }
    } else {
        pass_a_combine(
            pass_a_items(items.drop_last(), axis, sec),
            pass_a_one(items.last(), axis, sec),
        )
    }
}

/// Pass B over one child.
pub open spec fn pass_b_one(it: FlexItem, axis: Axis, share: Option<u32>, sec: Option<u32>) -> PassB
    decreases it, 3int,
{
    if it.expand {
        let m = measure_spec(it.widget, LayoutConstraint::from_axes_spec(axis, share, sec));
        PassB { sum: m.primary_spec(axis) as int, cross: m.secondary_spec(axis) as int }
    } else {
        PassB { sum: 0, cross: 0 }
    }
}

/// Pass B over a child list.
pub open spec fn pass_b(content: FlexContent, axis: Axis, share: Option<u32>, sec: Option<u32>) -> PassB
    decreases content, 0int,
{
    match content {
        FlexContent::Empty(_) => PassB { sum: 0, cross: 0 },
        FlexContent::Item(it) => pass_b_one(it, axis, share, sec),
        FlexContent::Chain(t) => pass_b_combine(
            pass_b(t.a, axis, share, sec),
            pass_b(t.b, axis, share, sec),
        ),
        FlexContent::Iter(itr) => pass_b_items(itr.items@, axis, share, sec),
    }
}

/// Pass B over an iterated child list.
pub open spec fn pass_b_items(
    items: Seq<FlexItem>,
    axis: Axis,
    share: Option<u32>,
    sec: Option<u32>,
) -> PassB
    decreases items, 0int,
{
    if items.len() == 0 {
        PassB { sum: 0, cross: 0 }
    } else {
        pass_b_combine(
            pass_b_items(items.drop_last(), axis, share, sec),
            pass_b_one(items.last(), axis, share, sec),
        )
    }
}

/// The primary-axis constraint pass B hands each expanding child.
pub open spec fn flex_share_constraint(content: FlexContent, axis: Axis, c: LayoutConstraint) -> Option<u32>
    decreases content, 1int,
{
    let a = pass_a(content, axis, c.secondary_spec(axis));
    match c.primary_spec(axis) {
        Some(given) => Some(
            expand_share(given, clamp_u32(a.no_expand), clamp_u32(a.expand_count)),
        ),
        None => None,
    }
}

/// The size a flex container measures for its content: non-expanding
/// children first, then the expanding children at their even share; per
/// axis the container reports the larger of its constraint and the
/// measured total.
pub open spec fn flex_measured_primary(content: FlexContent, axis: Axis, c: LayoutConstraint) -> u32
    decreases content, 2int,
{
    let a = pass_a(content, axis, c.secondary_spec(axis));
    let b = pass_b(content, axis, flex_share_constraint(content, axis, c), c.secondary_spec(axis));
    clamp_u32(clamp_u32(a.no_expand) as int + clamp_u32(b.sum) as int)
}

pub open spec fn flex_measure(content: FlexContent, axis: Axis, c: LayoutConstraint) -> Size
    decreases content, 3int,
{
    let cp = c.primary_spec(axis);
    let cs = c.secondary_spec(axis);
    let a = pass_a(content, axis, cs);
    let share = flex_share_constraint(content, axis, c);
    let b = pass_b(content, axis, share, cs);
    let cross = clamp_u32(max_int(a.cross, b.cross));
    Size::from_axes_spec(
        axis,
        clamp_reported_spec(cp, flex_measured_primary(content, axis, c)),
        clamp_reported_spec(cs, cross),
    )
}

/// The largest extra-layer count among the slots of a child-list state.
pub open spec fn content_state_extra(cs: FlexContentState) -> u8
    decreases cs,
{
    match cs {
        FlexContentState::Empty(_) => 0,
        FlexContentState::Item(is) => slot_extra(is),
        FlexContentState::Chain(t) => max8(content_state_extra(t.a), content_state_extra(t.b)),
        FlexContentState::Iter(iss) => items_state_extra(iss.state@),
    }
}

/// The extra-layer count of one child slot; an empty slot has none.
pub open spec fn slot_extra(is: FlexItemState) -> u8 {
    match is.state {
        Some(s) => s.extra_layers_spec(),
        None => 0,
    }
}

/// The largest extra-layer count among a sequence of child slots.
pub open spec fn items_state_extra(ss: Seq<FlexItemState>) -> u8
    decreases ss,
{
    if ss.len() == 0 {
        0
    } else {
        max8(items_state_extra(ss.drop_last()), slot_extra(ss.last()))
    }
}

/// A slot state holding a laid-out text button.
pub open spec fn is_text_button_state(s: WidgetState) -> bool {
    s matches WidgetState::Button(bs) && bs.state is Text
}

/// Every slot of a dropdown's option column holds a laid-out text
/// button.
pub open spec fn dropdown_slots_ready(ss: Seq<FlexItemState>) -> bool {
    forall|j: int|
        0 <= j < ss.len() ==> ((#[trigger] ss[j]).state matches Some(s) && is_text_button_state(s))
}

/// The state a dropdown's layout leaves behind: a popup state whose base
/// is the dropdown's button and whose overlay state is present exactly
/// while the dropdown is open, with the option column's slots filled;
/// the cached measurements mirror the popup state, and the extra-layer
/// count is one exactly while open.
pub open spec fn dropdown_state_ready(d: Dropdown, ds: StatefulWidgetState) -> bool {
    &&& ds.widget_state matches WidgetState::Popup(ps)
    &&& is_text_button_state(ps.base)
    &&& match ps.popup {
        None => !ds.open && ps.extra_layers == 0,
        Some(os) => {
            &&& ds.open
            &&& os matches WidgetState::Flex(fs)
            &&& fs.content_state matches FlexContentState::Iter(iss)
            &&& iss.state@.len() == d.items@.len()
            &&& dropdown_slots_ready(iss.state@)
            &&& fs.extra_layers == 0
            &&& ps.extra_layers == 1
        },
    }
    &&& ds.min_size == ps.min_size
    &&& ds.extra_layers == ps.extra_layers
}

/// The shape a layout pass leaves a state tree in: the state mirrors the
/// widget variant for variant, every alive slot is filled, and the
/// cached extra-layer counts satisfy their defining equations.  Render
/// and input passes require this of the states they are handed.
pub open spec fn ready(w: Widget, s: WidgetState) -> bool
    decreases w, 1int,
{
    match w {
        Widget::Nothing(_) => s is Nothing,
        Widget::Text(_) => s is Text,
        Widget::Checkmark(_) => s is Checkmark,
        Widget::FixedRect(_) => s is FixedRect,
        Widget::TextBox(_) => s is TextBox,
        Widget::Button(b) => s matches WidgetState::Button(bs) && ready(b.widget, bs.state),
        Widget::Flex(f) => {
            &&& s matches WidgetState::Flex(fs)
            &&& content_ready(f.content, fs.content_state)
            &&& fs.extra_layers == content_state_extra(fs.content_state)
        },
        Widget::Popup(p) => {
            &&& s matches WidgetState::Popup(ps)
            &&& ready(p.base, ps.base)
            &&& match p.popup {
                None => ps.popup is None && ps.extra_layers == ps.base.extra_layers_spec(),
                Some(ow) => {
                    &&& ps.popup matches Some(os)
                    &&& ready(ow, os)
                    &&& ps.extra_layers == clamp_u8(
                        ps.base.extra_layers_spec() as int + 1 + os.extra_layers_spec() as int,
                    )
                },
            }
        },
        Widget::Dropdown(d) => {
            s matches WidgetState::Dropdown(ds) && dropdown_state_ready(*d, *ds)
        },
    }
}

/// [`ready`], for a child list and its state tree.
pub open spec fn content_ready(content: FlexContent, cs: FlexContentState) -> bool
    decreases content, 0int,
{
    match content {
        FlexContent::Empty(_) => cs is Empty,
        FlexContent::Item(it) => {
            &&& cs matches FlexContentState::Item(is)
            &&& is.state matches Some(s) && ready(it.widget, s)
        },
        FlexContent::Chain(t) => {
            &&& cs matches FlexContentState::Chain(ts)
            &&& content_ready(t.a, ts.a)
            &&& content_ready(t.b, ts.b)
        },
        FlexContent::Iter(itr) => {
            &&& cs matches FlexContentState::Iter(iss)
            &&& iss.state@.len() == itr.items@.len()
            &&& items_ready(itr.items@, iss.state@)
        },
    }
}

/// [`ready`], for an iterated child list and its slots.
pub open spec fn items_ready(items: Seq<FlexItem>, ss: Seq<FlexItemState>) -> bool
    decreases items, 0int,
{
    &&& items.len() == ss.len()
    &&& forall|j: int|
        0 <= j < items.len() ==> ((#[trigger] ss[j]).state matches Some(s) && ready(
            items[j].widget,
            s,
        ))
}

/// One slot after the layout passes: pass A fills the non-expanding
/// slots (measured with the primary axis unconstrained), pass B the
/// expanding ones (measured at the even share).  Before pass B has run,
/// `after_b` is false and nothing is said of the expanding slots.
pub open spec fn slot_laid(
    it: FlexItem,
    is: FlexItemState,
    axis: Axis,
    share: Option<u32>,
    sec: Option<u32>,
    after_b: bool,
) -> bool {
    if it.expand {
        after_b ==> (is.state matches Some(s) && ready(it.widget, s)
            && s.min_size_spec() == measure_spec(
            it.widget,
            LayoutConstraint::from_axes_spec(axis, share, sec),
        ))
    } else {
        is.state matches Some(s) && ready(it.widget, s) && s.min_size_spec() == measure_spec(
            it.widget,
            LayoutConstraint::from_axes_spec(axis, None, sec),
        )
    }
}

/// [`slot_laid`], over a whole child list.
pub open spec fn content_laid(
    content: FlexContent,
    cs: FlexContentState,
    axis: Axis,
    share: Option<u32>,
    sec: Option<u32>,
    after_b: bool,
) -> bool
    decreases content,
{
    match content {
        FlexContent::Empty(_) => cs is Empty,
        FlexContent::Item(it) => {
            &&& cs matches FlexContentState::Item(is)
            &&& slot_laid(it, is, axis, share, sec, after_b)
        },
        FlexContent::Chain(t) => {
            &&& cs matches FlexContentState::Chain(ts)
            &&& content_laid(t.a, ts.a, axis, share, sec, after_b)
            &&& content_laid(t.b, ts.b, axis, share, sec, after_b)
        },
        FlexContent::Iter(itr) => {
            &&& cs matches FlexContentState::Iter(iss)
            &&& iss.state@.len() == itr.items@.len()
            &&& items_laid(itr.items@, iss.state@, axis, share, sec, after_b)
        },
    }
}

/// [`slot_laid`], over an iterated child list.
pub open spec fn items_laid(
    items: Seq<FlexItem>,
    ss: Seq<FlexItemState>,
    axis: Axis,
    share: Option<u32>,
    sec: Option<u32>,
    after_b: bool,
) -> bool {
    &&& items.len() == ss.len()
    &&& forall|j: int|
        0 <= j < items.len() ==> slot_laid(items[j], #[trigger] ss[j], axis, share, sec, after_b)
}

/// The dropdown-open flag that survives into this frame's layout: the
/// flag stored in the slot's previous state, or closed when the slot
/// held a different widget's state.
pub open spec fn carried_open(s_old: WidgetState) -> bool {
    match s_old {
        WidgetState::Dropdown(ds) => ds.open,
        _ => false,
    }
}

/// The focus index that survives into this frame's layout: the stored
/// index while it still points at an existing child, cleared otherwise.
pub open spec fn carried_focus(content: FlexContent, s_old: WidgetState) -> Option<u16> {
    match s_old {
        WidgetState::Flex(fs) => match fs.focus {
            Some(i) => if (i as int) < children_count(content) {
                Some(i)
            } else {
                None
            },
            None => None,
        },
        _ => None,
    }
}

/// The size a widget reports when laid out under `c`.
pub open spec fn measure_spec(w: Widget, c: LayoutConstraint) -> Size
    decreases w, 4int,
{
    match w {
        Widget::Nothing(_) => Size::zero_spec(),
        Widget::Text(t) => text_measure(t.text_size, c),
        Widget::Checkmark(cm) => cm.0,
        Widget::FixedRect(f) => f.0,
        Widget::TextBox(tb) => Size {
            width: TEXTBOX_WIDTH,
            height: clamp_u32(tb.text_size.height as int + 2 * TEXTBOX_INSET_Y as int),
        },
        Widget::Button(b) => grow_by_padding(
            measure_spec(
                b.widget,
                LayoutConstraint {
                    x: shrink_constraint(c.x, PADDING),
                    y: shrink_constraint(c.y, PADDING),
                },
            ),
        ),
        Widget::Flex(f) => flex_measure(f.content, f.axis, c),
        Widget::Popup(p) => measure_spec(p.base, c),
        Widget::Dropdown(d) => text_button_measure(d.selected_size, c),
    }
}


} // verus!
