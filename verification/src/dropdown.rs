//! The dropdown: the library's local-state adapter instance.
//!
//! A dropdown owns a private `open` flag that persists across frames and
//! rebuilds its subtree from that flag on every pass: a button showing
//! the selected label, composed with a popup column of option buttons
//! while `open` is set.  The rebuilt subtree changes shape when the flag
//! toggles; the persistent state slot is re-created on the pass where the
//! shape changed, while the flag itself survives.

use vstd::prelude::*;
use crate::button::{spec_text_button, text_button};
use crate::flex::{Flex, FlexContent, FlexItem, IterFlexContent};
use crate::geom::{Axis, Size};
use crate::popup::Popup;
use crate::widget::{Action, Widget, WidgetState};

verus! {

/// One selectable entry: the value reported when it is chosen, its label,
/// and the label's platform-measured size.
#[derive(Debug)]
pub struct DropdownItem {
    pub value: u64,
    pub label: String,
    pub label_size: Size,
}

/// A dropdown showing `selected` on its button and offering `items` in a
/// popup column while open.
#[derive(Debug)]
pub struct Dropdown {
    pub selected: String,
    pub selected_size: Size,
    pub items: Vec<DropdownItem>,
}

/// Persistent state of a [`Dropdown`]: the private `open` flag, the
/// rebuilt subtree's state (whose shape follows the flag), and the cached
/// measurements mirrored from that state.
#[derive(Debug)]
pub struct StatefulWidgetState {
    pub open: bool,
    pub widget_state: WidgetState,
    pub min_size: Size,
    pub extra_layers: u8,
}

/// A dropdown widget over `items`, currently showing `selected`.
pub fn dropdown(selected: String, selected_size: Size, items: Vec<DropdownItem>) -> (r: Widget)
    ensures
        r == Widget::Dropdown(Box::new(Dropdown { selected, selected_size, items })),
{
    Widget::Dropdown(Box::new(Dropdown { selected, selected_size, items }))
}

/// The popup column's child list: one expanding text button per item,
/// whose click commits that item's value.
pub open spec fn spec_dropdown_items(items: Seq<DropdownItem>) -> Seq<FlexItem> {
    items.map_values(
        |it: DropdownItem| FlexItem {
            widget: spec_text_button(it.label, it.label_size, Action::Select(it.value)),
            expand: true,
        },
    )
}

/// Whether `w` is the subtree a dropdown builds from its `open` flag:
/// its button alone when closed, the button with the option column as
/// overlay when open.
pub open spec fn is_dropdown_widget(d: Dropdown, open: bool, w: Widget) -> bool {
    &&& w matches Widget::Popup(p)
    &&& p.base == spec_text_button(d.selected, d.selected_size, Action::SetOpen(true))
    &&& p.on_close == Action::SetOpen(false)
    &&& match p.popup {
        None => !open,
        Some(ov) => {
            &&& open
            &&& ov matches Widget::Flex(f)
            &&& f.axis == Axis::Vertical
            &&& f.content matches FlexContent::Iter(itr)
            &&& itr.items@ == spec_dropdown_items(d.items@)
        },
    }
}

/// Build the subtree for the current `open` flag.
pub fn dropdown_widget(d: &Dropdown, open: bool) -> (r: Widget)
    ensures
        is_dropdown_widget(*d, open, r),
{
    let base = text_button(d.selected.clone(), d.selected_size, Action::SetOpen(true));
    let popup: Option<Widget> = if open {
        let mut items: Vec<FlexItem> = Vec::new();
        let mut i: usize = 0;
        while i < d.items.len()
            invariant
                i <= d.items.len(),
                items@ == spec_dropdown_items(d.items@.subrange(0, i as int)),
            decreases d.items.len() - i,
        {
            let it = &d.items[i];
            items.push(FlexItem {
                widget: text_button(it.label.clone(), it.label_size, Action::Select(it.value)),
                expand: true,
            });
            proof {
                assert(d.items@.subrange(0, i as int + 1).drop_last()
                    =~= d.items@.subrange(0, i as int));
                assert(items@ =~= spec_dropdown_items(d.items@.subrange(0, i as int + 1)));
            }
            i = i + 1;
        }
        proof {
            assert(d.items@.subrange(0, d.items@.len() as int) =~= d.items@);
        }
        Some(Widget::Flex(Box::new(Flex {
            axis: Axis::Vertical,
            content: FlexContent::Iter(IterFlexContent { items }),
        })))
    } else {
        None
    };
    Widget::Popup(Box::new(Popup {
        base,
        popup,
        on_close: Action::SetOpen(false),
    }))
}

} // verus!
