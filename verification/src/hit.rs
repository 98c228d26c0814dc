//! Hit-testing: which layer of a widget an input at a given position
//! should be routed to.
//!
//! The default is a point-in-rectangle test answering layer zero.  A
//! popup tests its overlay first and shifts the overlay's answer one
//! layer up, so overlays intercept input ahead of what sits beneath
//! them.

use vstd::prelude::*;
use crate::dropdown::dropdown_widget;
use crate::geom::{Point, Rect};
use crate::measure::{dropdown_state_ready, ready};
use crate::widget::{clamp_u8, wsize, Widget, WidgetState};
use crate::layout::{lemma_dropdown_inner_wsize, lemma_dropdown_ready_inner, sat_add_u8};

verus! {

/// The default hit test: layer zero inside the rectangle, no hit
/// outside.
pub open spec fn default_test_spec(rect: Rect, pos: Point) -> Option<u8> {
    if rect.contains_spec(pos) {
        Some(0u8)
    } else {
        None
    }
}

/// The layer an input at `pos` is routed to, or `None` when it misses
/// the widget.  Layers are relative to the widget's own base layer.
pub open spec fn test_pos_spec(w: Widget, s: WidgetState, rect: Rect, pos: Point) -> Option<u8>
    decreases w,
{
    match w {
        Widget::Popup(p) => match (p.popup, s) {
            (Some(ov), WidgetState::Popup(ps)) => match ps.popup {
                Some(os) => match test_pos_spec(ov, os, crate::popup::popup_rect_spec(rect), pos) {
                    Some(l) => Some(clamp_u8(l as int + 1)),
                    None => test_pos_spec(p.base, ps.base, rect, pos),
                },
                None => test_pos_spec(p.base, ps.base, rect, pos),
            },
            _ => match s {
                WidgetState::Popup(ps) => test_pos_spec(p.base, ps.base, rect, pos),
                _ => default_test_spec(rect, pos),
            },
        },
        Widget::Dropdown(_) => match s {
            WidgetState::Dropdown(ds) => if ds.open {
                match default_test_spec(rect, pos) {
                    Some(l) => Some(clamp_u8(l as int + 1)),
                    None => default_test_spec(rect, pos),
                }
            } else {
                default_test_spec(rect, pos)
            },
            _ => default_test_spec(rect, pos),
        },
        _ => default_test_spec(rect, pos),
    }
}

/// Compute the layer an input at `pos` should be routed to.
pub fn test_input_pos_layer(w: &Widget, s: &WidgetState, rect: Rect, pos: Point) -> (r: Option<u8>)
    requires
        ready(*w, *s),
    ensures
        r == test_pos_spec(*w, *s, rect, pos),
    decreases wsize(*w), 0int,
{
    match w {
        Widget::Popup(p) => {
            if let WidgetState::Popup(ps) = s {
                match (&p.popup, &ps.popup) {
                    (Some(ov), Some(os)) => {
                        proof {
                            assert(wsize(*ov) < wsize(*w));
                        }
                        let pr = crate::popup::popup_rect(rect, os.min_size());
                        match test_input_pos_layer(ov, os, pr, pos) {
                            Some(l) => Some(sat_add_u8(l, 1)),
                            None => test_input_pos_layer(&p.base, &ps.base, rect, pos),
                        }
                    },
                    _ => test_input_pos_layer(&p.base, &ps.base, rect, pos),
                }
            } else {
                default_test(rect, pos)
            }
        },
        Widget::Dropdown(d) => {
            if let WidgetState::Dropdown(ds) = s {
                let inner = dropdown_widget(d, ds.open);
                proof {
                    lemma_dropdown_inner_wsize(**d, ds.open, inner);
                    lemma_dropdown_ready_inner(**d, ds.open, inner, **ds);
                }
                let r = test_input_pos_layer(&inner, &ds.widget_state, rect, pos);
                proof {
                    lemma_dropdown_test_pos(**d, ds.open, inner, **ds, rect, pos);
                }
                r
            } else {
                default_test(rect, pos)
            }
        },
        _ => default_test(rect, pos),
    }
}

/// Exec form of the default hit test.
pub fn default_test(rect: Rect, pos: Point) -> (r: Option<u8>)
    ensures
        r == default_test_spec(rect, pos),
{
    if rect.contains(pos) {
        Some(0)
    } else {
        None
    }
}

/// The subtree a dropdown builds answers hit tests exactly as the
/// dropdown's closed form says: one layer up inside its rectangle while
/// open, the plain test otherwise.
pub proof fn lemma_dropdown_test_pos(
    d: crate::dropdown::Dropdown,
    open: bool,
    wi: Widget,
    ds: crate::dropdown::StatefulWidgetState,
    rect: Rect,
    pos: Point,
)
    requires
        crate::dropdown::is_dropdown_widget(d, open, wi),
        dropdown_state_ready(d, ds),
        ds.open == open,
    ensures
        test_pos_spec(wi, ds.widget_state, rect, pos) == test_pos_spec(
            Widget::Dropdown(Box::new(d)),
            WidgetState::Dropdown(Box::new(ds)),
            rect,
            pos,
        ),
{
    let p = wi->Popup_0;
    if let WidgetState::Popup(ps) = ds.widget_state {
        match (p.popup, ps.popup) {
            (Some(ov), Some(os)) => {
                assert(test_pos_spec(ov, os, crate::popup::popup_rect_spec(rect), pos)
                    == default_test_spec(rect, pos));
                assert(test_pos_spec(p.base, ps.base, rect, pos) == default_test_spec(rect, pos));
            },
            (None, None) => {
                assert(test_pos_spec(p.base, ps.base, rect, pos) == default_test_spec(rect, pos));
            },
            _ => {},
        }
    }
}

} // verus!
