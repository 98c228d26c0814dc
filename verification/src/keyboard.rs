//! Keyboard-input dispatch.
//!
//! A key event follows the focus path: a flex container hands it only
//! to the child its focus index names — no broadcast — and that child
//! does the same, so the chain of indices from the root is the de facto
//! focus path.  The dispatch returns that chain; the engine's own state
//! is untouched, because editing happens in the editing buffer at the
//! platform boundary, which the embedder addresses by the returned
//! path.

use vstd::prelude::*;
use crate::flex::{FlexContent, FlexContentState, FlexItem, FlexItemState};
use crate::geom::Rect;
use crate::input::{InputState, KeyboardInput};
use crate::measure::{content_ready, items_ready, ready};
use crate::theme::Theme;
use crate::widget::{children_count, csize, wsize, Widget, WidgetState};

verus! {

/// The child a flex ordinal names: the `k`-th declared child of the
/// list, with its state slot.
pub open spec fn nth_child(content: FlexContent, cs: FlexContentState, k: int) -> Option<
    (FlexItem, FlexItemState),
>
    decreases content,
{
    match content {
        FlexContent::Empty(_) => None,
        FlexContent::Item(it) => match cs {
            FlexContentState::Item(is) => if k == 0 {
                Some((it, is))
            } else {
                None
            },
            _ => None,
        },
        FlexContent::Chain(t) => match cs {
            FlexContentState::Chain(ts) => if k < children_count(t.a) {
                nth_child(t.a, ts.a, k)
            } else {
                nth_child(t.b, ts.b, k - children_count(t.a))
            },
            _ => None,
        },
        FlexContent::Iter(itr) => match cs {
            FlexContentState::Iter(iss) => if 0 <= k < itr.items@.len() && iss.state@.len()
                == itr.items@.len() {
                Some((itr.items@[k], iss.state@[k]))
            } else {
                None
            },
            _ => None,
        },
    }
}

/// A named child is one of the list's children.
pub proof fn lemma_nth_child_wsize(content: FlexContent, cs: FlexContentState, k: int)
    ensures
        nth_child(content, cs, k) matches Some(pair) ==> wsize(pair.0.widget) < csize(content),
    decreases content,
{
    match content {
        FlexContent::Empty(_) => {},
        FlexContent::Item(_) => {},
        FlexContent::Chain(t) => {
            if let FlexContentState::Chain(ts) = cs {
                lemma_nth_child_wsize(t.a, ts.a, k);
                lemma_nth_child_wsize(t.b, ts.b, k - children_count(t.a));
            }
        },
        FlexContent::Iter(itr) => {
            if let FlexContentState::Iter(_) = cs {
                if 0 <= k < itr.items@.len() {
                    crate::layout::lemma_isizes_elem(itr.items@, k);
                }
            }
        },
    }
}

/// In a ready child list, a named child's slot is filled and ready.
pub proof fn lemma_nth_child_ready(content: FlexContent, cs: FlexContentState, k: int)
    requires
        content_ready(content, cs),
    ensures
        nth_child(content, cs, k) matches Some(pair) ==> (pair.1.state matches Some(cst)
            && ready(pair.0.widget, cst)),
    decreases content,
{
    match content {
        FlexContent::Empty(_) => {},
        FlexContent::Item(_) => {},
        FlexContent::Chain(t) => {
            if let FlexContentState::Chain(ts) = cs {
                lemma_nth_child_ready(t.a, ts.a, k);
                lemma_nth_child_ready(t.b, ts.b, k - children_count(t.a));
            }
        },
        FlexContent::Iter(itr) => {
            if let FlexContentState::Iter(iss) = cs {
                if 0 <= k < itr.items@.len() && iss.state@.len() == itr.items@.len() {
                    assert(items_ready(itr.items@, iss.state@));
                    assert(iss.state@[k].state matches Some(cst) && ready(
                        itr.items@[k].widget,
                        cst,
                    ));
                }
            }
        },
    }
}

/// The chain of focus ordinals a key event follows from this widget
/// down to the leaf that receives it: empty when nothing is focused
/// here, otherwise the container's focus index followed by the path
/// inside that child.
pub open spec fn keyboard_path_spec(w: Widget, s: WidgetState, focus: bool) -> Seq<u16>
    decreases wsize(w),
    via keyboard_path_spec_decreases
{
    match w {
        Widget::Flex(f) => match s {
            WidgetState::Flex(fs) => if focus {
                match fs.focus {
                    Some(fi) => match nth_child(f.content, fs.content_state, fi as int) {
                        Some(pair) => match pair.1.state {
                            Some(cst) => seq![fi] + keyboard_path_spec(pair.0.widget, cst, true),
                            None => seq![fi],
                        },
                        None => Seq::empty(),
                    },
                    None => Seq::empty(),
                }
            } else {
                Seq::empty()
            },
            _ => Seq::empty(),
        },
        _ => Seq::empty(),
    }
}

#[via_fn]
proof fn keyboard_path_spec_decreases(w: Widget, s: WidgetState, focus: bool) {
    match w {
        Widget::Flex(f) => {
            if let WidgetState::Flex(fs) = s {
                if let Some(fi) = fs.focus {
                    lemma_nth_child_wsize(f.content, fs.content_state, fi as int);
                }
            }
        },
        _ => {},
    }
}

/// Look the `k`-th declared child of a list up.
pub fn nth_child_ref<'a>(content: &'a FlexContent, cs: &'a FlexContentState, k: u64) -> (r: Option<
    (&'a FlexItem, &'a FlexItemState),
>)
    requires
        k <= u16::MAX as u64,
    ensures
        match r {
            Some(pair) => nth_child(*content, *cs, k as int) == Some((*pair.0, *pair.1)),
            None => nth_child(*content, *cs, k as int) is None,
        },
    decreases *content,
{
    match content {
        FlexContent::Empty(_) => None,
        FlexContent::Item(it) => match cs {
            FlexContentState::Item(is) => if k == 0 {
                Some((it, is))
            } else {
                None
            },
            _ => None,
        },
        FlexContent::Chain(t) => match cs {
            FlexContentState::Chain(ts) => {
                let ca = crate::layout::content_count(&t.a);
                if k < ca {
                    nth_child_ref(&t.a, &ts.a, k)
                } else {
                    nth_child_ref(&t.b, &ts.b, k - ca)
                }
            },
            _ => None,
        },
        FlexContent::Iter(itr) => match cs {
            FlexContentState::Iter(iss) => {
                if (k as usize) < itr.items.len() && iss.state.len() == itr.items.len() {
                    Some((&itr.items[k as usize], &iss.state[k as usize]))
                } else {
                    None
                }
            },
            _ => None,
        },
    }
}

/// Hand a key event down the focus path and report the path taken.
///
/// Only the focused child of each container is visited; the engine's
/// state cannot change (everything is read through shared references).
/// The embedder applies the key to the editing buffer belonging to the
/// leaf the returned path names.
pub fn handle_keyboard_input(
    w: &Widget,
    s: &WidgetState,
    rect: Rect,
    input: &KeyboardInput,
    input_state: &InputState,
    theme: &Theme,
    focus: bool,
) -> (r: Vec<u16>)
    requires
        ready(*w, *s),
    ensures
        r@ == keyboard_path_spec(*w, *s, focus),
    decreases wsize(*w),
{
    match w {
        Widget::Flex(f) => {
            let rr = if let WidgetState::Flex(fs) = s {
                if focus {
                    match fs.focus {
                        Some(fi) => {
                            match nth_child_ref(&f.content, &fs.content_state, fi as u64) {
                                Some((it, is)) => {
                                    match &is.state {
                                        Some(cst) => {
                                            proof {
                                                lemma_nth_child_wsize(
                                                    f.content,
                                                    fs.content_state,
                                                    fi as int,
                                                );
                                                lemma_nth_child_ready(
                                                    f.content,
                                                    fs.content_state,
                                                    fi as int,
                                                );
                                            }
                                            let mut sub = handle_keyboard_input(
                                                &it.widget,
                                                cst,
                                                rect,
                                                input,
                                                input_state,
                                                theme,
                                                true,
                                            );
                                            let mut out: Vec<u16> = Vec::new();
                                            out.push(fi);
                                            out.append(&mut sub);
                                            proof {
                                                assert(out@ =~= seq![fi] + keyboard_path_spec(
                                                    it.widget,
                                                    *cst,
                                                    true,
                                                ));
                                            }
                                            out
                                        },
                                        None => {
                                            let mut out: Vec<u16> = Vec::new();
                                            out.push(fi);
                                            proof {
                                                assert(out@ =~= seq![fi]);
                                            }
                                            out
                                        },
                                    }
                                },
                                None => Vec::new(),
                            }
                        },
                        None => Vec::new(),
                    }
                } else {
                    Vec::new()
                }
            } else {
                Vec::new()
            };
            rr
        },
        _ => Vec::new(),
    }
}

} // verus!
