//! Cursor-input dispatch.
//!
//! A press, release, or move travels down the tree.  A flex container
//! forwards it to every child whose subtree reaches the requested
//! layer, advancing along its primary axis exactly as it rendered; a
//! child demanding focus sets the container's focus index and the
//! demand is re-raised one level at a time.  A popup with an overlay
//! redirects an outside release to its `on_close` action instead of
//! delivering it anywhere; everything else is forwarded into the
//! overlay one layer down.  A dropdown applies the actions its subtree
//! fired to its private `open` flag and re-raises the rest.

use vstd::prelude::*;
use crate::dropdown::dropdown_widget;
use crate::flex::{FlexContent, FlexContentState};
use crate::geom::{Axis, Point, Rect, Size};
use crate::input::{CursorInput, InputReturn, InputState};
use crate::layout::{
    lemma_dropdown_inner_wsize, lemma_dropdown_ready_inner, lemma_isizes_elem,
};
use crate::measure::{content_ready, items_ready, ready};
use crate::popup::popup_rect;
use crate::theme::Theme;
use crate::widget::{csize, isizes, wsize, Action, Widget, WidgetState};

verus! {

/// Where a popup sends a cursor event: to its `on_close` action (an
/// outside release while the overlay is up), into the overlay, or to
/// the base when no overlay is shown.
#[derive(Clone, Copy, Debug, PartialEq, Eq, Structural)]
pub enum PopupRoute {
    CloseAndSwallow,
    ForwardOverlay,
    ForwardBase,
}

/// The popup dismissal policy: with an overlay up, a release outside
/// the overlay's rectangle fires `on_close` and is delivered nowhere;
/// any other event — and a release inside — goes into the overlay; with
/// no overlay everything goes to the base.  `CloseAndSwallow` is chosen
/// exactly for an outside release while the overlay is up.
pub open spec fn popup_route_spec(has_overlay: bool, input: CursorInput, rect: Rect, pos: Point) -> PopupRoute {
    if has_overlay {
        if input is Up && !rect.contains_spec(pos) {
            PopupRoute::CloseAndSwallow
        } else {
            PopupRoute::ForwardOverlay
        }
    } else {
        PopupRoute::ForwardBase
    }
}

/// Decide where a popup sends a cursor event.
pub fn popup_route(has_overlay: bool, input: CursorInput, rect: Rect, pos: Point) -> (r: PopupRoute)
    ensures
        r == popup_route_spec(has_overlay, input, rect, pos),
{
    if has_overlay {
        let outside = !rect.contains(pos);
        match input {
            CursorInput::Up(_) => if outside {
                PopupRoute::CloseAndSwallow
            } else {
                PopupRoute::ForwardOverlay
            },
            _ => PopupRoute::ForwardOverlay,
        }
    } else {
        PopupRoute::ForwardBase
    }
}

/// The dropdown-open flag after a sequence of bubbled actions is
/// applied to it: `SetOpen` stores its argument, a committed selection
/// closes, an application event leaves it alone.
pub open spec fn open_after(open: bool, acts: Seq<Action>) -> bool
    decreases acts,
{
    if acts.len() == 0 {
        open
    } else {
        match acts.last() {
            Action::SetOpen(b) => b,
            Action::Select(_) => false,
            Action::Emit(_) => open_after(open, acts.drop_last()),
        }
    }
}

/// The actions a dropdown re-raises to its own caller: everything but
/// the `SetOpen` ones addressed to it.
pub open spec fn forwarded_actions(acts: Seq<Action>) -> Seq<Action> {
    acts.filter(|a: Action| !(a is SetOpen))
}

/// Apply the actions a dropdown's subtree fired: `SetOpen` updates the
/// private flag, a committed selection closes the dropdown and is
/// re-raised, application events are re-raised unchanged.
pub fn apply_dropdown_actions(open: &mut bool, acts: &Vec<Action>, out: &mut Vec<Action>)
    ensures
        *final(open) == open_after(*old(open), acts@),
        final(out)@ == old(out)@ + forwarded_actions(acts@),
{
    let ghost out0 = out@;
    let mut i: usize = 0;
    while i < acts.len()
        invariant
            i <= acts@.len(),
            *open == open_after(*old(open), acts@.subrange(0, i as int)),
            out@ == out0 + forwarded_actions(acts@.subrange(0, i as int)),
        decreases acts@.len() - i,
    {
        let ghost prefix = acts@.subrange(0, i as int);
        match acts[i] {
            Action::SetOpen(b) => {
                *open = b;
            },
            Action::Select(v) => {
                *open = false;
                out.push(Action::Select(v));
            },
            Action::Emit(x) => {
                out.push(Action::Emit(x));
            },
        }
        proof {
            let next = acts@.subrange(0, i as int + 1);
            assert(next.drop_last() =~= prefix);
            assert(next.last() == acts@[i as int]);
            assert(prefix.push(acts@[i as int]) =~= next);
            lemma_filter_push(prefix, acts@[i as int]);
        }
        i = i + 1;
    }
    proof {
        assert(acts@.subrange(0, acts@.len() as int) =~= acts@);
    }
}

/// Filtering a sequence extended by one element keeps the filtered
/// prefix and appends the element exactly when it passes.
pub proof fn lemma_filter_push(s: Seq<Action>, a: Action)
    ensures
        forwarded_actions(s.push(a)) == if !(a is SetOpen) {
            forwarded_actions(s).push(a)
        } else {
            forwarded_actions(s)
        },
{
    reveal(Seq::filter);
    assert(s.push(a).drop_last() =~= s);
    assert(s.push(a).last() == a);
}

/// What the cursor walk over a flex child list tracks: the advancing
/// position, the child index, and whether any child demanded focus.
pub struct CursorWalk {
    pub pos: Point,
    pub i: u64,
    pub demand: bool,
}



/// What the cursor walk over a child list decides: the advancing
/// position and index, whether any forwarded child demanded focus, and
/// the focus index left behind.
pub ghost struct CursorFoldOut {
    pub pos: Point,
    pub i: int,
    pub demand: bool,
    pub focus: Option<u16>,
}

/// Whether a widget demands keyboard focus for this dispatch: a text
/// box does on a press inside its rectangle; a flex container does
/// when any child it forwards to does; nothing else ever does.
pub open spec fn cursor_demands(
    w: Widget,
    s: WidgetState,
    rect: Rect,
    cpos: Point,
    layer: u8,
    input: CursorInput,
) -> bool
    decreases wsize(w), 0int,
{
    match w {
        Widget::TextBox(_) => input is Down && rect.contains_spec(cpos),
        Widget::Flex(f) => match s {
            WidgetState::Flex(fs) => cursor_content_fold(
                f.content,
                fs.content_state,
                f.axis,
                rect.size_spec().secondary_spec(f.axis),
                crate::render::walk_expand_length(rect, f.axis, fs.no_expand_size, fs.expand_count),
                cpos,
                layer,
                input,
                rect.origin_spec(),
                0,
                false,
                fs.focus,
            ).demand,
            _ => false,
        },
        _ => false,
    }
}

/// One child under the cursor walk: the event is forwarded iff the
/// child's subtree reaches the requested layer; a demanding child
/// becomes the focused one (when its ordinal is addressable).
pub open spec fn cursor_child_fold(
    w: Widget,
    expand: bool,
    s: WidgetState,
    axis: Axis,
    sec_len: u32,
    expand_length: u32,
    cpos: Point,
    layer: u8,
    input: CursorInput,
    pos: Point,
    i: int,
    demand0: bool,
    focus0: Option<u16>,
) -> CursorFoldOut
    decreases wsize(w), 1int,
{
    let len = crate::render::child_extent(expand, s, axis, expand_length);
    let forwarded = s.extra_layers_spec() >= layer;
    let d = forwarded && cursor_demands(
        w,
        s,
        Rect::from_origin_size_spec(pos, Size::from_axes_spec(axis, len, sec_len)),
        cpos,
        layer,
        input,
    );
    CursorFoldOut {
        pos: crate::render::advance_pos(pos, axis, len),
        i: crate::render::advance_index(i),
        demand: demand0 || d,
        focus: if d && i <= u16::MAX as int {
            Some(i as u16)
        } else {
            focus0
        },
    }
}

/// The cursor walk over a child list, in declaration order.
pub open spec fn cursor_content_fold(
    content: FlexContent,
    cs: FlexContentState,
    axis: Axis,
    sec_len: u32,
    expand_length: u32,
    cpos: Point,
    layer: u8,
    input: CursorInput,
    pos: Point,
    i: int,
    demand0: bool,
    focus0: Option<u16>,
) -> CursorFoldOut
    decreases csize(content), 0int,
{
    match content {
        FlexContent::Empty(_) => CursorFoldOut { pos, i, demand: demand0, focus: focus0 },
        FlexContent::Item(it) => match cs {
            FlexContentState::Item(is) => match is.state {
                Some(s) => cursor_child_fold(
                    it.widget,
                    it.expand,
                    s,
                    axis,
                    sec_len,
                    expand_length,
                    cpos,
                    layer,
                    input,
                    pos,
                    i,
                    demand0,
                    focus0,
                ),
                None => CursorFoldOut { pos, i, demand: demand0, focus: focus0 },
            },
            _ => CursorFoldOut { pos, i, demand: demand0, focus: focus0 },
        },
        FlexContent::Chain(t) => match cs {
            FlexContentState::Chain(ts) => {
                let fa = cursor_content_fold(
                    t.a,
                    ts.a,
                    axis,
                    sec_len,
                    expand_length,
                    cpos,
                    layer,
                    input,
                    pos,
                    i,
                    demand0,
                    focus0,
                );
                cursor_content_fold(
                    t.b,
                    ts.b,
                    axis,
                    sec_len,
                    expand_length,
                    cpos,
                    layer,
                    input,
                    fa.pos,
                    fa.i,
                    fa.demand,
                    fa.focus,
                )
            },
            _ => CursorFoldOut { pos, i, demand: demand0, focus: focus0 },
        },
        FlexContent::Iter(itr) => match cs {
            FlexContentState::Iter(iss) => cursor_items_fold(
                itr.items@,
                iss.state@,
                axis,
                sec_len,
                expand_length,
                cpos,
                layer,
                input,
                pos,
                i,
                demand0,
                focus0,
            ),
            _ => CursorFoldOut { pos, i, demand: demand0, focus: focus0 },
        },
    }
}

/// The cursor walk over an iterated child list.
pub open spec fn cursor_items_fold(
    items: Seq<crate::flex::FlexItem>,
    ss: Seq<crate::flex::FlexItemState>,
    axis: Axis,
    sec_len: u32,
    expand_length: u32,
    cpos: Point,
    layer: u8,
    input: CursorInput,
    pos: Point,
    i: int,
    demand0: bool,
    focus0: Option<u16>,
) -> CursorFoldOut
    decreases isizes(items), 0int,
    via cursor_items_fold_decreases
{
    if items.len() == 0 || items.len() != ss.len() {
        CursorFoldOut { pos, i, demand: demand0, focus: focus0 }
    } else {
        let fa = cursor_items_fold(
            items.drop_last(),
            ss.drop_last(),
            axis,
            sec_len,
            expand_length,
            cpos,
            layer,
            input,
            pos,
            i,
            demand0,
            focus0,
        );
        match ss.last().state {
            Some(s) => cursor_child_fold(
                items.last().widget,
                items.last().expand,
                s,
                axis,
                sec_len,
                expand_length,
                cpos,
                layer,
                input,
                fa.pos,
                fa.i,
                fa.demand,
                fa.focus,
            ),
            None => fa,
        }
    }
}

#[via_fn]
proof fn cursor_items_fold_decreases(
    items: Seq<crate::flex::FlexItem>,
    ss: Seq<crate::flex::FlexItemState>,
    axis: Axis,
    sec_len: u32,
    expand_length: u32,
    cpos: Point,
    layer: u8,
    input: CursorInput,
    pos: Point,
    i: int,
    demand0: bool,
    focus0: Option<u16>,
) {
    if items.len() > 0 {
        assert(isizes(items) == isizes(items.drop_last()) + 1 + wsize(items.last().widget));
    }
}

/// The layer an event carries into a popup's overlay: one below the
/// popup's own, floored at the base layer.
pub open spec fn layer_down(layer: u8) -> u8 {
    if layer >= 1 {
        (layer - 1) as u8
    } else {
        0u8
    }
}

/// Everything the cursor dispatch promises of one call, per widget
/// kind: what a button or popup or dropdown appends to the actions,
/// how states and the demand-focus answer relate.  `s0`/`s1` and
/// `acts0`/`acts1` are the state and action list before and after the
/// call.
pub open spec fn cursor_dispatch_post(
    w: Widget,
    s0: WidgetState,
    s1: WidgetState,
    rect: Rect,
    pos: Point,
    layer: u8,
    input: CursorInput,
    acts0: Seq<Action>,
    acts1: Seq<Action>,
    r: InputReturn,
) -> bool {
    &&& (acts0.is_prefix_of(acts1))
    &&& (w matches Widget::Button(b) ==> ({
            &&& acts1 == acts0 + (if input is Up && rect.contains_spec(
                pos,
            ) {
                seq![b.on_click]
            } else {
                Seq::<Action>::empty()
            })
            &&& s1 == s0
            &&& r == InputReturn::none_spec()
        }))
    &&& (w is TextBox ==> ({
            &&& r.demand_focus == (input is Down && rect.contains_spec(pos))
            &&& s1 == s0
            &&& acts1 == acts0
        }))
    &&& ((w is Nothing || w is Text || w is Checkmark || w is FixedRect) ==> ({
            &&& s1 == s0
            &&& acts1 == acts0
            &&& r == InputReturn::none_spec()
        }))
    &&& (w matches Widget::Popup(p) ==> ({
            &&& popup_route_spec(p.popup is Some, input, rect, pos)
                == PopupRoute::CloseAndSwallow ==> ({
                &&& acts1 == acts0.push(p.on_close)
                &&& s1 == s0
                &&& r == InputReturn::none_spec()
            })
            &&& (p.base is Button && popup_route_spec(
                p.popup is Some,
                input,
                rect,
                pos,
            ) == PopupRoute::ForwardBase ==> acts1 == acts0 + (if input is Up
                && rect.contains_spec(pos) {
                seq![p.base->Button_0.on_click]
            } else {
                Seq::<Action>::empty()
            }))
            &&& (popup_route_spec(p.popup is Some, input, rect, pos)
                == PopupRoute::ForwardOverlay ==> ({
                &&& s0 matches WidgetState::Popup(ps0)
                &&& s1 matches WidgetState::Popup(ps1)
                &&& ps1.base == ps0.base
            }))
            &&& r == InputReturn::none_spec()
        }))
    &&& (w matches Widget::Flex(f) ==> ({
            &&& s1 matches WidgetState::Flex(fs)
            &&& (s0 matches WidgetState::Flex(fs0) ==> ({
                let fold = cursor_content_fold(
                    f.content,
                    fs0.content_state,
                    f.axis,
                    rect.size_spec().secondary_spec(f.axis),
                    crate::render::walk_expand_length(
                        rect,
                        f.axis,
                        fs0.no_expand_size,
                        fs0.expand_count,
                    ),
                    pos,
                    layer,
                    input,
                    rect.origin_spec(),
                    0,
                    false,
                    fs0.focus,
                );
                &&& r.demand_focus == fold.demand
                &&& fs.focus == fold.focus
                &&& fs.size == fs0.size
                &&& fs.no_expand_size == fs0.no_expand_size
                &&& fs.expand_count == fs0.expand_count
                &&& fs.extra_layers == fs0.extra_layers
            }))
        }))
    &&& (w matches Widget::Dropdown(d) ==> ({
            &&& s1 matches WidgetState::Dropdown(ds)
            &&& s0 matches WidgetState::Dropdown(ds0)
            &&& (ds0.open && input is Up && !rect.contains_spec(pos) ==> ({
                &&& ds.open == false
                &&& acts1 == acts0
            }))
            &&& (!ds0.open && input is Up && rect.contains_spec(pos) ==> ds.open == true)
            &&& (!ds0.open && !(input is Up && rect.contains_spec(pos)) ==> ({
                &&& ds.open == false
                &&& acts1 == acts0
            }))
            &&& (forall|k: int|
                acts0.len() <= k < acts1.len() ==> !((
                #[trigger] acts1[k]) is SetOpen))
            &&& r == InputReturn::none_spec()
        }))
}

/// Forward a cursor event into a widget subtree.
///
/// Actions fired by the subtree are appended to `actions`; the return
/// value carries the demand-focus signal one level up.
#[verifier::spinoff_prover]
#[verifier::rlimit(60)]
pub fn handle_cursor_input(
    w: &Widget,
    s: &mut WidgetState,
    rect: Rect,
    cursor_pos: Point,
    cursor_layer: u8,
    input: CursorInput,
    input_state: &InputState,
    theme: &Theme,
    focus: bool,
    actions: &mut Vec<Action>,
) -> (r: InputReturn)
    requires
        ready(*w, *old(s)),
    ensures
        cursor_dispatch_post(
            *w,
            *old(s),
            *final(s),
            rect,
            cursor_pos,
            cursor_layer,
            input,
            old(actions)@,
            final(actions)@,
            r,
        ),
        *w matches Widget::Popup(p) ==> (popup_route_spec(p.popup is Some, input, rect, cursor_pos)
            == PopupRoute::ForwardOverlay ==> (p.popup matches Some(ov) ==> ((*old(s)) matches
            WidgetState::Popup(ps0) ==> (ps0.popup matches Some(os0) ==> ((*final(s)) matches
            WidgetState::Popup(ps1) ==> (ps1.popup matches Some(os1) ==> exists|ret: InputReturn|
            #[trigger] cursor_dispatch_post(
                ov,
                os0,
                os1,
                crate::popup::popup_rect_spec(rect),
                cursor_pos,
                layer_down(cursor_layer),
                input,
                old(actions)@,
                final(actions)@,
                ret,
            ))))))),
    decreases wsize(*w), 1int,
{
    let result = match w {
        Widget::Nothing(_) => InputReturn::none(),
        Widget::Text(_) => InputReturn::none(),
        Widget::Checkmark(_) => InputReturn::none(),
        Widget::FixedRect(_) => InputReturn::none(),
        Widget::TextBox(_) => {
            match input {
                CursorInput::Down(_) => {
                    if rect.contains(cursor_pos) {
                        InputReturn { demand_focus: true }
                    } else {
                        InputReturn::none()
                    }
                },
                _ => InputReturn::none(),
            }
        },
        Widget::Button(b) => {
            let hit = match input {
                CursorInput::Up(_) => rect.contains(cursor_pos),
                _ => false,
            };
            if hit {
                actions.push(b.on_click);
                proof {
                    assert(final(actions)@ =~= old(actions)@ + seq![b.on_click]);
                }
            } else {
                proof {
                    assert(final(actions)@ =~= old(actions)@ + Seq::<Action>::empty());
                }
            }
            InputReturn::none()
        },
        Widget::Flex(f) => {
            let r = if let WidgetState::Flex(fs) = s {
                let axis = f.axis;
                let rect_size = rect.size();
                let extra = crate::geom::sat_sub(rect_size.primary(axis), fs.no_expand_size);
                let expand_length: u32 = if fs.expand_count > 0 {
                    extra / fs.expand_count
                } else {
                    0
                };
                let mut walk = CursorWalk { pos: rect.origin(), i: 0, demand: false };
                proof {
                    assert(expand_length == crate::render::walk_expand_length(
                        rect,
                        axis,
                        fs.no_expand_size,
                        fs.expand_count,
                    ));
                }
                cursor_walk_content(
                    &f.content,
                    &mut fs.content_state,
                    axis,
                    rect_size.secondary(axis),
                    expand_length,
                    cursor_pos,
                    cursor_layer,
                    input,
                    input_state,
                    theme,
                    focus,
                    &mut fs.focus,
                    &mut walk,
                    actions,
                );
                InputReturn { demand_focus: walk.demand }
            } else {
                InputReturn::none()
            };
            r
        },
        Widget::Popup(p) => {
            let rr = if let WidgetState::Popup(ps) = s {
                let has_overlay = match &p.popup {
                    Some(_) => true,
                    None => false,
                };
                let route = popup_route(has_overlay, input, rect, cursor_pos);
                match route {
                    PopupRoute::CloseAndSwallow => {
                        actions.push(p.on_close);
                        proof {
                            assert(final(actions)@ =~= old(actions)@.push(p.on_close));
                        }
                    },
                    PopupRoute::ForwardOverlay => {
                        if let (Some(ow), Some(os)) = (&p.popup, &mut ps.popup) {
                            proof {
                                assert(wsize(*ow) < wsize(*w));
                            }
                            let pr = popup_rect(rect, os.min_size());
                            let down_layer = if cursor_layer >= 1 {
                                cursor_layer - 1
                            } else {
                                0
                            };
                            let ghost os0 = *os;
                            let ghost acts0 = actions@;
                            let ov_ret = handle_cursor_input(
                                ow,
                                os,
                                pr,
                                cursor_pos,
                                down_layer,
                                input,
                                input_state,
                                theme,
                                focus,
                                actions,
                            );
                            proof {
                                assert(down_layer == layer_down(cursor_layer));
                                assert(acts0 == old(actions)@);
                                assert(cursor_dispatch_post(
                                    *ow,
                                    os0,
                                    *os,
                                    crate::popup::popup_rect_spec(rect),
                                    cursor_pos,
                                    layer_down(cursor_layer),
                                    input,
                                    old(actions)@,
                                    actions@,
                                    ov_ret,
                                ));
                                assert(exists|ret: InputReturn|
                                    cursor_dispatch_post(
                                        *ow,
                                        os0,
                                        *os,
                                        crate::popup::popup_rect_spec(rect),
                                        cursor_pos,
                                        layer_down(cursor_layer),
                                        input,
                                        old(actions)@,
                                        actions@,
                                        ret,
                                    ));
                            }
                        }
                    },
                    PopupRoute::ForwardBase => {
                        proof {
                            assert(wsize(p.base) < wsize(*w));
                        }
                        handle_cursor_input(
                            &p.base,
                            &mut ps.base,
                            rect,
                            cursor_pos,
                            cursor_layer,
                            input,
                            input_state,
                            theme,
                            focus,
                            actions,
                        );
                    },
                }
                InputReturn::none()
            } else {
                InputReturn::none()
            };
            rr
        },
        Widget::Dropdown(d) => {
            let rr = if let WidgetState::Dropdown(ds) = s {
                let inner = dropdown_widget(d, ds.open);
                proof {
                    lemma_dropdown_inner_wsize(**d, ds.open, inner);
                    lemma_dropdown_ready_inner(**d, ds.open, inner, **ds);
                }
                let mut fired: Vec<Action> = Vec::new();
                handle_cursor_input(
                    &inner,
                    &mut ds.widget_state,
                    rect,
                    cursor_pos,
                    cursor_layer,
                    input,
                    input_state,
                    theme,
                    focus,
                    &mut fired,
                );
                apply_dropdown_actions(&mut ds.open, &fired, actions);
                proof {
                    lemma_forwarded_no_set_open(fired@);
                    let p = inner->Popup_0;
                    if old(s)->Dropdown_0.open && input is Up && !rect.contains_spec(cursor_pos) {
                        assert(fired@ == Seq::<Action>::empty().push(p.on_close));
                        assert(fired@ =~= seq![Action::SetOpen(false)]);
                        assert(open_after(true, fired@) == false);
                        assert(forwarded_actions(Seq::<Action>::empty())
                            =~= Seq::<Action>::empty()) by {
                            reveal(Seq::filter);
                        }
                        lemma_filter_push(Seq::<Action>::empty(), Action::SetOpen(false));
                        assert(forwarded_actions(fired@) =~= Seq::<Action>::empty());
                        assert(final(actions)@ =~= old(actions)@);
                    }
                    if !old(s)->Dropdown_0.open {
                        assert(p.popup is None);
                        assert(p.base matches Widget::Button(bb) && bb.on_click
                            == Action::SetOpen(true));
                        if input is Up && rect.contains_spec(cursor_pos) {
                            assert(fired@ =~= seq![Action::SetOpen(true)]);
                            assert(open_after(false, fired@) == true);
                        } else {
                            assert(fired@ =~= Seq::<Action>::empty());
                            assert(open_after(false, fired@) == false);
                            assert(forwarded_actions(fired@) =~= Seq::<Action>::empty()) by {
                                reveal(Seq::filter);
                            }
                            assert(final(actions)@ =~= old(actions)@);
                        }
                    }
                }
                InputReturn::none()
            } else {
                InputReturn::none()
            };
            rr
        },
    };
    result
}


/// Nothing a dropdown re-raises is a `SetOpen`.
pub proof fn lemma_forwarded_no_set_open(acts: Seq<Action>)
    ensures
        forall|k: int|
            0 <= k < forwarded_actions(acts).len() ==> !((#[trigger] forwarded_actions(acts)[k])
                is SetOpen),
{
    reveal(Seq::filter);
    assert forall|k: int|
        0 <= k < forwarded_actions(acts).len() implies !((#[trigger] forwarded_actions(acts)[k])
        is SetOpen) by {
        crate::cursor::lemma_filter_mem(acts, forwarded_actions(acts)[k]);
    }
}

/// Every element of a filtered sequence passes the filter.
pub proof fn lemma_filter_mem(s: Seq<Action>, a: Action)
    requires
        forwarded_actions(s).contains(a),
    ensures
        !(a is SetOpen),
    decreases s,
{
    reveal(Seq::filter);
    if s.len() > 0 {
        if forwarded_actions(s.drop_last()).contains(a) {
            lemma_filter_mem(s.drop_last(), a);
        }
    }
}


/// The demand-focus answer the dispatch contract pins down equals the
/// spec-level demand of the widget.
pub proof fn lemma_post_demand(
    w: Widget,
    s0: WidgetState,
    s1: WidgetState,
    rect: Rect,
    pos: Point,
    layer: u8,
    input: CursorInput,
    acts0: Seq<Action>,
    acts1: Seq<Action>,
    r: InputReturn,
)
    requires
        ready(w, s0),
        cursor_dispatch_post(w, s0, s1, rect, pos, layer, input, acts0, acts1, r),
    ensures
        r.demand_focus == cursor_demands(w, s0, rect, pos, layer, input),
{
    match w {
        Widget::Flex(f) => {
            if let WidgetState::Flex(fs0) = s0 {
                assert(cursor_demands(w, s0, rect, pos, layer, input) == cursor_content_fold(
                    f.content,
                    fs0.content_state,
                    f.axis,
                    rect.size_spec().secondary_spec(f.axis),
                    crate::render::walk_expand_length(
                        rect,
                        f.axis,
                        fs0.no_expand_size,
                        fs0.expand_count,
                    ),
                    pos,
                    layer,
                    input,
                    rect.origin_spec(),
                    0,
                    false,
                    fs0.focus,
                ).demand);
            }
        },
        _ => {},
    }
}

/// The cursor walk over a child list: advance along the primary axis by
/// each child's actual extent and forward the event to every child
/// whose subtree reaches the requested layer; a demanding child becomes
/// the focused one.
#[verifier::loop_isolation(false)]
fn cursor_walk_content(
    content: &FlexContent,
    cs: &mut FlexContentState,
    axis: Axis,
    sec_len: u32,
    expand_length: u32,
    cursor_pos: Point,
    cursor_layer: u8,
    input: CursorInput,
    input_state: &InputState,
    theme: &Theme,
    focus: bool,
    focus_state: &mut Option<u16>,
    walk: &mut CursorWalk,
    actions: &mut Vec<Action>,
)
    requires
        content_ready(*content, *old(cs)),
    ensures
        old(actions)@.is_prefix_of(final(actions)@),
        ({
            let fold = cursor_content_fold(
                *content,
                *old(cs),
                axis,
                sec_len,
                expand_length,
                cursor_pos,
                cursor_layer,
                input,
                old(walk).pos,
                old(walk).i as int,
                old(walk).demand,
                *old(focus_state),
            );
            &&& final(walk).pos == fold.pos
            &&& final(walk).i as int == fold.i
            &&& final(walk).demand == fold.demand
            &&& *final(focus_state) == fold.focus
        }),
    decreases csize(*content), 1int,
{
    match content {
        FlexContent::Empty(_) => {},
        FlexContent::Item(it) => {
            if let FlexContentState::Item(is) = cs {
                if let Some(child_state) = &mut is.state {
                    cursor_walk_child(
                        &it.widget,
                        it.expand,
                        child_state,
                        axis,
                        sec_len,
                        expand_length,
                        cursor_pos,
                        cursor_layer,
                        input,
                        input_state,
                        theme,
                        focus,
                        focus_state,
                        walk,
                        actions,
                    );
                }
            }
        },
        FlexContent::Chain(t) => {
            if let FlexContentState::Chain(ts) = cs {
                cursor_walk_content(
                    &t.a,
                    &mut ts.a,
                    axis,
                    sec_len,
                    expand_length,
                    cursor_pos,
                    cursor_layer,
                    input,
                    input_state,
                    theme,
                    focus,
                    focus_state,
                    walk,
                    actions,
                );
                cursor_walk_content(
                    &t.b,
                    &mut ts.b,
                    axis,
                    sec_len,
                    expand_length,
                    cursor_pos,
                    cursor_layer,
                    input,
                    input_state,
                    theme,
                    focus,
                    focus_state,
                    walk,
                    actions,
                );
            }
        },
        FlexContent::Iter(itr) => {
            if let FlexContentState::Iter(iss) = cs {
                let n = itr.items.len();
                let mut idx: usize = 0;
                while idx < n
                    invariant
                        idx <= n,
                        iss.state@.len() == n,
                        forall|j: int|
                            idx as int <= j < n as int ==> #[trigger] iss.state@[j]
                                == old(cs)->Iter_0.state@[j],
                        old(actions)@.is_prefix_of(actions@),
                        ({
                            let fold = cursor_items_fold(
                                itr.items@.subrange(0, idx as int),
                                old(cs)->Iter_0.state@.subrange(0, idx as int),
                                axis,
                                sec_len,
                                expand_length,
                                cursor_pos,
                                cursor_layer,
                                input,
                                old(walk).pos,
                                old(walk).i as int,
                                old(walk).demand,
                                *old(focus_state),
                            );
                            &&& walk.pos == fold.pos
                            &&& walk.i as int == fold.i
                            &&& walk.demand == fold.demand
                            &&& *focus_state == fold.focus
                        }),
                    decreases n - idx,
                {
                    let ghost slots0 = iss.state@;
                    let ghost fa = cursor_items_fold(
                        itr.items@.subrange(0, idx as int),
                        old(cs)->Iter_0.state@.subrange(0, idx as int),
                        axis,
                        sec_len,
                        expand_length,
                        cursor_pos,
                        cursor_layer,
                        input,
                        old(walk).pos,
                        old(walk).i as int,
                        old(walk).demand,
                        *old(focus_state),
                    );
                    proof {
                        lemma_isizes_elem(itr.items@, idx as int);
                        assert(csize(*content) == 1 + isizes(itr.items@));
                        assert(iss.state@[idx as int] == old(cs)->Iter_0.state@[idx as int]);
                        assert(items_ready(itr.items@, old(cs)->Iter_0.state@));
                    }
                    let it = &itr.items[idx];
                    let slot = &mut iss.state[idx];
                    let ghost fb = match &slot.state {
                        Some(cst) => cursor_child_fold(
                            it.widget,
                            it.expand,
                            *cst,
                            axis,
                            sec_len,
                            expand_length,
                            cursor_pos,
                            cursor_layer,
                            input,
                            fa.pos,
                            fa.i,
                            fa.demand,
                            fa.focus,
                        ),
                        None => fa,
                    };
                    if let Some(child_state) = &mut slot.state {
                        cursor_walk_child(
                            &it.widget,
                            it.expand,
                            child_state,
                            axis,
                            sec_len,
                            expand_length,
                            cursor_pos,
                            cursor_layer,
                            input,
                            input_state,
                            theme,
                            focus,
                            focus_state,
                            walk,
                            actions,
                        );
                    }
                    proof {
                        assert forall|j: int| idx as int + 1 <= j < n as int implies #[trigger] iss
                            .state@[j] == old(cs)->Iter_0.state@[j] by {
                            assert(iss.state@[j] == slots0[j]);
                        }
                        let pi = itr.items@.subrange(0, idx as int + 1);
                        let ps = old(cs)->Iter_0.state@.subrange(0, idx as int + 1);
                        assert(pi.drop_last() =~= itr.items@.subrange(0, idx as int));
                        assert(ps.drop_last() =~= old(cs)->Iter_0.state@.subrange(0, idx as int));
                        assert(pi.last() == itr.items@[idx as int]);
                        assert(ps.last() == old(cs)->Iter_0.state@[idx as int]);
                        assert(cursor_items_fold(
                            pi,
                            ps,
                            axis,
                            sec_len,
                            expand_length,
                            cursor_pos,
                            cursor_layer,
                            input,
                            old(walk).pos,
                            old(walk).i as int,
                            old(walk).demand,
                            *old(focus_state),
                        ) == fb);
                    }
                    idx = idx + 1;
                }
                proof {
                    assert(itr.items@.subrange(0, n as int) =~= itr.items@);
                    assert(old(cs)->Iter_0.state@.subrange(0, n as int) =~= old(cs)->Iter_0.state@);
                }
            }
        },
    }
}

/// One child under the cursor walk.
fn cursor_walk_child(
    w: &Widget,
    expand: bool,
    child_state: &mut WidgetState,
    axis: Axis,
    sec_len: u32,
    expand_length: u32,
    cursor_pos: Point,
    cursor_layer: u8,
    input: CursorInput,
    input_state: &InputState,
    theme: &Theme,
    focus: bool,
    focus_state: &mut Option<u16>,
    walk: &mut CursorWalk,
    actions: &mut Vec<Action>,
)
    requires
        ready(*w, *old(child_state)),
    ensures
        old(actions)@.is_prefix_of(final(actions)@),
        ({
            let fold = cursor_child_fold(
                *w,
                expand,
                *old(child_state),
                axis,
                sec_len,
                expand_length,
                cursor_pos,
                cursor_layer,
                input,
                old(walk).pos,
                old(walk).i as int,
                old(walk).demand,
                *old(focus_state),
            );
            &&& final(walk).pos == fold.pos
            &&& final(walk).i as int == fold.i
            &&& final(walk).demand == fold.demand
            &&& *final(focus_state) == fold.focus
        }),
    decreases wsize(*w), 2int,
{
    let widget_length: u32 = if expand {
        expand_length
    } else {
        child_state.min_size().primary(axis)
    };
    let child_extra = child_state.extra_layers();
    if child_extra >= cursor_layer {
        let child_rect = Rect::from_origin_size(
            walk.pos,
            Size::from_axes(axis, widget_length, sec_len),
        );
        let child_focus = focus && match focus_state {
            Some(fi) => walk.i == (*fi as u64),
            None => false,
        };
        let ghost s_pre = *child_state;
        let ghost acts_pre = actions@;
        let ret = handle_cursor_input(
            w,
            child_state,
            child_rect,
            cursor_pos,
            cursor_layer,
            input,
            input_state,
            theme,
            child_focus,
            actions,
        );
        proof {
            lemma_post_demand(
                *w,
                s_pre,
                *child_state,
                child_rect,
                cursor_pos,
                cursor_layer,
                input,
                acts_pre,
                actions@,
                ret,
            );
        }
        if ret.demand_focus {
            if walk.i <= u16::MAX as u64 {
                *focus_state = Some(walk.i as u16);
            }
            walk.demand = true;
        }
    }
    let next = match axis {
        Axis::Horizontal => Point { x: crate::geom::sat_add(walk.pos.x, widget_length), y: walk.pos.y },
        Axis::Vertical => Point { x: walk.pos.x, y: crate::geom::sat_add(walk.pos.y, widget_length) },
    };
    walk.pos = next;
    if walk.i < u64::MAX {
        walk.i = walk.i + 1;
    }
}

} // verus!
