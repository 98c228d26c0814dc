//! The layout pass.
//!
//! `layout` walks a widget tree with its state tree and leaves every
//! state slot filled and measured: afterwards the state is [`ready`] and
//! each slot's `min_size` equals [`measure_spec`] of its widget under
//! the constraint it was given.  A state of the wrong shape — the slot
//! held a different widget before, or a dropdown's subtree changed shape
//! when its flag toggled — is replaced by a fresh skeleton and laid out
//! from scratch; layout never fails.

use vstd::prelude::*;
use crate::button::PADDING;
use crate::dropdown::{
    dropdown_widget, is_dropdown_widget, spec_dropdown_items, Dropdown, DropdownItem,
};
use crate::flex::{
    EmptyFlexContentState, Flex, FlexContent, FlexContentState, FlexItem, FlexItemState,
    IterFlexContentState, ThenState,
};
use crate::geom::{clamp_reported, sat_add, Axis, LayoutConstraint, Size};
use crate::measure::{
    carried_focus, carried_open, content_laid, content_ready, content_state_extra,
    dropdown_slots_ready, dropdown_state_ready, flex_measure, flex_share_constraint,
    is_text_button_state, items_laid, items_ready, items_state_extra, max_int, measure_spec,
    pass_a, pass_a_combine, pass_a_items, pass_a_one, pass_b, pass_b_combine, pass_b_items,
    pass_b_one, ready, shrink_constraint, slot_laid, text_button_measure, PassA, PassB,
};
use crate::widget::{
    check_variant_matches, children_count, clamp_u32, clamp_u8, csize, isizes, new_state, wsize,
    LayoutCtx, Widget, WidgetState,
};

verus! {

/// What pass A accumulates while walking the children.
#[derive(Clone, Copy, Debug, PartialEq, Eq, Structural)]
pub struct MeasureAccA {
    pub size_primary: u32,
    pub cross: u32,
    pub expand_count: u32,
}

/// What pass B accumulates while walking the children.
#[derive(Clone, Copy, Debug, PartialEq, Eq, Structural)]
pub struct MeasureAccB {
    pub sum: u32,
    pub cross: u32,
}

/// The accumulator value after folding a pass-A measurement into it,
/// saturating at `u32::MAX`.
pub open spec fn acc_a_after(before: MeasureAccA, p: PassA) -> MeasureAccA {
    MeasureAccA {
        size_primary: clamp_u32(before.size_primary as int + p.no_expand),
        cross: clamp_u32(max_int(before.cross as int, p.cross)),
        expand_count: clamp_u32(before.expand_count as int + p.expand_count),
    }
}

/// The accumulator value after folding a pass-B measurement into it.
pub open spec fn acc_b_after(before: MeasureAccB, p: PassB) -> MeasureAccB {
    MeasureAccB {
        sum: clamp_u32(before.sum as int + p.sum),
        cross: clamp_u32(max_int(before.cross as int, p.cross)),
    }
}

/// Every pass-A measurement is componentwise non-negative, and its cross
/// extent is one child's measured extent, so it fits `u32`.
#[verifier::spinoff_prover]
pub proof fn lemma_pass_a_bounds(content: FlexContent, axis: Axis, sec: Option<u32>)
    ensures
        pass_a(content, axis, sec).no_expand >= 0,
        pass_a(content, axis, sec).expand_count >= 0,
        0 <= pass_a(content, axis, sec).cross <= u32::MAX as int,
    decreases content, 1int,
{
    match content {
        FlexContent::Empty(_) => {
            assert(pass_a(content, axis, sec) == PassA { no_expand: 0, cross: 0, expand_count: 0 });
        },
        FlexContent::Item(it) => {
            assert(pass_a(content, axis, sec) == pass_a_one(it, axis, sec));
        },
        FlexContent::Chain(t) => {
            lemma_pass_a_bounds(t.a, axis, sec);
            lemma_pass_a_bounds(t.b, axis, sec);
            assert(pass_a(content, axis, sec) == pass_a_combine(
                pass_a(t.a, axis, sec),
                pass_a(t.b, axis, sec),
            ));
        },
        FlexContent::Iter(itr) => {
            lemma_pass_a_items_bounds(itr.items@, axis, sec);
            assert(pass_a(content, axis, sec) == pass_a_items(itr.items@, axis, sec));
        },
    }
}

#[verifier::spinoff_prover]
pub proof fn lemma_pass_a_items_bounds(items: Seq<FlexItem>, axis: Axis, sec: Option<u32>)
    ensures
        pass_a_items(items, axis, sec).no_expand >= 0,
        pass_a_items(items, axis, sec).expand_count >= 0,
        0 <= pass_a_items(items, axis, sec).cross <= u32::MAX as int,
    decreases items, 1int,
{
    if items.len() > 0 {
        lemma_pass_a_items_bounds(items.drop_last(), axis, sec);
        assert(pass_a_items(items, axis, sec) == pass_a_combine(
            pass_a_items(items.drop_last(), axis, sec),
            pass_a_one(items.last(), axis, sec),
        ));
    } else {
        assert(pass_a_items(items, axis, sec) == PassA { no_expand: 0, cross: 0, expand_count: 0 });
    }
}

/// Every pass-B measurement is componentwise non-negative, and its cross
/// extent fits `u32`.
#[verifier::spinoff_prover]
pub proof fn lemma_pass_b_bounds(content: FlexContent, axis: Axis, share: Option<u32>, sec: Option<u32>)
    ensures
        pass_b(content, axis, share, sec).sum >= 0,
        0 <= pass_b(content, axis, share, sec).cross <= u32::MAX as int,
    decreases content, 1int,
{
    match content {
        FlexContent::Empty(_) => {
            assert(pass_b(content, axis, share, sec) == PassB { sum: 0, cross: 0 });
        },
        FlexContent::Item(it) => {
            assert(pass_b(content, axis, share, sec) == pass_b_one(it, axis, share, sec));
        },
        FlexContent::Chain(t) => {
            lemma_pass_b_bounds(t.a, axis, share, sec);
            lemma_pass_b_bounds(t.b, axis, share, sec);
            assert(pass_b(content, axis, share, sec) == pass_b_combine(
                pass_b(t.a, axis, share, sec),
                pass_b(t.b, axis, share, sec),
            ));
        },
        FlexContent::Iter(itr) => {
            lemma_pass_b_items_bounds(itr.items@, axis, share, sec);
            assert(pass_b(content, axis, share, sec) == pass_b_items(itr.items@, axis, share, sec));
        },
    }
}

#[verifier::spinoff_prover]
pub proof fn lemma_pass_b_items_bounds(
    items: Seq<FlexItem>,
    axis: Axis,
    share: Option<u32>,
    sec: Option<u32>,
)
    ensures
        pass_b_items(items, axis, share, sec).sum >= 0,
        0 <= pass_b_items(items, axis, share, sec).cross <= u32::MAX as int,
    decreases items, 1int,
{
    if items.len() > 0 {
        lemma_pass_b_items_bounds(items.drop_last(), axis, share, sec);
        assert(pass_b_items(items, axis, share, sec) == pass_b_combine(
            pass_b_items(items.drop_last(), axis, share, sec),
            pass_b_one(items.last(), axis, share, sec),
        ));
    } else {
        assert(pass_b_items(items, axis, share, sec) == PassB { sum: 0, cross: 0 });
    }
}

/// Folding two measurements one after the other equals folding their
/// combination.
pub proof fn lemma_acc_a_chain(x: MeasureAccA, p: PassA, q: PassA)
    requires
        p.no_expand >= 0,
        p.expand_count >= 0,
        0 <= p.cross <= u32::MAX as int,
        q.no_expand >= 0,
        q.expand_count >= 0,
        0 <= q.cross <= u32::MAX as int,
    ensures
        acc_a_after(acc_a_after(x, p), q) == acc_a_after(x, pass_a_combine(p, q)),
{
}

pub proof fn lemma_acc_b_chain(x: MeasureAccB, p: PassB, q: PassB)
    requires
        p.sum >= 0,
        0 <= p.cross <= u32::MAX as int,
        q.sum >= 0,
        0 <= q.cross <= u32::MAX as int,
    ensures
        acc_b_after(acc_b_after(x, p), q) == acc_b_after(x, pass_b_combine(p, q)),
{
}

/// An element's contribution is part of the structural size of an
/// iterated child list.
pub proof fn lemma_isizes_elem(items: Seq<FlexItem>, i: int)
    requires
        0 <= i < items.len(),
    ensures
        wsize(items[i].widget) + 1 <= isizes(items),
    decreases items,
{
    if i == items.len() - 1 {
        assert(items.last() == items[i]);
    } else {
        lemma_isizes_elem(items.drop_last(), i);
    }
}

/// `max(a, b)` on `u32`.
pub fn max_u32(a: u32, b: u32) -> (r: u32)
    ensures
        r as int == max_int(a as int, b as int),
{
    if a >= b {
        a
    } else {
        b
    }
}

/// Saturating addition on layer counts.
pub fn sat_add_u8(a: u8, b: u8) -> (r: u8)
    ensures
        r == clamp_u8(a as int + b as int),
{
    if a <= u8::MAX - b {
        a + b
    } else {
        u8::MAX
    }
}

/// Take `by` off an optional maximum extent, floored at zero.
pub fn shrink_c(c: Option<u32>, by: u32) -> (r: Option<u32>)
    ensures
        r == shrink_constraint(c, by),
{
    match c {
        Some(w) => Some(if w >= by { w - by } else { 0 }),
        None => None,
    }
}

/// The largest extra-layer count among the slots of a child-list state.
pub fn content_extra(cs: &FlexContentState) -> (r: u8)
    ensures
        r == content_state_extra(*cs),
    decreases *cs,
{
    match cs {
        FlexContentState::Empty(_) => 0,
        FlexContentState::Item(is) => match &is.state {
            Some(s) => s.extra_layers(),
            None => 0,
        },
        FlexContentState::Chain(t) => {
            let a = content_extra(&t.a);
            let b = content_extra(&t.b);
            if a >= b {
                a
            } else {
                b
            }
        },
        FlexContentState::Iter(iss) => {
            let mut best: u8 = 0;
            let mut i: usize = 0;
            while i < iss.state.len()
                invariant
                    i <= iss.state@.len(),
                    best == items_state_extra(iss.state@.subrange(0, i as int)),
                decreases iss.state@.len() - i,
            {
                let e = match &iss.state[i].state {
                    Some(s) => s.extra_layers(),
                    None => 0,
                };
                best = if best >= e {
                    best
                } else {
                    e
                };
                proof {
                    assert(iss.state@.subrange(0, i as int + 1).drop_last() =~= iss.state@.subrange(
                        0,
                        i as int,
                    ));
                    assert(iss.state@.subrange(0, i as int + 1).last() == iss.state@[i as int]);
                }
                i = i + 1;
            }
            proof {
                assert(iss.state@.subrange(0, iss.state@.len() as int) =~= iss.state@);
            }
            best
        },
    }
}

/// How many direct children a child list declares, saturating at
/// `u64::MAX`.
pub fn content_count(content: &FlexContent) -> (r: u64)
    ensures
        r as int == if children_count(*content) <= u64::MAX as int {
            children_count(*content)
        } else {
            u64::MAX as int
        },
        children_count(*content) >= 0,
    decreases *content,
{
    match content {
        FlexContent::Empty(_) => 0,
        FlexContent::Item(_) => 1,
        FlexContent::Chain(t) => {
            let a = content_count(&t.a);
            let b = content_count(&t.b);
            if a <= u64::MAX - b {
                a + b
            } else {
                u64::MAX
            }
        },
        FlexContent::Iter(itr) => itr.items.len() as u64,
    }
}

/// Lay a child out into its slot, creating the slot's state on first
/// use or when it belonged to a different widget.
fn layout_slot(w: &Widget, is: &mut FlexItemState, c: LayoutConstraint, ctx: &LayoutCtx)
    ensures
        ({
            &&& final(is).state matches Some(s)
            &&& ready(*w, s)
            &&& s.min_size_spec() == measure_spec(*w, c)
            &&& (*w is Dropdown && old(is).state is Some ==> carried_open(s)
                == carried_open(old(is).state->0))
        }),
    decreases wsize(*w), 1int,
{
    match &mut is.state {
        Some(s) => {
            layout(w, s, c, ctx);
        },
        None => {
            let mut s = new_state(w);
            layout(w, &mut s, c, ctx);
            is.state = Some(s);
        },
    }
}

/// One child under pass A: a non-expanding child is laid out with the
/// primary axis unconstrained and folded into the accumulator; an
/// expanding child is only counted.
fn measure_a_slot(
    it: &FlexItem,
    is: &mut FlexItemState,
    axis: Axis,
    sec: Option<u32>,
    ctx: &LayoutCtx,
    acc: &mut MeasureAccA,
)
    ensures
        slot_laid(*it, *final(is), axis, None, sec, false),
        *final(acc) == acc_a_after(*old(acc), pass_a_one(*it, axis, sec)),
        it.expand ==> *final(is) == *old(is),
    decreases wsize(it.widget), 2int,
{
    if it.expand {
        acc.expand_count = sat_add(acc.expand_count, 1);
    } else {
        let cc = LayoutConstraint::from_axes(axis, None, sec);
        layout_slot(&it.widget, is, cc, ctx);
        let m = match &is.state {
            Some(s) => s.min_size(),
            None => Size::zero(),
        };
        acc.size_primary = sat_add(acc.size_primary, m.primary(axis));
        acc.cross = max_u32(acc.cross, m.secondary(axis));
    }
}

/// One child under pass B: an expanding child is laid out with the even
/// share as its primary constraint and folded into the accumulator; a
/// non-expanding child is left as pass A measured it.
fn measure_b_slot(
    it: &FlexItem,
    is: &mut FlexItemState,
    axis: Axis,
    share: Option<u32>,
    sec: Option<u32>,
    ctx: &LayoutCtx,
    acc: &mut MeasureAccB,
)
    requires
        slot_laid(*it, *old(is), axis, share, sec, false),
    ensures
        slot_laid(*it, *final(is), axis, share, sec, true),
        *final(acc) == acc_b_after(*old(acc), pass_b_one(*it, axis, share, sec)),
        !it.expand ==> *final(is) == *old(is),
    decreases wsize(it.widget), 2int,
{
    if it.expand {
        let cc = LayoutConstraint::from_axes(axis, share, sec);
        layout_slot(&it.widget, is, cc, ctx);
        let m = match &is.state {
            Some(s) => s.min_size(),
            None => Size::zero(),
        };
        acc.sum = sat_add(acc.sum, m.primary(axis));
        acc.cross = max_u32(acc.cross, m.secondary(axis));
    }
}

/// Pass A over a child list: measure the non-expanding children with
/// the primary axis unconstrained, count the expanding ones, and bring
/// the state tree into the list's shape.
#[verifier::loop_isolation(false)]
fn flex_measure_a(
    content: &FlexContent,
    cs: &mut FlexContentState,
    axis: Axis,
    sec: Option<u32>,
    ctx: &LayoutCtx,
    acc: &mut MeasureAccA,
)
    ensures
        content_laid(*content, *final(cs), axis, None, sec, false),
        *final(acc) == acc_a_after(*old(acc), pass_a(*content, axis, sec)),
    decreases csize(*content), 0int,
{
    match content {
        FlexContent::Empty(_) => {
            match cs {
                FlexContentState::Empty(_) => {},
                _ => {
                    *cs = FlexContentState::Empty(EmptyFlexContentState);
                },
            }
        },
        FlexContent::Item(it) => {
            match cs {
                FlexContentState::Item(_) => {},
                _ => {
                    *cs = FlexContentState::Item(FlexItemState { state: None });
                },
            }
            if let FlexContentState::Item(is) = cs {
                measure_a_slot(it, is, axis, sec, ctx, acc);
            }
        },
        FlexContent::Chain(t) => {
            match cs {
                FlexContentState::Chain(_) => {},
                _ => {
                    *cs = FlexContentState::Chain(Box::new(ThenState {
                        a: FlexContentState::Empty(EmptyFlexContentState),
                        b: FlexContentState::Empty(EmptyFlexContentState),
                    }));
                },
            }
            if let FlexContentState::Chain(ts) = cs {
                let ghost acc0 = *acc;
                flex_measure_a(&t.a, &mut ts.a, axis, sec, ctx, acc);
                let ghost acc1 = *acc;
                flex_measure_a(&t.b, &mut ts.b, axis, sec, ctx, acc);
                proof {
                    lemma_pass_a_bounds(t.a, axis, sec);
                    lemma_pass_a_bounds(t.b, axis, sec);
                    lemma_acc_a_chain(acc0, pass_a(t.a, axis, sec), pass_a(t.b, axis, sec));
                }
            }
        },
        FlexContent::Iter(itr) => {
            match cs {
                FlexContentState::Iter(_) => {},
                _ => {
                    *cs = FlexContentState::Iter(IterFlexContentState { state: Vec::new() });
                },
            }
            if let FlexContentState::Iter(iss) = cs {
                let n = itr.items.len();
                if iss.state.len() > n {
                    iss.state.truncate(n);
                }
                let mut i: usize = 0;
                while i < n
                    invariant
                        i <= n,
                        n == itr.items@.len(),
                        i <= iss.state@.len() <= n,
                        items_laid(
                            itr.items@.subrange(0, i as int),
                            iss.state@.subrange(0, i as int),
                            axis,
                            None,
                            sec,
                            false,
                        ),
                        *acc == acc_a_after(*old(acc), pass_a_items(itr.items@.subrange(0, i as int), axis, sec)),
                    decreases n - i,
                {
                    let ghost slots0 = iss.state@;
                    if iss.state.len() == i {
                        iss.state.push(FlexItemState { state: None });
                    }
                    let ghost acc0 = *acc;
                    let ghost prefix = itr.items@.subrange(0, i as int);
                    proof {
                        lemma_isizes_elem(itr.items@, i as int);
                        assert(csize(*content) == 1 + isizes(itr.items@));
                        assert(wsize(itr.items@[i as int].widget) < csize(*content));
                    }
                    let it = &itr.items[i];
                    let slot = &mut iss.state[i];
                    measure_a_slot(it, slot, axis, sec, ctx, acc);
                    proof {
                        lemma_pass_a_items_bounds(prefix, axis, sec);
                        lemma_acc_a_chain(
                            acc0,
                            pass_a_items(prefix, axis, sec),
                            pass_a_one(itr.items@[i as int], axis, sec),
                        );
                        assert(itr.items@.subrange(0, i as int + 1).drop_last() =~= prefix);
                        assert(itr.items@.subrange(0, i as int + 1).last() == itr.items@[i as int]);
                        assert(pass_a_items(itr.items@.subrange(0, i as int + 1), axis, sec)
                            == pass_a_combine(
                            pass_a_items(prefix, axis, sec),
                            pass_a_one(itr.items@[i as int], axis, sec),
                        ));
                        assert(acc0 == acc_a_after(
                            *old(acc),
                            pass_a_items(prefix, axis, sec),
                        ));
                        assert forall|j: int| 0 <= j < i as int + 1 implies slot_laid(
                            itr.items@.subrange(0, i as int + 1)[j],
                            #[trigger] iss.state@.subrange(0, i as int + 1)[j],
                            axis,
                            None,
                            sec,
                            false,
                        ) by {
                            if j < i as int {
                                assert(iss.state@.subrange(0, i as int + 1)[j] == slots0[j]);
                                assert(slot_laid(
                                    itr.items@.subrange(0, i as int)[j],
                                    slots0.subrange(0, i as int)[j],
                                    axis,
                                    None,
                                    sec,
                                    false,
                                ));
                                assert(slots0.subrange(0, i as int)[j] == slots0[j]);
                            } else {
                                assert(iss.state@.subrange(0, i as int + 1)[j] == iss.state@[i as int]);
                            }
                        }
                    }
                    i = i + 1;
                }
                proof {
                    assert(itr.items@.subrange(0, n as int) =~= itr.items@);
                    assert(iss.state@.subrange(0, n as int) =~= iss.state@);
                }
            }
        },
    }
}

/// Pass B over a child list: lay the expanding children out at the even
/// share and fold their measurements in; the non-expanding children
/// keep pass A's measurement.
#[verifier::loop_isolation(false)]
fn flex_measure_b(
    content: &FlexContent,
    cs: &mut FlexContentState,
    axis: Axis,
    share: Option<u32>,
    sec: Option<u32>,
    ctx: &LayoutCtx,
    acc: &mut MeasureAccB,
)
    requires
        content_laid(*content, *old(cs), axis, share, sec, false),
    ensures
        content_laid(*content, *final(cs), axis, share, sec, true),
        *final(acc) == acc_b_after(*old(acc), pass_b(*content, axis, share, sec)),
    decreases csize(*content), 0int,
{
    match content {
        FlexContent::Empty(_) => {},
        FlexContent::Item(it) => {
            if let FlexContentState::Item(is) = cs {
                measure_b_slot(it, is, axis, share, sec, ctx, acc);
            }
        },
        FlexContent::Chain(t) => {
            if let FlexContentState::Chain(ts) = cs {
                let ghost acc0 = *acc;
                flex_measure_b(&t.a, &mut ts.a, axis, share, sec, ctx, acc);
                flex_measure_b(&t.b, &mut ts.b, axis, share, sec, ctx, acc);
                proof {
                    lemma_pass_b_bounds(t.a, axis, share, sec);
                    lemma_pass_b_bounds(t.b, axis, share, sec);
                    lemma_acc_b_chain(
                        acc0,
                        pass_b(t.a, axis, share, sec),
                        pass_b(t.b, axis, share, sec),
                    );
                }
            }
        },
        FlexContent::Iter(itr) => {
            if let FlexContentState::Iter(iss) = cs {
                let n = itr.items.len();
                let mut i: usize = 0;
                while i < n
                    invariant
                        i <= n,
                        n == itr.items@.len(),
                        iss.state@.len() == n,
                        items_laid(
                            itr.items@.subrange(0, i as int),
                            iss.state@.subrange(0, i as int),
                            axis,
                            share,
                            sec,
                            true,
                        ),
                        forall|j: int|
                            i as int <= j < n as int ==> slot_laid(
                                itr.items@[j],
                                #[trigger] iss.state@[j],
                                axis,
                                share,
                                sec,
                                false,
                            ),
                        *acc == acc_b_after(
                            *old(acc),
                            pass_b_items(itr.items@.subrange(0, i as int), axis, share, sec),
                        ),
                    decreases n - i,
                {
                    let ghost acc0 = *acc;
                    let ghost slots0 = iss.state@;
                    let ghost prefix = itr.items@.subrange(0, i as int);
                    proof {
                        lemma_isizes_elem(itr.items@, i as int);
                        assert(csize(*content) == 1 + isizes(itr.items@));
                        assert(wsize(itr.items@[i as int].widget) < csize(*content));
                        assert(slot_laid(
                            itr.items@[i as int],
                            iss.state@[i as int],
                            axis,
                            share,
                            sec,
                            false,
                        ));
                    }
                    let it = &itr.items[i];
                    let slot = &mut iss.state[i];
                    measure_b_slot(it, slot, axis, share, sec, ctx, acc);
                    proof {
                        lemma_pass_b_items_bounds(prefix, axis, share, sec);
                        lemma_acc_b_chain(
                            acc0,
                            pass_b_items(prefix, axis, share, sec),
                            pass_b_one(itr.items@[i as int], axis, share, sec),
                        );
                        assert(itr.items@.subrange(0, i as int + 1).drop_last() =~= prefix);
                        assert(itr.items@.subrange(0, i as int + 1).last() == itr.items@[i as int]);
                        assert(pass_b_items(itr.items@.subrange(0, i as int + 1), axis, share, sec)
                            == pass_b_combine(
                            pass_b_items(prefix, axis, share, sec),
                            pass_b_one(itr.items@[i as int], axis, share, sec),
                        ));
                        assert forall|j: int| 0 <= j < i as int + 1 implies slot_laid(
                            itr.items@.subrange(0, i as int + 1)[j],
                            #[trigger] iss.state@.subrange(0, i as int + 1)[j],
                            axis,
                            share,
                            sec,
                            true,
                        ) by {
                            if j < i as int {
                                assert(iss.state@.subrange(0, i as int + 1)[j] == slots0[j]);
                                assert(slot_laid(
                                    itr.items@.subrange(0, i as int)[j],
                                    slots0.subrange(0, i as int)[j],
                                    axis,
                                    share,
                                    sec,
                                    true,
                                ));
                                assert(slots0.subrange(0, i as int)[j] == slots0[j]);
                            } else {
                                assert(iss.state@.subrange(0, i as int + 1)[j] == iss.state@[i as int]);
                            }
                        }
                        assert forall|j: int| i as int + 1 <= j < n as int implies slot_laid(
                            itr.items@[j],
                            #[trigger] iss.state@[j],
                            axis,
                            share,
                            sec,
                            false,
                        ) by {
                            assert(iss.state@[j] == slots0[j]);
                        }
                    }
                    i = i + 1;
                }
                proof {
                    assert(itr.items@.subrange(0, n as int) =~= itr.items@);
                    assert(iss.state@.subrange(0, n as int) =~= iss.state@);
                }
            }
        },
    }
}

/// The option column a dropdown builds weighs three units per item.
pub proof fn lemma_dropdown_items_isizes(items: Seq<DropdownItem>)
    ensures
        isizes(spec_dropdown_items(items)) == 3 * items.len(),
    decreases items,
{
    let mapped = spec_dropdown_items(items);
    if items.len() > 0 {
        assert(mapped.drop_last() =~= spec_dropdown_items(items.drop_last()));
        lemma_dropdown_items_isizes(items.drop_last());
        assert(mapped.last() == FlexItem {
            widget: crate::button::spec_text_button(
                items.last().label,
                items.last().label_size,
                crate::widget::Action::Select(items.last().value),
            ),
            expand: true,
        });
        assert(wsize(mapped.last().widget) == 2) by {
            assert(wsize(mapped.last().widget->Button_0.widget) == 1);
        }
        assert(isizes(mapped) == isizes(mapped.drop_last()) + 1 + wsize(mapped.last().widget));
    } else {
        assert(mapped.len() == 0);
        assert(isizes(mapped) == 0);
    }
}

/// The subtree a dropdown builds is structurally smaller than the
/// dropdown itself, so laying it out terminates.
pub proof fn lemma_dropdown_inner_wsize(d: Dropdown, open: bool, wi: Widget)
    requires
        is_dropdown_widget(d, open, wi),
    ensures
        wsize(wi) <= 6 + 3 * d.items@.len(),
{
    lemma_dropdown_items_isizes(d.items@);
    let p = wi->Popup_0;
    assert(wsize(p.base) == 2) by {
        assert(wsize(p.base->Button_0.widget) == 1);
    }
    match p.popup {
        Some(ov) => {
            let f = ov->Flex_0;
            assert(csize(f.content) == 1 + isizes(spec_dropdown_items(d.items@)));
            assert(wsize(ov) == 2 + 3 * d.items@.len());
            assert(wsize(wi) == 1 + wsize(p.base) + 1 + wsize(ov));
        },
        None => {
            assert(wsize(wi) == 1 + wsize(p.base));
        },
    }
}

/// A column of laid-out text buttons has no extra layers.
pub proof fn lemma_dropdown_slots_extra(ss: Seq<FlexItemState>)
    requires
        dropdown_slots_ready(ss),
    ensures
        items_state_extra(ss) == 0,
    decreases ss,
{
    if ss.len() > 0 {
        lemma_dropdown_slots_extra(ss.drop_last());
    }
}

/// The slots behind a dropdown's option buttons hold laid-out text
/// buttons.
pub proof fn lemma_dropdown_slots_from_ready(items: Seq<DropdownItem>, ss: Seq<FlexItemState>)
    requires
        items_ready(spec_dropdown_items(items), ss),
    ensures
        dropdown_slots_ready(ss),
{
    assert forall|j: int| 0 <= j < ss.len() implies ((#[trigger] ss[j]).state matches Some(s)
        && is_text_button_state(s)) by {
        assert(spec_dropdown_items(items)[j].widget == crate::button::spec_text_button(
            items[j].label,
            items[j].label_size,
            crate::widget::Action::Select(items[j].value),
        ));
    }
}

/// Lay a widget out: fill and measure its state for `c`.  The state
/// afterwards is [`ready`] and reports [`measure_spec`] as its minimal
/// size; a flex container's bookkeeping fields hold the pass-A totals
/// and its focus survives exactly while it still points at an existing
/// child; a dropdown's `open` flag survives from the previous state of
/// the same slot.
pub fn layout(w: &Widget, s: &mut WidgetState, c: LayoutConstraint, ctx: &LayoutCtx)
    ensures
        ready(*w, *final(s)),
        final(s).min_size_spec() == measure_spec(*w, c),
        *w matches Widget::Flex(f) ==> ({
            &&& *final(s) matches WidgetState::Flex(fs)
            &&& fs.no_expand_size == clamp_u32(
                pass_a(f.content, f.axis, c.secondary_spec(f.axis)).no_expand,
            )
            &&& fs.expand_count == clamp_u32(
                pass_a(f.content, f.axis, c.secondary_spec(f.axis)).expand_count,
            )
            &&& fs.focus == carried_focus(f.content, *old(s))
            &&& content_laid(
                f.content,
                fs.content_state,
                f.axis,
                flex_share_constraint(f.content, f.axis, c),
                c.secondary_spec(f.axis),
                true,
            )
        }),
        *w matches Widget::Popup(p) ==> ({
            &&& *final(s) matches WidgetState::Popup(ps)
            &&& (p.popup matches Some(ow) ==> ({
                &&& ps.popup matches Some(os)
                &&& os.min_size_spec() == measure_spec(
                    ow,
                    LayoutConstraint { x: None, y: None },
                )
                &&& ((*old(s) matches WidgetState::Popup(ps0) && ps0.popup is None && ow is Flex)
                    ==> (os matches WidgetState::Flex(ofs) && ofs.focus is None))
                &&& (ow matches Widget::Flex(owf) ==> ((*old(s)) matches WidgetState::Popup(ps0)
                    ==> (ps0.popup matches Some(os0) ==> (os matches WidgetState::Flex(ofs)
                    && ofs.focus == carried_focus(owf.content, os0)))))
            }))
        }),
        *w is Dropdown ==> ({
            &&& *final(s) matches WidgetState::Dropdown(ds)
            &&& ds.open == carried_open(*old(s))
        }),
    decreases wsize(*w), 0int,
{
    if !check_variant_matches(w, s) {
        *s = new_state(w);
    }
    match w {
        Widget::Nothing(_) => {},
        Widget::Text(t) => {
            if let WidgetState::Text(ts) = s {
                ts.layout = Size {
                    width: clamp_reported(c.x, t.text_size.width),
                    height: clamp_reported(c.y, t.text_size.height),
                };
            }
        },
        Widget::Checkmark(cm) => {
            if let WidgetState::Checkmark(cs) = s {
                cs.0 = cm.0;
            }
        },
        Widget::FixedRect(fr) => {
            if let WidgetState::FixedRect(fs) = s {
                fs.0 = fr.0;
            }
        },
        Widget::TextBox(tb) => {
            if let WidgetState::TextBox(ts) = s {
                ts.min_size = Size {
                    width: crate::textbox::TEXTBOX_WIDTH,
                    height: sat_add(
                        tb.text_size.height,
                        2 * crate::textbox::TEXTBOX_INSET_Y,
                    ),
                };
            }
        },
        Widget::Button(b) => {
            if let WidgetState::Button(bs) = s {
                let cc = LayoutConstraint {
                    x: shrink_c(c.x, PADDING),
                    y: shrink_c(c.y, PADDING),
                };
                layout(&b.widget, &mut bs.state, cc, ctx);
                let m = bs.state.min_size();
                bs.layout = Size {
                    width: sat_add(m.width, 2 * PADDING),
                    height: sat_add(m.height, 2 * PADDING),
                };
            }
        },
        Widget::Flex(f) => {
            if let WidgetState::Flex(fs) = s {
                let axis = f.axis;
                let cp = c.primary(axis);
                let sec = c.secondary(axis);
                let mut acc_a = MeasureAccA { size_primary: 0, cross: 0, expand_count: 0 };
                flex_measure_a(&f.content, &mut fs.content_state, axis, sec, ctx, &mut acc_a);
                fs.no_expand_size = acc_a.size_primary;
                fs.expand_count = acc_a.expand_count;
                let share: Option<u32> = match cp {
                    Some(given) => Some(
                        if acc_a.expand_count > 0 {
                            (if given >= acc_a.size_primary {
                                given - acc_a.size_primary
                            } else {
                                0
                            }) / acc_a.expand_count
                        } else {
                            0
                        },
                    ),
                    None => None,
                };
                proof {
                    lemma_pass_a_bounds(f.content, axis, sec);
                    assert(share == flex_share_constraint(f.content, axis, c));
                }
                proof {
                    lemma_content_laid_any_share(
                        f.content,
                        fs.content_state,
                        axis,
                        None,
                        share,
                        sec,
                    );
                }
                let mut acc_b = MeasureAccB { sum: 0, cross: 0 };
                flex_measure_b(&f.content, &mut fs.content_state, axis, share, sec, ctx, &mut acc_b);
                let measured_primary = sat_add(fs.no_expand_size, acc_b.sum);
                let cross = max_u32(acc_a.cross, acc_b.cross);
                fs.size = Size::from_axes(
                    axis,
                    clamp_reported(cp, measured_primary),
                    clamp_reported(sec, cross),
                );
                fs.extra_layers = content_extra(&fs.content_state);
                let cnt = content_count(&f.content);
                let clear: bool = match fs.focus {
                    Some(idx) => !((idx as u64) < cnt),
                    None => false,
                };
                if clear {
                    fs.focus = None;
                }
                proof {
                    lemma_pass_b_bounds(f.content, axis, share, sec);
                    lemma_content_laid_ready(f.content, fs.content_state, axis, share, sec);
                    assert(fs.size == flex_measure(f.content, axis, c));
                }
            }
        },
        Widget::Popup(p) => {
            if let WidgetState::Popup(ps) = s {
                layout(&p.base, &mut ps.base, c, ctx);
                ps.min_size = ps.base.min_size();
                let base_extra = ps.base.extra_layers();
                match &p.popup {
                    Some(ow) => {
                        proof {
                            assert(wsize(*ow) < wsize(*w));
                        }
                        let unc = LayoutConstraint { x: None, y: None };
                        let have: bool = match &ps.popup {
                            Some(_) => true,
                            None => false,
                        };
                        if !have {
                            ps.popup = Some(new_state(ow));
                        }
                        if let Some(os) = &mut ps.popup {
                            layout(ow, os, unc, ctx);
                        }
                        let ov_extra: u8 = match &ps.popup {
                            Some(os) => os.extra_layers(),
                            None => 0,
                        };
                        ps.extra_layers = sat_add_u8(sat_add_u8(base_extra, 1), ov_extra);
                    },
                    None => {
                        ps.popup = None;
                        ps.extra_layers = base_extra;
                    },
                }
            }
        },
        Widget::Dropdown(d) => {
            if let WidgetState::Dropdown(ds) = s {
                let inner = dropdown_widget(d, ds.open);
                if !check_variant_matches(&inner, &ds.widget_state) {
                    ds.widget_state = new_state(&inner);
                }
                proof {
                    lemma_dropdown_inner_wsize(**d, ds.open, inner);
                }
                layout(&inner, &mut ds.widget_state, c, ctx);
                ds.min_size = ds.widget_state.min_size();
                ds.extra_layers = ds.widget_state.extra_layers();
                proof {
                    lemma_dropdown_layout_post(**d, inner, ds.open, ds.widget_state, c);
                }
            }
        },
    }
}

/// What laying out the built subtree gives the dropdown: its state is
/// [`dropdown_state_ready`]-shaped (up to the cached mirror fields) and
/// its size is the dropdown's button size.
pub proof fn lemma_dropdown_layout_post(
    d: Dropdown,
    wi: Widget,
    open: bool,
    ws: WidgetState,
    c: LayoutConstraint,
)
    requires
        is_dropdown_widget(d, open, wi),
        ready(wi, ws),
        ws.min_size_spec() == measure_spec(wi, c),
    ensures
        ws matches WidgetState::Popup(ps) && ({
            &&& is_text_button_state(ps.base)
            &&& match ps.popup {
                None => !open && ps.extra_layers == 0,
                Some(os) => {
                    &&& open
                    &&& os matches WidgetState::Flex(fs)
                    &&& fs.content_state matches FlexContentState::Iter(iss)
                    &&& iss.state@.len() == d.items@.len()
                    &&& dropdown_slots_ready(iss.state@)
                    &&& fs.extra_layers == 0
                    &&& ps.extra_layers == 1
                },
            }
        }),
        ws.min_size_spec() == text_button_measure(d.selected_size, c),
{
    let p = wi->Popup_0;
    assert(measure_spec(wi, c) == measure_spec(p.base, c));
    let bw = p.base->Button_0;
    let cc = LayoutConstraint {
        x: shrink_constraint(c.x, PADDING),
        y: shrink_constraint(c.y, PADDING),
    };
    assert(measure_spec(bw.widget, cc) == crate::measure::text_measure(d.selected_size, cc));
    assert(measure_spec(p.base, c) == crate::measure::grow_by_padding(
        measure_spec(bw.widget, cc),
    ));
    assert(measure_spec(p.base, c) == text_button_measure(d.selected_size, c));
    if let WidgetState::Popup(ps) = ws {
        assert(ready(p.base, ps.base));
        assert(ps.base is Button);
        if let WidgetState::Button(bs) = ps.base {
            assert(ready(bw.widget, bs.state));
            assert(bs.state is Text);
        }
        assert(is_text_button_state(ps.base));
        assert(ps.base.extra_layers_spec() == 0);
        match p.popup {
            Some(ov) => {
                assert(open);
                if let Some(os) = ps.popup {
                    assert(ready(ov, os));
                    let f = ov->Flex_0;
                    if let WidgetState::Flex(fs) = os {
                        assert(content_ready(f.content, fs.content_state));
                        let itr = f.content->Iter_0;
                        assert(itr.items@ == spec_dropdown_items(d.items@));
                        if let FlexContentState::Iter(iss) = fs.content_state {
                            assert(items_ready(itr.items@, iss.state@));
                            lemma_dropdown_slots_from_ready(d.items@, iss.state@);
                            lemma_dropdown_slots_extra(iss.state@);
                            assert(content_state_extra(fs.content_state) == items_state_extra(
                                iss.state@,
                            ));
                            assert(fs.extra_layers == 0);
                            assert(os.extra_layers_spec() == 0);
                            assert(ps.extra_layers == clamp_u8(0 as int + 1 + 0));
                        }
                    }
                }
            },
            None => {
                assert(!open);
                assert(ps.popup is None);
                assert(ps.extra_layers == ps.base.extra_layers_spec());
            },
        }
    }
}

/// Before pass B has run, what the predicate says of a child list does
/// not depend on the share handed to the expanding children.
pub proof fn lemma_content_laid_any_share(
    content: FlexContent,
    cs: FlexContentState,
    axis: Axis,
    s1: Option<u32>,
    s2: Option<u32>,
    sec: Option<u32>,
)
    requires
        content_laid(content, cs, axis, s1, sec, false),
    ensures
        content_laid(content, cs, axis, s2, sec, false),
    decreases content,
{
    match content {
        FlexContent::Empty(_) => {},
        FlexContent::Item(_) => {},
        FlexContent::Chain(t) => {
            if let FlexContentState::Chain(ts) = cs {
                lemma_content_laid_any_share(t.a, ts.a, axis, s1, s2, sec);
                lemma_content_laid_any_share(t.b, ts.b, axis, s1, s2, sec);
            }
        },
        FlexContent::Iter(itr) => {
            if let FlexContentState::Iter(iss) = cs {
                assert forall|j: int| 0 <= j < itr.items@.len() implies slot_laid(
                    itr.items@[j],
                    #[trigger] iss.state@[j],
                    axis,
                    s2,
                    sec,
                    false,
                ) by {
                    assert(slot_laid(itr.items@[j], iss.state@[j], axis, s1, sec, false));
                }
            }
        },
    }
}

/// While its cached fields satisfy [`dropdown_state_ready`], a
/// dropdown's stored subtree state is ready for the subtree built from
/// the same `open` flag.
pub proof fn lemma_dropdown_ready_inner(
    d: Dropdown,
    open: bool,
    wi: Widget,
    ds: crate::dropdown::StatefulWidgetState,
)
    requires
        is_dropdown_widget(d, open, wi),
        dropdown_state_ready(d, ds),
        ds.open == open,
    ensures
        ready(wi, ds.widget_state),
{
    let p = wi->Popup_0;
    if let WidgetState::Popup(ps) = ds.widget_state {
        if let WidgetState::Button(bs) = ps.base {
            assert(ready(p.base->Button_0.widget, bs.state));
            assert(ready(p.base, ps.base));
        }
        match p.popup {
            Some(ov) => {
                if let Some(os) = ps.popup {
                    let f = ov->Flex_0;
                    if let WidgetState::Flex(fs) = os {
                        let itr = f.content->Iter_0;
                        if let FlexContentState::Iter(iss) = fs.content_state {
                            assert forall|j: int| 0 <= j < itr.items@.len() implies ((
                            #[trigger] iss.state@[j]).state matches Some(cs) && ready(
                                itr.items@[j].widget,
                                cs,
                            )) by {
                                assert(iss.state@[j].state matches Some(cs)
                                    && is_text_button_state(cs));
                                assert(itr.items@[j] == spec_dropdown_items(d.items@)[j]);
                                assert(itr.items@[j].widget == crate::button::spec_text_button(
                                    d.items@[j].label,
                                    d.items@[j].label_size,
                                    crate::widget::Action::Select(d.items@[j].value),
                                ));
                                if let Some(cs) = iss.state@[j].state {
                                    if let WidgetState::Button(cbs) = cs {
                                        assert(ready(
                                            itr.items@[j].widget->Button_0.widget,
                                            cbs.state,
                                        ));
                                    }
                                }
                            }
                            assert(items_ready(itr.items@, iss.state@));
                            assert(content_ready(f.content, fs.content_state));
                            lemma_dropdown_slots_extra(iss.state@);
                            assert(content_state_extra(fs.content_state) == items_state_extra(
                                iss.state@,
                            ));
                            assert(ready(ov, os));
                        }
                    }
                    assert(ps.base.extra_layers_spec() == 0);
                    assert(os.extra_layers_spec() == 0);
                    assert(ps.extra_layers == clamp_u8(0 as int + 1 + 0));
                }
            },
            None => {},
        }
        assert(ready(wi, ds.widget_state));
    }
}

/// After both passes every slot is filled, so the state tree is ready.
pub proof fn lemma_content_laid_ready(
    content: FlexContent,
    cs: FlexContentState,
    axis: Axis,
    share: Option<u32>,
    sec: Option<u32>,
)
    requires
        content_laid(content, cs, axis, share, sec, true),
    ensures
        content_ready(content, cs),
    decreases content,
{
    match content {
        FlexContent::Empty(_) => {},
        FlexContent::Item(it) => {
            if let FlexContentState::Item(is) = cs {
                assert(slot_laid(it, is, axis, share, sec, true));
                assert(is.state matches Some(s) && ready(it.widget, s));
                assert(content_ready(content, cs));
            }
        },
        FlexContent::Chain(t) => {
            if let FlexContentState::Chain(ts) = cs {
                lemma_content_laid_ready(t.a, ts.a, axis, share, sec);
                lemma_content_laid_ready(t.b, ts.b, axis, share, sec);
                assert(content_ready(content, cs));
            }
        },
        FlexContent::Iter(itr) => {
            if let FlexContentState::Iter(iss) = cs {
                assert forall|j: int| 0 <= j < itr.items@.len() implies ((#[trigger] iss.state@[j]).state
                    matches Some(s) && ready(itr.items@[j].widget, s)) by {
                    assert(slot_laid(itr.items@[j], iss.state@[j], axis, share, sec, true));
                }
                assert(items_ready(itr.items@, iss.state@));
                assert(content_ready(content, cs));
            }
        },
    }
}











} // verus!
