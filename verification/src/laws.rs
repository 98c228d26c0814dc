//! General properties of the flex layout algebra, stated and proved over
//! the same spec functions the layout pass is verified against.

use vstd::prelude::*;
use vstd::arithmetic::div_mod::lemma_fundamental_div_mod;
use crate::flex::{FlexContent, FlexItem};
use crate::geom::{clamp_reported_spec, Axis, LayoutConstraint};
use crate::measure::{
    expand_share, flex_measure, flex_measured_primary, flex_share_constraint, pass_a,
    pass_a_items, pass_b, pass_b_items,
};
use crate::widget::clamp_u32;

verus! {

/// With no expanding children, pass B measures nothing.
pub proof fn lemma_no_expand_pass_b_zero(
    content: FlexContent,
    axis: Axis,
    share: Option<u32>,
    sec: Option<u32>,
)
    requires
        pass_a(content, axis, sec).expand_count == 0,
    ensures
        pass_b(content, axis, share, sec).sum == 0,
    decreases content,
{
    match content {
        FlexContent::Empty(_) => {
            assert(pass_b(content, axis, share, sec).sum == 0);
        },
        FlexContent::Item(it) => {
            assert(pass_a(content, axis, sec) == crate::measure::pass_a_one(it, axis, sec));
            assert(!it.expand);
            assert(pass_b(content, axis, share, sec) == crate::measure::pass_b_one(
                it,
                axis,
                share,
                sec,
            ));
        },
        FlexContent::Chain(t) => {
            crate::layout::lemma_pass_a_bounds(t.a, axis, sec);
            crate::layout::lemma_pass_a_bounds(t.b, axis, sec);
            assert(pass_a(content, axis, sec) == crate::measure::pass_a_combine(
                pass_a(t.a, axis, sec),
                pass_a(t.b, axis, sec),
            ));
            lemma_no_expand_pass_b_zero(t.a, axis, share, sec);
            lemma_no_expand_pass_b_zero(t.b, axis, share, sec);
            assert(pass_b(content, axis, share, sec) == crate::measure::pass_b_combine(
                pass_b(t.a, axis, share, sec),
                pass_b(t.b, axis, share, sec),
            ));
        },
        FlexContent::Iter(itr) => {
            assert(pass_a(content, axis, sec) == pass_a_items(itr.items@, axis, sec));
            lemma_no_expand_pass_b_items_zero(itr.items@, axis, share, sec);
            assert(pass_b(content, axis, share, sec) == pass_b_items(itr.items@, axis, share, sec));
        },
    }
}

pub proof fn lemma_no_expand_pass_b_items_zero(
    items: Seq<FlexItem>,
    axis: Axis,
    share: Option<u32>,
    sec: Option<u32>,
)
    requires
        pass_a_items(items, axis, sec).expand_count == 0,
    ensures
        pass_b_items(items, axis, share, sec).sum == 0,
    decreases items,
{
    if items.len() > 0 {
        crate::layout::lemma_pass_a_items_bounds(items.drop_last(), axis, sec);
        assert(pass_a_items(items, axis, sec) == crate::measure::pass_a_combine(
            pass_a_items(items.drop_last(), axis, sec),
            crate::measure::pass_a_one(items.last(), axis, sec),
        ));
        lemma_no_expand_pass_b_items_zero(items.drop_last(), axis, share, sec);
        assert(!items.last().expand);
        assert(pass_b_items(items, axis, share, sec) == crate::measure::pass_b_combine(
            pass_b_items(items.drop_last(), axis, share, sec),
            crate::measure::pass_b_one(items.last(), axis, share, sec),
        ));
    } else {
        assert(pass_b_items(items, axis, share, sec).sum == 0);
    }
}

/// Floor behavior: a container with no expanding children measures, on
/// its primary axis, exactly the sum of its children's unconstrained
/// primary extents — whatever primary constraint the container itself
/// was given — and reports the larger of that sum and its constraint.
pub proof fn theorem_no_expand_floor(content: FlexContent, axis: Axis, c: LayoutConstraint)
    requires
        pass_a(content, axis, c.secondary_spec(axis)).expand_count == 0,
    ensures
        flex_measured_primary(content, axis, c) == clamp_u32(
            pass_a(content, axis, c.secondary_spec(axis)).no_expand,
        ),
        flex_measure(content, axis, c).primary_spec(axis) == clamp_reported_spec(
            c.primary_spec(axis),
            clamp_u32(pass_a(content, axis, c.secondary_spec(axis)).no_expand),
        ),
{
    let sec = c.secondary_spec(axis);
    crate::layout::lemma_pass_a_bounds(content, axis, sec);
    lemma_no_expand_pass_b_zero(content, axis, flex_share_constraint(content, axis, c), sec);
}

/// The measured primary extent does not depend on the container's own
/// primary constraint when no child expands: only the secondary
/// constraint reaches the children.
pub proof fn theorem_no_expand_constraint_free(
    content: FlexContent,
    axis: Axis,
    c1: LayoutConstraint,
    c2: LayoutConstraint,
)
    requires
        pass_a(content, axis, c1.secondary_spec(axis)).expand_count == 0,
        c1.secondary_spec(axis) == c2.secondary_spec(axis),
    ensures
        flex_measured_primary(content, axis, c1) == flex_measured_primary(content, axis, c2),
{
    theorem_no_expand_floor(content, axis, c1);
    theorem_no_expand_floor(content, axis, c2);
}

/// Exact distribution: with expanding children present and a finite
/// primary constraint no smaller than the non-expanding children's
/// total, every expanding child receives the same share, and — when the
/// leftover divides evenly — the non-expanding extents plus the shares
/// sum to the constraint exactly.
pub proof fn theorem_expand_fills_constraint(given: u32, no_expand: u32, count: u32)
    requires
        count > 0,
        given >= no_expand,
        (given - no_expand) as int % (count as int) == 0,
    ensures
        no_expand as int + count as int * expand_share(given, no_expand, count) as int
            == given as int,
{
    let leftover = (given - no_expand) as int;
    lemma_fundamental_div_mod(leftover, count as int);
}

/// Integer drift bound: even when the leftover does not divide evenly,
/// the non-expanding extents plus the equal integer shares cover the
/// constraint up to a remainder smaller than the number of expanding
/// children — the integer analogue of no rounding drift.
pub proof fn theorem_expand_drift_bound(given: u32, no_expand: u32, count: u32)
    requires
        count > 0,
        given >= no_expand,
    ensures
        no_expand as int + count as int * expand_share(given, no_expand, count) as int
            <= given as int,
        (given as int) < no_expand as int + count as int * expand_share(
            given,
            no_expand,
            count,
        ) as int + count as int,
{
    let leftover = (given - no_expand) as int;
    lemma_fundamental_div_mod(leftover, count as int);
    vstd::arithmetic::div_mod::lemma_mod_bound(leftover, count as int);
}

/// [`theorem_expand_fills_constraint`] applied to a child list: the
/// share the layout pass hands each expanding child makes the walk over
/// the children fill the given primary extent exactly.
pub proof fn theorem_flex_share_fills(content: FlexContent, axis: Axis, c: LayoutConstraint, given: u32)
    requires
        c.primary_spec(axis) == Some(given),
        pass_a(content, axis, c.secondary_spec(axis)).expand_count > 0,
        given >= clamp_u32(pass_a(content, axis, c.secondary_spec(axis)).no_expand),
        (given - clamp_u32(pass_a(content, axis, c.secondary_spec(axis)).no_expand)) as int % (
        clamp_u32(pass_a(content, axis, c.secondary_spec(axis)).expand_count) as int) == 0,
    ensures
        flex_share_constraint(content, axis, c) matches Some(share) && clamp_u32(
            pass_a(content, axis, c.secondary_spec(axis)).no_expand,
        ) as int + clamp_u32(pass_a(content, axis, c.secondary_spec(axis)).expand_count) as int
            * share as int == given as int,
{
    let sec = c.secondary_spec(axis);
    let a = pass_a(content, axis, sec);
    crate::layout::lemma_pass_a_bounds(content, axis, sec);
    theorem_expand_fills_constraint(given, clamp_u32(a.no_expand), clamp_u32(a.expand_count));
}

} // verus!
