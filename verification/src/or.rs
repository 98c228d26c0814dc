//! An either-of-up-to-four combinator for widget state.
//!
//! A slot whose widget alternates between a few concrete shapes — a
//! checkbox showing a checkmark or an empty box — can keep one state
//! value per shape in an [`OrState`]; the accessors answer which shape
//! currently occupies the slot.

use vstd::prelude::*;
use crate::drawables::NoneWidget;

verus! {

/// One of up to four alternative widgets.
#[derive(Debug)]
pub enum OrWidget<A = NoneWidget, B = NoneWidget, C = NoneWidget, D = NoneWidget> {
    A(A),
    B(B),
    C(C),
    D(D),
}

/// The state of an [`OrWidget`] slot: empty until first laid out, then
/// the state of whichever alternative was built.
#[derive(Debug)]
pub enum OrState<A = (), B = (), C = (), D = ()> {
    Vacant,
    A(A),
    B(B),
    C(C),
    D(D),
}

impl<A, B, C, D> OrState<A, B, C, D> {
    /// The first alternative's state, when that is what the slot holds.
    pub fn as_a(&self) -> (r: Option<&A>)
        ensures
            match r {
                Some(v) => self matches OrState::A(w) && v == w,
                None => !(*self is A),
            },
    {
        if let OrState::A(w) = self {
            Some(w)
        } else {
            None
        }
    }

    /// The second alternative's state, when that is what the slot holds.
    pub fn as_b(&self) -> (r: Option<&B>)
        ensures
            match r {
                Some(v) => self matches OrState::B(w) && v == w,
                None => !(*self is B),
            },
    {
        if let OrState::B(w) = self {
            Some(w)
        } else {
            None
        }
    }

    /// The third alternative's state, when that is what the slot holds.
    pub fn as_c(&self) -> (r: Option<&C>)
        ensures
            match r {
                Some(v) => self matches OrState::C(w) && v == w,
                None => !(*self is C),
            },
    {
        if let OrState::C(w) = self {
            Some(w)
        } else {
            None
        }
    }

    /// The fourth alternative's state, when that is what the slot holds.
    pub fn as_d(&self) -> (r: Option<&D>)
        ensures
            match r {
                Some(v) => self matches OrState::D(w) && v == w,
                None => !(*self is D),
            },
    {
        if let OrState::D(w) = self {
            Some(w)
        } else {
            None
        }
    }

    /// Exclusive access to the first alternative's state.
    pub fn as_a_mut(&mut self) -> (r: Option<&mut A>)
        ensures
            match r {
                Some(v) => ({
                    &&& *old(self) matches OrState::A(w) && *v == w
                    &&& *final(self) matches OrState::A(w2) && w2 == *final(v)
                }),
                None => !(*old(self) is A) && *final(self) == *old(self),
            },
    {
        if let OrState::A(w) = self {
            Some(w)
        } else {
            None
        }
    }

    /// Exclusive access to the second alternative's state.
    pub fn as_b_mut(&mut self) -> (r: Option<&mut B>)
        ensures
            match r {
                Some(v) => ({
                    &&& *old(self) matches OrState::B(w) && *v == w
                    &&& *final(self) matches OrState::B(w2) && w2 == *final(v)
                }),
                None => !(*old(self) is B) && *final(self) == *old(self),
            },
    {
        if let OrState::B(w) = self {
            Some(w)
        } else {
            None
        }
    }

    /// Exclusive access to the third alternative's state.
    pub fn as_c_mut(&mut self) -> (r: Option<&mut C>)
        ensures
            match r {
                Some(v) => ({
                    &&& *old(self) matches OrState::C(w) && *v == w
                    &&& *final(self) matches OrState::C(w2) && w2 == *final(v)
                }),
                None => !(*old(self) is C) && *final(self) == *old(self),
            },
    {
        if let OrState::C(w) = self {
            Some(w)
        } else {
            None
        }
    }

    /// Exclusive access to the fourth alternative's state.
    pub fn as_d_mut(&mut self) -> (r: Option<&mut D>)
        ensures
            match r {
                Some(v) => ({
                    &&& *old(self) matches OrState::D(w) && *v == w
                    &&& *final(self) matches OrState::D(w2) && w2 == *final(v)
                }),
                None => !(*old(self) is D) && *final(self) == *old(self),
            },
    {
        if let OrState::D(w) = self {
            Some(w)
        } else {
            None
        }
    }
}

} // verus!
