//! Refinements: partial overrides of a style.
//!
//! A style is a record of visual properties; a refinement of it says, for
//! each property, either nothing or a value to use instead. Refinements are
//! layered: one refined by a second keeps its own opinion wherever the second
//! has none.

use vstd::prelude::*;

verus! {

/// A partial override of a style.
///
/// Implementations say what layering means for their type through
/// [`Refinement::refined`] and prove that the refinement that overrides
/// nothing is neutral on both sides. An `Option` refines one property, and a
/// pair of refinements refines a style of two parts, so nested pairs of
/// options describe a style of any number of properties.
pub trait Refinement: Sized {
    /// The refinement that overrides nothing.
    spec fn unset() -> Self;

    /// `self` with `over` layered on top: wherever `over` has an opinion it
    /// wins, elsewhere `self` stays.
    spec fn refined(self, over: Self) -> Self;

    /// Layering nothing on top changes nothing, and layering on top of
    /// nothing gives what was layered.
    proof fn lemma_unset_is_neutral(r: Self)
        ensures
            r.refined(Self::unset()) == r,
            Self::unset().refined(r) == r,
    ;

    /// A refinement that overrides nothing.
    fn empty() -> (r: Self)
        ensures
            r == Self::unset(),
    ;

    /// A second copy of this refinement.
    fn duplicate(&self) -> (r: Self)
        ensures
            r == *self,
    ;

    /// Layers `over` on top of this refinement.
    fn refine(&mut self, over: &Self)
        ensures
            *final(self) == old(self).refined(*over),
    ;
}

/// The refinement of a single property: `None` leaves the property alone,
/// `Some(v)` replaces it by `v`.
impl<T: Copy> Refinement for Option<T> {
    open spec fn unset() -> Option<T> {
        None
    }

    open spec fn refined(self, over: Option<T>) -> Option<T> {
        match over {
            Some(_) => over,
            None => self,
        }
    }

    proof fn lemma_unset_is_neutral(r: Option<T>) {
    }

    fn empty() -> (r: Option<T>) {
        None
    }

    fn duplicate(&self) -> (r: Option<T>) {
        *self
    }

    fn refine(&mut self, over: &Option<T>) {
        if let Some(value) = over {
            *self = Some(*value);
        }
    }
}

/// The refinement of a style with two parts refines each part by itself.
impl<A: Refinement, B: Refinement> Refinement for (A, B) {
    open spec fn unset() -> (A, B) {
        (A::unset(), B::unset())
    }

    open spec fn refined(self, over: (A, B)) -> (A, B) {
        (self.0.refined(over.0), self.1.refined(over.1))
    }

    proof fn lemma_unset_is_neutral(r: (A, B)) {
        A::lemma_unset_is_neutral(r.0);
        B::lemma_unset_is_neutral(r.1);
    }

    fn empty() -> (r: (A, B)) {
        (A::empty(), B::empty())
    }

    fn duplicate(&self) -> (r: (A, B)) {
        (self.0.duplicate(), self.1.duplicate())
    }

    fn refine(&mut self, over: &(A, B)) {
        self.0.refine(&over.0);
        self.1.refine(&over.1);
    }
}

} // verus!
