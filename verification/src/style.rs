//! The capability of taking part in a style cascade.

use vstd::prelude::*;
use crate::cascade::RefinementCascade;
use crate::refinement::Refinement;

verus! {

/// An element that owns, or shares, a cascade of refinements of its style,
/// and that declares one refinement of its own.
///
/// The contracts speak of an element through its view. The cascade is a part
/// of that view that can be read ([`Styleable::cascade_of`]) and replaced
/// ([`Styleable::with_cascade`]) without touching the rest, and so is the
/// declared refinement. Handing out a mutable borrow of either changes the
/// element in that part alone, to whatever the borrower leaves there.
pub trait Styleable: View + Sized {
    /// The refinement type of the element's style.
    type Refinement: Refinement;

    /// The cascade of an element with view `model`, from the base up.
    spec fn cascade_of(model: Self::V) -> Seq<Option<Self::Refinement>>;

    /// `model` with its cascade replaced by `cascade`.
    spec fn with_cascade(model: Self::V, cascade: Seq<Option<Self::Refinement>>) -> Self::V;

    /// The refinement that an element with view `model` declares.
    spec fn declared_of(model: Self::V) -> Self::Refinement;

    /// `model` with its declared refinement replaced by `declared`.
    spec fn with_declared(model: Self::V, declared: Self::Refinement) -> Self::V;

    /// Reading the cascade gives what was last put there; putting twice is
    /// putting the second; and putting back what was read changes nothing.
    proof fn lemma_cascade_replaced(
        model: Self::V,
        first: Seq<Option<Self::Refinement>>,
        second: Seq<Option<Self::Refinement>>,
    )
        ensures
            Self::cascade_of(Self::with_cascade(model, first)) == first,
            Self::with_cascade(Self::with_cascade(model, first), second) == Self::with_cascade(
                model,
                second,
            ),
            Self::with_cascade(model, Self::cascade_of(model)) == model,
    ;

    /// The cascade that the element's style is merged from.
    fn style_cascade(&mut self) -> (cascade: &mut RefinementCascade<Self::Refinement>)
        ensures
            cascade@ == Self::cascade_of(old(self)@),
            final(self)@ == Self::with_cascade(old(self)@, final(cascade)@),
    ;

    /// The refinement that the element itself declares.
    fn declared_style(&mut self) -> (declared: &mut Self::Refinement)
        ensures
            *declared == Self::declared_of(old(self)@),
            final(self)@ == Self::with_declared(old(self)@, *final(declared)),
    ;
}

} // verus!
