//! The cascade: an ordered stack of optional refinements that merge into one.
//!
//! Position 0 is the base refinement and is always present. Every further
//! position is a slot that was reserved once and is from then on addressed by
//! its [`CascadeSlot`]. A slot is either cleared or holds a refinement; the
//! merge layers the slots that hold one over the base, lowest first, so a
//! slot reserved later wins over one reserved earlier.

use vstd::prelude::*;
use crate::refinement::Refinement;

verus! {

/// A handle to one reserved position of a cascade.
///
/// Handles are made by [`RefinementCascade::reserve`] alone and never point
/// at the base.
#[derive(Clone, Copy, Debug, PartialEq, Eq, Structural)]
pub struct CascadeSlot {
    offset: usize,
}

impl CascadeSlot {
    #[verifier::type_invariant]
    spec fn addressable(self) -> bool {
        self.offset < usize::MAX
    }

    /// The position that the handle stands for.
    pub closed spec fn index(self) -> nat {
        (self.offset + 1) as nat
    }

    /// The position as a number, for callers that keep a table by slot.
    pub fn position(&self) -> (i: usize)
        ensures
            i == self.index(),
    {
        proof {
            use_type_invariant(self);
        }
        self.offset + 1
    }

    /// A handle never stands for the base, and two handles for one position
    /// are the same handle.
    pub proof fn lemma_index(self, other: CascadeSlot)
        ensures
            self.index() >= 1,
            self.index() == other.index() ==> self == other,
    {
    }
}

/// The stack of refinements of one styled subject.
pub struct RefinementCascade<R> {
    base: R,
    overrides: Vec<Option<R>>,
}

impl<R> View for RefinementCascade<R> {
    type V = Seq<Option<R>>;

    /// The positions from the base up, each with what it holds.
    closed spec fn view(&self) -> Seq<Option<R>> {
        seq![Some(self.base)].add(self.overrides@)
    }
}

/// What a stack of slots merges into: the refinements that are present,
/// layered from the lowest position up over the refinement that overrides
/// nothing.
pub open spec fn merged_spec<R: Refinement>(slots: Seq<Option<R>>) -> R
    decreases slots.len(),
{
    if slots.len() == 0 {
        R::unset()
    } else {
        let below = merged_spec(slots.drop_last());
        match slots.last() {
            Some(r) => below.refined(r),
            None => below,
        }
    }
}

/// The merge of a cascade that ends in `top` is the merge of what lies below,
/// refined by `top` if `top` holds a refinement.
pub proof fn lemma_merged_push<R: Refinement>(below: Seq<Option<R>>, top: Option<R>)
    ensures
        merged_spec(below.push(top)) == match top {
            Some(r) => merged_spec(below).refined(r),
            None => merged_spec(below),
        },
{
    assert(below.push(top).drop_last() =~= below);
}

/// A cascade of the base alone merges into the base.
pub proof fn lemma_merged_base<R: Refinement>(base: R)
    ensures
        merged_spec(seq![Some(base)]) == base,
{
    R::lemma_unset_is_neutral(base);
    lemma_merged_push(Seq::<Option<R>>::empty(), Some(base));
    assert(Seq::<Option<R>>::empty().push(Some(base)) =~= seq![Some(base)]);
}

/// A cleared slot takes no part in the merge: the cascade merges as if the
/// position were not there.
pub proof fn lemma_merged_skips_cleared<R: Refinement>(slots: Seq<Option<R>>, i: int)
    requires
        0 <= i < slots.len(),
    ensures
        merged_spec(slots.update(i, None)) == merged_spec(slots.remove(i)),
    decreases slots.len(),
{
    let cleared = slots.update(i, None);
    let removed = slots.remove(i);
    if i == slots.len() - 1 {
        assert(cleared.drop_last() =~= removed);
    } else {
        assert(cleared.drop_last() =~= slots.drop_last().update(i, None));
        assert(removed.drop_last() =~= slots.drop_last().remove(i));
        assert(removed.last() == slots.last());
        lemma_merged_skips_cleared(slots.drop_last(), i);
    }
}

impl<R> RefinementCascade<R> {
    /// A cascade that holds `base` and no slot.
    pub fn with_base(base: R) -> (cascade: Self)
        ensures
            cascade@ == seq![Some(base)],
    {
        RefinementCascade { base, overrides: Vec::new() }
    }

    /// The base is always there.
    pub proof fn lemma_has_base(&self)
        ensures
            self@.len() >= 1,
            self@[0] is Some,
    {
    }

    /// Adds a cleared slot on top and returns its handle.
    pub fn reserve(&mut self) -> (slot: CascadeSlot)
        ensures
            final(self)@ == old(self)@.push(None),
            slot.index() == old(self)@.len(),
    {
        self.overrides.push(None);
        CascadeSlot { offset: self.overrides.len() - 1 }
    }

    /// The base refinement, to be edited in place.
    pub fn base(&mut self) -> (base: &mut R)
        ensures
            old(self)@.len() >= 1,
            old(self)@[0] == Some(*base),
            final(self)@ == old(self)@.update(0, Some(*final(base))),
    {
        &mut self.base
    }

    /// The number of slots that have been reserved.
    pub fn slots(&self) -> (n: usize)
        ensures
            n == self@.len() - 1,
    {
        self.overrides.len()
    }

    /// Whether `slot` is a position of this cascade.
    pub fn has_slot(&self, slot: CascadeSlot) -> (present: bool)
        ensures
            present == (slot.index() < self@.len()),
    {
        slot.offset < self.overrides.len()
    }

    /// Replaces what `slot` holds by `refinement`; `None` clears the slot.
    /// No other position changes.
    pub fn set(&mut self, slot: CascadeSlot, refinement: Option<R>)
        requires
            slot.index() < old(self)@.len(),
        ensures
            final(self)@ == old(self)@.update(slot.index() as int, refinement),
    {
        self.overrides[slot.offset] = refinement;
    }

    /// What `slot` holds.
    pub fn get(&self, slot: CascadeSlot) -> (held: &Option<R>)
        requires
            slot.index() < self@.len(),
        ensures
            *held == self@[slot.index() as int],
    {
        &self.overrides[slot.offset]
    }
}

impl<R: Refinement> Default for RefinementCascade<R> {
    /// A cascade whose base overrides nothing, with no slot.
    fn default() -> (cascade: Self)
        ensures
            cascade@ == seq![Some(R::unset())],
    {
        RefinementCascade::new()
    }
}

impl<R: Refinement> RefinementCascade<R> {
    /// A cascade whose base overrides nothing, with no slot.
    pub fn new() -> (cascade: Self)
        ensures
            cascade@ == seq![Some(R::unset())],
    {
        RefinementCascade { base: R::empty(), overrides: Vec::new() }
    }

    /// The one refinement that the cascade amounts to.
    pub fn merged(&self) -> (merged: R)
        ensures
            merged == merged_spec(self@),
    {
        let mut merged = self.base.duplicate();
        proof {
            lemma_merged_base(self.base);
            assert(self@.take(1) =~= seq![Some(self.base)]);
        }
        let mut i: usize = 0;
        while i < self.overrides.len()
            invariant
                i <= self.overrides.len(),
                merged == merged_spec(self@.take(i + 1)),
            decreases self.overrides.len() - i,
        {
            proof {
                assert(self@.take(i + 2).drop_last() =~= self@.take(i + 1));
                assert(self@.take(i + 2).last() == self.overrides@[i as int]);
            }
            if let Some(refinement) = &self.overrides[i] {
                merged.refine(refinement);
            }
            i += 1;
        }
        proof {
            assert(self@.take(self.overrides.len() + 1) =~= self@);
        }
        merged
    }
}

} // verus!
