//! The hover decorator.

use vstd::prelude::*;
use crate::cascade::{CascadeSlot, RefinementCascade};
use crate::context::{Layout, LayoutContext, PaintContext, PaintContextView};
use crate::element::Element;
use crate::event::HoverListener;
use crate::geometry::{Bounds, Point};
use crate::refinement::Refinement;
use crate::style::Styleable;

verus! {

/// An element that shows its child, styled by one more refinement while the
/// pointer is over it.
///
/// The decorator has no cascade of its own. It shares the child's, in which
/// it holds one slot for its whole life, and it declares the refinement that
/// goes into that slot while the child is hovered.
pub struct Hoverable<E: Styleable> {
    hovered: bool,
    cascade_slot: CascadeSlot,
    hovered_style: E::Refinement,
    child: E,
}

/// A decorator as a value.
pub struct HoverableView<E: Styleable> {
    /// What the latest paint pass found: whether the pointer was inside.
    pub hovered: bool,
    /// The decorator's slot in the child's cascade.
    pub cascade_slot: CascadeSlot,
    /// The refinement to apply while hovered.
    pub hovered_style: E::Refinement,
    /// The wrapped element.
    pub child: E::V,
}

impl<E: Styleable> View for Hoverable<E> {
    type V = HoverableView<E>;

    closed spec fn view(&self) -> HoverableView<E> {
        HoverableView {
            hovered: self.hovered,
            cascade_slot: self.cascade_slot,
            hovered_style: self.hovered_style,
            child: self.child@,
        }
    }
}

/// What a decorator puts into its slot: its hover style while hovered, and
/// nothing otherwise.
pub open spec fn hover_refinement<R>(hovered: bool, hovered_style: R) -> Option<R> {
    if hovered {
        Some(hovered_style)
    } else {
        None
    }
}

impl<E: Styleable> HoverableView<E> {
    /// Whether the decorator's slot is a position of the child's cascade. It
    /// is from the start, and stays so for as long as the cascade is only
    /// reserved from and set.
    pub open spec fn has_slot(self) -> bool {
        self.cascade_slot.index() < E::cascade_of(self.child).len()
    }

    /// What the decorator's slot holds.
    pub open spec fn slot_value(self) -> Option<E::Refinement> {
        E::cascade_of(self.child)[self.cascade_slot.index() as int]
    }

    /// The decorator after the hover update for a pass that finds the child
    /// at `bounds` and the pointer at `pointer`: the flag says whether the
    /// pointer is inside, and the slot is replaced by the hover style or
    /// cleared accordingly. Nothing is merged with what the slot held.
    pub open spec fn hover_updated(self, bounds: Bounds, pointer: Option<Point>) -> HoverableView<E> {
        let hovered = bounds.contains_pointer(pointer);
        HoverableView {
            hovered,
            child: E::with_cascade(
                self.child,
                E::cascade_of(self.child).update(
                    self.cascade_slot.index() as int,
                    hover_refinement(hovered, self.hovered_style),
                ),
            ),
            ..self
        }
    }

    /// The listener that the same pass registers.
    pub open spec fn hover_listener(self, bounds: Bounds, pointer: Option<Point>) -> HoverListener {
        HoverListener { bounds, hovered: bounds.contains_pointer(pointer) }
    }
}

/// Wraps `child`. The decorator reserves a slot on top of the child's
/// cascade, is not hovered, and has a hover style that overrides nothing
/// until [`Styleable::declared_style`] is used to say otherwise.
pub fn hoverable<E: Styleable>(child: E) -> (decorated: Hoverable<E>)
    ensures
        !decorated@.hovered,
        decorated@.hovered_style == <E::Refinement as Refinement>::unset(),
        decorated@.cascade_slot.index() == E::cascade_of(child@).len(),
        decorated@.child == E::with_cascade(child@, E::cascade_of(child@).push(None)),
        decorated@.has_slot(),
        decorated@.slot_value() is None,
{
    let mut child = child;
    let ghost before = child@;
    let cascade_slot = child.style_cascade().reserve();
    proof {
        E::lemma_cascade_replaced(
            before,
            E::cascade_of(before).push(None),
            E::cascade_of(before).push(None),
        );
    }
    Hoverable {
        hovered: false,
        cascade_slot,
        hovered_style: <E::Refinement as Refinement>::empty(),
        child,
    }
}

impl<E: Styleable> Hoverable<E> {
    /// Whether the latest paint pass found the pointer over the child.
    pub fn is_hovered(&self) -> (hovered: bool)
        ensures
            hovered == self@.hovered,
    {
        self.hovered
    }

    /// The decorator's slot in the child's cascade.
    pub fn cascade_slot(&self) -> (slot: CascadeSlot)
        ensures
            slot == self@.cascade_slot,
    {
        self.cascade_slot
    }

    /// The wrapped element.
    pub fn child(&self) -> (child: &E)
        ensures
            child@ == self@.child,
    {
        &self.child
    }

    /// The hover update of one paint pass, for a child that layout put at
    /// `bounds` and a pointer at `mouse_position`. It sets the flag, replaces
    /// what the slot holds, and returns the listener that goes with the new
    /// flag, for the caller to register.
    pub fn update_hover(&mut self, bounds: Bounds, mouse_position: Option<Point>) -> (listener:
        HoverListener)
        requires
            old(self)@.has_slot(),
        ensures
            final(self)@ == old(self)@.hover_updated(bounds, mouse_position),
            final(self)@.hovered == bounds.contains_pointer(mouse_position),
            final(self)@.cascade_slot == old(self)@.cascade_slot,
            final(self)@.has_slot(),
            final(self)@.slot_value() == hover_refinement(
                bounds.contains_pointer(mouse_position),
                old(self)@.hovered_style,
            ),
            listener == old(self)@.hover_listener(bounds, mouse_position),
            listener.hovered == final(self)@.hovered,
    {
        let ghost before = self@;
        self.hovered = bounds.is_hovered_by(mouse_position);
        let slot = self.cascade_slot;
        let style = if self.hovered {
            Some(self.hovered_style.duplicate())
        } else {
            None
        };
        self.style_cascade().set(slot, style);
        proof {
            let cascade = E::cascade_of(before.child).update(slot.index() as int, style);
            E::lemma_cascade_replaced(before.child, cascade, cascade);
        }
        HoverListener { bounds, hovered: self.hovered }
    }
}

impl<E: Styleable> Styleable for Hoverable<E> {
    type Refinement = E::Refinement;

    /// The decorator shows the child's cascade as its own.
    open spec fn cascade_of(model: HoverableView<E>) -> Seq<Option<E::Refinement>> {
        E::cascade_of(model.child)
    }

    open spec fn with_cascade(
        model: HoverableView<E>,
        cascade: Seq<Option<E::Refinement>>,
    ) -> HoverableView<E> {
        HoverableView { child: E::with_cascade(model.child, cascade), ..model }
    }

    /// The decorator declares its hover style, not the child's style.
    open spec fn declared_of(model: HoverableView<E>) -> E::Refinement {
        model.hovered_style
    }

    open spec fn with_declared(model: HoverableView<E>, declared: E::Refinement) -> HoverableView<E> {
        HoverableView { hovered_style: declared, ..model }
    }

    proof fn lemma_cascade_replaced(
        model: HoverableView<E>,
        first: Seq<Option<E::Refinement>>,
        second: Seq<Option<E::Refinement>>,
    ) {
        E::lemma_cascade_replaced(model.child, first, second);
    }

    /// The child's cascade: the decorator makes none of its own.
    fn style_cascade(&mut self) -> (cascade: &mut RefinementCascade<E::Refinement>)
        ensures
            final(self)@.hovered == old(self)@.hovered,
            final(self)@.cascade_slot == old(self)@.cascade_slot,
            final(self)@.hovered_style == old(self)@.hovered_style,
    {
        self.child.style_cascade()
    }

    /// The hover style. Editing it changes what the next hovered pass puts
    /// into the slot, and leaves the cascade as it is.
    fn declared_style(&mut self) -> (declared: &mut E::Refinement)
        ensures
            Self::cascade_of(final(self)@) == Self::cascade_of(old(self)@),
            final(self)@.hovered == old(self)@.hovered,
            final(self)@.cascade_slot == old(self)@.cascade_slot,
            final(self)@.child == old(self)@.child,
    {
        &mut self.hovered_style
    }
}

impl<U, E: Element<U> + Styleable> Element<U> for Hoverable<E> {
    type Layout = <E as Element<U>>::Layout;

    /// The decorator may be laid out whenever its child may.
    open spec fn layout_requires(model: HoverableView<E>, view: U, cx: LayoutContext) -> bool {
        E::layout_requires(model.child, view, cx)
    }

    /// Layout is the child's layout: the same result, the same effect on the
    /// state and the pass, and no change to the decorator but in its child.
    open spec fn layout_ensures(
        pre: HoverableView<E>,
        pre_view: U,
        pre_cx: LayoutContext,
        post: HoverableView<E>,
        post_view: U,
        post_cx: LayoutContext,
        result: Result<Layout<<E as Element<U>>::Layout>, anyhow::Error>,
    ) -> bool {
        &&& E::layout_ensures(pre.child, pre_view, pre_cx, post.child, post_view, post_cx, result)
        &&& post == (HoverableView { child: post.child, ..pre })
    }

    /// The decorator may be painted when its slot is in the child's cascade
    /// and the child may be painted after the hover update, in the pass that
    /// already holds the decorator's listener.
    open spec fn paint_requires(
        model: HoverableView<E>,
        view: U,
        layout: Layout<<E as Element<U>>::Layout>,
        cx: PaintContextView,
    ) -> bool {
        &&& model.has_slot()
        &&& E::paint_requires(
            model.hover_updated(layout.bounds, cx.mouse_position).child,
            view,
            layout,
            cx.with_listener(
                layout.order,
                model.hover_listener(layout.bounds, cx.mouse_position),
            ),
        )
    }

    /// Paint is the hover update, then the registration of the listener under
    /// the layout's paint order, then the child's paint.
    open spec fn paint_ensures(
        pre: HoverableView<E>,
        pre_view: U,
        pre_layout: Layout<<E as Element<U>>::Layout>,
        pre_cx: PaintContextView,
        post: HoverableView<E>,
        post_view: U,
        post_layout: Layout<<E as Element<U>>::Layout>,
        post_cx: PaintContextView,
    ) -> bool {
        let updated = pre.hover_updated(pre_layout.bounds, pre_cx.mouse_position);
        &&& E::paint_ensures(
            updated.child,
            pre_view,
            pre_layout,
            pre_cx.with_listener(
                pre_layout.order,
                pre.hover_listener(pre_layout.bounds, pre_cx.mouse_position),
            ),
            post.child,
            post_view,
            post_layout,
            post_cx,
        )
        &&& post == (HoverableView { child: post.child, ..updated })
    }

    /// Hands the call to the child and the child's answer back, a failure
    /// included.
    fn layout(&mut self, view: &mut U, cx: &mut LayoutContext) -> (result: Result<
        Layout<<E as Element<U>>::Layout>,
        anyhow::Error,
    >)
        ensures
            E::layout_ensures(
                old(self)@.child,
                *old(view),
                *old(cx),
                final(self)@.child,
                *final(view),
                *final(cx),
                result,
            ),
            final(self)@.hovered == old(self)@.hovered,
            final(self)@.cascade_slot == old(self)@.cascade_slot,
            final(self)@.hovered_style == old(self)@.hovered_style,
    {
        self.child.layout(view, cx)
    }

    /// One paint pass over the decorator and its child.
    fn paint(
        &mut self,
        view: &mut U,
        layout: &mut Layout<<E as Element<U>>::Layout>,
        cx: &mut PaintContext,
    )
        ensures
            E::paint_ensures(
                old(self)@.hover_updated(old(layout).bounds, old(cx)@.mouse_position).child,
                *old(view),
                *old(layout),
                old(cx)@.with_listener(
                    old(layout).order,
                    old(self)@.hover_listener(old(layout).bounds, old(cx)@.mouse_position),
                ),
                final(self)@.child,
                *final(view),
                *final(layout),
                final(cx)@,
            ),
            final(self)@.hovered == old(layout).bounds.contains_pointer(old(cx)@.mouse_position),
            final(self)@.cascade_slot == old(self)@.cascade_slot,
            final(self)@.hovered_style == old(self)@.hovered_style,
    {
        let bounds = layout.bounds();
        let order: u32 = layout.order();

        let listener = self.update_hover(bounds, cx.mouse_position());
        cx.on_event(order, listener);

        self.child.paint(view, layout, cx);
    }
}

} // verus!
