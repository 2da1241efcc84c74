//! The elements of the tree.

use vstd::prelude::*;
use crate::context::{Layout, LayoutContext, PaintContext, PaintContextView};

verus! {

/// A node of the interface tree: it is laid out, then painted.
///
/// `U` is the state of the interface that the tree shows. The tree hands it
/// to every element, and this library never looks inside.
///
/// An implementation says when each of the two calls is allowed and how the
/// states before and after it are related, through four predicates over the
/// element's view and the values that go in and out. A decorator can then say
/// of its child's call exactly what the child says of it.
pub trait Element<U>: View + Sized {
    /// What the element attaches to its layout for its own paint.
    type Layout;

    /// Whether an element with view `model` may be laid out with `view` in
    /// the pass `cx`.
    spec fn layout_requires(model: Self::V, view: U, cx: LayoutContext) -> bool;

    /// Whether a layout call that starts from `pre`, `pre_view` and `pre_cx`
    /// may end in `post`, `post_view` and `post_cx` and return `result`.
    spec fn layout_ensures(
        pre: Self::V,
        pre_view: U,
        pre_cx: LayoutContext,
        post: Self::V,
        post_view: U,
        post_cx: LayoutContext,
        result: Result<Layout<Self::Layout>, anyhow::Error>,
    ) -> bool;

    /// Whether an element with view `model` may be painted with `view` and
    /// `layout` in the pass `cx`.
    spec fn paint_requires(
        model: Self::V,
        view: U,
        layout: Layout<Self::Layout>,
        cx: PaintContextView,
    ) -> bool;

    /// Whether a paint call that starts from the `pre` values may end in the
    /// `post` values.
    spec fn paint_ensures(
        pre: Self::V,
        pre_view: U,
        pre_layout: Layout<Self::Layout>,
        pre_cx: PaintContextView,
        post: Self::V,
        post_view: U,
        post_layout: Layout<Self::Layout>,
        post_cx: PaintContextView,
    ) -> bool;

    /// Computes the element's geometry, or fails.
    fn layout(&mut self, view: &mut U, cx: &mut LayoutContext) -> (result: Result<
        Layout<Self::Layout>,
        anyhow::Error,
    >)
        requires
            Self::layout_requires(old(self)@, *old(view), *old(cx)),
        ensures
            Self::layout_ensures(
                old(self)@,
                *old(view),
                *old(cx),
                final(self)@,
                *final(view),
                *final(cx),
                result,
            ),
    ;

    /// Paints the element where `layout` put it.
    fn paint(&mut self, view: &mut U, layout: &mut Layout<Self::Layout>, cx: &mut PaintContext)
        requires
            Self::paint_requires(old(self)@, *old(view), *old(layout), old(cx)@),
        ensures
            Self::paint_ensures(
                old(self)@,
                *old(view),
                *old(layout),
                old(cx)@,
                final(self)@,
                *final(view),
                *final(layout),
                final(cx)@,
            ),
    ;
}

} // verus!
