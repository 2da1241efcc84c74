//! The plainest element: a box with fixed bounds and a style of its own.

use vstd::prelude::*;
use crate::cascade::RefinementCascade;
use crate::context::{Layout, LayoutContext, PaintContext, PaintContextView};
use crate::element::Element;
use crate::geometry::Bounds;
use crate::refinement::Refinement;
use crate::style::Styleable;

verus! {

/// A leaf of the tree. It lies where it was told to lie, owns the cascade
/// that decorators around it share, and declares the base of that cascade.
pub struct Frame<R> {
    bounds: Bounds,
    style: RefinementCascade<R>,
}

/// A frame as a value.
pub struct FrameView<R> {
    pub bounds: Bounds,
    pub cascade: Seq<Option<R>>,
}

impl<R> View for Frame<R> {
    type V = FrameView<R>;

    closed spec fn view(&self) -> FrameView<R> {
        FrameView { bounds: self.bounds, cascade: self.style@ }
    }
}

impl<R: Refinement> Frame<R> {
    /// A frame at `bounds` whose style overrides nothing yet.
    pub fn new(bounds: Bounds) -> (frame: Frame<R>)
        ensures
            frame@ == (FrameView { bounds, cascade: seq![Some(R::unset())] }),
    {
        Frame { bounds, style: RefinementCascade::new() }
    }

    /// Where the frame lies.
    pub fn bounds(&self) -> (bounds: Bounds)
        ensures
            bounds == self@.bounds,
    {
        self.bounds
    }
}

impl<R: Refinement> Styleable for Frame<R> {
    type Refinement = R;

    open spec fn cascade_of(model: FrameView<R>) -> Seq<Option<R>> {
        model.cascade
    }

    open spec fn with_cascade(model: FrameView<R>, cascade: Seq<Option<R>>) -> FrameView<R> {
        FrameView { cascade, ..model }
    }

    /// A frame declares the base of its cascade.
    open spec fn declared_of(model: FrameView<R>) -> R {
        model.cascade[0].unwrap()
    }

    open spec fn with_declared(model: FrameView<R>, declared: R) -> FrameView<R> {
        FrameView { cascade: model.cascade.update(0, Some(declared)), ..model }
    }

    proof fn lemma_cascade_replaced(
        model: FrameView<R>,
        first: Seq<Option<R>>,
        second: Seq<Option<R>>,
    ) {
    }

    fn style_cascade(&mut self) -> (cascade: &mut RefinementCascade<R>) {
        &mut self.style
    }

    fn declared_style(&mut self) -> (declared: &mut R) {
        self.style.base()
    }
}

impl<U, R: Refinement> Element<U> for Frame<R> {
    type Layout = ();

    open spec fn layout_requires(model: FrameView<R>, view: U, cx: LayoutContext) -> bool {
        true
    }

    /// Layout takes the next paint order of the pass for the frame's bounds,
    /// or fails when the pass has none left. Frame and state stay as they are.
    open spec fn layout_ensures(
        pre: FrameView<R>,
        pre_view: U,
        pre_cx: LayoutContext,
        post: FrameView<R>,
        post_view: U,
        post_cx: LayoutContext,
        result: Result<Layout<()>, anyhow::Error>,
    ) -> bool {
        &&& post == pre
        &&& post_view == pre_view
        &&& pre_cx.next_order < u32::MAX ==> {
            &&& result == Ok::<Layout<()>, anyhow::Error>(
                Layout { bounds: pre.bounds, order: pre_cx.next_order, element_data: () },
            )
            &&& post_cx.next_order == pre_cx.next_order + 1
        }
        &&& pre_cx.next_order == u32::MAX ==> result is Err && post_cx == pre_cx
    }

    open spec fn paint_requires(
        model: FrameView<R>,
        view: U,
        layout: Layout<()>,
        cx: PaintContextView,
    ) -> bool {
        true
    }

    /// A frame paints nothing of its own and registers no listener.
    open spec fn paint_ensures(
        pre: FrameView<R>,
        pre_view: U,
        pre_layout: Layout<()>,
        pre_cx: PaintContextView,
        post: FrameView<R>,
        post_view: U,
        post_layout: Layout<()>,
        post_cx: PaintContextView,
    ) -> bool {
        post == pre && post_view == pre_view && post_layout == pre_layout && post_cx == pre_cx
    }

    fn layout(&mut self, view: &mut U, cx: &mut LayoutContext) -> (result: Result<
        Layout<()>,
        anyhow::Error,
    >) {
        cx.add_layout_node(self.bounds, ())
    }

    fn paint(&mut self, view: &mut U, layout: &mut Layout<()>, cx: &mut PaintContext) {
    }
}

} // verus!
