//! What holds of the hover decorator on every input.
//!
//! Each law is a proof function over the views that the contracts of
//! [`crate::decorator`] speak of.

use vstd::prelude::*;
use crate::cascade::merged_spec;
use crate::cascade::lemma_merged_skips_cleared;
use crate::context::{Layout, LayoutContext, PaintContextView};
use crate::element::Element;
use crate::event::{repaint_requests, MouseMovedEvent};
use crate::frame::Frame;
use crate::geometry::{Bounds, Point};
use crate::decorator::{hover_refinement, Hoverable, HoverableView};
use crate::refinement::Refinement;
use crate::style::Styleable;

verus! {

/// The hover update is idempotent: a second update for the same bounds and
/// the same pointer leaves the decorator, and with it the slot, as the first
/// one left them. Nothing accumulates in the slot.
pub proof fn lemma_hover_update_is_idempotent<E: Styleable>(
    model: HoverableView<E>,
    bounds: Bounds,
    pointer: Option<Point>,
)
    requires
        model.has_slot(),
    ensures
        model.hover_updated(bounds, pointer).hover_updated(bounds, pointer) == model.hover_updated(
            bounds,
            pointer,
        ),
        model.hover_updated(bounds, pointer).hover_updated(bounds, pointer).slot_value()
            == model.hover_updated(bounds, pointer).slot_value(),
        model.hover_updated(bounds, pointer).slot_value() == hover_refinement(
            bounds.contains_pointer(pointer),
            model.hovered_style,
        ),
{
    let value = hover_refinement(bounds.contains_pointer(pointer), model.hovered_style);
    let cascade = E::cascade_of(model.child).update(model.cascade_slot.index() as int, value);
    E::lemma_cascade_replaced(model.child, cascade, cascade);
    assert(cascade.update(model.cascade_slot.index() as int, value) =~= cascade);
}

/// After the hover update the slot holds the hover style exactly when the
/// pointer is at a point `p` with `x0 <= p.x < x1` and `y0 <= p.y < y1`, and
/// is cleared otherwise: the left and top edges count as inside, the right
/// and bottom edges do not, and a pointer that is nowhere is outside.
pub proof fn lemma_slot_follows_containment<E: Styleable>(
    model: HoverableView<E>,
    bounds: Bounds,
    pointer: Option<Point>,
)
    requires
        model.has_slot(),
    ensures
        model.hover_updated(bounds, pointer).slot_value() == Some(model.hovered_style) <==> (
        pointer matches Some(p) && bounds.x0 <= p.x < bounds.x1 && bounds.y0 <= p.y < bounds.y1),
        model.hover_updated(bounds, pointer).slot_value() is None <==> !(pointer matches Some(p)
            && bounds.x0 <= p.x < bounds.x1 && bounds.y0 <= p.y < bounds.y1),
        model.hover_updated(bounds, pointer).hovered <==> (pointer matches Some(p) && bounds.x0
            <= p.x < bounds.x1 && bounds.y0 <= p.y < bounds.y1),
{
    lemma_hover_update_is_idempotent(model, bounds, pointer);
}

/// The hover update replaces what the decorator's own slot held, whatever it
/// was, and changes no other position of the cascade nor its length.
pub proof fn lemma_hover_update_touches_own_slot_only<E: Styleable>(
    model: HoverableView<E>,
    bounds: Bounds,
    pointer: Option<Point>,
)
    requires
        model.has_slot(),
    ensures
        model.hover_updated(bounds, pointer).has_slot(),
        E::cascade_of(model.hover_updated(bounds, pointer).child).len() == E::cascade_of(
            model.child,
        ).len(),
        forall|i: int|
            0 <= i < E::cascade_of(model.child).len() && i != model.cascade_slot.index()
                ==> #[trigger] E::cascade_of(model.hover_updated(bounds, pointer).child)[i]
                == E::cascade_of(model.child)[i],
{
    let value = hover_refinement(bounds.contains_pointer(pointer), model.hovered_style);
    let cascade = E::cascade_of(model.child).update(model.cascade_slot.index() as int, value);
    E::lemma_cascade_replaced(model.child, cascade, cascade);
}

/// The decorator keeps its slot for as long as the shared cascade is only
/// reserved from and set, by whomever.
pub proof fn lemma_slot_survives_reserve_and_set<E: Styleable>(
    model: HoverableView<E>,
    i: int,
    refinement: Option<E::Refinement>,
)
    requires
        model.has_slot(),
        0 <= i < E::cascade_of(model.child).len(),
    ensures
        Hoverable::<E>::with_cascade(model, E::cascade_of(model.child).push(None)).has_slot(),
        Hoverable::<E>::with_cascade(
            model,
            E::cascade_of(model.child).update(i, refinement),
        ).has_slot(),
{
    let cascade = E::cascade_of(model.child);
    E::lemma_cascade_replaced(model.child, cascade.push(None), cascade.update(i, refinement));
    E::lemma_cascade_replaced(model.child, cascade.update(i, refinement), cascade.push(None));
}

/// While the pointer is outside, the decorator does not show in the merged
/// style: the cascade merges as it would without the decorator's slot.
pub proof fn lemma_unhovered_style_is_the_childs<E: Styleable>(
    model: HoverableView<E>,
    bounds: Bounds,
    pointer: Option<Point>,
)
    requires
        model.has_slot(),
        !bounds.contains_pointer(pointer),
    ensures
        merged_spec(E::cascade_of(model.hover_updated(bounds, pointer).child)) == merged_spec(
            E::cascade_of(model.child).remove(model.cascade_slot.index() as int),
        ),
{
    let i = model.cascade_slot.index() as int;
    let cascade = E::cascade_of(model.child).update(i, None);
    E::lemma_cascade_replaced(model.child, cascade, cascade);
    lemma_merged_skips_cleared(E::cascade_of(model.child), i);
}

/// The slot is the decorator's for life. No hover update, no edit of the
/// cascade or of the hover style, no layout and no paint changes which slot
/// the decorator holds.
pub proof fn lemma_slot_is_stable<U, E: Element<U> + Styleable>(
    pre: HoverableView<E>,
    post: HoverableView<E>,
    bounds: Bounds,
    pointer: Option<Point>,
    cascade: Seq<Option<E::Refinement>>,
    declared: E::Refinement,
    pre_view: U,
    post_view: U,
    pre_layout_cx: LayoutContext,
    post_layout_cx: LayoutContext,
    result: Result<Layout<<E as Element<U>>::Layout>, anyhow::Error>,
    pre_layout: Layout<<E as Element<U>>::Layout>,
    post_layout: Layout<<E as Element<U>>::Layout>,
    pre_paint_cx: PaintContextView,
    post_paint_cx: PaintContextView,
)
    ensures
        pre.hover_updated(bounds, pointer).cascade_slot == pre.cascade_slot,
        Hoverable::<E>::with_cascade(pre, cascade).cascade_slot == pre.cascade_slot,
        Hoverable::<E>::with_declared(pre, declared).cascade_slot == pre.cascade_slot,
        Hoverable::<E>::layout_ensures(
            pre,
            pre_view,
            pre_layout_cx,
            post,
            post_view,
            post_layout_cx,
            result,
        ) ==> post.cascade_slot == pre.cascade_slot,
        Hoverable::<E>::paint_ensures(
            pre,
            pre_view,
            pre_layout,
            pre_paint_cx,
            post,
            post_view,
            post_layout,
            post_paint_cx,
        ) ==> post.cascade_slot == pre.cascade_slot,
{
}

/// The listener of a pass asks for a repaint exactly when the pointer has
/// moved across the edge of the bounds that the pass saw. After a pass that
/// found the pointer outside, a move to a point inside asks for one repaint
/// and a move to another point outside for none; after a pass that found it
/// inside, it is the other way round.
pub proof fn lemma_listener_reports_hover_change<E: Styleable>(
    model: HoverableView<E>,
    bounds: Bounds,
    pointer: Option<Point>,
    event: MouseMovedEvent,
)
    ensures
        model.hover_listener(bounds, pointer).bounds == bounds,
        model.hover_listener(bounds, pointer).hovered == model.hover_updated(bounds, pointer).hovered,
        model.hover_listener(bounds, pointer).wants_repaint(event.position) <==> bounds.contains(
            event.position,
        ) != bounds.contains_pointer(pointer),
        !bounds.contains_pointer(pointer) && bounds.contains(event.position)
            ==> model.hover_listener(bounds, pointer).repaint_requests(event) == 1,
        !bounds.contains_pointer(pointer) && !bounds.contains(event.position)
            ==> model.hover_listener(bounds, pointer).repaint_requests(event) == 0,
        bounds.contains_pointer(pointer) && !bounds.contains(event.position)
            ==> model.hover_listener(bounds, pointer).repaint_requests(event) == 1,
        bounds.contains_pointer(pointer) && bounds.contains(event.position)
            ==> model.hover_listener(bounds, pointer).repaint_requests(event) == 0,
{
}

/// The child paints in a pass to which the decorator has already added its
/// listener, under the paint order of the layout, and paints with the slot
/// already brought up to date.
pub proof fn lemma_paint_registers_listener_before_child<U, E: Element<U> + Styleable>(
    pre: HoverableView<E>,
    pre_view: U,
    pre_layout: Layout<<E as Element<U>>::Layout>,
    pre_cx: PaintContextView,
    post: HoverableView<E>,
    post_view: U,
    post_layout: Layout<<E as Element<U>>::Layout>,
    post_cx: PaintContextView,
)
    requires
        pre.has_slot(),
        Hoverable::<E>::paint_ensures(
            pre,
            pre_view,
            pre_layout,
            pre_cx,
            post,
            post_view,
            post_layout,
            post_cx,
        ),
    ensures
        exists|child_pre: E::V, child_cx: PaintContextView|
            {
                &&& #[trigger] E::paint_ensures(
                    child_pre,
                    pre_view,
                    pre_layout,
                    child_cx,
                    post.child,
                    post_view,
                    post_layout,
                    post_cx,
                )
                &&& child_cx.mouse_position == pre_cx.mouse_position
                &&& child_cx.listeners.len() == pre_cx.listeners.len() + 1
                &&& child_cx.listeners.last().order == pre_layout.order
                &&& child_cx.listeners.last().listener == pre.hover_listener(
                    pre_layout.bounds,
                    pre_cx.mouse_position,
                )
                &&& child_cx.listeners.drop_last() == pre_cx.listeners
                &&& E::cascade_of(child_pre)[pre.cascade_slot.index() as int] == hover_refinement(
                    pre_layout.bounds.contains_pointer(pre_cx.mouse_position),
                    pre.hovered_style,
                )
            },
        post.hovered == pre_layout.bounds.contains_pointer(pre_cx.mouse_position),
        post.hovered_style == pre.hovered_style,
{
    let updated = pre.hover_updated(pre_layout.bounds, pre_cx.mouse_position);
    let child_cx = pre_cx.with_listener(
        pre_layout.order,
        pre.hover_listener(pre_layout.bounds, pre_cx.mouse_position),
    );
    lemma_hover_update_is_idempotent(pre, pre_layout.bounds, pre_cx.mouse_position);
    assert(child_cx.listeners.drop_last() =~= pre_cx.listeners);
    assert(E::paint_ensures(
        updated.child,
        pre_view,
        pre_layout,
        child_cx,
        post.child,
        post_view,
        post_layout,
        post_cx,
    ));
}

/// A pass that starts without listeners and paints a decorated frame ends
/// with the decorator's listener alone, so a later pointer move asks for
/// exactly one repaint if it crosses the edge of the frame's bounds, and for
/// none if it does not.
pub proof fn lemma_pass_over_frame_asks_at_most_once<U, R: Refinement>(
    pre: HoverableView<Frame<R>>,
    pre_view: U,
    pre_layout: Layout<()>,
    pre_cx: PaintContextView,
    post: HoverableView<Frame<R>>,
    post_view: U,
    post_layout: Layout<()>,
    post_cx: PaintContextView,
    event: MouseMovedEvent,
)
    requires
        pre.has_slot(),
        pre_cx.listeners.len() == 0,
        <Hoverable<Frame<R>> as Element<U>>::paint_ensures(
            pre,
            pre_view,
            pre_layout,
            pre_cx,
            post,
            post_view,
            post_layout,
            post_cx,
        ),
    ensures
        post_cx.listeners.len() == 1,
        post_cx.listeners[0].order == pre_layout.order,
        post_cx.listeners[0].listener == pre.hover_listener(
            pre_layout.bounds,
            pre_cx.mouse_position,
        ),
        repaint_requests(post_cx.listeners, event) == if pre_layout.bounds.contains(event.position)
            != pre_layout.bounds.contains_pointer(pre_cx.mouse_position) {
            1nat
        } else {
            0nat
        },
        post.slot_value() == hover_refinement(
            pre_layout.bounds.contains_pointer(pre_cx.mouse_position),
            pre.hovered_style,
        ),
        post.has_slot(),
{
    lemma_hover_update_is_idempotent(pre, pre_layout.bounds, pre_cx.mouse_position);
    lemma_hover_update_touches_own_slot_only(pre, pre_layout.bounds, pre_cx.mouse_position);
    assert(post_cx.listeners.drop_last() =~= pre_cx.listeners);
    assert(repaint_requests(post_cx.listeners.drop_last(), event) == 0);
}

/// Layout sees through the decorator. The decorator may be laid out exactly
/// when its child may; whatever its layout returns and does, the child's
/// layout may return and do on the same inputs; and whatever the child's
/// layout may return and do, the decorator's returns and does, with nothing
/// of the decorator changed but the child. A failure comes out as the child
/// raised it.
pub proof fn lemma_layout_is_transparent<U, E: Element<U> + Styleable>(
    pre: HoverableView<E>,
    pre_view: U,
    pre_cx: LayoutContext,
    post: HoverableView<E>,
    child_post: E::V,
    post_view: U,
    post_cx: LayoutContext,
    result: Result<Layout<<E as Element<U>>::Layout>, anyhow::Error>,
)
    ensures
        Hoverable::<E>::layout_requires(pre, pre_view, pre_cx) == E::layout_requires(
            pre.child,
            pre_view,
            pre_cx,
        ),
        Hoverable::<E>::layout_ensures(pre, pre_view, pre_cx, post, post_view, post_cx, result)
            ==> E::layout_ensures(
            pre.child,
            pre_view,
            pre_cx,
            post.child,
            post_view,
            post_cx,
            result,
        ) && post.hovered == pre.hovered && post.cascade_slot == pre.cascade_slot
            && post.hovered_style == pre.hovered_style,
        E::layout_ensures(pre.child, pre_view, pre_cx, child_post, post_view, post_cx, result)
            ==> Hoverable::<E>::layout_ensures(
            pre,
            pre_view,
            pre_cx,
            HoverableView { child: child_post, ..pre },
            post_view,
            post_cx,
            result,
        ),
{
}

} // verus!
