//! What a layout pass and a paint pass hand to the elements of a tree.

use vstd::prelude::*;
use crate::event::{repaint_requests, EventRegistration, HoverListener, MouseMovedEvent};
use crate::geometry::{Bounds, Point};

verus! {

/// `anyhow::Error`, the failure of a layout pass. The library hands such a
/// value on as it got it and never looks inside.
#[verifier::external_type_specification]
#[verifier::external_body]
pub struct ExLayoutError(anyhow::Error);

/// The geometry that layout gave one element, with the data that the
/// element attached for its own paint.
#[derive(Debug, PartialEq, Eq)]
pub struct Layout<D> {
    pub bounds: Bounds,
    pub order: u32,
    pub element_data: D,
}

impl<D> Layout<D> {
    /// Where the element lies.
    pub fn bounds(&self) -> (bounds: Bounds)
        ensures
            bounds == self.bounds,
    {
        self.bounds
    }

    /// The element's place in the paint order, which is the order in which
    /// events reach the listeners of a pass.
    pub fn order(&self) -> (order: u32)
        ensures
            order == self.order,
    {
        self.order
    }
}

/// One layout pass. It numbers the elements in the order in which they are
/// laid out and can number `u32::MAX` of them.
#[derive(Clone, Copy, Debug, PartialEq, Eq, Structural)]
pub struct LayoutContext {
    pub next_order: u32,
}

/// Calls `anyhow::Error::msg`, which makes an error that prints as
/// `message`. Nothing is claimed of the error.
#[verifier::external_body]
fn layout_error(message: &'static str) -> anyhow::Error {
    anyhow::Error::msg(message)
}

impl LayoutContext {
    /// A pass that has laid out nothing yet.
    pub fn new() -> (cx: LayoutContext)
        ensures
            cx.next_order == 0,
    {
        LayoutContext { next_order: 0 }
    }

    /// Gives the next paint order to an element with the bounds `bounds`.
    /// Fails, and leaves the pass as it was, when every order is taken.
    pub fn add_layout_node<D>(&mut self, bounds: Bounds, element_data: D) -> (result: Result<
        Layout<D>,
        anyhow::Error,
    >)
        ensures
            old(self).next_order < u32::MAX ==> result == Ok::<Layout<D>, anyhow::Error>(
                Layout { bounds, order: old(self).next_order, element_data },
            ) && final(self).next_order == old(self).next_order + 1,
            old(self).next_order == u32::MAX ==> result is Err && *final(self) == *old(self),
    {
        if self.next_order < u32::MAX {
            let order: u32 = self.next_order;
            self.next_order = order + 1;
            Ok(Layout { bounds, order, element_data })
        } else {
            Err(layout_error("layout pass has no paint order left"))
        }
    }
}

/// One paint pass: where the pointer is, and the listeners that the elements
/// painted so far have registered for the next pointer move.
pub struct PaintContext {
    mouse_position: Option<Point>,
    listeners: Vec<EventRegistration>,
}

/// A paint pass as a value.
pub struct PaintContextView {
    pub mouse_position: Option<Point>,
    pub listeners: Seq<EventRegistration>,
}

impl PaintContextView {
    /// The pass after one more listener has been registered.
    pub open spec fn with_listener(self, order: u32, listener: HoverListener) -> PaintContextView {
        PaintContextView {
            listeners: self.listeners.push(EventRegistration { order, listener }),
            ..self
        }
    }
}

impl View for PaintContext {
    type V = PaintContextView;

    closed spec fn view(&self) -> PaintContextView {
        PaintContextView { mouse_position: self.mouse_position, listeners: self.listeners@ }
    }
}

impl PaintContext {
    /// A pass with the pointer at `mouse_position`, or nowhere on the
    /// surface, and no listener.
    pub fn new(mouse_position: Option<Point>) -> (cx: PaintContext)
        ensures
            cx@ == (PaintContextView { mouse_position, listeners: Seq::empty() }),
    {
        PaintContext { mouse_position, listeners: Vec::new() }
    }

    /// Where the pointer is, if it is on the surface.
    pub fn mouse_position(&self) -> (position: Option<Point>)
        ensures
            position == self@.mouse_position,
    {
        self.mouse_position
    }

    /// Registers `listener` for the next pointer move, under the paint order
    /// `order`.
    pub fn on_event(&mut self, order: u32, listener: HoverListener)
        ensures
            final(self)@ == old(self)@.with_listener(order, listener),
    {
        self.listeners.push(EventRegistration { order, listener });
    }

    /// The listeners of the pass, in the order of their registration.
    pub fn listeners(&self) -> (listeners: &Vec<EventRegistration>)
        ensures
            listeners@ == self@.listeners,
    {
        &self.listeners
    }

    /// Shows a pointer move to every listener of the pass and returns how
    /// many of them ask for a repaint. The listeners stay registered: they
    /// judge every move until the next pass replaces them.
    pub fn mouse_moved(&self, event: &MouseMovedEvent) -> (requests: usize)
        ensures
            requests == repaint_requests(self@.listeners, *event),
    {
        let mut requests: usize = 0;
        let mut i: usize = 0;
        while i < self.listeners.len()
            invariant
                i <= self.listeners.len(),
                requests <= i,
                requests == repaint_requests(self.listeners@.take(i as int), *event),
            decreases self.listeners.len() - i,
        {
            proof {
                assert(self.listeners@.take(i + 1).drop_last() =~= self.listeners@.take(i as int));
            }
            if self.listeners[i].listener.mouse_moved(event) {
                requests += 1;
            }
            i += 1;
        }
        proof {
            assert(self.listeners@.take(self.listeners.len() as int) =~= self.listeners@);
        }
        requests
    }
}

} // verus!
