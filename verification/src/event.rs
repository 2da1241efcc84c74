//! Pointer events and the listener that watches for a change of hover.

use vstd::prelude::*;
use crate::geometry::{Bounds, Point};

verus! {

/// The pointer has moved to `position`.
#[derive(Clone, Copy, Debug, PartialEq, Eq, Structural)]
pub struct MouseMovedEvent {
    pub position: Point,
}

/// What one paint pass remembers in order to judge a later pointer move: the
/// bounds that it tested the pointer against, and what the test said.
///
/// The listener decides and does nothing else. It changes neither the hover
/// flag nor the cascade: both are brought up to date by the paint pass that
/// the requested repaint leads to.
#[derive(Clone, Copy, Debug, PartialEq, Eq, Structural)]
pub struct HoverListener {
    pub bounds: Bounds,
    pub hovered: bool,
}

/// A listener together with the paint order that it was registered under.
#[derive(Clone, Copy, Debug, PartialEq, Eq, Structural)]
pub struct EventRegistration {
    pub order: u32,
    pub listener: HoverListener,
}

impl HoverListener {
    /// Whether a pointer at `position` is hovering where the paint pass saw
    /// none, or the other way round.
    pub open spec fn wants_repaint(self, position: Point) -> bool {
        self.bounds.contains(position) != self.hovered
    }

    /// The number of repaints that the listener asks for on `event`: one if
    /// the hover has changed, else none.
    pub open spec fn repaint_requests(self, event: MouseMovedEvent) -> nat {
        if self.wants_repaint(event.position) {
            1
        } else {
            0
        }
    }

    /// Judges a pointer move. `true` asks the caller to repaint once.
    pub fn mouse_moved(&self, event: &MouseMovedEvent) -> (repaint: bool)
        ensures
            repaint == self.wants_repaint(event.position),
            repaint <==> self.repaint_requests(*event) == 1,
            !repaint <==> self.repaint_requests(*event) == 0,
    {
        self.bounds.contains_point(event.position) != self.hovered
    }
}

/// The number of repaints that the listeners of a pass ask for on `event`,
/// each judging for itself.
pub open spec fn repaint_requests(listeners: Seq<EventRegistration>, event: MouseMovedEvent) -> nat
    decreases listeners.len(),
{
    if listeners.len() == 0 {
        0
    } else {
        repaint_requests(listeners.drop_last(), event) + listeners.last().listener.repaint_requests(
            event,
        )
    }
}

} // verus!
