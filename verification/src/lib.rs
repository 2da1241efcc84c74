//! Hover-conditional styling for the elements of a retained-mode interface
//! tree.
//!
//! A [`Hoverable`] wraps a child element and reserves one slot in the child's
//! cascade of style refinements. On every paint pass it tests the pointer
//! against the bounds that layout gave the child, puts its hover style into
//! the slot or clears it, and registers a listener that asks for a repaint
//! when a later pointer move changes the answer. The child never learns of
//! any of it: it is laid out and painted as before, and finds the hover style
//! in its cascade.
//!
//! - [`geometry`]: points and half-open rectangles on an integer grid.
//! - [`refinement`] and [`cascade`]: partial overrides of a style, and the
//!   slot-addressed stack that merges them.
//! - [`style`] and [`element`]: what an element of the tree has to offer.
//! - [`context`] and [`event`]: the values of a layout pass and of a paint
//!   pass, and the listener that a paint pass leaves behind.
//! - [`frame`]: the plainest element, a leaf to decorate.
//! - [`decorator`]: the hover decorator itself.
//! - [`laws`]: what holds of the decorator on every input.
//!
//! Every function is verified against its contract. Two items are taken on
//! trust, both in [`context`]: the error type of a layout pass, which is
//! `anyhow::Error`, and the call that makes one.

pub mod cascade;
pub mod context;
pub mod decorator;
pub mod element;
pub mod event;
pub mod frame;
pub mod geometry;
pub mod laws;
pub mod refinement;
pub mod style;

pub use cascade::{merged_spec, CascadeSlot, RefinementCascade};
pub use context::{Layout, LayoutContext, PaintContext, PaintContextView};
pub use decorator::{hover_refinement, hoverable, Hoverable, HoverableView};
pub use element::Element;
pub use event::{repaint_requests, EventRegistration, HoverListener, MouseMovedEvent};
pub use frame::{Frame, FrameView};
pub use geometry::{Bounds, Point};
pub use refinement::Refinement;
pub use style::Styleable;
