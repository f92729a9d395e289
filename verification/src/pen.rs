//! Pen input as the views see it.
use vstd::prelude::*;
use crate::geometry::Point;

verus! {

/// A pen event, reduced to what the views read: its kind and its position in fine units.
#[derive(Clone, Copy, Debug, PartialEq, Eq, Structural)]
pub enum PenEvent {
    /// The pen touches or moves while touching.
    Down { pos: Point },
    /// The pen is lifted.
    Up { pos: Point },
    /// The pen hovers.
    Proximity { pos: Point },
    /// A key press.
    KeyPressed,
    /// Text input.
    Text,
    /// The input was cancelled.
    Cancel,
}

impl PenEvent {
    /// Every position the event carries lies in the document range.
    pub open spec fn in_range(self) -> bool {
        match self {
            PenEvent::Down { pos } => pos.in_range(),
            PenEvent::Up { pos } => pos.in_range(),
            PenEvent::Proximity { pos } => pos.in_range(),
            _ => true,
        }
    }
}

/// The kind of pen in hand.
#[derive(Clone, Copy, Debug, PartialEq, Eq, Structural)]
pub enum PenStyle {
    Brush,
    Shaper,
    Typewriter,
    Eraser,
    Selector,
    Tools,
}

} // verus!
