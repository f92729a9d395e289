//! What a state change asks of the surrounding widgets.
use vstd::prelude::*;

verus! {

/// Requests that follow a state change: redraw the views, or note that the main view moved.
#[derive(Clone, Copy, Debug, PartialEq, Eq, Structural)]
pub struct WidgetFlags {
    /// The affected views must be drawn again.
    pub redraw: bool,
    /// The main view has been scrolled or zoomed.
    pub view_modified: bool,
}

impl WidgetFlags {
    /// Flags that ask for nothing.
    pub open spec fn none() -> WidgetFlags {
        WidgetFlags { redraw: false, view_modified: false }
    }

    /// Flags that ask for a redraw only.
    pub open spec fn redraw_only() -> WidgetFlags {
        WidgetFlags { redraw: true, view_modified: false }
    }

    /// Every request of either.
    pub open spec fn spec_merge(self, other: WidgetFlags) -> WidgetFlags {
        WidgetFlags {
            redraw: self.redraw || other.redraw,
            view_modified: self.view_modified || other.view_modified,
        }
    }

    /// Every request of `self` and of `other`.
    pub fn merge(self, other: WidgetFlags) -> (r: WidgetFlags)
        ensures
            r == self.spec_merge(other),
    {
        WidgetFlags {
            redraw: self.redraw || other.redraw,
            view_modified: self.view_modified || other.view_modified,
        }
    }
}

impl Default for WidgetFlags {
    fn default() -> (r: WidgetFlags)
        ensures
            r == WidgetFlags::none(),
    {
        WidgetFlags { redraw: false, view_modified: false }
    }
}

/// Flags asking for a redraw only.
pub fn redraw() -> (r: WidgetFlags)
    ensures
        r == WidgetFlags::redraw_only(),
{
    WidgetFlags { redraw: true, view_modified: false }
}

} // verus!
