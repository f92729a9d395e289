//! Decisions of the zoom window panel controls.
use vstd::prelude::*;
use crate::document::{Background, PatternStyle};
use crate::zoomwindow::LineStart;

verus! {

/// Row of the line start dropdown that selects [`LineStart::LastPlaced`].
pub const LAST_PLACED_ROW: u32 = 1;

/// Map the line start dropdown rows to the setting. Any other row is the page edge.
pub fn line_start_from_index(index: u32) -> (l: LineStart)
    ensures
        l == (if index == LAST_PLACED_ROW {
            LineStart::LastPlaced
        } else {
            LineStart::PageEdge
        }),
{
    if index == LAST_PLACED_ROW {
        LineStart::LastPlaced
    } else {
        LineStart::PageEdge
    }
}

/// Ruled or grid paper knows its line spacing: that is the return height it suggests.
/// Plain paper suggests nothing.
pub fn default_return_height(background: &Background) -> (h: Option<i64>)
    ensures
        h == (if background.pattern == PatternStyle::Blank {
            None
        } else {
            Some(background.pattern_height)
        }),
{
    match background.pattern {
        PatternStyle::Blank => None,
        _ => Some(background.pattern_height),
    }
}

} // verus!
