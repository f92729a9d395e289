//! Zoom window operations. The panel writes into the same document as the main canvas.
use vstd::prelude::*;
use crate::camera::Camera;
use crate::engine::Engine;
use crate::geometry::{Point, Rect, Size, UNIT};
use crate::pen::{PenEvent, PenStyle};
use crate::widget_flags::WidgetFlags;
use crate::zoomwindow::{BoxScale, BoxShift, LineStart, ZoomWindowView};

verus! {

/// Margin kept around the box when the main view scrolls to it, in fine units.
pub const REVEAL_MARGIN: i64 = 24 * UNIT;

/// Shift of a view interval so that a target interval fits, 0 if it already does.
pub open spec fn spec_axis_shift(view_min: int, view_max: int, target_min: int, target_max: int) -> int {
    if target_min < view_min {
        target_min - view_min
    } else if target_max > view_max {
        target_max - view_max
    } else {
        0
    }
}

/// The box grown by the reveal margin on every side.
pub open spec fn reveal_target(box_bounds: Rect) -> Rect {
    Rect {
        mins: Point {
            x: (box_bounds.mins.x - REVEAL_MARGIN) as i64,
            y: (box_bounds.mins.y - REVEAL_MARGIN) as i64,
        },
        maxs: Point {
            x: (box_bounds.maxs.x + REVEAL_MARGIN) as i64,
            y: (box_bounds.maxs.y + REVEAL_MARGIN) as i64,
        },
    }
}

/// The main camera after scrolling so the box is visible, and the flags of the scroll:
/// unchanged when the box with its margin is already in view, else moved by the smallest
/// shift per axis.
pub open spec fn revealed(camera: Camera, box_bounds: Rect) -> (Camera, WidgetFlags) {
    let viewport = camera.spec_viewport();
    let target = reveal_target(box_bounds);
    if viewport.contains_rect(target) {
        (camera, WidgetFlags::none())
    } else {
        (
            Camera {
                origin: Point {
                    x: (camera.origin.x + spec_axis_shift(
                        viewport.mins.x as int,
                        viewport.maxs.x as int,
                        target.mins.x as int,
                        target.maxs.x as int,
                    )) as i64,
                    y: (camera.origin.y + spec_axis_shift(
                        viewport.mins.y as int,
                        viewport.maxs.y as int,
                        target.mins.y as int,
                        target.maxs.y as int,
                    )) as i64,
                },
                ..camera
            },
            WidgetFlags { redraw: true, view_modified: true },
        )
    }
}

/// Where a pen event in the panel ends a brush stroke.
pub open spec fn stroke_end(event: PenEvent, pen_style: PenStyle) -> Option<Point> {
    match (event, pen_style) {
        (PenEvent::Up { pos }, PenStyle::Brush) => Some(pos),
        _ => None,
    }
}

/// Shift of a view interval so that a target interval fits, 0 if it already does.
fn axis_shift(view_min: i64, view_max: i64, target_min: i64, target_max: i64) -> (s: i64)
    requires
        -0x4800_0000_0000_0000 <= view_min <= 0x4800_0000_0000_0000,
        -0x4800_0000_0000_0000 <= view_max <= 0x4800_0000_0000_0000,
        -0x1800_0000_0000_0000 <= target_min <= 0x1800_0000_0000_0000,
        -0x1800_0000_0000_0000 <= target_max <= 0x1800_0000_0000_0000,
    ensures
        s == spec_axis_shift(view_min as int, view_max as int, target_min as int, target_max as int),
{
    if target_min < view_min {
        return target_min - view_min;
    }
    if target_max > view_max {
        return target_max - view_max;
    }
    0
}

/// After revealing, the box with its margin is in view whenever it fits the viewport.
pub proof fn law_reveal_shows_the_box(camera: Camera, zoom_window: ZoomWindowView)
    requires
        camera.wf(),
        zoom_window.wf(),
        zoom_window.box_bounds().width() + 2 * REVEAL_MARGIN <= camera.extent_x(),
        zoom_window.box_bounds().height() + 2 * REVEAL_MARGIN <= camera.extent_y(),
    ensures
        revealed(camera, zoom_window.box_bounds()).0.spec_viewport().contains_rect(
            reveal_target(zoom_window.box_bounds()),
        ),
{
    camera.lemma_extents();
    crate::zoomwindow::lemma_box_bounds_range(zoom_window);
}

/// Revealing scrolls the main view by the least amount on each axis. The box, with a margin of
/// 24 document units, is brought to the start edge when it sticks out before the view's start,
/// only to the end edge when it sticks out past the view's end, and an axis on which it fits
/// is not scrolled.
pub proof fn law_reveal_scrolls_the_least(camera: Camera, zoom_window: ZoomWindowView)
    requires
        camera.wf(),
        zoom_window.wf(),
    ensures
        ({
            let vp = camera.spec_viewport();
            let t = reveal_target(zoom_window.box_bounds());
            let nv = revealed(camera, zoom_window.box_bounds()).0.spec_viewport();
            let b = zoom_window.box_bounds();
            &&& t.mins.x == b.mins.x - 24 * UNIT && t.maxs.x == b.maxs.x + 24 * UNIT
            &&& t.mins.y == b.mins.y - 24 * UNIT && t.maxs.y == b.maxs.y + 24 * UNIT
            &&& nv.width() == vp.width() && nv.height() == vp.height()
            &&& (t.mins.x < vp.mins.x ==> nv.mins.x == t.mins.x)
            &&& (vp.mins.x <= t.mins.x && t.maxs.x > vp.maxs.x ==> nv.maxs.x == t.maxs.x)
            &&& (vp.mins.x <= t.mins.x && t.maxs.x <= vp.maxs.x ==> nv.mins.x == vp.mins.x)
            &&& (t.mins.y < vp.mins.y ==> nv.mins.y == t.mins.y)
            &&& (vp.mins.y <= t.mins.y && t.maxs.y > vp.maxs.y ==> nv.maxs.y == t.maxs.y)
            &&& (vp.mins.y <= t.mins.y && t.maxs.y <= vp.maxs.y ==> nv.mins.y == vp.mins.y)
        }),
{
    camera.lemma_extents();
    crate::zoomwindow::lemma_box_bounds_range(zoom_window);
}

/// Revealing a box that is already in view with its margin changes nothing.
pub proof fn law_reveal_keeps_a_visible_box(camera: Camera, box_bounds: Rect)
    requires
        camera.spec_viewport().contains_rect(reveal_target(box_bounds)),
    ensures
        revealed(camera, box_bounds) == (camera, WidgetFlags::none()),
{
}

impl Engine {
    pub fn zoom_window_set_visible(&mut self, visible: bool) -> (r: WidgetFlags)
        requires
            old(self).wf(),
        ensures
            final(self).wf(),
            final(self).zoom_window@ == (ZoomWindowView { visible, ..old(self).zoom_window@ }).regenerated(
                old(self).document.background,
            ),
            final(self).camera == old(self).camera,
            final(self).document == old(self).document,
            final(self).presentation@ == old(self).presentation@,
            final(self).pen_style == old(self).pen_style,
            r == WidgetFlags::redraw_only(),
    {
        self.zoom_window.set_visible(visible, &self.document.background)
    }

    /// Set the panel size in surface pixels. The panel takes the main canvas scale factor.
    pub fn zoom_window_set_size(&mut self, size: Size) -> (r: WidgetFlags)
        requires
            old(self).wf(),
        ensures
            final(self).wf(),
            final(self).zoom_window@ == (ZoomWindowView {
                scale_factor: old(self).camera.scale_factor,
                ..old(self).zoom_window@
            }).resized(size, old(self).document.background),
            final(self).camera == old(self).camera,
            final(self).document == old(self).document,
            final(self).presentation@ == old(self).presentation@,
            final(self).pen_style == old(self).pen_style,
            r == WidgetFlags::redraw_only(),
    {
        self.zoom_window.set_scale_factor(self.camera.scale_factor);
        self.zoom_window.set_size(size, &self.document, &self.document.background)
    }

    /// Shift the box along the line and scroll the main view to it.
    pub fn zoom_window_shift_box(&mut self, shift: BoxShift) -> (r: WidgetFlags)
        requires
            old(self).wf(),
            old(self).zoom_window@.shift_target(shift).in_range(),
        ensures
            final(self).wf(),
            final(self).zoom_window@ == old(self).zoom_window@.after_shift(shift),
            (final(self).camera, r) == ({
                let (camera, flags) = revealed(old(self).camera, final(self).zoom_window@.box_bounds());
                (camera, WidgetFlags::redraw_only().spec_merge(flags))
            }),
            final(self).document == old(self).document,
            final(self).presentation@ == old(self).presentation@,
            final(self).pen_style == old(self).pen_style,
    {
        let flags = self.zoom_window.shift_box(shift, &self.document);
        let revealed = self.reveal_zoom_box();
        flags.merge(revealed)
    }

    pub fn zoom_window_scale_box(&mut self, scale: BoxScale) -> (r: WidgetFlags)
        requires
            old(self).wf(),
        ensures
            final(self).wf(),
            final(self).zoom_window@ == old(self).zoom_window@.after_scale(
                scale,
                old(self).document.background,
            ),
            final(self).camera == old(self).camera,
            final(self).document == old(self).document,
            final(self).presentation@ == old(self).presentation@,
            final(self).pen_style == old(self).pen_style,
            r == WidgetFlags::redraw_only(),
    {
        self.zoom_window.scale_box(scale, &self.document, &self.document.background)
    }

    /// Move the box to the next line and scroll the main view to it.
    pub fn zoom_window_new_line(&mut self) -> (r: WidgetFlags)
        requires
            old(self).wf(),
            old(self).zoom_window@.can_break_line(old(self).document),
        ensures
            final(self).wf(),
            final(self).zoom_window@ == old(self).zoom_window@.after_new_line(old(self).document),
            (final(self).camera, r) == ({
                let (camera, flags) = revealed(old(self).camera, final(self).zoom_window@.box_bounds());
                (camera, WidgetFlags::redraw_only().spec_merge(flags))
            }),
            final(self).document == old(self).document,
            final(self).presentation@ == old(self).presentation@,
            final(self).pen_style == old(self).pen_style,
    {
        let flags = self.zoom_window.new_line(&self.document);
        let revealed = self.reveal_zoom_box();
        flags.merge(revealed)
    }

    pub fn zoom_window_set_auto_advance(&mut self, auto_advance: bool) -> (r: WidgetFlags)
        requires
            old(self).wf(),
        ensures
            final(self).wf(),
            final(self).zoom_window@ == (ZoomWindowView { auto_advance, ..old(self).zoom_window@ }),
            final(self).camera == old(self).camera,
            final(self).document == old(self).document,
            final(self).presentation@ == old(self).presentation@,
            final(self).pen_style == old(self).pen_style,
            r == WidgetFlags::redraw_only(),
    {
        self.zoom_window.set_auto_advance(auto_advance)
    }

    pub fn zoom_window_set_return_height(&mut self, height: i64)
        requires
            old(self).wf(),
        ensures
            final(self).wf(),
            final(self).zoom_window@ == (ZoomWindowView {
                return_height: if height < UNIT {
                    UNIT
                } else {
                    height
                },
                ..old(self).zoom_window@
            }),
            final(self).camera == old(self).camera,
            final(self).document == old(self).document,
            final(self).presentation@ == old(self).presentation@,
            final(self).pen_style == old(self).pen_style,
    {
        self.zoom_window.set_return_height(height);
    }

    pub fn zoom_window_set_line_start(&mut self, line_start: LineStart)
        requires
            old(self).wf(),
        ensures
            final(self).wf(),
            final(self).zoom_window@ == (ZoomWindowView { line_start, ..old(self).zoom_window@ }),
            final(self).camera == old(self).camera,
            final(self).document == old(self).document,
            final(self).presentation@ == old(self).presentation@,
            final(self).pen_style == old(self).pen_style,
    {
        self.zoom_window.set_line_start(line_start);
    }

    /// Follow a pen event coming from the panel, after the pens have handled it with `pens_flags`.
    ///
    /// A brush stroke starting in the panel is noted; one ending there may move the box forward
    /// (auto-advance), and the main view then scrolls to the box.
    pub fn handle_zoom_window_pen_event(&mut self, event: &PenEvent, pens_flags: WidgetFlags) -> (r:
        WidgetFlags)
        requires
            old(self).wf(),
            stroke_end(*event, old(self).pen_style) matches Some(pos)
                ==> old(self).zoom_window@.stroke_end_ok(pos, old(self).document),
        ensures
            final(self).wf(),
            final(self).document == old(self).document,
            final(self).presentation@ == old(self).presentation@,
            final(self).pen_style == old(self).pen_style,
            match (*event, old(self).pen_style) {
                (PenEvent::Down { .. }, PenStyle::Brush) => {
                    &&& final(self).zoom_window@ == (ZoomWindowView {
                        stroke_pending: true,
                        ..old(self).zoom_window@
                    })
                    &&& final(self).camera == old(self).camera
                    &&& r == pens_flags
                },
                (PenEvent::Up { pos }, PenStyle::Brush) => {
                    let (zoom_window, advanced) = old(self).zoom_window@.after_stroke(
                        pos,
                        old(self).document,
                    );
                    let (camera, scrolled) = revealed(old(self).camera, zoom_window.box_bounds());
                    &&& final(self).zoom_window@ == zoom_window
                    &&& final(self).camera == camera
                    &&& r == pens_flags.spec_merge(advanced).spec_merge(scrolled)
                },
                _ => {
                    &&& final(self).zoom_window@ == old(self).zoom_window@
                    &&& final(self).camera == old(self).camera
                    &&& r == pens_flags
                },
            },
    {
        let stroke_end: Option<Point> = match (event, self.pen_style) {
            (PenEvent::Down { .. }, PenStyle::Brush) => {
                self.zoom_window.begin_stroke();
                None
            },
            (PenEvent::Up { pos }, PenStyle::Brush) => Some(*pos),
            _ => None,
        };
        let mut widget_flags = pens_flags;
        if let Some(pos) = stroke_end {
            widget_flags = widget_flags.merge(self.zoom_window.advance_after_stroke(pos, &self.document));
            widget_flags = widget_flags.merge(self.reveal_zoom_box());
        }
        widget_flags
    }

    /// Scroll the main view so the whole box is visible, if it is not already.
    ///
    /// Writing in the panel moves the box across the page; the page should follow.
    pub fn reveal_zoom_box(&mut self) -> (r: WidgetFlags)
        requires
            old(self).wf(),
        ensures
            final(self).wf(),
            (final(self).camera, r) == revealed(old(self).camera, old(self).zoom_window@.box_bounds()),
            final(self).zoom_window@ == old(self).zoom_window@,
            final(self).document == old(self).document,
            final(self).presentation@ == old(self).presentation@,
            final(self).pen_style == old(self).pen_style,
    {
        proof {
            self.camera.lemma_extents();
            crate::zoomwindow::lemma_box_bounds_range(self.zoom_window@);
        }
        let viewport = self.camera.viewport();
        let bounds = self.zoom_window.box_bounds().loosened(REVEAL_MARGIN);
        if viewport.contains_other(&bounds) {
            return WidgetFlags::default();
        }
        // Smallest shift that brings the box inside, per axis.
        let dx: i64 = axis_shift(viewport.mins.x, viewport.maxs.x, bounds.mins.x, bounds.maxs.x);
        let dy: i64 = axis_shift(viewport.mins.y, viewport.maxs.y, bounds.mins.y, bounds.maxs.y);
        let origin = Point::new(self.camera.origin.x + dx, self.camera.origin.y + dy);
        self.camera.set_origin(origin)
    }
}

} // verus!
