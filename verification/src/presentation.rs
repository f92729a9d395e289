//! The audience view: one whole page, seen through a camera of its own.
//!
//! ```text
//!  document (fine units)             audience window (surface px)
//!  ┌───────────────────────┐         ┌──────────────────────────┐
//!  │ page  ┌──────────┐    │   fit   │ ┌──────────────────────┐ │
//!  │       │ lecturer │    │  ─────► │ │      whole page      │ │
//!  │       │   zoom   │    │         │ └──────────────────────┘ │
//!  └───────────────────────┘         └──────────────────────────┘
//! ```
//!
//! The lecturer zooms in to write; this camera stays on the whole page, so the audience
//! never follows that zoom. Only the window geometry is kept; the camera framing a page
//! is built per draw by [`Presentation::camera_for`].
use vstd::prelude::*;
use crate::camera::Camera;
use crate::geometry::{
    clamp_zoom, clamped_zoom, floor_div, zoom_ok, Point, Ratio, Rect, Size, COORD_MAX, UNIT,
};
use crate::widget_flags::{redraw, WidgetFlags};

verus! {

/// Audience window width when it opens, in surface pixels.
pub const WINDOW_WIDTH_DEFAULT: i64 = 1280;

/// Audience window height when it opens, in surface pixels.
pub const WINDOW_HEIGHT_DEFAULT: i64 = 720;

/// Every coordinate of `page` lies within twice the document range, as grid pages do.
pub open spec fn page_in_range(page: Rect) -> bool {
    &&& -2 * COORD_MAX <= page.mins.x <= 2 * COORD_MAX
    &&& -2 * COORD_MAX <= page.mins.y <= 2 * COORD_MAX
    &&& -2 * COORD_MAX <= page.maxs.x <= 2 * COORD_MAX
    &&& -2 * COORD_MAX <= page.maxs.y <= 2 * COORD_MAX
}

/// The zoom that fits `page` into `size`, as a fraction `(num, den)`: the tighter axis decides,
/// so a page of another ratio is letterboxed on the other axis.
pub open spec fn exact_fitting_zoom(size: Size, page: Rect) -> (int, int) {
    if size.width * page.height() <= size.height * page.width() {
        (size.width as int, page.width())
    } else {
        (size.height as int, page.height())
    }
}

/// The zoom that fits `page` into `size`, kept within the camera zoom limits.
pub open spec fn fitting_zoom(size: Size, page: Rect) -> Ratio {
    let (num, den) = exact_fitting_zoom(size, page);
    clamp_zoom(num, den)
}

/// The whole page fits into `size` at the smallest zoom, so the zoom limits never cut it.
pub open spec fn fits_at_smallest_zoom(size: Size, page: Rect) -> bool {
    page.width() <= 5 * UNIT * size.width && page.height() <= 5 * UNIT * size.height
}

/// The zoom that fits `page` lies within the camera zoom limits, so no limit changes it.
pub open spec fn fits_within_zoom_limits(size: Size, page: Rect) -> bool {
    let (num, den) = exact_fitting_zoom(size, page);
    den <= 5 * UNIT * num && num * UNIT <= 6 * den
}

/// The camera of `window`'s size framing the whole of `page`, centered. A page without area
/// leaves the window camera as it is.
/// The surface left over beside the scaled page is split evenly, any odd fine unit going right
/// or down.
pub open spec fn framing_camera(window: Camera, page: Rect) -> Camera {
    if page.width() <= 0 || page.height() <= 0 {
        window
    } else {
        let zoom = fitting_zoom(window.size, page);
        let vx = zoom.spec_units_for(window.size.width as int);
        let vy = zoom.spec_units_for(window.size.height as int);
        Camera {
            origin: Point {
                x: (page.mins.x - (vx - page.width()) / 2) as i64,
                y: (page.mins.y - (vy - page.height()) / 2) as i64,
            },
            size: window.size,
            zoom,
            scale_factor: window.scale_factor,
        }
    }
}

/// The state of the audience view, as the contracts see it.
pub struct PresentationView {
    pub visible: bool,
    /// The audience sees only the letterbox color.
    pub blanked: bool,
    /// The page the audience is held on, if locked.
    pub locked: Option<Rect>,
    /// Window geometry only: size and scale factor. Zoom and origin are per page.
    pub window: Camera,
}

impl PresentationView {
    pub open spec fn wf(self) -> bool {
        &&& self.window.wf()
        &&& (self.locked matches Some(page) ==> page_in_range(page))
    }
}

/// The audience view.
#[derive(Debug)]
pub struct Presentation {
    visible: bool,
    blanked: bool,
    locked: Option<Rect>,
    window: Camera,
}

impl View for Presentation {
    type V = PresentationView;

    closed spec fn view(&self) -> PresentationView {
        PresentationView {
            visible: self.visible,
            blanked: self.blanked,
            locked: self.locked,
            window: self.window,
        }
    }
}

impl Default for Presentation {
    fn default() -> (p: Presentation)
        ensures
            p.wf(),
            !p@.visible,
            !p@.blanked,
            (p@.locked is None),
            p@.window == (Camera {
                size: Size { width: WINDOW_WIDTH_DEFAULT, height: WINDOW_HEIGHT_DEFAULT },
                ..Camera::spec_default()
            }),
    {
        let mut window = Camera::default();
        window.size = Size { width: WINDOW_WIDTH_DEFAULT, height: WINDOW_HEIGHT_DEFAULT };
        Presentation { visible: false, blanked: false, locked: None, window }
    }
}

impl Presentation {
    pub open spec fn wf(&self) -> bool {
        self@.wf()
    }

    pub fn visible(&self) -> (b: bool)
        ensures
            b == self@.visible,
    {
        self.visible
    }

    pub fn set_visible(&mut self, visible: bool) -> (r: WidgetFlags)
        requires
            old(self).wf(),
        ensures
            final(self)@ == (PresentationView { visible, ..old(self)@ }),
            final(self).wf(),
            r == WidgetFlags::redraw_only(),
    {
        self.visible = visible;
        redraw()
    }

    pub fn blanked(&self) -> (b: bool)
        ensures
            b == self@.blanked,
    {
        self.blanked
    }

    /// Blank the audience view: it shows the letterbox color only.
    pub fn set_blanked(&mut self, blanked: bool) -> (r: WidgetFlags)
        requires
            old(self).wf(),
        ensures
            final(self)@ == (PresentationView { blanked, ..old(self)@ }),
            final(self).wf(),
            r == WidgetFlags::redraw_only(),
    {
        self.blanked = blanked;
        redraw()
    }

    /// Hold the audience on `page`, or let them follow the lecturer again with `None`.
    pub fn lock_on(&mut self, page: Option<Rect>) -> (r: WidgetFlags)
        requires
            old(self).wf(),
            page matches Some(p) ==> page_in_range(p),
        ensures
            final(self)@ == (PresentationView { locked: page, ..old(self)@ }),
            final(self).wf(),
            r == WidgetFlags::redraw_only(),
    {
        self.locked = page;
        redraw()
    }

    /// The locked page, else `page`.
    pub fn page_or(&self, page: Rect) -> (r: Rect)
        ensures
            r == (match self@.locked {
                Some(locked) => locked,
                None => page,
            }),
    {
        match self.locked {
            Some(locked) => locked,
            None => page,
        }
    }

    /// Set the window size in surface pixels and its scale factor.
    pub fn set_size(&mut self, size: Size, scale_factor: i64) -> (r: WidgetFlags)
        requires
            old(self).wf(),
        ensures
            final(self).wf(),
            final(self)@.window == (Camera {
                size: size.spec_clamped(),
                scale_factor: crate::geometry::clamp_int(
                    scale_factor as int,
                    1,
                    crate::camera::SCALE_FACTOR_MAX as int,
                ) as i64,
                ..old(self)@.window
            }),
            final(self)@ == (PresentationView { window: final(self)@.window, ..old(self)@ }),
            r == WidgetFlags::redraw_only(),
    {
        let _ = self.window.set_size(size);
        let _ = self.window.set_scale_factor(scale_factor);
        redraw()
    }

    /// The camera framing `page`: the whole page, centered in the window, at the zoom that
    /// fits it, within the camera zoom limits. A page without area leaves the window camera.
    pub fn camera_for(&self, page: Rect) -> (c: Camera)
        requires
            self.wf(),
            page_in_range(page),
        ensures
            c == framing_camera(self@.window, page),
            c.wf(),
    {
        let size = self.window.size;
        let page_width: i64 = page.maxs.x - page.mins.x;
        let page_height: i64 = page.maxs.y - page.mins.y;
        if page_width <= 0 || page_height <= 0 {
            return self.window;
        }
        proof {
            assert(size.width * page_height <= 0x1_0000 * 0x8000_0000_0000_0000) by (nonlinear_arith)
                requires
                    1 <= size.width <= 0x1_0000,
                    0 < page_height <= 0x8000_0000_0000_0000,
            ;
            assert(size.height * page_width <= 0x1_0000 * 0x8000_0000_0000_0000) by (nonlinear_arith)
                requires
                    1 <= size.height <= 0x1_0000,
                    0 < page_width <= 0x8000_0000_0000_0000,
            ;
        }
        // The tighter axis decides, so a page of another ratio is letterboxed on the other one.
        let wider: bool = (size.width as i128) * (page_height as i128) <= (size.height as i128) * (
        page_width as i128);
        // The zoom is clamped first: the origin must follow the clamped zoom.
        let zoom = if wider {
            clamped_zoom(size.width, page_width)
        } else {
            clamped_zoom(size.height, page_height)
        };
        let view_width: i64 = zoom.units_for(size.width);
        let view_height: i64 = zoom.units_for(size.height);
        proof {
            lemma_framing_extents(size, page);
        }
        // Center: the surface left over beside the scaled page is split evenly.
        let origin = Point {
            x: page.mins.x - floor_div(view_width - page_width, 2),
            y: page.mins.y - floor_div(view_height - page_height, 2),
        };
        Camera { origin, size, zoom, scale_factor: self.window.scale_factor }
    }
}

/// The framing viewport is at most the widest camera viewport, and its origin stays in the
/// camera range.
proof fn lemma_framing_extents(size: Size, page: Rect)
    requires
        size.wf(),
        page_in_range(page),
        page.width() > 0,
        page.height() > 0,
    ensures
        zoom_ok(fitting_zoom(size, page)),
        0 <= fitting_zoom(size, page).spec_units_for(size.width as int) <= 5 * UNIT * size.width,
        0 <= fitting_zoom(size, page).spec_units_for(size.height as int) <= 5 * UNIT * size.height,
{
    let z = fitting_zoom(size, page);
    let n = z.num as int;
    let d = z.den as int;
    let w = size.width as int;
    let h = size.height as int;
    assert(0 <= (w * d) / n <= 5 * UNIT * w) by (nonlinear_arith)
        requires
            1 <= n,
            1 <= d <= 5 * UNIT * n,
            1 <= w,
    ;
    assert(0 <= (h * d) / n <= 5 * UNIT * h) by (nonlinear_arith)
        requires
            1 <= n,
            1 <= d <= 5 * UNIT * n,
            1 <= h,
    ;
}

/// The fitted viewport covers the page on both axes unless the smallest zoom cuts it, and
/// fits it exactly on the tighter axis when no zoom limit applies.
pub proof fn lemma_fitting_zoom_covers(size: Size, page: Rect)
    requires
        size.wf(),
        page_in_range(page),
        page.is_proper(),
    ensures
        fits_at_smallest_zoom(size, page) ==> page.width() <= fitting_zoom(size, page).spec_units_for(
            size.width as int,
        ),
        fits_at_smallest_zoom(size, page) ==> page.height() <= fitting_zoom(
            size,
            page,
        ).spec_units_for(size.height as int),
        fits_within_zoom_limits(size, page) && size.width * page.height() <= size.height
            * page.width() ==> fitting_zoom(size, page).spec_units_for(size.width as int)
            == page.width(),
        fits_within_zoom_limits(size, page) && size.width * page.height() > size.height
            * page.width() ==> fitting_zoom(size, page).spec_units_for(size.height as int)
            == page.height(),
{
    let sw = size.width as int;
    let sh = size.height as int;
    let pw = page.width();
    let ph = page.height();
    let (n, d) = exact_fitting_zoom(size, page);
    if sw * ph <= sh * pw {
        assert(sw * pw / sw == pw) by (nonlinear_arith)
            requires
                sw >= 1,
        ;
        assert(sh * pw / sw >= ph) by (nonlinear_arith)
            requires
                sw >= 1,
                sw * ph <= sh * pw,
        ;
        if n * UNIT > 6 * d {
            assert(sw * UNIT / 6 >= pw) by (nonlinear_arith)
                requires
                    sw * UNIT > 6 * pw,
            ;
            assert(sh * UNIT / 6 >= ph) by (nonlinear_arith)
                requires
                    sw * UNIT > 6 * pw,
                    sw * ph <= sh * pw,
                    sw >= 1,
                    pw >= 1,
                    ph >= 1,
            ;
        }
    } else {
        assert(sh * ph / sh == ph) by (nonlinear_arith)
            requires
                sh >= 1,
        ;
        assert(sw * ph / sh >= pw) by (nonlinear_arith)
            requires
                sh >= 1,
                sw * ph > sh * pw,
        ;
        if n * UNIT > 6 * d {
            assert(sh * UNIT / 6 >= ph) by (nonlinear_arith)
                requires
                    sh * UNIT > 6 * ph,
            ;
            assert(sw * UNIT / 6 >= pw) by (nonlinear_arith)
                requires
                    sh * UNIT > 6 * ph,
                    sw * ph > sh * pw,
                    sh >= 1,
                    pw >= 1,
                    ph >= 1,
            ;
        }
    }
}

/// The camera framing a page shows the whole page, unless the page is too large for the
/// smallest zoom.
pub proof fn law_framed_page_is_visible(window: Camera, page: Rect)
    requires
        window.wf(),
        page_in_range(page),
        page.is_proper(),
        fits_at_smallest_zoom(window.size, page),
    ensures
        framing_camera(window, page).spec_viewport().contains_rect(page),
{
    lemma_fitting_zoom_covers(window.size, page);
    lemma_framing_extents(window.size, page);
}

/// The page is centered: on each axis the margins beside it differ by at most one fine unit,
/// an odd leftover unit going to the right or bottom margin, so the viewport center is within
/// half a fine unit of the page center.
pub proof fn law_framed_page_is_centered(window: Camera, page: Rect)
    requires
        window.wf(),
        page_in_range(page),
        page.is_proper(),
    ensures
        ({
            let vp = framing_camera(window, page).spec_viewport();
            &&& 0 <= (vp.maxs.x - page.maxs.x) - (page.mins.x - vp.mins.x) <= 1
            &&& 0 <= (vp.maxs.y - page.maxs.y) - (page.mins.y - vp.mins.y) <= 1
        }),
{
    lemma_framing_extents(window.size, page);
}

/// Only the origin follows the page: pages of the same size are framed at the same zoom,
/// so a page change never rescales the audience view.
pub proof fn law_page_change_keeps_zoom(window: Camera, first: Rect, second: Rect)
    requires
        first.width() == second.width(),
        first.height() == second.height(),
    ensures
        framing_camera(window, first).zoom == framing_camera(window, second).zoom,
{
}

/// Framing a moved page moves the viewport with it: a page of the same size elsewhere is
/// framed by the same camera shifted by the same amount.
pub proof fn law_framing_follows_the_page(window: Camera, first: Rect, second: Rect)
    requires
        window.wf(),
        page_in_range(first),
        page_in_range(second),
        first.is_proper(),
        first.width() == second.width(),
        first.height() == second.height(),
    ensures
        framing_camera(window, second).origin.x - framing_camera(window, first).origin.x
            == second.mins.x - first.mins.x,
        framing_camera(window, second).origin.y - framing_camera(window, first).origin.y
            == second.mins.y - first.mins.y,
        framing_camera(window, second).zoom == framing_camera(window, first).zoom,
{
    lemma_framing_extents(window.size, first);
    lemma_framing_extents(window.size, second);
}

/// A page of the window's aspect ratio fills the window edge to edge when no zoom limit
/// applies: there is no letterbox.
pub proof fn law_matching_ratio_leaves_no_letterbox(window: Camera, page: Rect)
    requires
        window.wf(),
        page_in_range(page),
        page.is_proper(),
        fits_within_zoom_limits(window.size, page),
        window.size.width * page.height() == window.size.height * page.width(),
    ensures
        framing_camera(window, page).spec_viewport() == page,
{
    lemma_fitting_zoom_covers(window.size, page);
    lemma_framing_extents(window.size, page);
    let sw = window.size.width as int;
    let sh = window.size.height as int;
    let pw = page.width();
    let ph = page.height();
    assert(sh * pw / sw == ph) by (nonlinear_arith)
        requires
            sw >= 1,
            sw * ph == sh * pw,
    ;
}

/// The tighter axis is filled edge to edge when no zoom limit applies; the letterbox is on
/// the other axis only.
pub proof fn law_tighter_axis_is_filled(window: Camera, page: Rect)
    requires
        window.wf(),
        page_in_range(page),
        page.is_proper(),
        fits_within_zoom_limits(window.size, page),
    ensures
        ({
            let vp = framing_camera(window, page).spec_viewport();
            if window.size.width * page.height() <= window.size.height * page.width() {
                vp.mins.x == page.mins.x && vp.maxs.x == page.maxs.x
            } else {
                vp.mins.y == page.mins.y && vp.maxs.y == page.maxs.y
            }
        }),
{
    lemma_fitting_zoom_covers(window.size, page);
    lemma_framing_extents(window.size, page);
}

} // verus!
