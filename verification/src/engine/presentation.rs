//! Audience window operations. It reads the same document as the main canvas, through its own camera.
use vstd::prelude::*;
use crate::camera::Camera;
use crate::engine::Engine;
use crate::geometry::{
    abs_int, ceil_div, ceil_div_i64, clamp_i64, clamp_int, floor_div, max_int, Point, Rect, Size,
    COORD_MAX,
};
use crate::presentation::{fits_at_smallest_zoom, framing_camera, page_in_range, PresentationView};
use crate::widget_flags::WidgetFlags;

verus! {

/// The grid cell, along one axis, of position `v` on a grid of `cell` units anchored at zero,
/// clamped to the cells that the interval `[lo, hi]` spans.
pub open spec fn grid_cell(v: int, lo: int, hi: int, cell: int) -> int {
    let first = lo / cell;
    let last = ceil_div(hi, cell) - 1;
    clamp_int(v / cell, first, max_int(last, first))
}

impl Engine {
    /// The page under the center of the main viewport: the cell of the page grid anchored at
    /// the coordinate origin that the center falls into, clamped to the cells the document spans.
    /// With a page format without area the whole document is the page.
    pub open spec fn spec_lecturer_page(&self) -> Rect {
        let pw = self.document.format.width as int;
        let ph = self.document.format.height as int;
        let bounds = self.document.spec_bounds();
        if pw <= 0 || ph <= 0 {
            bounds
        } else {
            let center = self.camera.spec_viewport_center();
            let cx = grid_cell(center.x as int, bounds.mins.x as int, bounds.maxs.x as int, pw);
            let cy = grid_cell(center.y as int, bounds.mins.y as int, bounds.maxs.y as int, ph);
            Rect {
                mins: Point { x: (cx * pw) as i64, y: (cy * ph) as i64 },
                maxs: Point { x: (cx * pw + pw) as i64, y: (cy * ph + ph) as i64 },
            }
        }
    }

    /// The page the audience sees: the locked page, else the lecturer's.
    pub open spec fn spec_audience_page(&self) -> Rect {
        match self.presentation@.locked {
            Some(page) => page,
            None => self.spec_lecturer_page(),
        }
    }

    pub fn presentation_set_visible(&mut self, visible: bool) -> (r: WidgetFlags)
        requires
            old(self).wf(),
        ensures
            final(self).wf(),
            final(self).presentation@ == (PresentationView { visible, ..old(self).presentation@ }),
            final(self).camera == old(self).camera,
            final(self).document == old(self).document,
            final(self).zoom_window@ == old(self).zoom_window@,
            final(self).pen_style == old(self).pen_style,
            r == WidgetFlags::redraw_only(),
    {
        self.presentation.set_visible(visible)
    }

    /// Set the audience window size in surface pixels, and its scale factor.
    pub fn presentation_set_size(&mut self, size: Size, scale_factor: i64) -> (r: WidgetFlags)
        requires
            old(self).wf(),
        ensures
            final(self).wf(),
            final(self).presentation@ == (PresentationView {
                window: Camera {
                    size: size.spec_clamped(),
                    scale_factor: clamp_int(
                        scale_factor as int,
                        1,
                        crate::camera::SCALE_FACTOR_MAX as int,
                    ) as i64,
                    ..old(self).presentation@.window
                },
                ..old(self).presentation@
            }),
            final(self).camera == old(self).camera,
            final(self).document == old(self).document,
            final(self).zoom_window@ == old(self).zoom_window@,
            final(self).pen_style == old(self).pen_style,
            r == WidgetFlags::redraw_only(),
    {
        self.presentation.set_size(size, scale_factor)
    }

    pub fn presentation_set_blanked(&mut self, blanked: bool) -> (r: WidgetFlags)
        requires
            old(self).wf(),
        ensures
            final(self).wf(),
            final(self).presentation@ == (PresentationView { blanked, ..old(self).presentation@ }),
            final(self).camera == old(self).camera,
            final(self).document == old(self).document,
            final(self).zoom_window@ == old(self).zoom_window@,
            final(self).pen_style == old(self).pen_style,
            r == WidgetFlags::redraw_only(),
    {
        self.presentation.set_blanked(blanked)
    }

    /// Hold the audience on the page they are seeing, or let them follow the lecturer again.
    pub fn presentation_set_page_locked(&mut self, locked: bool) -> (r: WidgetFlags)
        requires
            old(self).wf(),
        ensures
            final(self).wf(),
            final(self).presentation@ == (PresentationView {
                locked: if locked {
                    Some(old(self).spec_audience_page())
                } else {
                    None
                },
                ..old(self).presentation@
            }),
            final(self).camera == old(self).camera,
            final(self).document == old(self).document,
            final(self).zoom_window@ == old(self).zoom_window@,
            final(self).pen_style == old(self).pen_style,
            r == WidgetFlags::redraw_only(),
    {
        let page = if locked {
            Some(self.audience_page())
        } else {
            None
        };
        self.presentation.lock_on(page)
    }

    /// What the audience window draws over its letterbox: nothing while blanked, else the
    /// page the audience sees and the camera framing it. The camera shows the whole page unless
    /// the page has no area or is too large for the smallest zoom.
    pub fn presentation_frame(&self) -> (r: Option<(Rect, Camera)>)
        requires
            self.wf(),
        ensures
            r == (if self.presentation@.blanked {
                None
            } else {
                Some(
                    (
                        self.spec_audience_page(),
                        framing_camera(self.presentation@.window, self.spec_audience_page()),
                    ),
                )
            }),
            r matches Some((page, camera)) ==> camera.wf(),
            r matches Some((page, camera)) ==> (page.is_proper() && fits_at_smallest_zoom(
                camera.size,
                page,
            ) ==> camera.spec_viewport().contains_rect(page)),
            r matches Some((page, camera)) ==> (!page.is_proper() ==> camera
                == self.presentation@.window),
    {
        if self.presentation.blanked() {
            return None;
        }
        let page = self.audience_page();
        let camera = self.presentation.camera_for(page);
        proof {
            if page.is_proper() && fits_at_smallest_zoom(self.presentation@.window.size, page) {
                crate::presentation::law_framed_page_is_visible(self.presentation@.window, page);
            }
        }
        Some((page, camera))
    }

    /// The page the audience is seeing.
    pub fn audience_page(&self) -> (r: Rect)
        requires
            self.wf(),
        ensures
            r == self.spec_audience_page(),
            page_in_range(r),
    {
        let lecturer = self.lecturer_page();
        self.presentation.page_or(lecturer)
    }

    /// The page under the center of the lecturer's viewport.
    ///
    /// Only the page follows the lecturer; zoom and scrolling inside a page do not reach the
    /// audience camera. Pages tile the plane from the coordinate origin, not from the document
    /// origin, clamped to the cells the document spans. With a page format without area the
    /// whole document is the page.
    pub fn lecturer_page(&self) -> (r: Rect)
        requires
            self.wf(),
        ensures
            r == self.spec_lecturer_page(),
            page_in_range(r),
            self.document.format.width <= 0 || self.document.format.height <= 0 ==> r
                == self.document.spec_bounds(),
            self.document.format.width > 0 && self.document.format.height > 0 ==> r.width()
                == self.document.format.width && r.height() == self.document.format.height,
    {
        let page_width: i64 = self.document.format.width;
        let page_height: i64 = self.document.format.height;
        let bounds = self.document.bounds();
        if page_width <= 0 || page_height <= 0 {
            return bounds;
        }
        let center = self.camera.viewport_center();
        proof {
            self.camera.lemma_extents();
        }
        let cx: i64 = grid_cell_of(center.x, bounds.mins.x, bounds.maxs.x, page_width);
        let cy: i64 = grid_cell_of(center.y, bounds.mins.y, bounds.maxs.y, page_height);
        proof {
            lemma_grid_cell_range(
                center.x as int,
                bounds.mins.x as int,
                bounds.maxs.x as int,
                page_width as int,
            );
            lemma_grid_cell_range(
                center.y as int,
                bounds.mins.y as int,
                bounds.maxs.y as int,
                page_height as int,
            );
        }
        let x: i64 = cx * page_width;
        let y: i64 = cy * page_height;
        Rect { mins: Point { x, y }, maxs: Point { x: x + page_width, y: y + page_height } }
    }
}

/// The grid cell of `v` along one axis; see [`grid_cell`].
fn grid_cell_of(v: i64, lo: i64, hi: i64, cell: i64) -> (c: i64)
    requires
        cell >= 1,
        -0x4800_0000_0000_0000 <= v <= 0x4800_0000_0000_0000,
        -COORD_MAX <= lo <= hi <= COORD_MAX,
    ensures
        c == grid_cell(v as int, lo as int, hi as int, cell as int),
{
    let first: i64 = floor_div(lo, cell);
    let last: i64 = ceil_div_i64(hi, cell) - 1;
    let upper: i64 = if last >= first {
        last
    } else {
        first
    };
    clamp_i64(floor_div(v, cell), first, upper)
}

/// A clamped grid cell, scaled back to fine units, starts within one cell of the interval.
proof fn lemma_grid_cell_range(v: int, lo: int, hi: int, cell: int)
    requires
        cell >= 1,
        cell <= COORD_MAX,
        -COORD_MAX <= lo <= hi <= COORD_MAX,
    ensures
        lo - cell < grid_cell(v, lo, hi, cell) * cell <= hi,
        lo - cell < grid_cell(v, lo, hi, cell) * cell <= COORD_MAX,
{
    let first = lo / cell;
    let last = ceil_div(hi, cell) - 1;
    let c = grid_cell(v, lo, hi, cell);
    assert(lo - cell < first * cell <= lo) by (nonlinear_arith)
        requires
            cell >= 1,
            first == lo / cell,
    ;
    assert(hi - cell < (-((-hi) / cell)) * cell) by (nonlinear_arith)
        requires
            cell >= 1,
    ;
    assert(last * cell < hi) by (nonlinear_arith)
        requires
            cell >= 1,
            last == -((-hi) / cell) - 1,
            hi - cell < (-((-hi) / cell)) * cell,
    ;
    assert(first <= c <= max_int(last, first));
    if c <= first {
        assert(c * cell == first * cell);
    } else {
        assert(c <= last);
        assert(first * cell < c * cell <= last * cell) by (nonlinear_arith)
            requires
                cell >= 1,
                first < c <= last,
        ;
    }
}

/// The lecturer's page lies on the page grid anchored at the coordinate origin.
pub proof fn law_lecturer_page_is_on_the_grid(e: &Engine)
    requires
        e.wf(),
        e.document.format.width > 0,
        e.document.format.height > 0,
    ensures
        (e.spec_lecturer_page().mins.x as int) % (e.document.format.width as int) == 0,
        (e.spec_lecturer_page().mins.y as int) % (e.document.format.height as int) == 0,
        e.spec_lecturer_page().width() == e.document.format.width,
        e.spec_lecturer_page().height() == e.document.format.height,
{
    let pw = e.document.format.width as int;
    let ph = e.document.format.height as int;
    let bounds = e.document.spec_bounds();
    let center = e.camera.spec_viewport_center();
    let cx = grid_cell(center.x as int, bounds.mins.x as int, bounds.maxs.x as int, pw);
    let cy = grid_cell(center.y as int, bounds.mins.y as int, bounds.maxs.y as int, ph);
    lemma_grid_cell_range(center.x as int, bounds.mins.x as int, bounds.maxs.x as int, pw);
    lemma_grid_cell_range(center.y as int, bounds.mins.y as int, bounds.maxs.y as int, ph);
    assert((cx * pw) % pw == 0) by (nonlinear_arith)
        requires
            pw >= 1,
    ;
    assert((cy * ph) % ph == 0) by (nonlinear_arith)
        requires
            ph >= 1,
    ;
}

/// The lecturer's page is the page under the viewport center while the center is over a
/// page the document spans.
pub proof fn law_lecturer_page_follows_the_viewport_center(e: &Engine)
    requires
        e.wf(),
        e.document.format.width > 0,
        e.document.format.height > 0,
        ({
            let b = e.document.spec_bounds();
            let c = e.camera.spec_viewport_center();
            let pw = e.document.format.width as int;
            let ph = e.document.format.height as int;
            &&& (b.mins.x as int) / pw <= (c.x as int) / pw <= ceil_div(b.maxs.x as int, pw) - 1
            &&& (b.mins.y as int) / ph <= (c.y as int) / ph <= ceil_div(b.maxs.y as int, ph) - 1
        }),
    ensures
        e.spec_lecturer_page().mins.x <= e.camera.spec_viewport_center().x < e.spec_lecturer_page().maxs.x,
        e.spec_lecturer_page().mins.y <= e.camera.spec_viewport_center().y < e.spec_lecturer_page().maxs.y,
{
    let pw = e.document.format.width as int;
    let ph = e.document.format.height as int;
    let b = e.document.spec_bounds();
    let c = e.camera.spec_viewport_center();
    lemma_grid_cell_range(c.x as int, b.mins.x as int, b.maxs.x as int, pw);
    lemma_grid_cell_range(c.y as int, b.mins.y as int, b.maxs.y as int, ph);
    let cxv = c.x as int;
    let cyv = c.y as int;
    assert((cxv / pw) * pw <= cxv < (cxv / pw) * pw + pw) by (nonlinear_arith)
        requires
            pw >= 1,
    ;
    assert((cyv / ph) * ph <= cyv < (cyv / ph) * ph + ph) by (nonlinear_arith)
        requires
            ph >= 1,
    ;
}

/// Locking holds the audience on a page whatever the lecturer does with the main camera,
/// and unlocking lets the audience follow the lecturer again.
pub proof fn law_locked_page_holds(e: &Engine, moved: &Engine)
    requires
        moved.presentation@ == e.presentation@,
    ensures
        e.presentation@.locked matches Some(page) ==> moved.spec_audience_page() == page,
        e.presentation@.locked is None ==> moved.spec_audience_page() == moved.spec_lecturer_page(),
{
}

/// The page cell along one axis is the spanned cell nearest to the cell of `v`: the cell of
/// `v` itself while the interval `[lo, hi]` spans it, the first spanned cell before them and
/// the last one after them.
pub proof fn law_grid_cell_is_the_nearest_spanned_cell(v: int, lo: int, hi: int, cell: int)
    requires
        cell >= 1,
        lo <= hi,
    ensures
        ({
            let q = v / cell;
            let first = lo / cell;
            let last = if ceil_div(hi, cell) - 1 >= first {
                ceil_div(hi, cell) - 1
            } else {
                first
            };
            let c = grid_cell(v, lo, hi, cell);
            &&& first <= c <= last
            &&& (first <= q <= last ==> c == q)
            &&& (q > last ==> c == last)
            &&& (q < first ==> c == first)
            &&& forall|k: int| first <= k <= last ==> abs_int(c - q) <= #[trigger] abs_int(k - q)
        }),
{
}

/// The lecturer's page is the page of the grid anchored at the coordinate origin nearest to
/// the viewport center among the pages the document spans: scrolled past the last page, the
/// audience stays on the last page.
pub proof fn law_lecturer_page_is_the_nearest_spanned_page(e: &Engine)
    requires
        e.wf(),
        e.document.format.width > 0,
        e.document.format.height > 0,
    ensures
        ({
            let pw = e.document.format.width as int;
            let ph = e.document.format.height as int;
            let b = e.document.spec_bounds();
            let c = e.camera.spec_viewport_center();
            let page = e.spec_lecturer_page();
            let last_x = ceil_div(b.maxs.x as int, pw) - 1;
            let last_y = ceil_div(b.maxs.y as int, ph) - 1;
            &&& (page.mins.x as int) % pw == 0
            &&& (page.mins.y as int) % ph == 0
            &&& (b.mins.x as int) / pw <= (page.mins.x as int) / pw
            &&& (b.mins.y as int) / ph <= (page.mins.y as int) / ph
            &&& ((c.x as int) / pw > last_x && last_x >= (b.mins.x as int) / pw ==> page.mins.x
                == last_x * pw)
            &&& ((c.y as int) / ph > last_y && last_y >= (b.mins.y as int) / ph ==> page.mins.y
                == last_y * ph)
            &&& ((b.mins.x as int) / pw <= (c.x as int) / pw <= last_x ==> page.mins.x <= c.x
                < page.maxs.x)
            &&& ((b.mins.y as int) / ph <= (c.y as int) / ph <= last_y ==> page.mins.y <= c.y
                < page.maxs.y)
        }),
{
    let pw = e.document.format.width as int;
    let ph = e.document.format.height as int;
    let b = e.document.spec_bounds();
    let c = e.camera.spec_viewport_center();
    law_lecturer_page_is_on_the_grid(e);
    law_grid_cell_is_the_nearest_spanned_cell(c.x as int, b.mins.x as int, b.maxs.x as int, pw);
    law_grid_cell_is_the_nearest_spanned_cell(c.y as int, b.mins.y as int, b.maxs.y as int, ph);
    lemma_grid_cell_range(c.x as int, b.mins.x as int, b.maxs.x as int, pw);
    lemma_grid_cell_range(c.y as int, b.mins.y as int, b.maxs.y as int, ph);
    let gx = grid_cell(c.x as int, b.mins.x as int, b.maxs.x as int, pw);
    let gy = grid_cell(c.y as int, b.mins.y as int, b.maxs.y as int, ph);
    assert((gx * pw) / pw == gx) by (nonlinear_arith)
        requires
            pw >= 1,
    ;
    assert((gy * ph) / ph == gy) by (nonlinear_arith)
        requires
            ph >= 1,
    ;
    let cxv = c.x as int;
    let cyv = c.y as int;
    assert((cxv / pw) * pw <= cxv < (cxv / pw) * pw + pw) by (nonlinear_arith)
        requires
            pw >= 1,
    ;
    assert((cyv / ph) * ph <= cyv < (cyv / ph) * ph + ph) by (nonlinear_arith)
        requires
            ph >= 1,
    ;
}

} // verus!
