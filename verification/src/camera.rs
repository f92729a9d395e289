//! A camera: which part of the document a surface shows, and at which zoom.
use vstd::prelude::*;
use crate::geometry::{
    clamp_i64, clamp_int, view_ok, zoom_ok, Point, Ratio, Rect, Size, RATIO_MAX, SIZE_MAX, UNIT,
    VIEW_MAX,
};
use crate::widget_flags::WidgetFlags;

verus! {

/// Largest surface scale factor (device pixels per surface pixel).
pub const SCALE_FACTOR_MAX: i64 = 16;

/// A view onto the document.
///
/// The viewport starts at `origin` and covers `size` surface pixels at `zoom`
/// surface pixels per fine unit. The zoom stays within the camera zoom limits.
#[derive(Clone, Copy, Debug, PartialEq, Eq, Structural)]
pub struct Camera {
    /// Top-left corner of the viewport, in fine units.
    pub origin: Point,
    /// Surface size in pixels.
    pub size: Size,
    /// Surface pixels per fine unit.
    pub zoom: Ratio,
    /// Device pixels per surface pixel.
    pub scale_factor: i64,
}

/// `v` clamped into the camera range.
pub open spec fn clamp_view(v: int) -> int {
    clamp_int(v, -VIEW_MAX, VIEW_MAX as int)
}

impl Camera {
    pub open spec fn wf(self) -> bool {
        &&& view_ok(self.origin.x as int)
        &&& view_ok(self.origin.y as int)
        &&& self.size.wf()
        &&& zoom_ok(self.zoom)
        &&& 1 <= self.scale_factor <= SCALE_FACTOR_MAX
    }

    /// Viewport width in fine units.
    pub open spec fn extent_x(self) -> int {
        self.zoom.spec_units_for(self.size.width as int)
    }

    /// Viewport height in fine units.
    pub open spec fn extent_y(self) -> int {
        self.zoom.spec_units_for(self.size.height as int)
    }

    pub open spec fn spec_viewport(self) -> Rect {
        Rect {
            mins: self.origin,
            maxs: Point {
                x: (self.origin.x + self.extent_x()) as i64,
                y: (self.origin.y + self.extent_y()) as i64,
            },
        }
    }

    pub open spec fn spec_viewport_center(self) -> Point {
        Point {
            x: (self.origin.x + self.extent_x() / 2) as i64,
            y: (self.origin.y + self.extent_y() / 2) as i64,
        }
    }

    pub open spec fn spec_image_scale(self) -> Ratio {
        Ratio { num: (self.zoom.num * self.scale_factor) as i64, den: self.zoom.den }
    }

    pub proof fn lemma_extents(self)
        requires
            self.wf(),
        ensures
            0 <= self.extent_x() <= 5 * UNIT * SIZE_MAX,
            0 <= self.extent_y() <= 5 * UNIT * SIZE_MAX,
    {
        let n = self.zoom.num as int;
        let d = self.zoom.den as int;
        let w = self.size.width as int;
        let h = self.size.height as int;
        assert(0 <= (w * d) / n <= 5 * UNIT * w) by (nonlinear_arith)
            requires
                1 <= n,
                1 <= d <= 5 * UNIT * n,
                1 <= w,
        ;
        assert(0 <= (h * d) / n <= 5 * UNIT * h) by (nonlinear_arith)
            requires
                1 <= n,
                1 <= d <= 5 * UNIT * n,
                1 <= h,
        ;
    }

    /// The part of the document the camera shows.
    pub fn viewport(&self) -> (r: Rect)
        requires
            self.wf(),
        ensures
            r == self.spec_viewport(),
    {
        proof {
            self.lemma_extents();
        }
        let w: i64 = self.zoom.units_for(self.size.width);
        let h: i64 = self.zoom.units_for(self.size.height);
        Rect {
            mins: self.origin,
            maxs: Point { x: self.origin.x + w, y: self.origin.y + h },
        }
    }

    /// The center of the viewport, rounded towards the origin corner.
    pub fn viewport_center(&self) -> (c: Point)
        requires
            self.wf(),
        ensures
            c == self.spec_viewport_center(),
    {
        proof {
            self.lemma_extents();
        }
        let w: i64 = self.zoom.units_for(self.size.width);
        let h: i64 = self.zoom.units_for(self.size.height);
        Point { x: self.origin.x + w / 2, y: self.origin.y + h / 2 }
    }

    /// Scroll so that the viewport center is at `center`, as far as the camera range allows.
    pub fn set_viewport_center(&mut self, center: Point) -> (r: WidgetFlags)
        requires
            old(self).wf(),
            view_ok(center.x as int),
            view_ok(center.y as int),
        ensures
            final(self).wf(),
            final(self).size == old(self).size,
            final(self).zoom == old(self).zoom,
            final(self).scale_factor == old(self).scale_factor,
            final(self).origin.x == clamp_view(center.x - old(self).extent_x() / 2),
            final(self).origin.y == clamp_view(center.y - old(self).extent_y() / 2),
            r == (WidgetFlags { redraw: true, view_modified: true }),
    {
        proof {
            self.lemma_extents();
        }
        let w: i64 = self.zoom.units_for(self.size.width);
        let h: i64 = self.zoom.units_for(self.size.height);
        let x: i64 = clamp_i64(center.x - w / 2, -VIEW_MAX, VIEW_MAX);
        let y: i64 = clamp_i64(center.y - h / 2, -VIEW_MAX, VIEW_MAX);
        self.set_origin(Point { x, y })
    }

    /// Scroll so that the viewport starts at `origin`.
    pub fn set_origin(&mut self, origin: Point) -> (r: WidgetFlags)
        requires
            old(self).wf(),
            view_ok(origin.x as int),
            view_ok(origin.y as int),
        ensures
            *final(self) == (Camera { origin, ..*old(self) }),
            r == (WidgetFlags { redraw: true, view_modified: true }),
    {
        self.origin = origin;
        WidgetFlags { redraw: true, view_modified: true }
    }

    /// Set the surface size; each side is kept in `[1, SIZE_MAX]` pixels.
    pub fn set_size(&mut self, size: Size) -> (r: WidgetFlags)
        requires
            old(self).wf(),
        ensures
            *final(self) == (Camera { size: size.spec_clamped(), ..*old(self) }),
            final(self).wf(),
            r == (WidgetFlags { redraw: true, view_modified: true }),
    {
        self.size = size.clamped();
        WidgetFlags { redraw: true, view_modified: true }
    }

    /// Set the scale factor, kept in `[1, SCALE_FACTOR_MAX]`.
    pub fn set_scale_factor(&mut self, scale_factor: i64) -> (r: WidgetFlags)
        requires
            old(self).wf(),
        ensures
            *final(self) == (Camera {
                scale_factor: clamp_int(scale_factor as int, 1, SCALE_FACTOR_MAX as int) as i64,
                ..*old(self)
            }),
            final(self).wf(),
            r == WidgetFlags::redraw_only(),
    {
        self.scale_factor = clamp_i64(scale_factor, 1, SCALE_FACTOR_MAX);
        WidgetFlags { redraw: true, view_modified: false }
    }

    /// Surface pixels per fine unit.
    pub fn total_zoom(&self) -> (z: Ratio)
        ensures
            z == self.zoom,
    {
        self.zoom
    }

    /// Device pixels per fine unit, the scale images for this camera are rendered at.
    pub fn image_scale(&self) -> (z: Ratio)
        requires
            self.wf(),
        ensures
            z == self.spec_image_scale(),
    {
        proof {
            assert(self.zoom.num * self.scale_factor <= RATIO_MAX * SCALE_FACTOR_MAX) by (nonlinear_arith)
                requires
                    self.wf(),
            ;
        }
        Ratio { num: self.zoom.num * self.scale_factor, den: self.zoom.den }
    }
}

impl Camera {
    /// The camera `Camera::default()` returns.
    pub open spec fn spec_default() -> Camera {
        Camera {
            origin: Point { x: 0, y: 0 },
            size: Size { width: 800, height: 600 },
            zoom: Ratio { num: 1, den: UNIT },
            scale_factor: 1,
        }
    }
}

impl Default for Camera {
    /// An 800 by 600 pixel surface at one pixel per document unit, looking at the origin.
    fn default() -> (c: Camera)
        ensures
            c == Camera::spec_default(),
            c.wf(),
            c.origin == (Point { x: 0, y: 0 }),
            c.size == (Size { width: 800, height: 600 }),
            c.zoom == (Ratio { num: 1, den: UNIT }),
            c.scale_factor == 1,
    {
        Camera {
            origin: Point { x: 0, y: 0 },
            size: Size { width: 800, height: 600 },
            zoom: Ratio { num: 1, den: UNIT },
            scale_factor: 1,
        }
    }
}

} // verus!
