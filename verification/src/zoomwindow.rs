//! A magnified view of a small box on the document, for writing small and neat.
//!
//! ```text
//!  document (fine units)                panel (surface px)
//!  ┌───────────────────────┐            ┌──────────────────────┐
//!  │   ┌─────────────┐     │   zoom     │                      │
//!  │   │  box        │     │  ───────►  │   box content        │
//!  │   └─────────────┘     │            │                      │
//!  └───────────────────────┘            └──────────────────────┘
//! ```
//!
//! The box is the viewport of the panel camera. Magnification is `panel width / box width`,
//! within the camera zoom limits: the box is as wide as requested unless the panel zoom would
//! leave the limits, and then as wide as the nearest limit allows.
//!
//! Fractions of a box width (a quarter for the advance zone, a half for a shift, three
//! quarters for an advance, five fourths and four fifths for a scale step) are taken to the
//! nearest fine unit, halves going up; they are exact whenever the width allows.
use vstd::prelude::*;
use crate::camera::{Camera, SCALE_FACTOR_MAX};
use crate::document::{Background, Document};
use crate::geometry::{
    abs_int, clamp_i64, clamp_int, coord_ok, floor_div, scaled_at_most, zoom_ok, Point, Ratio, Rect,
    Size, SIZE_MAX, UNIT,
};
use crate::pen::PenEvent;
use crate::widget_flags::{redraw, WidgetFlags};

verus! {

/// Box width when the panel opens, in fine units.
pub const BOX_WIDTH_DEFAULT: i64 = 300 * UNIT;

/// Narrowest box that can be requested, in fine units.
pub const BOX_WIDTH_MIN: i64 = 50 * UNIT;

/// Widest box that can be requested, in fine units.
pub const BOX_WIDTH_MAX: i64 = 2000 * UNIT;

/// Vertical distance of a new line when the panel opens, in fine units.
pub const RETURN_HEIGHT_DEFAULT: i64 = 32 * UNIT;

/// Side of the resize handle square, in surface pixels of the main canvas.
/// A touch this close outside the box border still grabs the box.
pub const HANDLE_SIZE: i64 = 14;

/// Panel width when it opens, in surface pixels.
pub const PANEL_WIDTH_DEFAULT: i64 = 800;

/// Panel height when it opens, in surface pixels.
pub const PANEL_HEIGHT_DEFAULT: i64 = 200;

/// Widest box any panel shows: the widest panel at the smallest zoom, in fine units.
pub const WIDTH_LIMIT: i64 = 5 * UNIT * SIZE_MAX;

/// Direction to shift the zoom box along the line.
#[derive(Clone, Copy, Debug, PartialEq, Eq, Structural)]
pub enum BoxShift {
    Left,
    Right,
}

/// Change of the zoom box size. A smaller box means a higher magnification.
#[derive(Clone, Copy, Debug, PartialEq, Eq, Structural)]
pub enum BoxScale {
    Shrink,
    Grow,
}

/// Where a new line starts.
#[derive(Clone, Copy, Debug, PartialEq, Eq, Structural)]
pub enum LineStart {
    /// Left edge of the page the box is on.
    PageEdge,
    /// The x where the box was last placed by hand.
    LastPlaced,
}

impl Default for LineStart {
    fn default() -> (l: LineStart)
        ensures
            l == LineStart::PageEdge,
    {
        LineStart::PageEdge
    }
}

/// What a running drag of the box does.
#[derive(Clone, Copy, Debug, PartialEq, Eq, Structural)]
pub enum DragMode {
    Move,
    Resize,
}

/// A running drag of the box on the main canvas.
#[derive(Clone, Copy, Debug, PartialEq, Eq, Structural)]
pub struct BoxDrag {
    pub mode: DragMode,
    /// Where the pen went down.
    pub start_pos: Point,
    /// The box when the pen went down.
    pub start_bounds: Rect,
}

impl BoxDrag {
    pub open spec fn wf(self) -> bool {
        &&& self.start_pos.in_range()
        &&& self.start_bounds.mins.in_range()
        &&& 1 <= self.start_bounds.width() <= WIDTH_LIMIT
    }
}

/// The background tile the panel shows: the background it renders, at which scale.
/// Rendering it to pixels is up to whoever draws the panel.
#[derive(Clone, Copy, Debug, PartialEq, Eq, Structural)]
pub struct Tile {
    pub background: Background,
    /// Device pixels per fine unit.
    pub image_scale: Ratio,
}

/// A requested width `w` after one scale step: four fifths to shrink, five fourths to grow,
/// to the nearest fine unit and within `[BOX_WIDTH_MIN, BOX_WIDTH_MAX]`.
pub open spec fn scaled_box_width(w: int, scale: BoxScale) -> int {
    let v = match scale {
        BoxScale::Shrink => (8 * w + 5) / 10,
        BoxScale::Grow => (10 * w + 4) / 8,
    };
    clamp_int(v, BOX_WIDTH_MIN as int, BOX_WIDTH_MAX as int)
}

/// The state of a zoom window, as the contracts see it.
pub struct ZoomWindowView {
    pub visible: bool,
    /// Panel size in surface pixels.
    pub panel: Size,
    /// Device pixels per panel pixel.
    pub scale_factor: i64,
    /// Top-left corner of the box, in fine units.
    pub origin: Point,
    /// Requested box width in fine units.
    pub box_width: i64,
    /// Vertical distance of a new line, in fine units.
    pub return_height: i64,
    pub line_start: LineStart,
    /// The x of the last placement of the box by hand.
    pub line_start_x: i64,
    /// Whether finishing a stroke in the advance zone moves the box forward.
    pub auto_advance: bool,
    pub drag: Option<BoxDrag>,
    /// A stroke started in the panel and has not ended yet.
    pub stroke_pending: bool,
    /// The main canvas pen is down.
    pub canvas_pen_down: bool,
    pub tile: Option<Tile>,
}

impl ZoomWindowView {
    /// Everything but the link between the tile and the visibility.
    pub open spec fn wf_fields(self) -> bool {
        &&& self.panel.wf()
        &&& 1 <= self.scale_factor <= SCALE_FACTOR_MAX
        &&& self.origin.in_range()
        &&& BOX_WIDTH_MIN <= self.box_width <= BOX_WIDTH_MAX
        &&& UNIT <= self.return_height
        &&& coord_ok(self.line_start_x as int)
        &&& (self.drag matches Some(d) ==> d.wf())
    }

    pub open spec fn wf(self) -> bool {
        &&& self.wf_fields()
        &&& (self.tile is Some ==> self.visible)
    }

    /// The state of a panel that has just been created.
    pub open spec fn initial() -> ZoomWindowView {
        ZoomWindowView {
            visible: false,
            panel: Size { width: PANEL_WIDTH_DEFAULT, height: PANEL_HEIGHT_DEFAULT },
            scale_factor: 1,
            origin: Point { x: 0, y: 0 },
            box_width: BOX_WIDTH_DEFAULT,
            return_height: RETURN_HEIGHT_DEFAULT,
            line_start: LineStart::PageEdge,
            line_start_x: 0,
            auto_advance: true,
            drag: None,
            stroke_pending: false,
            canvas_pen_down: false,
            tile: None,
        }
    }

    /// Narrowest box the panel can show: the panel width at the largest zoom, rounded up to
    /// a whole fine unit.
    pub open spec fn min_fit_width(self) -> int {
        (self.panel.width * UNIT + 5) / 6
    }

    /// Widest box the panel can show: the panel width at the smallest zoom.
    pub open spec fn max_fit_width(self) -> int {
        5 * UNIT * self.panel.width
    }

    /// The box width the panel shows: the requested width, kept within the zoom limits.
    pub open spec fn effective_width(self) -> int {
        clamp_int(self.box_width as int, self.min_fit_width(), self.max_fit_width())
    }

    /// Box height: the panel height seen at the panel zoom, in fine units.
    pub open spec fn box_height(self) -> int {
        self.panel.height * self.effective_width() / (self.panel.width as int)
    }

    /// The box in fine units.
    pub open spec fn box_bounds(self) -> Rect {
        Rect {
            mins: self.origin,
            maxs: Point {
                x: (self.origin.x + self.effective_width()) as i64,
                y: (self.origin.y + self.box_height()) as i64,
            },
        }
    }

    /// Panel pixels per fine unit.
    pub open spec fn magnification(self) -> Ratio {
        Ratio { num: self.panel.width, den: self.effective_width() as i64 }
    }

    /// Device pixels per fine unit, the scale of the background tile.
    pub open spec fn image_scale(self) -> Ratio {
        Ratio {
            num: (self.panel.width * self.scale_factor) as i64,
            den: self.effective_width() as i64,
        }
    }

    /// The panel camera: its viewport is the box.
    pub open spec fn camera(self) -> Camera {
        Camera {
            origin: self.origin,
            size: self.panel,
            zoom: self.magnification(),
            scale_factor: self.scale_factor,
        }
    }

    /// A quarter of the box width, to the nearest fine unit.
    pub open spec fn quarter_width(self) -> int {
        (self.effective_width() + 2) / 4
    }

    /// The right quarter of the box: finishing a stroke there moves the box forward.
    pub open spec fn advance_zone(self) -> Rect {
        let b = self.box_bounds();
        Rect {
            mins: Point { x: (b.maxs.x - self.quarter_width()) as i64, y: b.mins.y },
            maxs: b.maxs,
        }
    }

    /// The tile regenerated for `background`: none while hidden.
    pub open spec fn regenerated(self, background: Background) -> ZoomWindowView {
        if self.visible {
            ZoomWindowView {
                tile: Some(Tile { background, image_scale: self.image_scale() }),
                ..self
            }
        } else {
            ZoomWindowView { tile: None, ..self }
        }
    }

    /// The box moved so that its top-left corner is at `target`.
    pub open spec fn moved_to(self, target: Point) -> ZoomWindowView {
        ZoomWindowView { origin: target, ..self }
    }

    /// The box placed by hand at `target`: its x becomes the start of following lines.
    pub open spec fn placed_at(self, target: Point) -> ZoomWindowView {
        ZoomWindowView { origin: target, line_start_x: target.x, ..self }
    }

    /// Left edge of the page the box is on. Pages tile the plane from the coordinate origin.
    pub open spec fn page_left(self, doc: Document) -> int {
        (self.origin.x as int / doc.format.width as int) * doc.format.width
    }

    /// The x a new line starts at.
    pub open spec fn line_break_x(self, doc: Document) -> int {
        match self.line_start {
            LineStart::PageEdge => self.page_left(doc),
            LineStart::LastPlaced => self.line_start_x as int,
        }
    }

    /// Where a new line puts the box: at the line start, one return height down.
    pub open spec fn new_line_target(self, doc: Document) -> Point {
        Point {
            x: self.line_break_x(doc) as i64,
            y: (self.origin.y + self.return_height) as i64,
        }
    }

    /// A new line can be taken: the page edge is defined when new lines start there, and the
    /// new place lies in the document range.
    pub open spec fn can_break_line(self, doc: Document) -> bool {
        &&& (self.line_start == LineStart::PageEdge ==> doc.format.width > 0)
        &&& coord_ok(self.line_break_x(doc))
        &&& coord_ok(self.origin.y + self.return_height)
    }

    /// The box at the start of the next line, one return height down.
    pub open spec fn after_new_line(self, doc: Document) -> ZoomWindowView {
        self.moved_to(self.new_line_target(doc))
    }

    /// Half the box width, to the nearest fine unit.
    pub open spec fn shift_step(self) -> int {
        (self.effective_width() + 1) / 2
    }

    /// Where a shift by half the box width along the line puts the box.
    pub open spec fn shift_target(self, shift: BoxShift) -> Point {
        let dx = match shift {
            BoxShift::Left => -self.shift_step(),
            BoxShift::Right => self.shift_step(),
        };
        Point { x: (self.origin.x + dx) as i64, y: self.origin.y }
    }

    /// The box shifted by half its width along the line.
    pub open spec fn after_shift(self, shift: BoxShift) -> ZoomWindowView {
        self.moved_to(self.shift_target(shift))
    }

    /// The requested width after one scale step: four fifths to shrink, five fourths to grow,
    /// to the nearest fine unit and within `[BOX_WIDTH_MIN, BOX_WIDTH_MAX]`.
    pub open spec fn scaled_width(self, scale: BoxScale) -> int {
        scaled_box_width(self.box_width as int, scale)
    }

    /// The box after one scale step; the origin stays.
    pub open spec fn after_scale(self, scale: BoxScale, background: Background) -> ZoomWindowView {
        ZoomWindowView { box_width: self.scaled_width(scale) as i64, ..self }.regenerated(background)
    }

    /// The panel resized; the box keeps its requested width and its origin.
    pub open spec fn resized(self, size: Size, background: Background) -> ZoomWindowView {
        ZoomWindowView { panel: size.spec_clamped(), ..self }.regenerated(background)
    }

    /// How far an advance moves the box: three quarters of its width, so that its left edge
    /// goes to the left edge of the advance zone.
    pub open spec fn advance_shift(self) -> int {
        self.effective_width() - self.quarter_width()
    }

    /// Whether a stroke finished at `pos` moves the box.
    pub open spec fn advances_at(self, pos: Point) -> bool {
        self.stroke_pending && self.auto_advance && self.advance_zone().contains_point(pos)
    }

    /// Whether the box, moved on by an advance, would pass the right document edge.
    pub open spec fn advance_wraps(self, doc: Document) -> bool {
        self.box_bounds().maxs.x + self.advance_shift() > doc.spec_bounds().maxs.x
    }

    /// A stroke finished at `pos` can be followed: a wrap to a new line is possible when one
    /// is due.
    pub open spec fn stroke_end_ok(self, pos: Point, doc: Document) -> bool {
        self.advances_at(pos) && self.advance_wraps(doc) ==> self.can_break_line(doc)
    }

    /// A stroke finished at `pos`. Ending a pending stroke in the advance zone moves the box on,
    /// or to a new line when the moved box would pass the right document edge.
    pub open spec fn after_stroke(self, pos: Point, doc: Document) -> (ZoomWindowView, WidgetFlags) {
        let settled = ZoomWindowView { stroke_pending: false, ..self };
        if !self.advances_at(pos) {
            (settled, WidgetFlags::none())
        } else if self.advance_wraps(doc) {
            (settled.after_new_line(doc), WidgetFlags::redraw_only())
        } else {
            (
                settled.moved_to(
                    Point { x: (self.origin.x + self.advance_shift()) as i64, y: self.origin.y },
                ),
                WidgetFlags::redraw_only(),
            )
        }
    }

    /// `pos` is on the resize handle: a square of `HANDLE_SIZE` main canvas pixels centered on
    /// the bottom-right corner of the box, seen at the main canvas zoom `z`.
    pub open spec fn on_resize_handle(self, pos: Point, z: Ratio) -> bool {
        let c = self.box_bounds().maxs;
        &&& abs_int(pos.x - c.x) * z.num <= (HANDLE_SIZE / 2) * z.den
        &&& abs_int(pos.y - c.y) * z.num <= (HANDLE_SIZE / 2) * z.den
    }

    /// `pos` is in the box grown by `HANDLE_SIZE` main canvas pixels on every side.
    pub open spec fn near_box(self, pos: Point, z: Ratio) -> bool {
        let b = self.box_bounds();
        &&& (b.mins.x - pos.x) * z.num <= HANDLE_SIZE * z.den
        &&& (pos.x - b.maxs.x) * z.num <= HANDLE_SIZE * z.den
        &&& (b.mins.y - pos.y) * z.num <= HANDLE_SIZE * z.den
        &&& (pos.y - b.maxs.y) * z.num <= HANDLE_SIZE * z.den
    }

    /// The drag a pen down at `pos` starts: a resize on the handle, a move on or near the box.
    pub open spec fn drag_target(self, pos: Point, z: Ratio) -> Option<BoxDrag> {
        if self.on_resize_handle(pos, z) {
            Some(BoxDrag { mode: DragMode::Resize, start_pos: pos, start_bounds: self.box_bounds() })
        } else if self.near_box(pos, z) {
            Some(BoxDrag { mode: DragMode::Move, start_pos: pos, start_bounds: self.box_bounds() })
        } else {
            None
        }
    }

    /// Where a moving drag followed to `pos` puts the box.
    pub open spec fn move_target(d: BoxDrag, pos: Point) -> Point {
        Point {
            x: (d.start_bounds.mins.x + (pos.x - d.start_pos.x)) as i64,
            y: (d.start_bounds.mins.y + (pos.y - d.start_pos.y)) as i64,
        }
    }

    /// The requested width a resizing drag followed to `pos` sets: the width at the start of
    /// the drag plus the horizontal pen movement, within the width limits.
    pub open spec fn resize_width(d: BoxDrag, pos: Point) -> int {
        clamp_int(
            d.start_bounds.width() + (pos.x - d.start_pos.x),
            BOX_WIDTH_MIN as int,
            BOX_WIDTH_MAX as int,
        )
    }

    /// The running drag followed to `pos`.
    pub open spec fn dragged_to(self, pos: Point, background: Background) -> ZoomWindowView {
        match self.drag {
            None => self,
            Some(d) => match d.mode {
                DragMode::Move => self.placed_at(Self::move_target(d, pos)),
                DragMode::Resize => ZoomWindowView {
                    box_width: Self::resize_width(d, pos) as i64,
                    ..self
                }.moved_to(d.start_bounds.mins).regenerated(background),
            },
        }
    }

    /// A running move followed to `pos` keeps the box in the document range.
    pub open spec fn drag_ok(self, pos: Point) -> bool {
        match self.drag {
            Some(d) => d.mode == DragMode::Move ==> Self::move_target(d, pos).in_range(),
            None => true,
        }
    }

    /// A main canvas pen event that the box can follow.
    pub open spec fn box_event_ok(self, event: PenEvent) -> bool {
        match event {
            PenEvent::Down { pos } => self.drag_ok(pos),
            PenEvent::Up { pos } => self.drag_ok(pos),
            _ => true,
        }
    }

    /// A main canvas pen event offered to the box; `None` leaves it to the pens.
    pub open spec fn after_box_event(self, event: PenEvent, z: Ratio, background: Background) -> (
        ZoomWindowView,
        Option<WidgetFlags>,
    ) {
        if !self.visible {
            (self, None)
        } else {
            match event {
                PenEvent::Down { pos } => {
                    let pressed = ZoomWindowView { canvas_pen_down: true, ..self };
                    if self.drag is Some {
                        (pressed.dragged_to(pos, background), Some(WidgetFlags::redraw_only()))
                    } else if self.canvas_pen_down {
                        (pressed, None)
                    } else {
                        match self.drag_target(pos, z) {
                            None => (pressed, None),
                            Some(d) => (
                                ZoomWindowView { drag: Some(d), ..pressed }.dragged_to(pos, background),
                                Some(WidgetFlags::redraw_only()),
                            ),
                        }
                    }
                },
                PenEvent::Up { pos } => {
                    let lifted = ZoomWindowView { canvas_pen_down: false, ..self };
                    if self.drag is None {
                        (lifted, None)
                    } else {
                        (
                            ZoomWindowView { drag: None, ..lifted.dragged_to(pos, background) },
                            Some(WidgetFlags::redraw_only()),
                        )
                    }
                },
                PenEvent::Proximity { .. } | PenEvent::Cancel => (
                    ZoomWindowView { canvas_pen_down: false, drag: None, ..self },
                    if self.drag is Some {
                        Some(WidgetFlags::redraw_only())
                    } else {
                        None
                    },
                ),
                PenEvent::KeyPressed | PenEvent::Text => (self, None),
            }
        }
    }
}

/// A magnified view of a small box on the document.
#[derive(Debug)]
pub struct ZoomWindow {
    visible: bool,
    panel: Size,
    scale_factor: i64,
    origin: Point,
    box_width: i64,
    return_height: i64,
    line_start: LineStart,
    line_start_x: i64,
    auto_advance: bool,
    drag: Option<BoxDrag>,
    stroke_pending: bool,
    canvas_pen_down: bool,
    tile: Option<Tile>,
}

impl View for ZoomWindow {
    type V = ZoomWindowView;

    closed spec fn view(&self) -> ZoomWindowView {
        ZoomWindowView {
            visible: self.visible,
            panel: self.panel,
            scale_factor: self.scale_factor,
            origin: self.origin,
            box_width: self.box_width,
            return_height: self.return_height,
            line_start: self.line_start,
            line_start_x: self.line_start_x,
            auto_advance: self.auto_advance,
            drag: self.drag,
            stroke_pending: self.stroke_pending,
            canvas_pen_down: self.canvas_pen_down,
            tile: self.tile,
        }
    }
}

impl Default for ZoomWindow {
    fn default() -> (z: ZoomWindow)
        ensures
            z@ == ZoomWindowView::initial(),
            z@.wf(),
    {
        ZoomWindow {
            visible: false,
            panel: Size { width: PANEL_WIDTH_DEFAULT, height: PANEL_HEIGHT_DEFAULT },
            scale_factor: 1,
            origin: Point { x: 0, y: 0 },
            box_width: BOX_WIDTH_DEFAULT,
            return_height: RETURN_HEIGHT_DEFAULT,
            line_start: LineStart::PageEdge,
            line_start_x: 0,
            auto_advance: true,
            drag: None,
            stroke_pending: false,
            canvas_pen_down: false,
            tile: None,
        }
    }
}

/// The shown width lies between the fit limits and keeps the panel zoom within the camera
/// zoom limits; its quarter and half, to the nearest fine unit, are within half a unit.
pub proof fn lemma_effective_width(v: ZoomWindowView)
    requires
        v.wf_fields(),
    ensures
        0 < v.min_fit_width() <= v.max_fit_width() <= WIDTH_LIMIT,
        v.min_fit_width() <= v.effective_width() <= v.max_fit_width(),
        -2 < 4 * v.quarter_width() - v.effective_width() <= 2,
        0 <= 2 * v.shift_step() - v.effective_width() <= 1,
        v.panel.width * UNIT <= 6 * v.effective_width(),
        zoom_ok(v.magnification()),
        0 <= v.panel.height * v.effective_width() <= SIZE_MAX * WIDTH_LIMIT,
        0 <= v.box_height() <= SIZE_MAX * WIDTH_LIMIT,
{
    let pw = v.panel.width as int;
    let ph = v.panel.height as int;
    let q = (pw * UNIT + 5) / 6;
    assert(pw * UNIT <= 6 * q <= pw * UNIT + 5) by (nonlinear_arith)
        requires
            q == (pw * UNIT + 5) / 6,
            pw >= 1,
    ;
    assert(0 < q <= 5 * UNIT * pw <= WIDTH_LIMIT) by (nonlinear_arith)
        requires
            pw * UNIT <= 6 * q <= pw * UNIT + 5,
            1 <= pw <= SIZE_MAX,
    ;
    let e = v.effective_width();
    assert(0 <= ph * e <= SIZE_MAX * WIDTH_LIMIT) by (nonlinear_arith)
        requires
            1 <= ph <= SIZE_MAX,
            0 < e <= WIDTH_LIMIT,
    ;
    assert(0 <= (ph * e) / pw <= ph * e) by (nonlinear_arith)
        requires
            pw >= 1,
            0 <= ph * e,
    ;
}

/// The box lies in the document range, widened by at most its own size.
pub proof fn lemma_box_bounds_range(v: ZoomWindowView)
    requires
        v.wf_fields(),
    ensures
        v.box_bounds().mins.in_range(),
        v.box_bounds().maxs.x == v.origin.x + v.effective_width(),
        v.box_bounds().maxs.y == v.origin.y + v.box_height(),
        1 <= v.box_bounds().width() <= WIDTH_LIMIT,
        0 <= v.box_bounds().height() <= SIZE_MAX * WIDTH_LIMIT,
        v.box_bounds().in_view_range(),
{
    lemma_effective_width(v);
}

impl ZoomWindow {
    pub open spec fn wf(&self) -> bool {
        self@.wf()
    }

    pub open spec fn wf_fields(&self) -> bool {
        self@.wf_fields()
    }

    pub fn visible(&self) -> (b: bool)
        ensures
            b == self@.visible,
    {
        self.visible
    }

    /// Show or hide the panel. A hidden panel holds no background tile.
    pub fn set_visible(&mut self, visible: bool, background: &Background) -> (r: WidgetFlags)
        requires
            old(self).wf(),
        ensures
            final(self)@ == (ZoomWindowView { visible, ..old(self)@ }).regenerated(*background),
            final(self).wf(),
            r == WidgetFlags::redraw_only(),
    {
        self.visible = visible;
        self.regenerate_background(background);
        redraw()
    }

    /// The box width the panel shows: the requested width within the zoom limits.
    fn effective_width(&self) -> (w: i64)
        requires
            self.wf_fields(),
        ensures
            w == self@.effective_width(),
    {
        proof {
            lemma_effective_width(self@);
        }
        let lo: i64 = (self.panel.width * UNIT + 5) / 6;
        let hi: i64 = 5 * UNIT * self.panel.width;
        clamp_i64(self.box_width, lo, hi)
    }

    /// The panel camera. Its viewport is the box.
    pub fn camera(&self) -> (c: Camera)
        requires
            self.wf(),
        ensures
            c == self@.camera(),
            c.wf(),
            c.spec_viewport() == self@.box_bounds(),
    {
        proof {
            lemma_effective_width(self@);
            let pw = self.panel.width as int;
            let e = self@.effective_width();
            assert(pw * e / pw == e) by (nonlinear_arith)
                requires
                    pw >= 1,
            ;
        }
        Camera {
            origin: self.origin,
            size: self.panel,
            zoom: self.fitting_zoom(),
            scale_factor: self.scale_factor,
        }
    }

    fn box_height(&self) -> (h: i64)
        requires
            self.wf_fields(),
        ensures
            h == self@.box_height(),
    {
        proof {
            lemma_effective_width(self@);
        }
        let w: i64 = self.effective_width();
        self.panel.height * w / self.panel.width
    }

    /// The box in fine units.
    pub fn box_bounds(&self) -> (r: Rect)
        requires
            self.wf_fields(),
        ensures
            r == self@.box_bounds(),
            r.in_view_range(),
    {
        proof {
            lemma_effective_width(self@);
        }
        let w: i64 = self.effective_width();
        let h: i64 = self.box_height();
        Rect { mins: self.origin, maxs: Point { x: self.origin.x + w, y: self.origin.y + h } }
    }

    /// The background tile, if the panel holds one.
    pub fn tile(&self) -> (t: Option<Tile>)
        ensures
            t == self@.tile,
    {
        self.tile
    }

    pub fn return_height(&self) -> (h: i64)
        ensures
            h == self@.return_height,
    {
        self.return_height
    }

    /// Set the return height, at least one document unit.
    pub fn set_return_height(&mut self, height: i64)
        requires
            old(self).wf(),
        ensures
            final(self)@ == (ZoomWindowView {
                return_height: if height < UNIT { UNIT } else { height },
                ..old(self)@
            }),
            final(self).wf(),
    {
        self.return_height = if height < UNIT {
            UNIT
        } else {
            height
        };
    }

    pub fn line_start(&self) -> (l: LineStart)
        ensures
            l == self@.line_start,
    {
        self.line_start
    }

    pub fn set_line_start(&mut self, line_start: LineStart)
        requires
            old(self).wf(),
        ensures
            final(self)@ == (ZoomWindowView { line_start, ..old(self)@ }),
            final(self).wf(),
    {
        self.line_start = line_start;
    }

    pub fn auto_advance(&self) -> (b: bool)
        ensures
            b == self@.auto_advance,
    {
        self.auto_advance
    }

    pub fn set_auto_advance(&mut self, auto_advance: bool) -> (r: WidgetFlags)
        requires
            old(self).wf(),
        ensures
            final(self)@ == (ZoomWindowView { auto_advance, ..old(self)@ }),
            final(self).wf(),
            r == WidgetFlags::redraw_only(),
    {
        self.auto_advance = auto_advance;
        redraw()
    }

    /// The part of the box where finishing a stroke moves the box forward: its right quarter.
    pub fn advance_zone(&self) -> (r: Rect)
        requires
            self.wf(),
        ensures
            r == self@.advance_zone(),
            r.maxs == self@.box_bounds().maxs,
            r.mins.y == self@.box_bounds().mins.y,
            -2 < 4 * (r.maxs.x - r.mins.x) - self@.box_bounds().width() <= 2,
    {
        proof {
            lemma_effective_width(self@);
        }
        let bounds = self.box_bounds();
        let w: i64 = self.effective_width();
        let zone_start: i64 = bounds.maxs.x - (w + 2) / 4;
        Rect { mins: Point { x: zone_start, y: bounds.mins.y }, maxs: bounds.maxs }
    }

    /// Note a stroke starting in the panel.
    pub fn begin_stroke(&mut self)
        requires
            old(self).wf(),
        ensures
            final(self)@ == (ZoomWindowView { stroke_pending: true, ..old(self)@ }),
            final(self).wf(),
    {
        self.stroke_pending = true;
    }

    /// React to a finished stroke at `pos`.
    ///
    /// Ending a stroke in the advance zone shifts the box by three quarters of its width, so
    /// the zone becomes its left part. Past the right document edge the box wraps to a new line
    /// instead. Repeated pen-up events do not advance again: the pending stroke is used up.
    pub fn advance_after_stroke(&mut self, pos: Point, doc: &Document) -> (r: WidgetFlags)
        requires
            old(self).wf(),
            doc.wf(),
            old(self)@.stroke_end_ok(pos, *doc),
        ensures
            (final(self)@, r) == old(self)@.after_stroke(pos, *doc),
            final(self).wf(),
            !final(self)@.stroke_pending,
    {
        proof {
            lemma_effective_width(self@);
        }
        let pending = self.stroke_pending;
        self.stroke_pending = false;
        if !pending || !self.auto_advance || !self.advance_zone().contains(pos) {
            return WidgetFlags::default();
        }
        let bounds = self.box_bounds();
        let w: i64 = self.effective_width();
        let shift: i64 = w - (w + 2) / 4;
        let doc_bounds = doc.bounds();
        if bounds.maxs.x + shift > doc_bounds.maxs.x {
            return self.new_line(doc);
        }
        self.move_box_to(Point::new(bounds.mins.x + shift, bounds.mins.y), doc)
    }

    /// Handle a main canvas pen event that may move or resize the box.
    ///
    /// Pen down inside the box starts a move, on the bottom-right handle a resize.
    /// Returns `None` when the event is not for the box and the pens should see it.
    pub fn handle_box_event(
        &mut self,
        event: &PenEvent,
        camera: &Camera,
        doc: &Document,
        background: &Background,
    ) -> (r: Option<WidgetFlags>)
        requires
            old(self).wf(),
            camera.wf(),
            event.in_range(),
            old(self)@.visible ==> old(self)@.box_event_ok(*event),
        ensures
            (final(self)@, r) == old(self)@.after_box_event(*event, camera.zoom, *background),
            final(self).wf(),
    {
        if !self.visible {
            return None;
        }
        match event {
            PenEvent::Down { pos } => {
                let first_down = !self.canvas_pen_down;
                self.canvas_pen_down = true;
                if self.drag.is_none() {
                    if !first_down {
                        return None;
                    }
                    match self.drag_at(*pos, camera) {
                        Some(drag) => {
                            self.drag = Some(drag);
                        },
                        None => {
                            return None;
                        },
                    }
                }
                self.drag_to(*pos, doc, background);
                Some(redraw())
            },
            PenEvent::Up { pos } => {
                self.canvas_pen_down = false;
                if self.drag.is_none() {
                    return None;
                }
                self.drag_to(*pos, doc, background);
                self.drag = None;
                Some(redraw())
            },
            PenEvent::Proximity { .. } | PenEvent::Cancel => {
                self.canvas_pen_down = false;
                let dragging = self.drag.is_some();
                self.drag = None;
                if dragging {
                    Some(redraw())
                } else {
                    None
                }
            },
            PenEvent::KeyPressed | PenEvent::Text => None,
        }
    }

    /// Whether `pos` is on the resize handle, sized in surface pixels of `camera`.
    fn on_resize_handle(&self, pos: Point, camera: &Camera) -> (b: bool)
        requires
            self.wf(),
            camera.wf(),
            pos.in_range(),
        ensures
            b == self@.on_resize_handle(pos, camera.zoom),
    {
        proof {
            lemma_effective_width(self@);
        }
        let corner = self.box_bounds().maxs;
        let z = camera.total_zoom();
        let dx: i64 = if pos.x >= corner.x {
            pos.x - corner.x
        } else {
            corner.x - pos.x
        };
        let dy: i64 = if pos.y >= corner.y {
            pos.y - corner.y
        } else {
            corner.y - pos.y
        };
        scaled_at_most(dx, z.num, HANDLE_SIZE / 2, z.den) && scaled_at_most(
            dy,
            z.num,
            HANDLE_SIZE / 2,
            z.den,
        )
    }

    /// Whether `pos` is within `HANDLE_SIZE` surface pixels of `camera` around the box.
    fn near_box(&self, pos: Point, camera: &Camera) -> (b: bool)
        requires
            self.wf(),
            camera.wf(),
            pos.in_range(),
        ensures
            b == self@.near_box(pos, camera.zoom),
    {
        proof {
            lemma_effective_width(self@);
        }
        let b = self.box_bounds();
        let z = camera.total_zoom();
        scaled_at_most(b.mins.x - pos.x, z.num, HANDLE_SIZE, z.den) && scaled_at_most(
            pos.x - b.maxs.x,
            z.num,
            HANDLE_SIZE,
            z.den,
        ) && scaled_at_most(b.mins.y - pos.y, z.num, HANDLE_SIZE, z.den) && scaled_at_most(
            pos.y - b.maxs.y,
            z.num,
            HANDLE_SIZE,
            z.den,
        )
    }

    /// The drag a pen down at `pos` starts, if any.
    /// Touching just outside the border counts too, so a thin box is easy to grab.
    fn drag_at(&self, pos: Point, camera: &Camera) -> (r: Option<BoxDrag>)
        requires
            self.wf(),
            camera.wf(),
            pos.in_range(),
        ensures
            r == self@.drag_target(pos, camera.zoom),
            r matches Some(d) ==> d.wf(),
    {
        proof {
            lemma_box_bounds_range(self@);
        }
        let mode = if self.on_resize_handle(pos, camera) {
            DragMode::Resize
        } else if self.near_box(pos, camera) {
            DragMode::Move
        } else {
            return None;
        };
        Some(BoxDrag { mode, start_pos: pos, start_bounds: self.box_bounds() })
    }

    fn drag_to(&mut self, pos: Point, doc: &Document, background: &Background)
        requires
            old(self).wf_fields(),
            pos.in_range(),
            old(self)@.drag_ok(pos),
            (old(self)@.tile is Some) ==> old(self)@.visible,
        ensures
            final(self)@ == old(self)@.dragged_to(pos, *background),
            final(self).wf(),
    {
        let drag = match self.drag {
            Some(drag) => drag,
            None => {
                return ;
            },
        };
        let dx: i64 = pos.x - drag.start_pos.x;
        let dy: i64 = pos.y - drag.start_pos.y;
        match drag.mode {
            DragMode::Move => {
                let _ = self.place_box(
                    Point::new(drag.start_bounds.mins.x + dx, drag.start_bounds.mins.y + dy),
                    doc,
                );
            },
            DragMode::Resize => {
                let start_width: i64 = drag.start_bounds.maxs.x - drag.start_bounds.mins.x;
                self.box_width = clamp_i64(start_width + dx, BOX_WIDTH_MIN, BOX_WIDTH_MAX);
                let _ = self.refit(drag.start_bounds.mins, doc);
                self.regenerate_background(background);
            },
        }
    }

    /// Set the panel size in surface pixels, each side in `[1, SIZE_MAX]`.
    /// The box keeps its requested width and its origin.
    pub fn set_size(&mut self, size: Size, doc: &Document, background: &Background) -> (r:
        WidgetFlags)
        requires
            old(self).wf(),
        ensures
            final(self)@ == old(self)@.resized(size, *background),
            final(self).wf(),
            final(self)@.box_bounds().mins == old(self)@.box_bounds().mins,
            final(self)@.box_width == old(self)@.box_width,
            r == WidgetFlags::redraw_only(),
    {
        let origin = self.box_bounds().mins;
        self.panel = size.clamped();
        let widget_flags = self.refit(origin, doc);
        self.regenerate_background(background);
        widget_flags
    }

    /// Set the device scale factor of the panel, in `[1, SCALE_FACTOR_MAX]`.
    pub fn set_scale_factor(&mut self, scale_factor: i64)
        requires
            old(self).wf(),
        ensures
            final(self)@ == (ZoomWindowView {
                scale_factor: clamp_int(scale_factor as int, 1, SCALE_FACTOR_MAX as int) as i64,
                ..old(self)@
            }),
            final(self).wf(),
    {
        self.scale_factor = clamp_i64(scale_factor, 1, SCALE_FACTOR_MAX);
    }

    /// Move the box so that its top-left corner is at `origin`.
    pub fn move_box_to(&mut self, origin: Point, doc: &Document) -> (r: WidgetFlags)
        requires
            old(self).wf_fields(),
            origin.in_range(),
        ensures
            final(self)@ == old(self)@.moved_to(origin),
            final(self).wf_fields(),
            r == WidgetFlags::redraw_only(),
    {
        self.origin = origin;
        redraw()
    }

    /// Shift the box by half its width along the line.
    pub fn shift_box(&mut self, shift: BoxShift, doc: &Document) -> (r: WidgetFlags)
        requires
            old(self).wf(),
            old(self)@.shift_target(shift).in_range(),
        ensures
            final(self)@ == old(self)@.after_shift(shift),
            final(self).wf(),
            r == WidgetFlags::redraw_only(),
    {
        proof {
            lemma_effective_width(self@);
        }
        let w: i64 = self.effective_width();
        let step: i64 = (w + 1) / 2;
        let dx: i64 = match shift {
            BoxShift::Left => -step,
            BoxShift::Right => step,
        };
        let origin = Point::new(self.origin.x + dx, self.origin.y);
        self.move_box_to(origin, doc)
    }

    /// Place the box by hand. Its x becomes the start of following lines.
    pub fn place_box(&mut self, origin: Point, doc: &Document) -> (r: WidgetFlags)
        requires
            old(self).wf_fields(),
            origin.in_range(),
        ensures
            final(self)@ == old(self)@.placed_at(origin),
            final(self).wf_fields(),
            r == WidgetFlags::redraw_only(),
    {
        let widget_flags = self.move_box_to(origin, doc);
        self.line_start_x = self.origin.x;
        widget_flags
    }

    /// Move the box to the start of the next line, one return height down.
    pub fn new_line(&mut self, doc: &Document) -> (r: WidgetFlags)
        requires
            old(self).wf(),
            doc.wf(),
            old(self)@.can_break_line(*doc),
        ensures
            final(self)@ == old(self)@.after_new_line(*doc),
            final(self).wf(),
            r == WidgetFlags::redraw_only(),
    {
        let x: i64 = match self.line_start {
            LineStart::PageEdge => self.page_left(doc),
            LineStart::LastPlaced => self.line_start_x,
        };
        let origin = Point::new(x, self.origin.y + self.return_height);
        self.move_box_to(origin, doc)
    }

    /// Left edge of the page the box is on. Pages tile the plane aligned to the coordinate origin.
    fn page_left(&self, doc: &Document) -> (x: i64)
        requires
            self.wf(),
            doc.wf(),
            doc.format.width > 0,
        ensures
            x == self@.page_left(*doc),
    {
        let page_width: i64 = doc.format.width;
        let q: i64 = floor_div(self.origin.x, page_width);
        proof {
            let ox = self.origin.x as int;
            let pw = page_width as int;
            assert(ox - pw < (ox / pw) * pw <= ox) by (nonlinear_arith)
                requires
                    pw > 0,
            ;
        }
        q * page_width
    }

    /// Make the box a step smaller or larger: four fifths or five fourths of its requested
    /// width, within `[BOX_WIDTH_MIN, BOX_WIDTH_MAX]`. The origin stays.
    pub fn scale_box(&mut self, scale: BoxScale, doc: &Document, background: &Background) -> (r:
        WidgetFlags)
        requires
            old(self).wf(),
        ensures
            final(self)@ == old(self)@.after_scale(scale, *background),
            final(self).wf(),
            r == WidgetFlags::redraw_only(),
            // A smaller box never magnifies less, a larger one never more.
            scale == BoxScale::Shrink ==> !final(self)@.magnification().less_than(
                old(self)@.magnification(),
            ),
            scale == BoxScale::Grow ==> !old(self)@.magnification().less_than(
                final(self)@.magnification(),
            ),
    {
        let w: i64 = match scale {
            BoxScale::Shrink => (8 * self.box_width + 5) / 10,
            BoxScale::Grow => (10 * self.box_width + 4) / 8,
        };
        self.box_width = clamp_i64(w, BOX_WIDTH_MIN, BOX_WIDTH_MAX);
        let origin = self.box_bounds().mins;
        let widget_flags = self.refit(origin, doc);
        self.regenerate_background(background);
        proof {
            law_scale_moves_magnification(old(self)@, *background);
        }
        widget_flags
    }

    /// Zoom that fits the shown box width into the panel width.
    fn fitting_zoom(&self) -> (z: Ratio)
        requires
            self.wf_fields(),
        ensures
            z == self@.magnification(),
            zoom_ok(z),
    {
        proof {
            lemma_effective_width(self@);
        }
        Ratio { num: self.panel.width, den: self.effective_width() }
    }

    /// Re-apply the zoom after the panel or the box width changed, keeping the box origin.
    /// The zoom follows from the panel and box widths, so only the origin is set.
    fn refit(&mut self, origin: Point, doc: &Document) -> (r: WidgetFlags)
        requires
            old(self).wf_fields(),
            origin.in_range(),
        ensures
            final(self)@ == old(self)@.moved_to(origin),
            final(self).wf_fields(),
            r == WidgetFlags::redraw_only(),
    {
        let _ = self.fitting_zoom();
        self.move_box_to(origin, doc)
    }

    /// Regenerate the background tile for the panel zoom. Nothing is kept while the panel is hidden.
    pub fn regenerate_background(&mut self, background: &Background)
        requires
            old(self).wf_fields(),
        ensures
            final(self)@ == old(self)@.regenerated(*background),
            final(self).wf(),
    {
        if !self.visible {
            self.tile = None;
            return ;
        }
        proof {
            assert(self.panel.width * self.scale_factor <= SIZE_MAX * SCALE_FACTOR_MAX)
                by (nonlinear_arith)
                requires
                    self@.wf_fields(),
            ;
        }
        let w: i64 = self.effective_width();
        let image_scale = Ratio { num: self.panel.width * self.scale_factor, den: w };
        self.tile = Some(Tile { background: *background, image_scale });
    }
}

/// A hidden panel holds no background tile.
pub proof fn law_hidden_panel_has_no_tile(s: ZoomWindowView, background: Background)
    requires
        s.wf(),
    ensures
        !s.visible ==> (s.tile is None),
        ((ZoomWindowView { visible: false, ..s }).regenerated(background).tile is None),
{
}

/// The advance fires once per stroke: a second pen-up without a new stroke changes nothing.
pub proof fn law_advance_fires_once_per_stroke(
    s: ZoomWindowView,
    first: Point,
    second: Point,
    doc: Document,
)
    ensures
        s.after_stroke(first, doc).0.after_stroke(second, doc) == (
            s.after_stroke(first, doc).0,
            WidgetFlags::none(),
        ),
{
}

/// A stroke ending outside the advance zone leaves the box where it is.
pub proof fn law_stroke_outside_zone_keeps_box(s: ZoomWindowView, pos: Point, doc: Document)
    requires
        !s.advance_zone().contains_point(pos),
    ensures
        s.after_stroke(pos, doc).0.origin == s.origin,
        s.after_stroke(pos, doc).0.box_width == s.box_width,
{
}

/// A pending stroke ending in the advance zone moves the box along the line by three quarters
/// of its width, to the nearest fine unit: its left edge goes to the left edge of the zone,
/// the line stays.
pub proof fn law_stroke_in_zone_advances(s: ZoomWindowView, pos: Point, doc: Document)
    requires
        s.wf(),
        doc.wf(),
        s.stroke_pending,
        s.auto_advance,
        s.advance_zone().contains_point(pos),
        s.box_bounds().maxs.x + s.advance_shift() <= doc.spec_bounds().maxs.x,
    ensures
        s.after_stroke(pos, doc).0.origin.x == s.advance_zone().mins.x,
        -2 <= 4 * (s.after_stroke(pos, doc).0.origin.x - s.origin.x) - 3 * s.box_bounds().width()
            < 2,
        s.after_stroke(pos, doc).0.origin.x > s.origin.x,
        s.after_stroke(pos, doc).0.origin.y == s.origin.y,
        s.after_stroke(pos, doc).1 == WidgetFlags::redraw_only(),
{
    lemma_effective_width(s);
}

/// A pending stroke ending in the advance zone wraps to a new line when the moved box would
/// pass the right document edge.
pub proof fn law_stroke_at_document_edge_wraps(s: ZoomWindowView, pos: Point, doc: Document)
    requires
        s.wf(),
        doc.wf(),
        s.stroke_pending,
        s.auto_advance,
        s.advance_zone().contains_point(pos),
        s.box_bounds().maxs.x + s.advance_shift() > doc.spec_bounds().maxs.x,
    ensures
        s.after_stroke(pos, doc).0 == (ZoomWindowView { stroke_pending: false, ..s }).after_new_line(
            doc,
        ),
{
}

/// A new line starts one return height further down, at the line start: with
/// `LineStart::PageEdge` the left edge of the page the box is on.
pub proof fn law_new_line_moves_down(s: ZoomWindowView, doc: Document)
    requires
        s.wf(),
        doc.wf(),
        s.can_break_line(doc),
    ensures
        s.after_new_line(doc).origin.y == s.origin.y + s.return_height,
        s.after_new_line(doc).origin.x == s.line_break_x(doc),
        s.line_start == LineStart::PageEdge ==> (s.after_new_line(doc).origin.x as int) % (
        doc.format.width as int) == 0,
        s.line_start == LineStart::PageEdge ==> s.after_new_line(doc).origin.x <= s.origin.x
            < s.after_new_line(doc).origin.x + doc.format.width,
{
    if s.line_start == LineStart::PageEdge {
        let ox = s.origin.x as int;
        let pw = doc.format.width as int;
        assert(ox - pw < (ox / pw) * pw <= ox) by (nonlinear_arith)
            requires
                pw > 0,
        ;
        assert(((ox / pw) * pw) % pw == 0) by (nonlinear_arith)
            requires
                pw > 0,
        ;
    }
}

/// Shifting the box along the line keeps the line start: with `LineStart::LastPlaced`,
/// a new line after placing and shifting starts where the box was placed.
pub proof fn law_new_line_returns_to_last_placement(
    s: ZoomWindowView,
    target: Point,
    shift: BoxShift,
    doc: Document,
)
    requires
        s.line_start == LineStart::LastPlaced,
    ensures
        s.placed_at(target).after_shift(shift).after_new_line(doc).origin.x == target.x,
{
}

/// A shift moves the box by half its width, to the nearest fine unit, and shifting right then
/// left puts the box back where it was.
pub proof fn law_shift_moves_half_a_box(s: ZoomWindowView)
    requires
        s.wf(),
        s.shift_target(BoxShift::Right).in_range(),
    ensures
        0 <= 2 * (s.after_shift(BoxShift::Right).origin.x - s.origin.x) - s.box_bounds().width()
            <= 1,
        s.after_shift(BoxShift::Right).origin.y == s.origin.y,
        s.after_shift(BoxShift::Right).after_shift(BoxShift::Left) == s,
        s.after_shift(BoxShift::Right).line_start_x == s.line_start_x,
{
    lemma_effective_width(s);
}

/// A scale step is exactly five fourths or four fifths of the requested width whenever that
/// is a whole number of fine units within the width limits.
pub proof fn law_scale_steps_are_exact(s: ZoomWindowView)
    requires
        s.wf(),
    ensures
        s.box_width % 4 == 0 && 5 * s.box_width <= 4 * BOX_WIDTH_MAX ==> 4 * s.scaled_width(
            BoxScale::Grow,
        ) == 5 * s.box_width,
        s.box_width % 5 == 0 && 4 * s.box_width >= 5 * BOX_WIDTH_MIN ==> 5 * s.scaled_width(
            BoxScale::Shrink,
        ) == 4 * s.box_width,
{
    lemma_scale_round_trip(s.box_width as int);
}

/// A scale step is five fourths or four fifths of the requested width to the nearest fine
/// unit, halves going up, unless a width limit stops it.
pub proof fn law_scale_step_is_nearest(s: ZoomWindowView)
    requires
        s.wf(),
    ensures
        5 * s.box_width <= 4 * BOX_WIDTH_MAX ==> -2 < 4 * s.scaled_width(BoxScale::Grow) - 5
            * s.box_width <= 2,
        4 * s.box_width >= 5 * BOX_WIDTH_MIN ==> -5 < 10 * s.scaled_width(BoxScale::Shrink) - 8
            * s.box_width <= 5,
{
}

proof fn lemma_scale_round_trip(w: int)
    requires
        BOX_WIDTH_MIN <= w <= BOX_WIDTH_MAX,
    ensures
        w % 4 == 0 && 5 * w <= 4 * BOX_WIDTH_MAX ==> 4 * scaled_box_width(w, BoxScale::Grow) == 5
            * w && scaled_box_width(scaled_box_width(w, BoxScale::Grow), BoxScale::Shrink) == w,
        w % 5 == 0 && 4 * w >= 5 * BOX_WIDTH_MIN ==> 5 * scaled_box_width(w, BoxScale::Shrink) == 4
            * w && scaled_box_width(scaled_box_width(w, BoxScale::Shrink), BoxScale::Grow) == w,
        4 * w >= 5 * BOX_WIDTH_MIN ==> w - 1 <= scaled_box_width(
            scaled_box_width(w, BoxScale::Shrink),
            BoxScale::Grow,
        ) <= w + 1,
        5 * w <= 4 * BOX_WIDTH_MAX ==> w - 1 <= scaled_box_width(
            scaled_box_width(w, BoxScale::Grow),
            BoxScale::Shrink,
        ) <= w + 1,
{
    let s = (8 * w + 5) / 10;
    let g = (10 * s + 4) / 8;
    assert(-5 < 10 * s - 8 * w <= 5);
    assert(-4 < 8 * g - 10 * s <= 4);
    if 4 * w >= 5 * BOX_WIDTH_MIN {
        assert(scaled_box_width(w, BoxScale::Shrink) == s);
        assert(w - 1 <= g <= w + 1);
        if w % 5 == 0 {
            let k = w / 5;
            assert(w == 5 * k);
            assert(s == 4 * k);
            assert(g == w);
        }
    }
    let t = (10 * w + 4) / 8;
    let h = (8 * t + 5) / 10;
    assert(-4 < 8 * t - 10 * w <= 4);
    assert(-5 < 10 * h - 8 * t <= 5);
    if 5 * w <= 4 * BOX_WIDTH_MAX {
        assert(scaled_box_width(w, BoxScale::Grow) == t);
        assert(w - 1 <= h <= w + 1);
        if w % 4 == 0 {
            let j = w / 4;
            assert(w == 4 * j);
            assert(t == 5 * j);
            assert(h == w);
        }
    }
}

/// Growing undoes shrinking, and shrinking undoes growing, whenever the first step is exact.
pub proof fn law_scale_steps_undo_each_other(s: ZoomWindowView, background: Background)
    requires
        s.wf(),
    ensures
        s.box_width % 5 == 0 && 4 * s.box_width >= 5 * BOX_WIDTH_MIN ==> s.after_scale(
            BoxScale::Shrink,
            background,
        ).after_scale(BoxScale::Grow, background).box_width == s.box_width,
        s.box_width % 4 == 0 && 5 * s.box_width <= 4 * BOX_WIDTH_MAX ==> s.after_scale(
            BoxScale::Grow,
            background,
        ).after_scale(BoxScale::Shrink, background).box_width == s.box_width,
{
    lemma_scale_round_trip(s.box_width as int);
}

/// Growing after shrinking, or shrinking after growing, gives back the requested width within
/// one fine unit, whenever the first step stays within the width limits.
pub proof fn law_scale_steps_nearly_undo_each_other(s: ZoomWindowView, background: Background)
    requires
        s.wf(),
    ensures
        4 * s.box_width >= 5 * BOX_WIDTH_MIN ==> abs_int(
            s.after_scale(BoxScale::Shrink, background).after_scale(
                BoxScale::Grow,
                background,
            ).box_width - s.box_width,
        ) <= 1,
        5 * s.box_width <= 4 * BOX_WIDTH_MAX ==> abs_int(
            s.after_scale(BoxScale::Grow, background).after_scale(
                BoxScale::Shrink,
                background,
            ).box_width - s.box_width,
        ) <= 1,
{
    lemma_scale_round_trip(s.box_width as int);
}

/// A smaller box never magnifies less, a larger one never more: shrinking never lowers the
/// panel zoom and growing never raises it.
pub proof fn law_scale_moves_magnification(s: ZoomWindowView, background: Background)
    requires
        s.wf(),
    ensures
        s.after_scale(BoxScale::Shrink, background).wf(),
        s.after_scale(BoxScale::Grow, background).wf(),
        !s.after_scale(BoxScale::Shrink, background).magnification().less_than(s.magnification()),
        !s.magnification().less_than(s.after_scale(BoxScale::Grow, background).magnification()),
{
    let pw = s.panel.width as int;
    let a = s.effective_width();
    let shrunk = s.after_scale(BoxScale::Shrink, background);
    let grown = s.after_scale(BoxScale::Grow, background);
    lemma_effective_width(s);
    lemma_effective_width(shrunk);
    lemma_effective_width(grown);
    let b = shrunk.effective_width();
    let c = grown.effective_width();
    assert(pw * b <= pw * a) by (nonlinear_arith)
        requires
            pw >= 1,
            b <= a,
    ;
    assert(pw * a <= pw * c) by (nonlinear_arith)
        requires
            pw >= 1,
            a <= c,
    ;
}

/// A hidden panel leaves every main canvas event to the pens and changes nothing.
pub proof fn law_hidden_panel_ignores_events(
    s: ZoomWindowView,
    event: PenEvent,
    z: Ratio,
    background: Background,
)
    requires
        !s.visible,
    ensures
        s.after_box_event(event, z, background) == (s, None::<WidgetFlags>),
{
}

/// A stroke that started outside the box does not grab the box when it crosses it:
/// while the main canvas pen is down and no drag runs, pen-down events pass to the pens.
pub proof fn law_crossing_stroke_passes_through(
    s: ZoomWindowView,
    pos: Point,
    z: Ratio,
    background: Background,
)
    requires
        (s.drag is None),
        s.canvas_pen_down,
    ensures
        (s.after_box_event(PenEvent::Down { pos }, z, background).1 is None),
        s.after_box_event(PenEvent::Down { pos }, z, background).0 == s,
{
}

/// Pen down inside the box, a move to `end` and pen up there move the box by `end - start`.
pub proof fn law_drag_inside_box_moves_it(
    s: ZoomWindowView,
    start: Point,
    end: Point,
    z: Ratio,
    background: Background,
)
    requires
        s.wf(),
        s.visible,
        (s.drag is None),
        !s.canvas_pen_down,
        start.in_range(),
        end.in_range(),
        s.near_box(start, z),
        !s.on_resize_handle(start, z),
        coord_ok(s.origin.x + (end.x - start.x)),
        coord_ok(s.origin.y + (end.y - start.y)),
    ensures
        ({
            let (s1, r1) = s.after_box_event(PenEvent::Down { pos: start }, z, background);
            let (s2, r2) = s1.after_box_event(PenEvent::Down { pos: end }, z, background);
            let (s3, r3) = s2.after_box_event(PenEvent::Up { pos: end }, z, background);
            &&& r1 is Some && r2 is Some && r3 is Some
            &&& s3.origin.x == s.origin.x + (end.x - start.x)
            &&& s3.origin.y == s.origin.y + (end.y - start.y)
            &&& s3.box_width == s.box_width
            &&& s3.line_start_x == s3.origin.x
            &&& s3.drag is None
            &&& !s3.canvas_pen_down
        }),
{
    let d = BoxDrag { mode: DragMode::Move, start_pos: start, start_bounds: s.box_bounds() };
    assert(s.drag_target(start, z) == Some(d));
}

/// The box follows the pen while it is dragged, before the pen is lifted: after a pen-down
/// inside the box at `start`, a pen-down (a move) at `pos` puts the box at its old place
/// moved by `pos - start`, and the drag goes on.
pub proof fn law_dragged_box_follows_the_pen(
    s: ZoomWindowView,
    start: Point,
    pos: Point,
    z: Ratio,
    background: Background,
)
    requires
        s.wf(),
        s.visible,
        (s.drag is None),
        !s.canvas_pen_down,
        start.in_range(),
        pos.in_range(),
        s.near_box(start, z),
        !s.on_resize_handle(start, z),
        coord_ok(s.origin.x + (pos.x - start.x)),
        coord_ok(s.origin.y + (pos.y - start.y)),
    ensures
        ({
            let (s1, r1) = s.after_box_event(PenEvent::Down { pos: start }, z, background);
            let (s2, r2) = s1.after_box_event(PenEvent::Down { pos }, z, background);
            &&& r1 is Some && r2 is Some
            &&& s1.origin == s.origin
            &&& s2.origin.x == s.origin.x + (pos.x - start.x)
            &&& s2.origin.y == s.origin.y + (pos.y - start.y)
            &&& s2.box_width == s.box_width
            &&& s2.drag is Some
            &&& s2.canvas_pen_down
        }),
{
    let d = BoxDrag { mode: DragMode::Move, start_pos: start, start_bounds: s.box_bounds() };
    assert(s.drag_target(start, z) == Some(d));
}

/// The box follows the resize handle while it is dragged, before the pen is lifted: a
/// pen-down (a move) at `pos` after a pen-down on the handle at `start` makes the requested
/// width the shown width plus `pos.x - start.x`, within the width limits, at the same origin.
pub proof fn law_resized_box_follows_the_pen(
    s: ZoomWindowView,
    start: Point,
    pos: Point,
    z: Ratio,
    background: Background,
)
    requires
        s.wf(),
        s.visible,
        (s.drag is None),
        !s.canvas_pen_down,
        start.in_range(),
        pos.in_range(),
        s.on_resize_handle(start, z),
    ensures
        ({
            let (s1, r1) = s.after_box_event(PenEvent::Down { pos: start }, z, background);
            let (s2, r2) = s1.after_box_event(PenEvent::Down { pos }, z, background);
            let w = s.box_bounds().width() + (pos.x - start.x);
            &&& r1 is Some && r2 is Some
            &&& s2.origin == s.origin
            &&& (BOX_WIDTH_MIN <= w <= BOX_WIDTH_MAX ==> s2.box_width == w)
            &&& (w < BOX_WIDTH_MIN ==> s2.box_width == BOX_WIDTH_MIN)
            &&& (w > BOX_WIDTH_MAX ==> s2.box_width == BOX_WIDTH_MAX)
            &&& s2.drag is Some
        }),
{
}

/// Pen down on the resize handle and pen up `dx` further right make the box `dx` wider than
/// it was shown, within the width limits; the box keeps its origin.
pub proof fn law_drag_handle_resizes_box(
    s: ZoomWindowView,
    start: Point,
    end: Point,
    z: Ratio,
    background: Background,
)
    requires
        s.wf(),
        s.visible,
        (s.drag is None),
        !s.canvas_pen_down,
        start.in_range(),
        end.in_range(),
        s.on_resize_handle(start, z),
    ensures
        ({
            let (s1, r1) = s.after_box_event(PenEvent::Down { pos: start }, z, background);
            let (s2, r2) = s1.after_box_event(PenEvent::Up { pos: end }, z, background);
            &&& r1 is Some && r2 is Some
            &&& s2.origin == s.origin
            &&& s2.box_width == clamp_int(
                s.box_bounds().width() + (end.x - start.x),
                BOX_WIDTH_MIN as int,
                BOX_WIDTH_MAX as int,
            )
            &&& s2.drag is None
        }),
{
}

} // verus!
