//! The engine: the document, the main canvas camera and the views that follow it.
use vstd::prelude::*;
use crate::camera::Camera;
use crate::document::Document;
use crate::geometry::Size;
use crate::pen::PenStyle;
use crate::presentation::Presentation;
use crate::widget_flags::WidgetFlags;
use crate::zoomwindow::ZoomWindow;

pub mod presentation;
pub mod zoomwindow;

verus! {

/// The document with the cameras and panels that look at it.
#[derive(Debug)]
pub struct Engine {
    pub document: Document,
    /// The camera of the main canvas.
    pub camera: Camera,
    pub zoom_window: ZoomWindow,
    pub presentation: Presentation,
    /// The pen in hand, overrides included.
    pub pen_style: PenStyle,
}

impl Engine {
    pub open spec fn wf(&self) -> bool {
        &&& self.document.wf()
        &&& self.camera.wf()
        &&& self.zoom_window.wf()
        &&& self.presentation.wf()
    }

    /// Set the main canvas size in surface pixels.
    pub fn camera_set_size(&mut self, size: Size) -> (r: WidgetFlags)
        requires
            old(self).wf(),
        ensures
            final(self).wf(),
            final(self).camera == (Camera { size: size.spec_clamped(), ..old(self).camera }),
            final(self).document == old(self).document,
            final(self).zoom_window@ == old(self).zoom_window@,
            final(self).presentation@ == old(self).presentation@,
            final(self).pen_style == old(self).pen_style,
            r == (WidgetFlags { redraw: true, view_modified: true }),
    {
        self.camera.set_size(size)
    }
}

impl Default for Engine {
    fn default() -> (e: Engine)
        ensures
            e.wf(),
            e.document == Document::spec_default(),
            e.camera == Camera::spec_default(),
            e.zoom_window@ == crate::zoomwindow::ZoomWindowView::initial(),
            !e.presentation@.visible,
            (e.presentation@.locked is None),
            e.pen_style == PenStyle::Brush,
    {
        Engine {
            document: Document::default(),
            camera: Camera::default(),
            zoom_window: ZoomWindow::default(),
            presentation: Presentation::default(),
            pen_style: PenStyle::Brush,
        }
    }
}

} // verus!
