//! Zoom window, presentation and smart ink logic of a note taking engine.
pub mod camera;
pub mod document;
pub mod geometry;
pub mod pen;
pub mod widget_flags;
pub mod zoomwindow;
pub mod presentation;
pub mod engine;
pub mod presentation_window;
pub mod zoom_panel;
pub mod smartink;
