use rnote_engine::document::Document;
use rnote_engine::engine::Engine;
use rnote_engine::geometry::{Point, Size, UNIT};
use rnote_engine::pen::{PenEvent, PenStyle};
use rnote_engine::widget_flags::WidgetFlags;
use rnote_engine::zoomwindow::{BoxShift, LineStart};

/// Fine units per document unit.
const U: i64 = UNIT;

#[test]
fn reveal_scrolls_to_box() {
    let mut engine = Engine::default();
    let _ = engine.camera_set_size(Size::new(800, 600));
    let _ = engine.zoom_window_set_visible(true);
    let doc: Document = engine.document;
    let _ = engine.zoom_window.move_box_to(Point::new(400 * U, 3000 * U), &doc);
    assert!(!engine.camera.viewport().contains_other(&engine.zoom_window.box_bounds()));

    let widget_flags = engine.reveal_zoom_box();

    assert!(widget_flags.view_modified);
    assert!(engine.camera.viewport().contains_other(&engine.zoom_window.box_bounds()));
}

#[test]
fn page_grid_is_anchored_at_the_origin() {
    // The document origin drifts with the infinite layout padding, while the page borders
    // stay on the grid anchored at (0, 0). The frame must sit on the same grid.
    let mut engine = Engine::default();
    let _ = engine.camera_set_size(Size::new(800, 600));
    let page_size = engine.document.format.size();
    engine.document.x = -137 * U;
    engine.document.y = -211 * U;
    engine.document.width = page_size.x * 4;
    engine.document.height = page_size.y * 4;

    let _ = engine.camera.set_viewport_center(Point::new(page_size.x / 2, page_size.y / 2));

    assert_eq!(engine.lecturer_page().mins, Point::new(0, 0));
}

#[test]
fn locking_holds_the_page_the_audience_sees() {
    let mut engine = Engine::default();
    let _ = engine.camera_set_size(Size::new(800, 600));
    let page_size = engine.document.format.size();
    engine.document.height = page_size.y * 4;

    let locked = engine.audience_page();
    let _ = engine.presentation_set_page_locked(true);

    // The lecturer looks ahead at the next page.
    let _ = engine
        .camera
        .set_viewport_center(Point::new(page_size.x / 2, page_size.y * 3 / 2));
    assert_ne!(engine.lecturer_page(), locked);
    assert_eq!(engine.audience_page(), locked);

    // Unlocking catches the audience up.
    let _ = engine.presentation_set_page_locked(false);
    assert_eq!(engine.audience_page(), engine.lecturer_page());
}

#[test]
fn lecturer_page_follows_the_viewport_center() {
    let mut engine = Engine::default();
    let _ = engine.camera_set_size(Size::new(800, 600));
    let page_size = engine.document.format.size();

    let _ = engine
        .camera
        .set_viewport_center(Point::new(page_size.x / 2, page_size.y * 3 / 2));

    // The document is one page tall by default, so the second page is clamped back to it.
    assert_eq!(engine.lecturer_page().mins.y, 0);
}

#[test]
fn lecturer_page_is_the_page_under_the_center() {
    let mut engine = Engine::default();
    let page_size = engine.document.format.size();
    engine.document.width = page_size.x * 3;
    engine.document.height = page_size.y * 3;
    let _ = engine
        .camera
        .set_viewport_center(Point::new(page_size.x * 5 / 2, page_size.y * 3 / 2));
    let page = engine.lecturer_page();
    assert_eq!(page.mins, Point::new(page_size.x * 2, page_size.y));
    assert_eq!(page.maxs, Point::new(page_size.x * 3, page_size.y * 2));
}

#[test]
fn blanking_goes_to_the_presentation() {
    let mut engine = Engine::default();
    assert!(engine.presentation_set_visible(true).redraw);
    assert!(engine.presentation.visible());
    let _ = engine.presentation_set_blanked(true);
    assert!(engine.presentation.blanked());
    let _ = engine.presentation_set_size(Size::new(1920, 1080), 2);
    let camera = engine.presentation.camera_for(engine.audience_page());
    assert_eq!(camera.size, Size::new(1920, 1080));
    assert_eq!(camera.scale_factor, 2);
}

#[test]
fn brush_stroke_in_the_panel_advances_and_reveals() {
    let mut engine = Engine::default();
    let _ = engine.zoom_window_set_visible(true);
    let zone = engine.zoom_window.advance_zone();
    let pos = Point::new((zone.mins.x + zone.maxs.x) / 2, (zone.mins.y + zone.maxs.y) / 2);

    let flags = engine.handle_zoom_window_pen_event(&PenEvent::Down { pos }, WidgetFlags::default());
    assert!(!flags.redraw);
    let flags = engine.handle_zoom_window_pen_event(&PenEvent::Up { pos }, WidgetFlags::default());
    assert!(flags.redraw);
    assert_eq!(engine.zoom_window.box_bounds().mins, Point::new(225 * U, 0));

    // Another pen ends no brush stroke.
    engine.pen_style = PenStyle::Eraser;
    let before = engine.zoom_window.box_bounds();
    let _ = engine.handle_zoom_window_pen_event(&PenEvent::Down { pos }, WidgetFlags::default());
    let _ = engine.handle_zoom_window_pen_event(&PenEvent::Up { pos }, WidgetFlags::default());
    assert_eq!(engine.zoom_window.box_bounds(), before);
}

#[test]
fn new_line_scrolls_the_main_view() {
    let mut engine = Engine::default();
    let _ = engine.camera_set_size(Size::new(800, 600));
    engine.zoom_window_set_line_start(LineStart::LastPlaced);
    engine.zoom_window_set_return_height(700 * U);
    let flags = engine.zoom_window_new_line();
    assert!(flags.view_modified);
    assert_eq!(engine.zoom_window.box_bounds().mins, Point::new(0, 700 * U));
    assert!(engine.camera.viewport().contains_other(&engine.zoom_window.box_bounds()));
    let flags = engine.zoom_window_shift_box(BoxShift::Right);
    assert!(flags.redraw);
    assert!(!flags.view_modified);
}

#[test]
fn blanked_presentation_shows_no_page() {
    let mut engine = Engine::default();
    let (page, camera) = engine.presentation_frame().unwrap();
    assert_eq!(page, engine.audience_page());
    assert!(camera.viewport().contains_other(&page));
    let _ = engine.presentation_set_blanked(true);
    assert!(engine.presentation_frame().is_none());
}

#[test]
fn page_format_without_area_makes_the_document_the_page() {
    let mut engine = Engine::default();
    engine.document.format.width = 0;
    let page = engine.lecturer_page();
    assert_eq!(page, engine.document.bounds());
    // The page still has area, so the audience sees the whole document.
    let (framed, camera) = engine.presentation_frame().unwrap();
    assert_eq!(framed, page);
    assert!(camera.viewport().contains_other(&page));

    engine.document.width = 0;
    let (framed, camera) = engine.presentation_frame().unwrap();
    assert_eq!(framed, engine.document.bounds());
    assert_eq!(camera, engine.presentation.camera_for(framed));
    assert_eq!(camera.origin, Point::new(0, 0));
}

#[test]
fn engine_shift_moves_half_an_odd_box() {
    let mut engine = Engine::default();
    let _ = engine.camera_set_size(Size::new(800, 600));
    let _ = engine.zoom_window_scale_box(rnote_engine::zoomwindow::BoxScale::Grow);
    let _ = engine.zoom_window_shift_box(BoxShift::Right);
    assert_eq!(engine.zoom_window.box_bounds().mins, Point::new(1875 * U / 10, 0));
    let _ = engine.zoom_window_shift_box(BoxShift::Left);
    assert_eq!(engine.zoom_window.box_bounds().mins, Point::new(0, 0));
}
