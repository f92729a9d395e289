use rnote_engine::camera::Camera;
use rnote_engine::document::{Background, Document};
use rnote_engine::geometry::{Point, Rect, Size, UNIT};
use rnote_engine::pen::PenEvent;
use rnote_engine::zoomwindow::{
    BoxScale, BoxShift, LineStart, ZoomWindow, BOX_WIDTH_MAX, RETURN_HEIGHT_DEFAULT,
};

/// Fine units per document unit.
const U: i64 = UNIT;

fn center(r: &Rect) -> Point {
    Point::new((r.mins.x + r.maxs.x) / 2, (r.mins.y + r.maxs.y) / 2)
}

fn width(r: &Rect) -> i64 {
    r.maxs.x - r.mins.x
}

#[test]
fn hidden_panel_has_no_tile() {
    let background = Background::default();
    let mut zoom_window = ZoomWindow::default();

    zoom_window.regenerate_background(&background);
    assert!(zoom_window.tile().is_none());

    let _ = zoom_window.set_visible(true, &background);
    assert!(zoom_window.tile().is_some());

    let _ = zoom_window.set_visible(false, &background);
    zoom_window.regenerate_background(&background);
    assert!(zoom_window.tile().is_none());
}

#[test]
fn panel_resize_keeps_box() {
    let doc = Document::default();
    let mut zoom_window = ZoomWindow::default();
    let before = zoom_window.box_bounds();

    zoom_window.set_size(Size::new(1200, 300), &doc, &Background::default());
    let after = zoom_window.box_bounds();

    assert_eq!(width(&before), width(&after));
    assert_eq!(before.mins, after.mins);
}

#[test]
fn shrink_raises_magnification() {
    let doc = Document::default();
    let mut zoom_window = ZoomWindow::default();
    let zoom_before = zoom_window.camera().total_zoom();

    zoom_window.scale_box(BoxScale::Shrink, &doc, &Background::default());

    assert!(zoom_before.lt(&zoom_window.camera().total_zoom()));
}

#[test]
fn stroke_in_zone_advances() {
    let doc = Document::default();
    let mut zoom_window = ZoomWindow::default();
    let before = zoom_window.box_bounds();

    zoom_window.begin_stroke();
    let c = center(&before);
    zoom_window.advance_after_stroke(Point::new(c.x - 1, c.y), &doc);
    assert_eq!(zoom_window.box_bounds().mins, before.mins);

    zoom_window.begin_stroke();
    let zone_center = center(&zoom_window.advance_zone());
    zoom_window.advance_after_stroke(zone_center, &doc);
    let after = zoom_window.box_bounds();
    assert!(after.mins.x > before.mins.x);
    assert_eq!(after.mins.y, before.mins.y);
}

#[test]
fn stroke_at_page_edge_wraps() {
    let doc = Document::default();
    let mut zoom_window = ZoomWindow::default();
    let w = width(&zoom_window.box_bounds());
    zoom_window.move_box_to(Point::new(doc.bounds().maxs.x - w, 100 * U), &doc);

    zoom_window.begin_stroke();
    let zone_center = center(&zoom_window.advance_zone());
    zoom_window.advance_after_stroke(zone_center, &doc);
    let bounds = zoom_window.box_bounds();

    assert_eq!(bounds.mins.x, doc.bounds().mins.x);
    assert_eq!(bounds.mins.y, 100 * U + RETURN_HEIGHT_DEFAULT);
}

#[test]
fn drag_inside_box_moves_it() {
    let doc = Document::default();
    let camera = Camera::default();
    let background = Background::default();
    let mut zoom_window = ZoomWindow::default();
    let _ = zoom_window.set_visible(true, &background);
    let before = zoom_window.box_bounds();
    let start = center(&before);
    let delta = Point::new(40 * U, 20 * U);
    let end = Point::new(start.x + delta.x, start.y + delta.y);
    let far = Point::new(before.maxs.x + 100 * U, before.maxs.y + 100 * U);

    let outside = PenEvent::Down { pos: far };
    assert!(zoom_window.handle_box_event(&outside, &camera, &doc, &background).is_none());
    let lift = PenEvent::Up { pos: far };
    zoom_window.handle_box_event(&lift, &camera, &doc, &background);

    for event in [PenEvent::Down { pos: start }, PenEvent::Down { pos: end }, PenEvent::Up { pos: end }] {
        assert!(zoom_window.handle_box_event(&event, &camera, &doc, &background).is_some());
    }

    assert_eq!(
        zoom_window.box_bounds().mins,
        Point::new(before.mins.x + delta.x, before.mins.y + delta.y)
    );
}

#[test]
fn stroke_crossing_box_passes_through() {
    let doc = Document::default();
    let camera = Camera::default();
    let background = Background::default();
    let mut zoom_window = ZoomWindow::default();
    let _ = zoom_window.set_visible(true, &background);
    let before = zoom_window.box_bounds();

    let outside = PenEvent::Down { pos: Point::new(before.maxs.x + 100 * U, before.maxs.y + 100 * U) };
    let inside = PenEvent::Down { pos: center(&before) };
    let up = PenEvent::Up { pos: center(&before) };
    for event in [&outside, &inside, &up] {
        assert!(zoom_window.handle_box_event(event, &camera, &doc, &background).is_none());
    }

    assert_eq!(zoom_window.box_bounds().mins, before.mins);
}

#[test]
fn drag_handle_resizes_box() {
    let doc = Document::default();
    let camera = Camera::default();
    let background = Background::default();
    let mut zoom_window = ZoomWindow::default();
    let _ = zoom_window.set_visible(true, &background);
    let before = zoom_window.box_bounds();

    let down = PenEvent::Down { pos: before.maxs };
    let up = PenEvent::Up { pos: Point::new(before.maxs.x + 50 * U, before.maxs.y) };
    zoom_window.handle_box_event(&down, &camera, &doc, &background);
    zoom_window.handle_box_event(&up, &camera, &doc, &background);
    let after = zoom_window.box_bounds();

    assert_eq!(after.mins, before.mins);
    assert_eq!(width(&after), width(&before) + 50 * U);
}

#[test]
fn new_line_returns_to_page_edge() {
    let mut doc = Document::default();
    doc.x = -1000 * U;
    doc.width = 3000 * U;
    let page_width = doc.format.size().x;
    let mut zoom_window = ZoomWindow::default();
    zoom_window.place_box(Point::new(page_width + 200 * U, 100 * U), &doc);

    zoom_window.new_line(&doc);
    let bounds = zoom_window.box_bounds();

    assert_eq!(bounds.mins.x, page_width);
    assert_eq!(bounds.mins.y, 100 * U + RETURN_HEIGHT_DEFAULT);
}

#[test]
fn new_line_returns_to_line_start() {
    let doc = Document::default();
    let mut zoom_window = ZoomWindow::default();
    zoom_window.set_line_start(LineStart::LastPlaced);
    zoom_window.place_box(Point::new(200 * U, 100 * U), &doc);
    zoom_window.shift_box(BoxShift::Right, &doc);

    zoom_window.new_line(&doc);
    let bounds = zoom_window.box_bounds();

    assert_eq!(bounds.mins.x, 200 * U);
    assert_eq!(bounds.mins.y, 100 * U + RETURN_HEIGHT_DEFAULT);
}

#[test]
fn default_box_is_three_hundred_wide_at_the_origin() {
    let zoom_window = ZoomWindow::default();
    let bounds = zoom_window.box_bounds();
    assert_eq!(bounds.mins, Point::new(0, 0));
    // 200 panel pixels at 800 / 300 pixels per unit.
    assert_eq!(bounds.maxs, Point::new(300 * U, 75 * U));
    assert!(!zoom_window.visible());
    assert!(zoom_window.auto_advance());
    assert_eq!(zoom_window.line_start(), LineStart::PageEdge);
    assert_eq!(zoom_window.return_height(), RETURN_HEIGHT_DEFAULT);
}

#[test]
fn advance_fires_once_per_stroke() {
    let doc = Document::default();
    let mut zoom_window = ZoomWindow::default();
    zoom_window.begin_stroke();
    let zone_center = center(&zoom_window.advance_zone());
    let flags = zoom_window.advance_after_stroke(zone_center, &doc);
    assert!(flags.redraw);
    let after_first = zoom_window.box_bounds();
    // The left edge of the box goes to the left edge of the zone it was written in.
    assert_eq!(after_first.mins.x, 225 * U);

    let zone_center = center(&zoom_window.advance_zone());
    let flags = zoom_window.advance_after_stroke(zone_center, &doc);
    assert!(!flags.redraw);
    assert_eq!(zoom_window.box_bounds(), after_first);
}

#[test]
fn auto_advance_off_keeps_box() {
    let doc = Document::default();
    let mut zoom_window = ZoomWindow::default();
    zoom_window.set_auto_advance(false);
    let before = zoom_window.box_bounds();
    zoom_window.begin_stroke();
    let zone_center = center(&zoom_window.advance_zone());
    zoom_window.advance_after_stroke(zone_center, &doc);
    assert_eq!(zoom_window.box_bounds(), before);
}

#[test]
fn shift_moves_half_a_box() {
    let doc = Document::default();
    let mut zoom_window = ZoomWindow::default();
    zoom_window.shift_box(BoxShift::Right, &doc);
    assert_eq!(zoom_window.box_bounds().mins, Point::new(150 * U, 0));
    zoom_window.shift_box(BoxShift::Left, &doc);
    zoom_window.shift_box(BoxShift::Left, &doc);
    assert_eq!(zoom_window.box_bounds().mins, Point::new(-150 * U, 0));
}

#[test]
fn scale_steps_stay_in_limits() {
    let doc = Document::default();
    let background = Background::default();
    let mut zoom_window = ZoomWindow::default();
    zoom_window.scale_box(BoxScale::Shrink, &doc, &background);
    assert_eq!(width(&zoom_window.box_bounds()), 240 * U);
    zoom_window.scale_box(BoxScale::Grow, &doc, &background);
    assert_eq!(width(&zoom_window.box_bounds()), 300 * U);
    for _ in 0..40 {
        zoom_window.scale_box(BoxScale::Shrink, &doc, &background);
    }
    // The panel zoom stops at six pixels per unit: 800 pixels show 133.33 units, rounded up
    // to a whole fine unit.
    assert_eq!(width(&zoom_window.box_bounds()), (800 * U + 5) / 6);
    let zoom = zoom_window.camera().total_zoom();
    assert!(zoom.num * U <= 6 * zoom.den);
    for _ in 0..40 {
        zoom_window.scale_box(BoxScale::Grow, &doc, &background);
    }
    assert_eq!(width(&zoom_window.box_bounds()), BOX_WIDTH_MAX);
}

#[test]
fn return_height_is_at_least_one() {
    let mut zoom_window = ZoomWindow::default();
    zoom_window.set_return_height(-5);
    assert_eq!(zoom_window.return_height(), U);
    zoom_window.set_return_height(48 * U);
    assert_eq!(zoom_window.return_height(), 48 * U);
}

#[test]
fn page_edge_of_negative_x_rounds_down() {
    let mut doc = Document::default();
    doc.x = -2000 * U;
    doc.width = 4000 * U;
    let mut zoom_window = ZoomWindow::default();
    zoom_window.place_box(Point::new(-10 * U, 0), &doc);
    zoom_window.new_line(&doc);
    assert_eq!(zoom_window.box_bounds().mins, Point::new(-794 * U, RETURN_HEIGHT_DEFAULT));
}

#[test]
fn hidden_panel_ignores_box_events() {
    let doc = Document::default();
    let camera = Camera::default();
    let background = Background::default();
    let mut zoom_window = ZoomWindow::default();
    let before = zoom_window.box_bounds();
    let down = PenEvent::Down { pos: center(&before) };
    assert!(zoom_window.handle_box_event(&down, &camera, &doc, &background).is_none());
    assert!(zoom_window.handle_box_event(&PenEvent::Cancel, &camera, &doc, &background).is_none());
    assert_eq!(zoom_window.box_bounds(), before);
}

#[test]
fn cancel_ends_a_drag() {
    let doc = Document::default();
    let camera = Camera::default();
    let background = Background::default();
    let mut zoom_window = ZoomWindow::default();
    let _ = zoom_window.set_visible(true, &background);
    let before = zoom_window.box_bounds();
    let down = PenEvent::Down { pos: center(&before) };
    assert!(zoom_window.handle_box_event(&down, &camera, &doc, &background).is_some());
    assert!(zoom_window.handle_box_event(&PenEvent::Cancel, &camera, &doc, &background).is_some());
    assert!(zoom_window.handle_box_event(&PenEvent::KeyPressed, &camera, &doc, &background).is_none());
    // A later pen down inside starts a new drag.
    assert!(zoom_window.handle_box_event(&down, &camera, &doc, &background).is_some());
}

#[test]
fn grabbing_just_outside_the_border_moves_the_box() {
    let doc = Document::default();
    let camera = Camera::default();
    let background = Background::default();
    let mut zoom_window = ZoomWindow::default();
    let _ = zoom_window.set_visible(true, &background);
    let before = zoom_window.box_bounds();
    // Fourteen pixels left of the box at one pixel per unit still grab it; a fine unit more does not.
    let near = PenEvent::Down { pos: Point::new(before.mins.x - 14 * U, before.mins.y + 10 * U) };
    assert!(zoom_window.handle_box_event(&near, &camera, &doc, &background).is_some());
    zoom_window.handle_box_event(&PenEvent::Up { pos: Point::new(before.mins.x - 14 * U, before.mins.y + 10 * U) }, &camera, &doc, &background);
    let far = PenEvent::Down { pos: Point::new(before.mins.x - 14 * U - 1, before.mins.y + 10 * U) };
    assert!(zoom_window.handle_box_event(&far, &camera, &doc, &background).is_none());
}

#[test]
fn tile_follows_the_panel_zoom() {
    let doc = Document::default();
    let background = Background::default();
    let mut zoom_window = ZoomWindow::default();
    let _ = zoom_window.set_visible(true, &background);
    let tile = zoom_window.tile().unwrap();
    assert_eq!(tile.image_scale.num, 800);
    assert_eq!(tile.image_scale.den, 300 * U);
    zoom_window.set_scale_factor(2);
    zoom_window.set_size(Size::new(600, 200), &doc, &background);
    let tile = zoom_window.tile().unwrap();
    assert_eq!(tile.image_scale.num, 1200);
    assert_eq!(tile.image_scale.den, 300 * U);
}

#[test]
fn grown_box_is_exactly_five_fourths() {
    let doc = Document::default();
    let background = Background::default();
    let mut zoom_window = ZoomWindow::default();
    zoom_window.scale_box(BoxScale::Grow, &doc, &background);
    assert_eq!(width(&zoom_window.box_bounds()), 375 * U);
    zoom_window.scale_box(BoxScale::Grow, &doc, &background);
    // 375 * 5 / 4 = 468.75 units.
    assert_eq!(width(&zoom_window.box_bounds()), 46875 * U / 100);
    zoom_window.scale_box(BoxScale::Shrink, &doc, &background);
    assert_eq!(width(&zoom_window.box_bounds()), 375 * U);
}

#[test]
fn quarter_zone_and_three_quarter_advance_are_exact() {
    let doc = Document::default();
    let background = Background::default();
    let mut zoom_window = ZoomWindow::default();
    zoom_window.scale_box(BoxScale::Grow, &doc, &background);
    let zone = zoom_window.advance_zone();
    // The right quarter of a 375 unit box starts at 281.25 units.
    assert_eq!(zone.mins.x, 28125 * U / 100);
    assert_eq!(zone.maxs, zoom_window.box_bounds().maxs);

    zoom_window.begin_stroke();
    zoom_window.advance_after_stroke(center(&zone), &doc);
    // The box moves on by 281.25 units: its left edge is the old left edge of the zone.
    assert_eq!(zoom_window.box_bounds().mins.x, zone.mins.x);
}

#[test]
fn shift_of_an_odd_box_is_half_its_width() {
    let doc = Document::default();
    let background = Background::default();
    let mut zoom_window = ZoomWindow::default();
    zoom_window.scale_box(BoxScale::Grow, &doc, &background);
    zoom_window.shift_box(BoxShift::Right, &doc);
    // Half of 375 units.
    assert_eq!(zoom_window.box_bounds().mins.x, 1875 * U / 10);
    zoom_window.shift_box(BoxShift::Left, &doc);
    assert_eq!(zoom_window.box_bounds().mins.x, 0);
}

#[test]
fn narrow_panel_widens_a_box_past_the_zoom_limit() {
    let doc = Document::default();
    let background = Background::default();
    let mut zoom_window = ZoomWindow::default();
    for _ in 0..10 {
        zoom_window.scale_box(BoxScale::Grow, &doc, &background);
    }
    assert_eq!(width(&zoom_window.box_bounds()), BOX_WIDTH_MAX);
    // At 200 pixels wide the panel cannot show 2000 units: the smallest zoom is a fifth of a
    // pixel per unit, so the box is 1000 units wide.
    zoom_window.set_size(Size::new(200, 100), &doc, &background);
    assert_eq!(width(&zoom_window.box_bounds()), 1000 * U);
    let zoom = zoom_window.camera().total_zoom();
    assert_eq!(zoom.den, 5 * U * zoom.num);
}

#[test]
fn shrink_steps_round_to_the_nearest_fine_unit() {
    let doc = Document::default();
    let background = Background::default();
    let mut zoom_window = ZoomWindow::default();
    for _ in 0..3 {
        zoom_window.scale_box(BoxScale::Shrink, &doc, &background);
    }
    // 300 * 0.8^3 = 153.6 units, 161061273.6 fine units.
    assert_eq!(width(&zoom_window.box_bounds()), 161_061_274);
    zoom_window.scale_box(BoxScale::Grow, &doc, &background);
    // 192 units, up to the rounding of the step before.
    assert_eq!(width(&zoom_window.box_bounds()), 192 * U + 1);
}
