use rnote_engine::geometry::{Point, Ratio, Rect, Size, UNIT};
use rnote_engine::presentation::Presentation;

/// Fine units per document unit.
const U: i64 = UNIT;

fn presentation(window_size: Size) -> Presentation {
    let mut presentation = Presentation::default();
    let _ = presentation.set_size(window_size, 1);
    presentation
}

/// A rectangle given in whole document units.
fn rect(x0: i64, y0: i64, x1: i64, y1: i64) -> Rect {
    Rect::new(Point::new(x0 * U, y0 * U), Point::new(x1 * U, y1 * U))
}

fn contains(outer: &Rect, inner: &Rect) -> bool {
    outer.contains_other(inner)
}

#[test]
fn page_fits_centered() {
    let presentation = presentation(Size::new(1000, 1000));

    // A page further down the document, as the lecturer scrolls to it.
    let page = rect(0, 2000, 800, 3000);
    let viewport = presentation.camera_for(page).viewport();

    assert!(contains(&viewport, &page));
    let margin_top = page.mins.y - viewport.mins.y;
    let margin_bottom = viewport.maxs.y - page.maxs.y;
    assert_eq!(margin_top, margin_bottom);
}

#[test]
fn matching_ratio_leaves_no_letterbox() {
    // A screen page on a screen of the same ratio must fill it edge to edge.
    let presentation = presentation(Size::new(1920, 1080));

    let page = rect(0, 0, 1600, 900);
    let viewport = presentation.camera_for(page).viewport();

    assert_eq!(viewport.mins, page.mins);
    assert_eq!(viewport.maxs, page.maxs);
}

#[test]
fn portrait_page_is_letterboxed_sideways() {
    // A portrait page on a wide screen: full height, bars left and right.
    let presentation = presentation(Size::new(1920, 1080));

    let page = rect(0, 0, 800, 1000);
    let viewport = presentation.camera_for(page).viewport();

    assert_eq!(viewport.maxs.y - viewport.mins.y, 1000 * U);
    assert!(viewport.maxs.x - viewport.mins.x > 800 * U);
}

#[test]
fn page_change_keeps_the_zoom() {
    let presentation = presentation(Size::new(1920, 1080));

    let first = rect(0, 0, 800, 1000);
    let second = rect(0, 1000, 800, 2000);

    // Only the origin follows the page, so a page change never rescales the view.
    assert_eq!(
        presentation.camera_for(first).total_zoom(),
        presentation.camera_for(second).total_zoom()
    );
}

#[test]
fn portrait_page_bars_are_even() {
    let presentation = presentation(Size::new(1920, 1080));
    let page = rect(0, 0, 800, 1000);
    let viewport = presentation.camera_for(page).viewport();
    // 1920 pixels at 1.08 pixels per unit cover 1777.78 units, rounded down to a fine unit:
    // 977.78 units of bars, 488.89 on each side, the odd fine unit on the right.
    let covered: i64 = 1920 * 1000 * U / 1080;
    let left = (covered - 800 * U) / 2;
    assert_eq!(viewport.mins, Point::new(-left, 0));
    assert_eq!(viewport.maxs, Point::new(covered - left, 1000 * U));
    let right = viewport.maxs.x - page.maxs.x;
    assert!(right - left == 0 || right - left == 1);
    assert_eq!(viewport.mins.x, -512_637_155);
}

#[test]
fn empty_page_keeps_the_window_camera() {
    let presentation = presentation(Size::new(1920, 1080));
    let page = rect(100, 100, 100, 500);
    let camera = presentation.camera_for(page);
    assert_eq!(camera.origin, Point::new(0, 0));
    assert_eq!(camera.total_zoom(), Ratio::new(1, U));
}

#[test]
fn small_page_stops_at_the_largest_zoom() {
    // Ten units would take 108 pixels per unit; the camera stops at six.
    let presentation = presentation(Size::new(1920, 1080));
    let page = rect(0, 0, 10, 10);
    let camera = presentation.camera_for(page);
    assert_eq!(camera.total_zoom(), Ratio::new(6, U));
    let viewport = camera.viewport();
    assert_eq!(viewport.mins, Point::new(-155 * U, -85 * U));
    assert_eq!(viewport.maxs, Point::new(165 * U, 95 * U));
    assert!(contains(&viewport, &page));
}

#[test]
fn huge_page_stops_at_the_smallest_zoom() {
    // A page of 100000 units would take a hundredth of a pixel per unit; the camera stops at
    // a fifth, and shows the middle of the page.
    let presentation = presentation(Size::new(1000, 1000));
    let page = rect(0, 0, 100_000, 100_000);
    let camera = presentation.camera_for(page);
    assert_eq!(camera.total_zoom(), Ratio::new(1, 5 * U));
    let viewport = camera.viewport();
    assert_eq!(viewport.mins, Point::new(47_500 * U, 47_500 * U));
    assert_eq!(viewport.maxs, Point::new(52_500 * U, 52_500 * U));
    assert!(!contains(&viewport, &page));
}

#[test]
fn moved_page_moves_the_viewport() {
    let presentation = presentation(Size::new(1920, 1080));
    let first = presentation.camera_for(rect(0, 0, 800, 1000));
    let second = presentation.camera_for(rect(794, 2246, 1594, 3246));
    assert_eq!(second.origin, Point::new(first.origin.x + 794 * U, first.origin.y + 2246 * U));
    assert_eq!(second.total_zoom(), first.total_zoom());
}

#[test]
fn blanking_and_locking_are_kept() {
    let mut presentation = Presentation::default();
    assert!(!presentation.visible());
    assert!(!presentation.blanked());
    let flags = presentation.set_blanked(true);
    assert!(flags.redraw);
    assert!(presentation.blanked());
    let page = rect(0, 0, 794, 1123);
    let other = rect(0, 1123, 794, 2246);
    presentation.lock_on(Some(page));
    assert_eq!(presentation.page_or(other), page);
    presentation.lock_on(None);
    assert_eq!(presentation.page_or(other), other);
    presentation.set_visible(true);
    assert!(presentation.visible());
}
