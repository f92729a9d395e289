use rnote_engine::camera::Camera;
use rnote_engine::geometry::{Point, Ratio, Size, UNIT};

/// Fine units per document unit.
const U: i64 = UNIT;

#[test]
fn viewport_follows_size_and_zoom() {
    let mut camera = Camera::default();
    assert_eq!(camera.viewport().maxs, Point::new(800 * U, 600 * U));
    camera.zoom = Ratio::new(2, U);
    assert_eq!(camera.viewport().maxs, Point::new(400 * U, 300 * U));
    assert_eq!(camera.viewport_center(), Point::new(200 * U, 150 * U));
    let flags = camera.set_viewport_center(Point::new(1000 * U, 1000 * U));
    assert!(flags.view_modified);
    assert_eq!(camera.viewport().mins, Point::new(800 * U, 850 * U));
    let _ = camera.set_size(Size::new(0, 100_000));
    assert_eq!(camera.size, Size::new(1, 65_536));
    let _ = camera.set_scale_factor(2);
    assert_eq!(camera.image_scale(), Ratio::new(4, U));
}
