use rnote_engine::document::{Background, PatternStyle};
use rnote_engine::zoom_panel::{default_return_height, line_start_from_index};
use rnote_engine::zoomwindow::LineStart;

#[test]
fn dropdown_rows_map_to_line_start() {
    assert_eq!(line_start_from_index(0), LineStart::PageEdge);
    assert_eq!(line_start_from_index(1), LineStart::LastPlaced);
    assert_eq!(line_start_from_index(7), LineStart::PageEdge);
}

#[test]
fn ruled_paper_suggests_its_line_height() {
    let mut background = Background::default();
    background.pattern = PatternStyle::Lines;
    background.pattern_height = 40;
    assert_eq!(default_return_height(&background), Some(40));
    background.pattern = PatternStyle::Blank;
    assert_eq!(default_return_height(&background), None);
}
