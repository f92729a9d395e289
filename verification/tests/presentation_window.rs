use rnote_engine::presentation_window::{
    audience_monitor, default_monitor_index, flipped_monitor_choice, next_monitor_choice,
    page_ratio_height,
};

#[test]
fn single_monitor_has_nothing_to_flip_to() {
    assert_eq!(next_monitor_choice(None, 1), None);
    assert_eq!(next_monitor_choice(Some(0), 1), None);
    assert_eq!(next_monitor_choice(None, 0), None);
}

#[test]
fn flipping_cycles_every_monitor() {
    // The lecturer's own monitor is included, or two displays would have nothing to offer.
    assert_eq!(next_monitor_choice(Some(0), 2), Some(1));
    assert_eq!(next_monitor_choice(Some(1), 2), Some(0));
    assert_eq!(next_monitor_choice(Some(1), 3), Some(2));
    assert_eq!(next_monitor_choice(Some(2), 3), Some(0));
}

#[test]
fn flipping_three_times_of_three_comes_back() {
    let mut choice = Some(1);
    for _ in 0..3 {
        choice = next_monitor_choice(choice, 3);
    }
    assert_eq!(choice, Some(1));
    assert_eq!(next_monitor_choice(None, 3), Some(1));
    assert_eq!(next_monitor_choice(Some(usize::MAX), 2), Some(0));
}

#[test]
fn default_monitor_is_the_first_not_showing_the_lecturer() {
    assert_eq!(default_monitor_index(&vec![true, false, false]), 1);
    assert_eq!(default_monitor_index(&vec![false, true]), 0);
    assert_eq!(default_monitor_index(&vec![true]), 0);
    assert_eq!(default_monitor_index(&vec![]), 0);
}

#[test]
fn audience_monitor_choice() {
    assert_eq!(audience_monitor(None, 0, 0), None);
    assert_eq!(audience_monitor(None, 1, 0), None);
    assert_eq!(audience_monitor(None, 2, 1), Some(1));
    assert_eq!(audience_monitor(Some(3), 2, 0), Some(1));
    assert_eq!(audience_monitor(Some(0), 1, 0), Some(0));
    assert_eq!(flipped_monitor_choice(None, 3, 1), Some(2));
    assert_eq!(flipped_monitor_choice(Some(2), 3, 1), Some(0));
    assert_eq!(flipped_monitor_choice(None, 1, 0), None);
}

#[test]
fn window_takes_the_page_ratio() {
    // A4 portrait: 1280 * 1123 / 794 = 1810.4
    assert_eq!(page_ratio_height(794, 1123), Some(1810));
    assert_eq!(page_ratio_height(1600, 900), Some(720));
    // 1280 * 1 / 3 = 426.67 rounds up.
    assert_eq!(page_ratio_height(3, 1), Some(427));
    assert_eq!(page_ratio_height(0, 100), None);
    assert_eq!(page_ratio_height(100, -1), None);
}
