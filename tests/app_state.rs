use hdr_test::app_state::AppState;
use hdr_test::pages::{get_pages, AnimatedGradient, BrightnessGrid, ColorRamps, PageKind, PqLevels, SplitCompare};

#[test]
fn page_registry_order() {
    assert_eq!(
        get_pages(),
        vec![PageKind::PqLevels, PageKind::ColorRamps, PageKind::AnimatedGradient, PageKind::SplitCompare]
    );
}

#[test]
fn page_names() {
    assert_eq!(PqLevels.name(), "PQ Levels in Nits");
    assert_eq!(BrightnessGrid.name(), "Brightness Grid");
    assert_eq!(ColorRamps.name(), "Color Ramps");
    assert_eq!(AnimatedGradient.name(), "Animated Color Gradient");
    assert_eq!(SplitCompare.name(), "Split Compare (SDR | HDR)");
    assert_eq!(PageKind::SplitCompare.name(), "Split Compare (SDR | HDR)");
}

#[test]
fn new_state_defaults() {
    let a = AppState::new();
    assert_eq!(a.current_page(), 0);
    assert_eq!(a.page_count(), 4);
    assert_eq!(a.max_brightness_nits, 1000);
    assert_eq!(a.paper_white_nits, 200);
    assert!(!a.show_ui);
    assert!(!a.auto_cycle);
    assert_eq!(a.cycle_interval_secs, 5);
    assert_eq!(a.current_page_name(), "PQ Levels in Nits");
}

#[test]
fn pages_wrap_both_ways() {
    let mut a = AppState::new();
    a.prev_page(10);
    assert_eq!(a.current_page(), 3);
    assert_eq!(a.current_page_kind(), PageKind::SplitCompare);
    a.next_page(20);
    assert_eq!(a.current_page(), 0);
    a.next_page(30);
    assert_eq!(a.current_page_name(), "Color Ramps");
}

#[test]
fn toggle_ui_flips() {
    let mut a = AppState::new();
    a.toggle_ui();
    assert!(a.show_ui);
    a.toggle_ui();
    assert!(!a.show_ui);
}

#[test]
fn auto_cycle_after_interval() {
    let mut a = AppState::new();
    a.update(60_000);
    assert_eq!(a.current_page(), 0);
    a.auto_cycle = true;
    a.update(4_999);
    assert_eq!(a.current_page(), 0);
    a.update(5_000);
    assert_eq!(a.current_page(), 1);
    a.update(9_999);
    assert_eq!(a.current_page(), 1);
    a.update(10_000);
    assert_eq!(a.current_page(), 2);
}
