use egui_alignments::memo::{recall, should_remember, Pass, Recall};

#[test]
fn remembered_size_gives_visible_pass() {
    assert_eq!(recall(Some((3u32, 4u32)), (100, 200)), Recall { size: (3, 4), pass: Pass::Visible });
}

#[test]
fn missing_size_gives_sizing_pass_with_available_space() {
    assert_eq!(recall(None, (100u32, 200u32)), Recall { size: (100, 200), pass: Pass::Sizing });
}

#[test]
fn remember_after_sizing_or_change() {
    assert!(should_remember(Pass::Sizing, false));
    assert!(should_remember(Pass::Sizing, true));
    assert!(should_remember(Pass::Visible, true));
    assert!(!should_remember(Pass::Visible, false));
}
