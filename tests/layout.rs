use egui_alignments::layout::{horizontal_layout, Align, Direction, Layout};

#[test]
fn constructors_set_direction_and_cross_align() {
    let l = Layout::left_to_right(Align::Max);
    assert_eq!(l.main_dir, Direction::LeftToRight);
    assert_eq!(l.cross_align, Align::Max);
    assert_eq!(l.main_align, Align::Center);
    assert!(!l.main_wrap && !l.main_justify && !l.cross_justify);

    assert_eq!(Layout::right_to_left(Align::Min).main_dir, Direction::RightToLeft);
    assert_eq!(Layout::top_down(Align::Center).main_dir, Direction::TopDown);
    let b = Layout::bottom_up(Align::Min);
    assert_eq!(b.main_dir, Direction::BottomUp);
    assert_eq!(b.cross_align, Align::Min);
}

#[test]
fn modifiers_change_one_field() {
    let l = Layout::top_down(Align::Center);
    let w = l.with_main_wrap(true);
    assert!(w.main_wrap);
    assert_eq!(Layout { main_wrap: false, ..w }, l);

    let c = l.with_cross_align(Align::Max);
    assert_eq!(c.cross_align, Align::Max);
    assert_eq!(Layout { cross_align: Align::Center, ..c }, l);

    let j = l.with_cross_justify(true);
    assert!(j.cross_justify);
    assert_eq!(Layout { cross_justify: false, ..j }, l);
}

#[test]
fn direction_axes() {
    assert!(Direction::LeftToRight.is_horizontal());
    assert!(Direction::RightToLeft.is_horizontal());
    assert!(!Direction::TopDown.is_horizontal());
    assert!(Direction::TopDown.is_vertical());
    assert!(Direction::BottomUp.is_vertical());
    assert!(!Direction::LeftToRight.is_vertical());
    assert!(Layout::bottom_up(Align::Min).is_vertical());
    assert!(!Layout::bottom_up(Align::Min).is_horizontal());
}

#[test]
fn prefer_right_to_left_cases() {
    assert!(Layout::right_to_left(Align::Min).prefer_right_to_left());
    assert!(!Layout::left_to_right(Align::Max).prefer_right_to_left());
    assert!(Layout::top_down(Align::Max).prefer_right_to_left());
    assert!(!Layout::top_down(Align::Center).prefer_right_to_left());
    assert!(Layout::bottom_up(Align::Max).prefer_right_to_left());
}

#[test]
fn justify_follows_the_axis() {
    let mut h = Layout::left_to_right(Align::Min);
    h.main_justify = true;
    assert!(h.horizontal_justify());
    assert!(!h.vertical_justify());

    let v = Layout::top_down(Align::Min).with_cross_justify(true);
    assert!(v.horizontal_justify());
    assert!(!v.vertical_justify());

    let mut v2 = Layout::top_down(Align::Min);
    v2.main_justify = true;
    assert!(v2.vertical_justify());
    assert!(!v2.horizontal_justify());
}

#[test]
fn horizontal_layout_direction_and_wrap() {
    let l = horizontal_layout(true, Align::Center, true);
    assert_eq!(l, Layout::right_to_left(Align::Center).with_main_wrap(true));
    let l = horizontal_layout(false, Align::Max, false);
    assert_eq!(l, Layout::left_to_right(Align::Max));
    assert!(!l.main_wrap);
}
