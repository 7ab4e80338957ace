use egui_alignments::layout::{Align, Layout};
use egui_alignments::resize::{resize_rule, Growth, ResizeRule};

#[test]
fn rows_grow_away_from_their_start() {
    let r = resize_rule(&Layout::left_to_right(Align::Min));
    assert_eq!(r, ResizeRule { horizontal: Growth::TowardMax, vertical: Growth::TowardMax });
    let r = resize_rule(&Layout::right_to_left(Align::Max));
    assert_eq!(r, ResizeRule { horizontal: Growth::TowardMin, vertical: Growth::TowardMin });
}

#[test]
fn columns_grow_away_from_their_start() {
    let r = resize_rule(&Layout::top_down(Align::Max));
    assert_eq!(r, ResizeRule { horizontal: Growth::TowardMin, vertical: Growth::TowardMax });
    let r = resize_rule(&Layout::bottom_up(Align::Min));
    assert_eq!(r, ResizeRule { horizontal: Growth::TowardMax, vertical: Growth::TowardMin });
}

#[test]
fn centred_cross_axis_stays_fixed() {
    // A centred column spans the whole width; a centred row the whole height.
    let r = resize_rule(&Layout::top_down(Align::Center));
    assert_eq!(r, ResizeRule { horizontal: Growth::Fixed, vertical: Growth::TowardMax });
    let r = resize_rule(&Layout::right_to_left(Align::Center).with_main_wrap(true));
    assert_eq!(r, ResizeRule { horizontal: Growth::TowardMin, vertical: Growth::Fixed });
}
