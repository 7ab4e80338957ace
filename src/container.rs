//! The layouts of the row and column containers.
//!
//! A container lays out its contents in a layout of its own and takes part
//! in its parent's layout as a single widget, so that its inner alignment
//! cannot disturb the outer one.

use vstd::prelude::*;
use crate::layout::{horizontal_layout, Align, Direction, Layout};
use crate::memo::Pass;

verus! {

/// The layout a container uses for a pass. A sizing pass keeps the contents
/// as small as it can: aligned to the start of the cross axis and not
/// justified there, whatever `layout` says.
pub fn pass_layout(layout: Layout, pass: Pass) -> (r: Layout)
    ensures
        pass == Pass::Sizing ==> r == (Layout {
            cross_align: Align::Min,
            cross_justify: false,
            ..layout
        }),
        pass == Pass::Visible ==> r == layout,
{
    match pass {
        Pass::Sizing => layout.with_cross_align(Align::Min).with_cross_justify(false),
        Pass::Visible => layout,
    }
}

/// The layout of a column: top to bottom, or bottom to top, with its items
/// aligned horizontally by `halign`.
pub fn column_layout(halign: Align, bottom_up: bool) -> (r: Layout)
    ensures
        r == Layout::flow(
            if bottom_up {
                Direction::BottomUp
            } else {
                Direction::TopDown
            },
            halign,
        ),
{
    if bottom_up {
        Layout::bottom_up(halign)
    } else {
        Layout::top_down(halign)
    }
}

/// The direction of a row: the one it was given, or else the one that the
/// parent's layout `outer` prefers.
pub open spec fn row_direction(right_to_left: Option<bool>, outer: Layout) -> Direction {
    if right_to_left.unwrap_or(outer.prefer_right_to_left()) {
        Direction::RightToLeft
    } else {
        Direction::LeftToRight
    }
}

/// The layout of a row inside a parent laid out with `outer`: items aligned
/// vertically by `valign`, right to left when `right_to_left` says so or,
/// when it says nothing, when `outer` prefers it, and wrapped when
/// `wrapping`.
pub fn row_layout(valign: Align, right_to_left: Option<bool>, wrapping: bool, outer: &Layout) -> (r:
    Layout)
    ensures
        r == (Layout { main_wrap: wrapping, ..Layout::flow(row_direction(right_to_left, *outer), valign) }),
{
    let rtl = match right_to_left {
        Some(b) => b,
        Option::None => outer.prefer_right_to_left(),
    };
    horizontal_layout(rtl, valign, wrapping)
}

} // verus!
