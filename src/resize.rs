//! Resizing a layout's rectangle without moving what is inside it.
//!
//! When a container learns the size its contents need, its rectangle is
//! grown or shrunk to that size. The edge the contents are anchored to must
//! stay where it is; otherwise the contents would jump. Growable widgets such
//! as scroll areas depend on this.

use vstd::prelude::*;
use crate::layout::{Align, Direction, Layout};

verus! {

/// How the two edges of a rectangle move along one axis when its size there
/// changes by some amount.
#[derive(Clone, Copy, Debug, PartialEq, Eq, Structural)]
pub enum Growth {
    /// The minimum edge stays; the maximum edge moves by the whole change.
    TowardMax,
    /// The maximum edge stays; the minimum edge moves by the whole change.
    TowardMin,
    /// Each edge moves outward by half the change; the centre stays.
    BothWays,
    /// Neither edge moves.
    Fixed,
}

/// How a rectangle is resized on each axis.
#[derive(Clone, Copy, Debug, PartialEq, Eq, Structural)]
pub struct ResizeRule {
    pub horizontal: Growth,
    pub vertical: Growth,
}

/// The side that a layout's contents are anchored to, horizontally and
/// vertically: the start of the main axis, and the cross alignment.
pub open spec fn anchors(layout: Layout) -> (Align, Align) {
    match layout.main_dir {
        Direction::LeftToRight => (Align::Min, layout.cross_align),
        Direction::RightToLeft => (Align::Max, layout.cross_align),
        Direction::TopDown => (layout.cross_align, Align::Min),
        Direction::BottomUp => (layout.cross_align, Align::Max),
    }
}

/// The growth on an axis whose contents are anchored at `anchor`. Centred
/// contents stay put when the layout takes up the whole axis anyway
/// (`fills_axis`), and otherwise grow on both sides.
pub open spec fn growth_for(anchor: Align, fills_axis: bool) -> Growth {
    match anchor {
        Align::Min => Growth::TowardMax,
        Align::Max => Growth::TowardMin,
        Align::Center => if fills_axis {
            Growth::Fixed
        } else {
            Growth::BothWays
        },
    }
}

/// The rule by which a rectangle laid out with `layout` is resized.
pub open spec fn resize_rule_of(layout: Layout) -> ResizeRule {
    ResizeRule {
        horizontal: growth_for(
            anchors(layout).0,
            layout.horizontal_justify() || layout.is_vertical(),
        ),
        vertical: growth_for(anchors(layout).1, layout.vertical_justify() || layout.is_horizontal()),
    }
}

fn growth_on_axis(anchor: Align, fills_axis: bool) -> (r: Growth)
    ensures
        r == growth_for(anchor, fills_axis),
{
    match anchor {
        Align::Min => Growth::TowardMax,
        Align::Max => Growth::TowardMin,
        Align::Center => if fills_axis {
            Growth::Fixed
        } else {
            Growth::BothWays
        },
    }
}

/// How to resize a rectangle laid out with `layout` so that its contents
/// keep their place.
pub fn resize_rule(layout: &Layout) -> (r: ResizeRule)
    ensures
        r == resize_rule_of(*layout),
{
    let (halign, valign) = match layout.main_dir {
        Direction::LeftToRight => (Align::Min, layout.cross_align),
        Direction::RightToLeft => (Align::Max, layout.cross_align),
        Direction::TopDown => (layout.cross_align, Align::Min),
        Direction::BottomUp => (layout.cross_align, Align::Max),
    };
    ResizeRule {
        horizontal: growth_on_axis(halign, layout.horizontal_justify() || layout.is_vertical()),
        vertical: growth_on_axis(valign, layout.vertical_justify() || layout.is_horizontal()),
    }
}

} // verus!
