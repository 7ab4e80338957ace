//! A layout: the direction in which items are placed, and how they are
//! aligned and justified on the main axis and on the cross axis.

use vstd::prelude::*;

verus! {

/// The place of an item along one axis.
#[derive(Clone, Copy, Debug, PartialEq, Eq, Structural)]
pub enum Align {
    /// Left or top.
    Min,
    /// The middle.
    Center,
    /// Right or bottom.
    Max,
}

/// The direction in which a layout places its items.
#[derive(Clone, Copy, Debug, PartialEq, Eq, Structural)]
pub enum Direction {
    LeftToRight,
    RightToLeft,
    TopDown,
    BottomUp,
}

impl Direction {
    pub open spec fn is_horizontal_spec(self) -> bool {
        self is LeftToRight || self is RightToLeft
    }

    pub open spec fn is_vertical_spec(self) -> bool {
        self is TopDown || self is BottomUp
    }

    /// Whether items go along the horizontal axis.
    #[verifier::when_used_as_spec(is_horizontal_spec)]
    pub fn is_horizontal(self) -> (r: bool)
        ensures
            r == self.is_horizontal_spec(),
    {
        match self {
            Direction::LeftToRight | Direction::RightToLeft => true,
            Direction::TopDown | Direction::BottomUp => false,
        }
    }

    /// Whether items go along the vertical axis.
    #[verifier::when_used_as_spec(is_vertical_spec)]
    pub fn is_vertical(self) -> (r: bool)
        ensures
            r == self.is_vertical_spec(),
    {
        match self {
            Direction::LeftToRight | Direction::RightToLeft => false,
            Direction::TopDown | Direction::BottomUp => true,
        }
    }
}

/// How the items of a container are laid out.
#[derive(Clone, Copy, Debug, PartialEq, Eq, Structural)]
pub struct Layout {
    /// The direction of the main axis.
    pub main_dir: Direction,
    /// Whether items wrap to a new line at the end of the main axis.
    pub main_wrap: bool,
    /// The alignment of items on the main axis.
    pub main_align: Align,
    /// Whether items take up all the space on the main axis.
    pub main_justify: bool,
    /// The alignment of items on the cross axis.
    pub cross_align: Align,
    /// Whether items take up all the space on the cross axis.
    pub cross_justify: bool,
}

impl Layout {
    /// A layout in the given direction, without wrapping or justification,
    /// centred on its main axis.
    pub open spec fn flow(main_dir: Direction, cross_align: Align) -> Layout {
        Layout {
            main_dir,
            main_wrap: false,
            main_align: Align::Center,
            main_justify: false,
            cross_align,
            cross_justify: false,
        }
    }

    /// Items placed left to right, aligned vertically by `valign`.
    pub fn left_to_right(valign: Align) -> (r: Layout)
        ensures
            r == Layout::flow(Direction::LeftToRight, valign),
    {
        Layout {
            main_dir: Direction::LeftToRight,
            main_wrap: false,
            main_align: Align::Center,
            main_justify: false,
            cross_align: valign,
            cross_justify: false,
        }
    }

    /// Items placed right to left, aligned vertically by `valign`.
    pub fn right_to_left(valign: Align) -> (r: Layout)
        ensures
            r == Layout::flow(Direction::RightToLeft, valign),
    {
        Layout {
            main_dir: Direction::RightToLeft,
            main_wrap: false,
            main_align: Align::Center,
            main_justify: false,
            cross_align: valign,
            cross_justify: false,
        }
    }

    /// Items placed top to bottom, aligned horizontally by `halign`.
    pub fn top_down(halign: Align) -> (r: Layout)
        ensures
            r == Layout::flow(Direction::TopDown, halign),
    {
        Layout {
            main_dir: Direction::TopDown,
            main_wrap: false,
            main_align: Align::Center,
            main_justify: false,
            cross_align: halign,
            cross_justify: false,
        }
    }

    /// Items placed bottom to top, aligned horizontally by `halign`.
    pub fn bottom_up(halign: Align) -> (r: Layout)
        ensures
            r == Layout::flow(Direction::BottomUp, halign),
    {
        Layout {
            main_dir: Direction::BottomUp,
            main_wrap: false,
            main_align: Align::Center,
            main_justify: false,
            cross_align: halign,
            cross_justify: false,
        }
    }

    /// The same layout with wrapping switched on or off.
    pub fn with_main_wrap(self, main_wrap: bool) -> (r: Layout)
        ensures
            r == (Layout { main_wrap, ..self }),
    {
        Layout { main_wrap, ..self }
    }

    /// The same layout with another alignment on the cross axis.
    pub fn with_cross_align(self, cross_align: Align) -> (r: Layout)
        ensures
            r == (Layout { cross_align, ..self }),
    {
        Layout { cross_align, ..self }
    }

    /// The same layout with justification on the cross axis switched on or off.
    pub fn with_cross_justify(self, cross_justify: bool) -> (r: Layout)
        ensures
            r == (Layout { cross_justify, ..self }),
    {
        Layout { cross_justify, ..self }
    }

    pub open spec fn is_horizontal_spec(&self) -> bool {
        self.main_dir.is_horizontal_spec()
    }

    pub open spec fn is_vertical_spec(&self) -> bool {
        self.main_dir.is_vertical_spec()
    }

    pub open spec fn prefer_right_to_left_spec(&self) -> bool {
        self.main_dir == Direction::RightToLeft || (self.main_dir.is_vertical_spec()
            && self.cross_align == Align::Max)
    }

    pub open spec fn horizontal_justify_spec(&self) -> bool {
        if self.is_horizontal_spec() {
            self.main_justify
        } else {
            self.cross_justify
        }
    }

    pub open spec fn vertical_justify_spec(&self) -> bool {
        if self.is_vertical_spec() {
            self.main_justify
        } else {
            self.cross_justify
        }
    }

    /// Whether the main axis is horizontal.
    #[verifier::when_used_as_spec(is_horizontal_spec)]
    pub fn is_horizontal(&self) -> (r: bool)
        ensures
            r == self.is_horizontal_spec(),
    {
        self.main_dir.is_horizontal()
    }

    /// Whether the main axis is vertical.
    #[verifier::when_used_as_spec(is_vertical_spec)]
    pub fn is_vertical(&self) -> (r: bool)
        ensures
            r == self.is_vertical_spec(),
    {
        self.main_dir.is_vertical()
    }

    /// Whether items start at the right: a right-to-left row, or a column
    /// aligned to the right.
    #[verifier::when_used_as_spec(prefer_right_to_left_spec)]
    pub fn prefer_right_to_left(&self) -> (r: bool)
        ensures
            r == self.prefer_right_to_left_spec(),
    {
        self.main_dir == Direction::RightToLeft || (self.main_dir.is_vertical()
            && self.cross_align == Align::Max)
    }

    /// Whether items take up the whole width.
    #[verifier::when_used_as_spec(horizontal_justify_spec)]
    pub fn horizontal_justify(&self) -> (r: bool)
        ensures
            r == self.horizontal_justify_spec(),
    {
        if self.is_horizontal() {
            self.main_justify
        } else {
            self.cross_justify
        }
    }

    /// Whether items take up the whole height.
    #[verifier::when_used_as_spec(vertical_justify_spec)]
    pub fn vertical_justify(&self) -> (r: bool)
        ensures
            r == self.vertical_justify_spec(),
    {
        if self.is_vertical() {
            self.main_justify
        } else {
            self.cross_justify
        }
    }
}

/// A horizontal layout: right to left when `right_to_left`, else left to
/// right, with items aligned vertically by `cross_align`, and wrapped when
/// `wrap`.
pub fn horizontal_layout(right_to_left: bool, cross_align: Align, wrap: bool) -> (r: Layout)
    ensures
        r == (Layout {
            main_wrap: wrap,
            ..Layout::flow(
                if right_to_left {
                    Direction::RightToLeft
                } else {
                    Direction::LeftToRight
                },
                cross_align,
            )
        }),
{
    let layout = if right_to_left {
        Layout::right_to_left(cross_align)
    } else {
        Layout::left_to_right(cross_align)
    };
    layout.with_main_wrap(wrap)
}

} // verus!
