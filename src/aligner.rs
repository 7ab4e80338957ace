//! The space that an aligned widget takes in its parent.
//!
//! An aligner places its contents somewhere inside a bounding rectangle; what
//! it then claims from the parent, so that the next widget comes after it,
//! is set by an [`AllocateType`].

use vstd::prelude::*;

verus! {

/// A point, with coordinates of any type.
#[derive(Clone, Copy, Debug, PartialEq, Eq)]
pub struct Pos<T> {
    pub x: T,
    pub y: T,
}

/// A rectangle given by its minimum (left, top) and maximum (right, bottom)
/// corners.
#[derive(Clone, Copy, Debug, PartialEq, Eq)]
pub struct Rect<T> {
    pub min: Pos<T>,
    pub max: Pos<T>,
}

/// How much space an aligned widget allocates for its contents.
#[derive(Clone, Copy, Debug, PartialEq, Eq, Structural)]
pub enum AllocateType {
    /// Allocate no space.
    Nothing,
    /// Allocate only the space the contents took.
    Content,
    /// Allocate the height the contents took, across the whole width of
    /// the bounds.
    ContentRow,
    /// Allocate the width the contents took, down the whole height of the
    /// bounds.
    ContentColumn,
    /// Allocate the whole bounds.
    Bounds,
}

impl AllocateType {
    /// The rectangle allocated for contents that took `content` inside
    /// `bounds`, when the parent's next widget would go at `cursor`.
    pub open spec fn allocation<T>(self, content: Rect<T>, bounds: Rect<T>, cursor: Pos<T>) -> Rect<
        T,
    > {
        match self {
            AllocateType::Nothing => Rect { min: cursor, max: cursor },
            AllocateType::Content => content,
            AllocateType::ContentRow => Rect {
                min: Pos { x: bounds.min.x, y: content.min.y },
                max: Pos { x: bounds.max.x, y: content.max.y },
            },
            AllocateType::ContentColumn => Rect {
                min: Pos { x: content.min.x, y: bounds.min.y },
                max: Pos { x: content.max.x, y: bounds.max.y },
            },
            AllocateType::Bounds => bounds,
        }
    }

    /// The rectangle to allocate for contents that took `content` inside
    /// `bounds`. Allocating nothing is an empty rectangle at `cursor`.
    pub fn allocated_rect<T: Copy>(self, content: Rect<T>, bounds: Rect<T>, cursor: Pos<T>) -> (r:
        Rect<T>)
        ensures
            r == self.allocation(content, bounds, cursor),
    {
        match self {
            AllocateType::Nothing => Rect { min: cursor, max: cursor },
            AllocateType::Content => content,
            AllocateType::ContentRow => Rect {
                min: Pos { x: bounds.min.x, y: content.min.y },
                max: Pos { x: bounds.max.x, y: content.max.y },
            },
            AllocateType::ContentColumn => Rect {
                min: Pos { x: content.min.x, y: bounds.min.y },
                max: Pos { x: content.max.x, y: bounds.max.y },
            },
            AllocateType::Bounds => bounds,
        }
    }
}

} // verus!
