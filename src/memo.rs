//! Two-pass sizing of contents whose size is remembered between frames.
//!
//! An immediate-mode container does not know the size of its contents until
//! it has drawn them. So the size is remembered under the container's id. In
//! a frame with no remembered size the contents are laid out in an invisible
//! sizing pass within all the available space, and the frame is discarded;
//! the next frame places them using the size that was measured.

use vstd::prelude::*;

verus! {

/// The kind of pass in which contents are laid out.
#[derive(Clone, Copy, Debug, PartialEq, Eq, Structural)]
pub enum Pass {
    /// Invisible: it only measures the contents, and the frame is discarded.
    Sizing,
    /// Visible: the contents are placed with a size already measured.
    Visible,
}

/// The size with which contents are laid out this frame, and the pass.
#[derive(Clone, Copy, Debug, PartialEq, Eq)]
pub struct Recall<S> {
    pub size: S,
    pub pass: Pass,
}

/// What a frame does with `remembered`, the size stored under the
/// container's id, if any, and `available`, the space it may take.
pub open spec fn recall_of<S>(remembered: Option<S>, available: S) -> Recall<S> {
    match remembered {
        Some(size) => Recall { size, pass: Pass::Visible },
        Option::None => Recall { size: available, pass: Pass::Sizing },
    }
}

/// The size to lay contents out with, and the pass: the remembered size in
/// a visible pass, or else all the available space in a sizing pass.
pub fn recall<S>(remembered: Option<S>, available: S) -> (r: Recall<S>)
    ensures
        r == recall_of(remembered, available),
{
    match remembered {
        Some(size) => Recall { size, pass: Pass::Visible },
        Option::None => Recall { size: available, pass: Pass::Sizing },
    }
}

/// Whether the size the contents took is stored after the pass: always
/// after a sizing pass, and after a visible pass when the size differs from
/// the one remembered.
pub fn should_remember(pass: Pass, size_changed: bool) -> (r: bool)
    ensures
        r == (pass == Pass::Sizing || size_changed),
{
    match pass {
        Pass::Sizing => true,
        Pass::Visible => size_changed,
    }
}

} // verus!
