//! Alignment and layout rules for immediate-mode user interfaces.
//!
//! The host toolkit draws, measures and stores; this library decides.
//! It models a layout (main direction, wrapping, alignment and justification
//! on both axes) and states, for each decision the alignment helpers make,
//! exactly what is chosen:
//!
//! - [`layout`]: the layout model and its inspectors.
//! - [`resize`]: how a layout's rectangle grows without moving its contents.
//! - [`aligner`]: how much space an aligned widget takes in its parent.
//! - [`memo`]: the two-pass sizing of contents whose size is remembered
//!   between frames.
//! - [`container`]: the layouts of rows and columns.

pub mod layout;
pub mod resize;
pub mod aligner;
pub mod memo;
pub mod container;
