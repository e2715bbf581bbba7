//! Error taxonomy of the library.
//!
//! Constructive operations (import, SVG emission, render-node generation)
//! report failure through these enums; cache-refresh operations swallow the
//! failure and keep the previous cached value.

use vstd::prelude::*;

verus! {

/// Failure of a stroke operation.
#[derive(Clone, Copy, Debug, PartialEq, Eq, Structural)]
pub enum StrokeError {
    /// A coordinate or an extent left the representable `i64` range.
    BoundsOutOfRange,
    /// The bounds enclose no area, so no render node can be produced.
    EmptyBounds,
}

/// Failure of a settings load/save operation.
#[derive(Clone, Copy, Debug, PartialEq, Eq, Structural)]
pub enum SettingsError {
    /// A widget palette held fewer colors than the settings tuple's arity.
    PaletteTooSmall,
}

} // verus!
