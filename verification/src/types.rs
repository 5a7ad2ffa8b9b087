//! Plain pixel-space value types shared by the widget layer.

use vstd::prelude::*;

verus! {

/// A size in whole pixels.
#[derive(Clone, Copy, Debug, PartialEq, Eq, Structural)]
pub struct Size2 {
    pub w: i32,
    pub h: i32,
}

/// A position in whole pixels.
///
/// Pointer input uses a top-left origin; widgets are placed with a
/// bottom-left origin and the y axis pointing up.
#[derive(Clone, Copy, Debug, PartialEq, Eq, Structural)]
pub struct ScreenPos {
    pub x: i32,
    pub y: i32,
}

} // verus!
