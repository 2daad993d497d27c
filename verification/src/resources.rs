//! Layout resource values used by the on-screen displays.
use vstd::prelude::*;

verus! {

/// An RGBA colour of a layout resource.
#[derive(Clone, Copy, Debug, PartialEq, Eq, Structural)]
pub struct ResColor {
    pub r: u8,
    pub g: u8,
    pub b: u8,
    pub a: u8,
}

/// Horizontal alignment of a text box.
#[derive(Clone, Copy, Debug, PartialEq, Eq, Structural)]
pub enum TextAlignment {
    Synchronous,
    Left,
    Center,
    Right,
    MaxTextAlignment,
}

} // verus!
