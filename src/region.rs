use vstd::prelude::*;

verus! {

/// A scissor rectangle in target pixels: drawing is limited to it.
#[derive(Clone, Copy, Debug, PartialEq, Eq, Structural)]
pub struct Region {
    pub x: u32,
    pub y: u32,
    pub width: u32,
    pub height: u32,
}

} // verus!
