//! Plain drawing attributes that layers carry. The drawable geometry itself
//! (points, lines, groups) lives with the renderer; the core only keeps the
//! attributes its domain objects are described by.

use vstd::prelude::*;

verus! {

/// An RGB color with one byte per channel.
#[derive(Clone, Copy, Debug, PartialEq, Eq, Structural)]
pub struct FullColor {
    pub r: u8,
    pub g: u8,
    pub b: u8,
}

/// A layer's color: either an index into a fixed palette or a full RGB
/// value.
#[derive(Clone, Copy, Debug, PartialEq, Eq, Structural)]
pub enum Color {
    Fixed(u8),
    Full(FullColor),
}

} // verus!
