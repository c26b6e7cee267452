//! Colors and lengths.
use vstd::prelude::*;

verus! {

/// A length in pixels as the bits of an `f32`: carried, never read.
#[derive(Clone, Copy, Debug, PartialEq, Eq, Structural)]
pub struct Px {
    pub bits: u32,
}

/// A color without transparency.
#[derive(Clone, Copy, Debug, PartialEq, Eq, Structural)]
pub struct Rgb {
    pub r: u8,
    pub g: u8,
    pub b: u8,
}

} // verus!
