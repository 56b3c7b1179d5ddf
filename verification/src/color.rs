//! Color-related constants.
use vstd::prelude::*;

verus! {

/// Colors that work with `image` functions, which want color as vectors of u8 (RGBA).
#[derive(Debug, Clone, Copy, PartialEq, Eq)]
pub struct ColorU8(pub [u8; 4]);

/// Dark blue for use with `image`' functions
pub fn aeblue_u8() -> (r: ColorU8)
    ensures
        r == ColorU8([0, 0, 48, 255]),
{
    ColorU8([0, 0, 48, 255])
}

/// Black for use with `image`' functions
pub fn black_u8() -> (r: ColorU8)
    ensures
        r == ColorU8([0, 0, 0, 255]),
{
    ColorU8([0, 0, 0, 255])
}

/// White for use with `image`' functions
pub fn white_u8() -> (r: ColorU8)
    ensures
        r == ColorU8([255, 255, 255, 255]),
{
    ColorU8([255, 255, 255, 255])
}

} // verus!
