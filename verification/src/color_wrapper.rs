//! The palette pets and sprites are drawn in.

use crate::chance::random_in_range;
use vstd::prelude::*;

verus! {

/// The number of palette entries.
pub const NUM_COLORS: u32 = 9;

/// The number of palette entries a pet can be born with: all but the last
/// two, white and black, which are kept for symbols and backgrounds.
pub const NUM_PET_COLORS: u32 = NUM_COLORS - 2;

/// An entry of the palette.
#[derive(Debug, Clone, Copy, PartialEq, Eq, Structural)]
pub enum ColorWrapper {
    Red,
    Green,
    Blue,
    Cyan,
    LightMagenta,
    Yellow,
    LightRed,
    White,
    Black,
}

impl ColorWrapper {
    /// The pet colour that stands at `index` in the order of the palette;
    /// every index past the first six stands for `LightRed`.
    pub open spec fn spec_from_index(index: int) -> ColorWrapper {
        if index == 0 {
            ColorWrapper::Red
        } else if index == 1 {
            ColorWrapper::Green
        } else if index == 2 {
            ColorWrapper::Blue
        } else if index == 3 {
            ColorWrapper::Cyan
        } else if index == 4 {
            ColorWrapper::LightMagenta
        } else if index == 5 {
            ColorWrapper::Yellow
        } else {
            ColorWrapper::LightRed
        }
    }

    /// The pet colour that stands at `index` in the order of the palette;
    /// every index past the first six stands for `LightRed`.
    pub fn from_index(index: u32) -> (color: ColorWrapper)
        ensures
            color == ColorWrapper::spec_from_index(index as int),
    {
        match index {
            0 => ColorWrapper::Red,
            1 => ColorWrapper::Green,
            2 => ColorWrapper::Blue,
            3 => ColorWrapper::Cyan,
            4 => ColorWrapper::LightMagenta,
            5 => ColorWrapper::Yellow,
            _ => ColorWrapper::LightRed,
        }
    }

    /// A pet colour picked at random: never white, never black.
    pub fn new_random() -> (color: ColorWrapper)
        ensures
            exists|index: int|
                0 <= index < NUM_PET_COLORS && color == ColorWrapper::spec_from_index(index),
            color != ColorWrapper::White,
            color != ColorWrapper::Black,
    {
        let drawn: i32 = random_in_range(0, NUM_PET_COLORS as i32 - 1);
        let color = ColorWrapper::from_index(drawn as u32);
        assert(0 <= drawn < NUM_PET_COLORS && color == ColorWrapper::spec_from_index(drawn as int));
        color
    }
}

} // verus!
