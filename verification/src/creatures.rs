//! The species a pet can belong to and the sprites that stand for it at
//! each age.

use crate::chance::random_in_range;
use crate::color_wrapper::ColorWrapper;
use crate::growth::GrowthStage;
use vstd::prelude::*;

verus! {

/// The number of species.
pub const NUM_SHAPES: u32 = 7;

/// A species, together with the colour of the individual. The species
/// decides which sprite an adult is drawn with.
#[derive(Debug, Clone, Copy, PartialEq, Eq, Structural)]
pub enum CreatureShapes {
    Duck(ColorWrapper),
    Turtle(ColorWrapper),
    Spider(ColorWrapper),
    Snail(ColorWrapper),
    Fish(ColorWrapper),
    Mouse(ColorWrapper),
    Frog(ColorWrapper),
}

/// The sprite shared by all species while a pet has not grown up.
#[derive(Debug, Clone, Copy, PartialEq, Eq, Structural)]
pub enum GrowthStageShapes {
    Egg(ColorWrapper),
    Baby(ColorWrapper),
    Kid(ColorWrapper),
}

/// The sprite a pet is drawn with.
#[derive(Debug, Clone, Copy, PartialEq, Eq, Structural)]
pub enum ShapeWrapper {
    Growing(GrowthStageShapes),
    Adult(CreatureShapes),
}

/// The symbol that stands for a statistic.
#[derive(Debug, Copy, Clone, PartialEq, Eq, Structural)]
pub enum StatShape {
    Food,
    Joy,
    Sleep,
    Health,
}

impl CreatureShapes {
    /// The colour of the individual.
    pub open spec fn spec_color(self) -> ColorWrapper {
        match self {
            CreatureShapes::Duck(color) => color,
            CreatureShapes::Turtle(color) => color,
            CreatureShapes::Spider(color) => color,
            CreatureShapes::Snail(color) => color,
            CreatureShapes::Fish(color) => color,
            CreatureShapes::Mouse(color) => color,
            CreatureShapes::Frog(color) => color,
        }
    }

    /// The species that stands at `index` in the order written above, in
    /// the colour `color`; every index past the first six stands for the
    /// frog.
    pub open spec fn spec_from_index(index: int, color: ColorWrapper) -> CreatureShapes {
        if index == 0 {
            CreatureShapes::Duck(color)
        } else if index == 1 {
            CreatureShapes::Turtle(color)
        } else if index == 2 {
            CreatureShapes::Spider(color)
        } else if index == 3 {
            CreatureShapes::Snail(color)
        } else if index == 4 {
            CreatureShapes::Fish(color)
        } else if index == 5 {
            CreatureShapes::Mouse(color)
        } else {
            CreatureShapes::Frog(color)
        }
    }

    /// The sprite of a pet of this species at the stage `stage`.
    pub open spec fn spec_shape_at(self, stage: GrowthStage) -> ShapeWrapper {
        match stage {
            GrowthStage::Egg => ShapeWrapper::Growing(GrowthStageShapes::Egg(self.spec_color())),
            GrowthStage::Baby => ShapeWrapper::Growing(GrowthStageShapes::Baby(self.spec_color())),
            GrowthStage::Kid => ShapeWrapper::Growing(GrowthStageShapes::Kid(self.spec_color())),
            GrowthStage::Adult => ShapeWrapper::Adult(self),
        }
    }

    /// The colour of the individual.
    pub fn get_color(&self) -> (color: ColorWrapper)
        ensures
            color == self.spec_color(),
    {
        match self {
            CreatureShapes::Duck(color) => *color,
            CreatureShapes::Turtle(color) => *color,
            CreatureShapes::Spider(color) => *color,
            CreatureShapes::Snail(color) => *color,
            CreatureShapes::Fish(color) => *color,
            CreatureShapes::Mouse(color) => *color,
            CreatureShapes::Frog(color) => *color,
        }
    }

    /// The species that stands at `index` in the order written above, in
    /// the colour `color`; every index past the first six stands for the
    /// frog.
    pub fn from_index(index: u32, color: ColorWrapper) -> (shape: CreatureShapes)
        ensures
            shape == CreatureShapes::spec_from_index(index as int, color),
    {
        match index {
            0 => CreatureShapes::Duck(color),
            1 => CreatureShapes::Turtle(color),
            2 => CreatureShapes::Spider(color),
            3 => CreatureShapes::Snail(color),
            4 => CreatureShapes::Fish(color),
            5 => CreatureShapes::Mouse(color),
            _ => CreatureShapes::Frog(color),
        }
    }

    /// A species and a pet colour, both picked at random.
    pub fn new_random() -> (shape: CreatureShapes)
        ensures
            exists|index: int, tint: int|
                0 <= index < NUM_SHAPES && 0 <= tint < crate::color_wrapper::NUM_PET_COLORS
                    && shape == CreatureShapes::spec_from_index(
                    index,
                    ColorWrapper::spec_from_index(tint),
                ),
    {
        let color = ColorWrapper::new_random();
        let drawn: i32 = random_in_range(0, NUM_SHAPES as i32 - 1);
        let shape = CreatureShapes::from_index(drawn as u32, color);
        proof {
            let tint = choose|tint: int|
                0 <= tint < crate::color_wrapper::NUM_PET_COLORS && color
                    == ColorWrapper::spec_from_index(tint);
            assert(0 <= drawn < NUM_SHAPES && 0 <= tint < crate::color_wrapper::NUM_PET_COLORS
                && shape == CreatureShapes::spec_from_index(
                drawn as int,
                ColorWrapper::spec_from_index(tint),
            ));
        }
        shape
    }

    /// The sprite of a pet of this species at the stage `stage`: the shared
    /// sprite of the stage while it grows, its own once it is adult.
    pub fn shape_at(&self, stage: GrowthStage) -> (sprite: ShapeWrapper)
        ensures
            sprite == self.spec_shape_at(stage),
    {
        let color = self.get_color();
        match stage {
            GrowthStage::Egg => ShapeWrapper::Growing(GrowthStageShapes::Egg(color)),
            GrowthStage::Baby => ShapeWrapper::Growing(GrowthStageShapes::Baby(color)),
            GrowthStage::Kid => ShapeWrapper::Growing(GrowthStageShapes::Kid(color)),
            GrowthStage::Adult => ShapeWrapper::Adult(*self),
        }
    }
}

} // verus!
