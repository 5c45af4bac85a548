//! What a pet can be fed.

use crate::chance::random_in_range;
use vstd::prelude::*;

verus! {

/// The number of dishes there are.
pub const FOOD_COUNT: u8 = 3;

/// A dish.
#[derive(Debug, Copy, Clone, PartialEq, Eq, Structural)]
pub enum Food {
    Soup,
    Fries,
    Burger,
}

impl Food {
    /// How much the dish adds to the food statistic.
    pub open spec fn spec_points(self) -> u32 {
        match self {
            Food::Soup => 20,
            Food::Fries => 30,
            Food::Burger => 40,
        }
    }

    /// The dish that stands at `index` in the order Soup, Fries, Burger;
    /// every index past the first two stands for the last dish.
    pub open spec fn spec_from_index(index: int) -> Food {
        if index == 0 {
            Food::Soup
        } else if index == 1 {
            Food::Fries
        } else {
            Food::Burger
        }
    }

    /// How much the dish adds to the food statistic.
    pub fn points(&self) -> (p: u32)
        ensures
            p == self.spec_points(),
    {
        match self {
            Food::Soup => 20,
            Food::Fries => 30,
            Food::Burger => 40,
        }
    }

    /// The dish that stands at `index` in the order Soup, Fries, Burger;
    /// every index past the first two stands for the last dish.
    pub fn from_index(index: u8) -> (food: Food)
        ensures
            food == Food::spec_from_index(index as int),
    {
        match index {
            0 => Food::Soup,
            1 => Food::Fries,
            _ => Food::Burger,
        }
    }

    /// A dish picked at random by one uniform draw among the three.
    pub fn new_random() -> (food: Food)
        ensures
            exists|index: int| 0 <= index < FOOD_COUNT && food == Food::spec_from_index(index),
    {
        let drawn: i32 = random_in_range(0, FOOD_COUNT as i32 - 1);
        let food = Food::from_index(drawn as u8);
        assert(0 <= drawn < FOOD_COUNT && food == Food::spec_from_index(drawn as int));
        food
    }
}

} // verus!
