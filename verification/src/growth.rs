//! The stages a pet grows through, and the ages at which it leaves each.

use vstd::prelude::*;

verus! {

/// Milliseconds of age at which an egg becomes a baby.
pub const EGG_DWELL_MS: i64 = 300_000;

/// Milliseconds of age at which a baby becomes a kid.
pub const BABY_DWELL_MS: i64 = 18_000_000;

/// Milliseconds of age at which a kid becomes an adult.
pub const KID_DWELL_MS: i64 = 86_400_000;

/// How far a pet has matured. The stages follow each other in the order
/// written; `Adult` is the last.
#[derive(Debug, Copy, Clone, PartialEq, Eq, Hash, Structural)]
pub enum GrowthStage {
    Egg,
    Baby,
    Kid,
    Adult,
}

impl GrowthStage {
    /// The position of the stage in the order of growth.
    pub open spec fn rank(self) -> int {
        match self {
            GrowthStage::Egg => 0,
            GrowthStage::Baby => 1,
            GrowthStage::Kid => 2,
            GrowthStage::Adult => 3,
        }
    }

    /// The stage that follows this one; `Adult` follows itself.
    pub open spec fn successor(self) -> GrowthStage {
        match self {
            GrowthStage::Egg => GrowthStage::Baby,
            GrowthStage::Baby => GrowthStage::Kid,
            GrowthStage::Kid => GrowthStage::Adult,
            GrowthStage::Adult => GrowthStage::Adult,
        }
    }

    /// The age in milliseconds at which a pet leaves this stage, if it ever
    /// does.
    pub open spec fn spec_dwell_ms(self) -> Option<i64> {
        match self {
            GrowthStage::Egg => Some(EGG_DWELL_MS),
            GrowthStage::Baby => Some(BABY_DWELL_MS),
            GrowthStage::Kid => Some(KID_DWELL_MS),
            GrowthStage::Adult => None,
        }
    }

    /// The stage of a pet that was in this stage and is looked at once at
    /// the age of `age_ms`: one step further if the age has reached the
    /// stage's dwell time, the same stage otherwise.
    pub open spec fn grown(self, age_ms: int) -> GrowthStage {
        match self.spec_dwell_ms() {
            Some(dwell) => if age_ms >= dwell {
                self.successor()
            } else {
                self
            },
            None => self,
        }
    }

    /// Moves on to the following stage. An adult stays an adult.
    pub fn next_stage(&mut self)
        ensures
            *final(self) == old(self).successor(),
            final(self).rank() >= old(self).rank(),
        no_unwind
    {
        match self {
            GrowthStage::Egg => *self = GrowthStage::Baby,
            GrowthStage::Baby => *self = GrowthStage::Kid,
            GrowthStage::Kid => *self = GrowthStage::Adult,
            GrowthStage::Adult => (),
        }
    }

    /// The age in milliseconds at which a pet leaves this stage, if it ever
    /// does.
    pub fn dwell_ms(self) -> (d: Option<i64>)
        ensures
            d == self.spec_dwell_ms(),
    {
        match self {
            GrowthStage::Egg => Some(EGG_DWELL_MS),
            GrowthStage::Baby => Some(BABY_DWELL_MS),
            GrowthStage::Kid => Some(KID_DWELL_MS),
            GrowthStage::Adult => None,
        }
    }
}

/// Growth follows the order Egg, Baby, Kid, Adult: a look at any age moves a
/// pet forward by one stage at most and never back, and an adult stays an
/// adult.
pub proof fn lemma_growth_is_monotonic(stage: GrowthStage, age_ms: int)
    ensures
        stage.rank() <= stage.grown(age_ms).rank() <= stage.rank() + 1,
        stage.grown(age_ms).rank() <= GrowthStage::Adult.rank(),
        stage == GrowthStage::Adult ==> stage.grown(age_ms) == GrowthStage::Adult,
{
}

} // verus!
