//! What holds of every pet, whatever is done to it and however much time
//! passes.

use crate::food::Food;
use crate::friend::{
    caught_up, quanta_due, FriendRecord, FriendView, ENERGY_QUANTUM_MS, FOOD_QUANTUM_MS,
    HEALTH_QUANTUM_MS, JOY_QUANTUM_MS,
};
use crate::growth::GrowthStage;
use crate::stat::saturating_difference;
use vstd::prelude::*;

verus! {

impl FriendView {
    /// The pet after time has been advanced to each of `times` in turn.
    pub open spec fn updated_through(self, times: Seq<int>) -> FriendView
        decreases times.len(),
    {
        if times.len() == 0 {
            self
        } else {
            self.updated_through(times.drop_last()).updated(times.last())
        }
    }
}

/// Every statistic of a pet stays within 0 and 100, and the health decay it
/// owes stays non-negative, when time is advanced.
pub proof fn lemma_update_keeps_stats_in_range(pet: FriendView, now: int)
    requires
        pet.valid(),
    ensures
        pet.updated(now).valid(),
{
}

/// Every statistic of a pet stays within 0 and 100, and the health decay it
/// owes stays non-negative, whatever care it is given.
pub proof fn lemma_care_keeps_stats_in_range(pet: FriendView, food: Food, now: int)
    requires
        pet.valid(),
    ensures
        pet.fed(food).valid(),
        pet.played().valid(),
        pet.medicated().valid(),
        pet.sleep_toggled(now).valid(),
{
}

/// A pet that has died stays dead when time is advanced and whatever care
/// it is given.
pub proof fn lemma_dead_stays_dead(pet: FriendView, food: Food, now: int)
    requires
        !pet.alive,
    ensures
        !pet.updated(now).alive,
        !pet.fed(food).alive,
        !pet.played().alive,
        !pet.medicated().alive,
        !pet.sleep_toggled(now).alive,
{
}

/// A pet that has died stays dead through any number of updates.
pub proof fn lemma_dead_stays_dead_through(pet: FriendView, times: Seq<int>)
    requires
        !pet.alive,
    ensures
        !pet.updated_through(times).alive,
    decreases times.len(),
{
    if times.len() > 0 {
        lemma_dead_stays_dead_through(pet, times.drop_last());
    }
}

/// A pet that is still an egg after time was advanced has not changed at
/// all, and no care changes an egg.
pub proof fn lemma_egg_is_untouched(pet: FriendView, food: Food, now: int)
    ensures
        pet.updated(now).growth_stage == GrowthStage::Egg ==> pet.updated(now) == pet,
        pet.growth_stage == GrowthStage::Egg ==> {
            &&& pet.fed(food) == pet
            &&& pet.played() == pet
            &&& pet.medicated() == pet
            &&& pet.sleep_toggled(now) == pet
        },
{
}

/// Growth keeps to the order Egg, Baby, Kid, Adult: advancing time moves a
/// pet forward by one stage at most and never back, and no care changes the
/// stage.
pub proof fn lemma_growth_never_regresses(pet: FriendView, food: Food, now: int)
    ensures
        pet.growth_stage.rank() <= pet.updated(now).growth_stage.rank()
            <= pet.growth_stage.rank() + 1,
        pet.fed(food).growth_stage == pet.growth_stage,
        pet.played().growth_stage == pet.growth_stage,
        pet.medicated().growth_stage == pet.growth_stage,
        pet.sleep_toggled(now).growth_stage == pet.growth_stage,
{
}

/// Through any number of updates a pet never returns to an earlier stage.
pub proof fn lemma_growth_never_regresses_through(pet: FriendView, times: Seq<int>)
    ensures
        pet.growth_stage.rank() <= pet.updated_through(times).growth_stage.rank(),
    decreases times.len(),
{
    if times.len() > 0 {
        lemma_growth_never_regresses_through(pet, times.drop_last());
    }
}

/// One look at the age of a pet moves it forward by one stage at most and
/// never back, whatever `now` is, and changes nothing else of the pet.
pub proof fn lemma_look_at_age_only_grows(pet: FriendView, now: int)
    ensures
        pet.growth_stage.rank() <= pet.grown(now).growth_stage.rank() <= pet.growth_stage.rank()
            + 1,
        pet.grown(now) == (FriendView { growth_stage: pet.grown(now).growth_stage, ..pet }),
{
}

/// The four decay cursors move by whole quanta only. When the time up to
/// `now` is worked off, a cursor that less than one quantum lies behind
/// stays where it is, and a cursor that `now` does not lie before moves on
/// by a multiple of its quantum, never back, and ends less than one quantum
/// before `now`: it reaches `now` only where the time that had passed was a
/// multiple of the quantum.
pub proof fn lemma_cursors_move_by_whole_quanta(pet: FriendView, now: int)
    requires
        pet.valid(),
    ensures
        ({
            let worn = pet.stats_decayed(now);
            &&& caught_up(pet.last_food_tick, worn.last_food_tick, now, FOOD_QUANTUM_MS as int)
            &&& caught_up(
                pet.last_energy_tick,
                worn.last_energy_tick,
                now,
                ENERGY_QUANTUM_MS as int,
            )
            &&& caught_up(pet.last_joy_tick, worn.last_joy_tick, now, JOY_QUANTUM_MS as int)
            &&& caught_up(
                pet.last_health_tick,
                worn.last_health_tick,
                now,
                HEALTH_QUANTUM_MS as int,
            )
        }),
        pet.growth_stage != GrowthStage::Egg ==> ({
            let later = pet.updated(now);
            &&& caught_up(pet.last_food_tick, later.last_food_tick, now, FOOD_QUANTUM_MS as int)
            &&& caught_up(
                pet.last_energy_tick,
                later.last_energy_tick,
                now,
                ENERGY_QUANTUM_MS as int,
            )
            &&& caught_up(pet.last_joy_tick, later.last_joy_tick, now, JOY_QUANTUM_MS as int)
            &&& caught_up(
                pet.last_health_tick,
                later.last_health_tick,
                now,
                HEALTH_QUANTUM_MS as int,
            )
        }),
{
    lemma_growth_never_regresses(pet, Food::Soup, now);
}

/// Food catch-up is exact. When the time up to `now` is worked off for a
/// pet whose food cursor `now` does not lie before, food falls by as many
/// points as whole food quanta have passed since the cursor, stopping at 0,
/// the cursor moves on by exactly those quanta, and what is left over of
/// the running quantum is kept for the next time.
pub proof fn lemma_food_catch_up_is_exact(pet: FriendView, now: int)
    requires
        pet.valid(),
        pet.last_food_tick <= now,
    ensures
        ({
            let worn = pet.stats_decayed(now);
            let due = (now - pet.last_food_tick) / (FOOD_QUANTUM_MS as int);
            &&& worn.food == saturating_difference(pet.food, due)
            &&& worn.last_food_tick == pet.last_food_tick + due * FOOD_QUANTUM_MS
            &&& now - worn.last_food_tick == (now - pet.last_food_tick) % (FOOD_QUANTUM_MS as int)
            &&& pet.growth_stage != GrowthStage::Egg ==> pet.updated(now).food == worn.food
                && pet.updated(now).last_food_tick == worn.last_food_tick
        }),
{
    lemma_growth_never_regresses(pet, Food::Soup, now);
}

/// After time was advanced to `now`, no decay quantum is due at `now` any
/// more: each cursor of a pet that is past the egg lies less than one
/// quantum before `now`.
pub proof fn lemma_update_uses_up_quanta(pet: FriendView, now: int)
    requires
        pet.valid(),
        pet.updated(now).growth_stage != GrowthStage::Egg,
    ensures
        now - pet.updated(now).last_food_tick < FOOD_QUANTUM_MS,
        now - pet.updated(now).last_energy_tick < crate::friend::ENERGY_QUANTUM_MS,
        now - pet.updated(now).last_joy_tick < crate::friend::JOY_QUANTUM_MS,
        now - pet.updated(now).last_health_tick < crate::friend::HEALTH_QUANTUM_MS,
{
}

/// Advancing time twice to the same `now` changes nothing the second time
/// but, possibly, the growth stage, which moves by one step with each look:
/// no cursor moves again, no statistic changes again.
pub proof fn lemma_second_update_only_grows(pet: FriendView, now: int)
    requires
        pet.valid(),
    ensures
        pet.updated(now).updated(now) == pet.updated(now).grown(now),
{
    let once = pet.updated(now);
    if once.growth_stage != GrowthStage::Egg {
        lemma_update_uses_up_quanta(pet, now);
        let grown = once.grown(now);
        assert(grown.food_decayed(now) == grown);
        assert(grown.energy_decayed(now) == grown);
        assert(grown.joy_decayed(now) == grown);
        assert(grown.health_decayed(now) == grown);
        assert(grown.judged() == grown);
    }
}

/// Advancing time twice to the same `now` is the same as advancing it once,
/// for a pet whose age at `now` asks for no further growth after the first
/// time.
pub proof fn lemma_update_is_idempotent(pet: FriendView, now: int)
    requires
        pet.valid(),
        pet.updated(now).grown(now).growth_stage == pet.updated(now).growth_stage,
    ensures
        pet.updated(now).updated(now) == pet.updated(now),
{
    lemma_second_update_only_grows(pet, now);
}

/// Offline catch-up. Let time be advanced to `now`, and then by a further
/// `delta` milliseconds, for a pet that is past the egg after the first
/// advance and whose food cursor did not lie after `now`. What the first
/// advance left over of the running quantum is carried: the second advance
/// takes as many points of food as whole food quanta fit into `delta` and
/// that residue together, which is as many as fit into `delta` alone, or one
/// more.
pub proof fn lemma_offline_catch_up(pet: FriendView, now: int, delta: int)
    requires
        pet.valid(),
        pet.updated(now).growth_stage != GrowthStage::Egg,
        pet.last_food_tick <= now,
        0 <= delta,
    ensures
        ({
            let first = pet.updated(now);
            let second = first.updated(now + delta);
            let residue = now - first.last_food_tick;
            let taken = (delta + residue) / (FOOD_QUANTUM_MS as int);
            &&& 0 <= residue < FOOD_QUANTUM_MS
            &&& taken == quanta_due(first.last_food_tick, now + delta, FOOD_QUANTUM_MS as int)
            &&& second.food == saturating_difference(first.food, taken)
            &&& second.last_food_tick == first.last_food_tick + taken * FOOD_QUANTUM_MS
            &&& delta / (FOOD_QUANTUM_MS as int) <= taken <= delta / (FOOD_QUANTUM_MS as int) + 1
        }),
{
    let first = pet.updated(now);
    lemma_update_keeps_stats_in_range(pet, now);
    lemma_growth_never_regresses(first, Food::Soup, now + delta);
}

/// How much food time takes does not depend on how often the pet is looked
/// at: for a pet that is past the egg, advancing time to `now` and then by a
/// further `delta` leaves the same food and the same food cursor as
/// advancing it to the later time at once.
pub proof fn lemma_food_decay_composes(pet: FriendView, now: int, delta: int)
    requires
        pet.valid(),
        pet.growth_stage != GrowthStage::Egg,
        0 <= delta,
    ensures
        pet.updated(now).updated(now + delta).food == pet.updated(now + delta).food,
        pet.updated(now).updated(now + delta).last_food_tick == pet.updated(
            now + delta,
        ).last_food_tick,
{
    let first = pet.updated(now);
    lemma_update_keeps_stats_in_range(pet, now);
    lemma_growth_never_regresses(pet, Food::Soup, now);
    lemma_growth_never_regresses(pet, Food::Soup, now + delta);
    lemma_growth_never_regresses(first, Food::Soup, now + delta);
}

/// A record taken of a valid pet has no defect and describes that pet, so
/// the pet read back from it is the pet that was stored, and time acts on
/// both alike.
pub proof fn lemma_record_round_trip(record: FriendRecord, pet: FriendView, now: int)
    requires
        pet.valid(),
        record.described() == pet,
        record.asleep == pet.asleep(),
    ensures
        record.defect() is None,
        record.described().updated(now) == pet.updated(now),
{
}

} // verus!
