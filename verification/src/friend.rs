//! The pet: its state, the way time wears on it, and what care does to it.

use crate::creatures::{CreatureShapes, ShapeWrapper};
use crate::food::Food;
use crate::growth::GrowthStage;
use crate::sprite::PixelVectorShape;
use crate::sprite_management::{decoded_luma, load_sprite, loaded, SpriteError};
use crate::stat::{saturating_difference, saturating_sum, Stat, STAT_MAX};
use vstd::prelude::*;

verus! {

/// One minute, in milliseconds.
pub const MINUTE_MILLIS: i64 = 60_000;

/// One hour, in milliseconds.
pub const HOUR_MILLIS: i64 = 3_600_000;

/// The time after which a fed pet loses one point of food: 14 minutes.
pub const FOOD_QUANTUM_MS: i64 = 840_000;

/// The time after which energy changes by one step: 12 minutes.
pub const ENERGY_QUANTUM_MS: i64 = 720_000;

/// The time after which a pet loses one point of joy: 16 minutes.
pub const JOY_QUANTUM_MS: i64 = 960_000;

/// The time after which owed health decay is collected once: 1 minute.
pub const HEALTH_QUANTUM_MS: i64 = 60_000;

/// The longest a pet sleeps before it wakes by itself: 12 hours.
pub const MAX_SLEEP_MS: i64 = 43_200_000;

/// The value every statistic starts with.
pub const INITIAL_STAT: u32 = 50;

/// What one quantum of sleep adds to energy.
pub const SLEEP_ENERGY_GAIN: u32 = 3;

/// What playing adds to joy.
pub const PLAY_JOY: u32 = 30;

/// The health decay that playing leaves owed: 10 minutes.
pub const PLAY_HEALTH_DEBT_MS: i64 = 600_000;

/// What medicine adds to health.
pub const MEDICINE_HEALTH: u32 = 40;

/// The lowest sum of food, joy and health a pet survives with.
pub const SURVIVAL_SUM: u32 = 15;

/// How many whole quanta lie between `cursor` and `now`. None are due while
/// less than one quantum has passed, and none if `now` lies before `cursor`.
pub open spec fn quanta_due(cursor: int, now: int, quantum: int) -> int {
    if now - cursor >= quantum {
        (now - cursor) / quantum
    } else {
        0
    }
}

/// Whether a decay cursor that stood at `before` stands at `after` once the
/// time up to `now` has been worked off: it has not moved if less than one
/// quantum had passed, and if `now` did not lie before it, it has moved on
/// by whole quanta, never back, and ends less than one quantum before `now`.
pub open spec fn caught_up(before: int, after: int, now: int, quantum: int) -> bool {
    &&& now - before < quantum ==> after == before
    &&& now >= before ==> {
        &&& after >= before
        &&& (after - before) % quantum == 0
        &&& 0 <= now - after < quantum
    }
}

/// The health decay that a dish leaves owed, in milliseconds: a third of its
/// points, rounded down, in minutes.
pub open spec fn food_health_debt_ms(food: Food) -> int {
    (food.spec_points() / 3) * MINUTE_MILLIS
}

/// A pet as a mathematical value.
pub struct FriendView {
    pub name: Seq<char>,
    pub food: int,
    pub joy: int,
    pub energy: int,
    pub health: int,
    /// The decay cursors: how far each statistic's share of wall-clock time
    /// has been used up.
    pub last_food_tick: int,
    pub last_joy_tick: int,
    pub last_energy_tick: int,
    pub last_health_tick: int,
    /// Health decay that is owed and not yet collected, in milliseconds.
    pub health_debit_ms: int,
    pub shape: CreatureShapes,
    pub growth_stage: GrowthStage,
    /// When the pet fell asleep, if it is asleep.
    pub asleep_since: Option<int>,
    pub alive: bool,
    pub time_created: int,
}

impl FriendView {
    /// A pet as it is at adoption.
    pub open spec fn fresh(name: Seq<char>, shape: CreatureShapes, now: int) -> FriendView {
        FriendView {
            name,
            food: INITIAL_STAT as int,
            joy: INITIAL_STAT as int,
            energy: INITIAL_STAT as int,
            health: INITIAL_STAT as int,
            last_food_tick: now,
            last_joy_tick: now,
            last_energy_tick: now,
            last_health_tick: now,
            health_debit_ms: 0,
            shape,
            growth_stage: GrowthStage::Egg,
            asleep_since: None,
            alive: true,
            time_created: now,
        }
    }

    pub open spec fn asleep(self) -> bool {
        self.asleep_since is Some
    }

    /// Every statistic lies within 0 and 100 and no negative decay is owed.
    pub open spec fn valid(self) -> bool {
        &&& 0 <= self.food <= STAT_MAX
        &&& 0 <= self.joy <= STAT_MAX
        &&& 0 <= self.energy <= STAT_MAX
        &&& 0 <= self.health <= STAT_MAX
        &&& 0 <= self.health_debit_ms
    }

    /// Whether a pet that has been asleep since `since` has overslept at
    /// `now`.
    pub open spec fn overslept(since: int, now: int) -> bool {
        now - since > MAX_SLEEP_MS
    }

    /// The pet after one look at its age: at most one stage further.
    pub open spec fn grown(self, now: int) -> FriendView {
        FriendView { growth_stage: self.growth_stage.grown(now - self.time_created), ..self }
    }

    /// The pet after every food quantum due at `now` has taken one point.
    pub open spec fn food_decayed(self, now: int) -> FriendView {
        let n = quanta_due(self.last_food_tick, now, FOOD_QUANTUM_MS as int);
        FriendView {
            food: saturating_difference(self.food, n),
            last_food_tick: self.last_food_tick + n * FOOD_QUANTUM_MS,
            ..self
        }
    }

    /// The pet after every joy quantum due at `now` has taken one point.
    pub open spec fn joy_decayed(self, now: int) -> FriendView {
        let n = quanta_due(self.last_joy_tick, now, JOY_QUANTUM_MS as int);
        FriendView {
            joy: saturating_difference(self.joy, n),
            last_joy_tick: self.last_joy_tick + n * JOY_QUANTUM_MS,
            ..self
        }
    }

    /// The pet after `n` energy quanta have been worked off at `now`. An
    /// awake pet loses a point with each. A sleeping pet gains with each; if
    /// it has overslept at `now` it wakes right after the first one and
    /// loses a point with each of the others.
    pub open spec fn after_energy_quanta(self, now: int, n: int) -> FriendView {
        let tick = self.last_energy_tick + n * ENERGY_QUANTUM_MS;
        if n <= 0 {
            self
        } else {
            match self.asleep_since {
                None => FriendView {
                    energy: saturating_difference(self.energy, n),
                    last_energy_tick: tick,
                    ..self
                },
                Some(since) => if Self::overslept(since, now) {
                    FriendView {
                        energy: saturating_difference(
                            saturating_sum(self.energy, SLEEP_ENERGY_GAIN as int),
                            n - 1,
                        ),
                        last_energy_tick: tick,
                        asleep_since: None,
                        ..self
                    }
                } else {
                    FriendView {
                        energy: saturating_sum(self.energy, n * SLEEP_ENERGY_GAIN),
                        last_energy_tick: tick,
                        ..self
                    }
                },
            }
        }
    }

    /// The pet after every energy quantum due at `now` has been worked off.
    pub open spec fn energy_decayed(self, now: int) -> FriendView {
        self.after_energy_quanta(
            now,
            quanta_due(self.last_energy_tick, now, ENERGY_QUANTUM_MS as int),
        )
    }

    /// How many of `n` health quanta find a whole minute of decay owed.
    pub open spec fn health_quanta_paid(self, n: int) -> int {
        let owed = self.health_debit_ms / (HEALTH_QUANTUM_MS as int);
        if n <= owed {
            n
        } else {
            owed
        }
    }

    /// The pet after every health quantum due at `now` has collected one
    /// point of health and one minute of owed decay, as long as a whole
    /// minute was owed.
    pub open spec fn health_decayed(self, now: int) -> FriendView {
        let n = quanta_due(self.last_health_tick, now, HEALTH_QUANTUM_MS as int);
        let paid = self.health_quanta_paid(n);
        FriendView {
            health: saturating_difference(self.health, paid),
            health_debit_ms: self.health_debit_ms - paid * HEALTH_QUANTUM_MS,
            last_health_tick: self.last_health_tick + n * HEALTH_QUANTUM_MS,
            ..self
        }
    }

    /// How many of the four statistics stand at 0.
    pub open spec fn zero_count(self) -> int {
        (if self.food == 0 {
            1int
        } else {
            0int
        }) + (if self.joy == 0 {
            1int
        } else {
            0int
        }) + (if self.energy == 0 {
            1int
        } else {
            0int
        }) + (if self.health == 0 {
            1int
        } else {
            0int
        })
    }

    /// Whether the statistics are such that a pet lives on with them.
    pub open spec fn viable(self) -> bool {
        &&& self.food + self.joy + self.health >= SURVIVAL_SUM
        &&& self.zero_count() < 2
        &&& self.health != 0
    }

    /// The pet after its statistics have been judged: it lives on only if it
    /// lived before and the statistics are viable.
    pub open spec fn judged(self) -> FriendView {
        FriendView { alive: self.alive && self.viable(), ..self }
    }

    /// The pet after the four decays, in the order food, energy, joy,
    /// health.
    pub open spec fn stats_decayed(self, now: int) -> FriendView {
        self.food_decayed(now).energy_decayed(now).joy_decayed(now).health_decayed(now)
    }

    /// The pet after time has been advanced to `now`: one look at its age,
    /// and, unless it is still an egg after that, the four decays and the
    /// judgement of its statistics.
    pub open spec fn updated(self, now: int) -> FriendView {
        let grown = self.grown(now);
        if grown.growth_stage == GrowthStage::Egg {
            grown
        } else {
            grown.stats_decayed(now).judged()
        }
    }

    /// The pet after it was offered `food`.
    pub open spec fn fed(self, food: Food) -> FriendView {
        if self.growth_stage == GrowthStage::Egg {
            self
        } else {
            FriendView {
                food: saturating_sum(self.food, food.spec_points() as int),
                health_debit_ms: self.health_debit_ms + food_health_debt_ms(food),
                ..self
            }
        }
    }

    /// The pet after it was played with.
    pub open spec fn played(self) -> FriendView {
        if self.growth_stage == GrowthStage::Egg {
            self
        } else {
            FriendView {
                joy: saturating_sum(self.joy, PLAY_JOY as int),
                health_debit_ms: self.health_debit_ms + PLAY_HEALTH_DEBT_MS,
                ..self
            }
        }
    }

    /// The pet after it was given medicine.
    pub open spec fn medicated(self) -> FriendView {
        if self.growth_stage == GrowthStage::Egg {
            self
        } else {
            FriendView { health: saturating_sum(self.health, MEDICINE_HEALTH as int), ..self }
        }
    }

    /// The pet after it was sent to sleep or woken at `now`.
    pub open spec fn sleep_toggled(self, now: int) -> FriendView {
        if self.growth_stage == GrowthStage::Egg {
            self
        } else if self.asleep() {
            FriendView { asleep_since: None, ..self }
        } else {
            FriendView { asleep_since: Some(now), ..self }
        }
    }

    /// Whole hours that lie between adoption and `now`, rounded towards
    /// the time of adoption; negative if `now` lies before it.
    pub open spec fn age_hours(self, now: int) -> int {
        if now >= self.time_created {
            (now - self.time_created) / (HOUR_MILLIS as int)
        } else {
            -((self.time_created - now) / (HOUR_MILLIS as int))
        }
    }
}

/// A point in time that may be absent, as a mathematical value.
pub open spec fn instant(at: Option<i64>) -> Option<int> {
    match at {
        Some(t) => Some(t as int),
        None => None,
    }
}

/// Whether at least `span` milliseconds lie between `since` and `now`.
fn has_elapsed(now: i64, since: i64, span: i64) -> (due: bool)
    ensures
        due <==> now - since >= span,
{
    now as i128 - since as i128 >= span as i128
}

/// Why a record does not describe a pet.
#[derive(Debug, Clone, Copy, PartialEq, Eq, Structural)]
pub enum RecordError {
    /// A statistic lies above 100.
    StatOutOfRange,
    /// The health decay owed is negative.
    NegativeHealthDebit,
    /// The record says the pet is asleep and gives no time at which it fell
    /// asleep, or gives such a time for a pet that is awake.
    SleepMismatch,
}

/// All that is known of a pet, as plain values: the form in which a pet is
/// stored and read back.
#[derive(Debug)]
pub struct FriendRecord {
    pub name: String,
    pub food: u32,
    pub joy: u32,
    pub energy: u32,
    pub health: u32,
    pub last_food_tick: i64,
    pub last_joy_tick: i64,
    pub last_energy_tick: i64,
    pub last_health_tick: i64,
    pub health_debit_ms: i64,
    pub shape: CreatureShapes,
    pub growth_stage: GrowthStage,
    pub asleep: bool,
    pub asleep_since: Option<i64>,
    pub alive: bool,
    pub time_created: i64,
}

impl FriendRecord {
    /// What is wrong with the record, if anything: the first of the three
    /// defects, in the order in which [`RecordError`] lists them.
    pub open spec fn defect(self) -> Option<RecordError> {
        if self.food > STAT_MAX || self.joy > STAT_MAX || self.energy > STAT_MAX || self.health
            > STAT_MAX {
            Some(RecordError::StatOutOfRange)
        } else if self.health_debit_ms < 0 {
            Some(RecordError::NegativeHealthDebit)
        } else if self.asleep != (self.asleep_since is Some) {
            Some(RecordError::SleepMismatch)
        } else {
            None
        }
    }

    /// The pet that the record describes, if it has no defect.
    pub open spec fn described(self) -> FriendView {
        FriendView {
            name: self.name@,
            food: self.food as int,
            joy: self.joy as int,
            energy: self.energy as int,
            health: self.health as int,
            last_food_tick: self.last_food_tick as int,
            last_joy_tick: self.last_joy_tick as int,
            last_energy_tick: self.last_energy_tick as int,
            last_health_tick: self.last_health_tick as int,
            health_debit_ms: self.health_debit_ms as int,
            shape: self.shape,
            growth_stage: self.growth_stage,
            asleep_since: instant(self.asleep_since),
            alive: self.alive,
            time_created: self.time_created as int,
        }
    }
}

/// A pet.
#[derive(Debug)]
pub struct Friend {
    name: String,
    food: Stat,
    joy: Stat,
    energy: Stat,
    health: Stat,
    last_food_tick: i64,
    last_joy_tick: i64,
    last_energy_tick: i64,
    last_health_tick: i64,
    health_debit_ms: i64,
    shape: CreatureShapes,
    growth_stage: GrowthStage,
    asleep_since: Option<i64>,
    alive: bool,
    time_created: i64,
}

impl View for Friend {
    type V = FriendView;

    closed spec fn view(&self) -> FriendView {
        FriendView {
            name: self.name@,
            food: self.food@,
            joy: self.joy@,
            energy: self.energy@,
            health: self.health@,
            last_food_tick: self.last_food_tick as int,
            last_joy_tick: self.last_joy_tick as int,
            last_energy_tick: self.last_energy_tick as int,
            last_health_tick: self.last_health_tick as int,
            health_debit_ms: self.health_debit_ms as int,
            shape: self.shape,
            growth_stage: self.growth_stage,
            asleep_since: instant(self.asleep_since),
            alive: self.alive,
            time_created: self.time_created as int,
        }
    }
}

impl Clone for Friend {
    fn clone(&self) -> (copy: Friend)
        ensures
            copy@ == self@,
    {
        proof {
            use_type_invariant(self);
        }
        Friend {
            name: self.name.clone(),
            food: self.food,
            joy: self.joy,
            energy: self.energy,
            health: self.health,
            last_food_tick: self.last_food_tick,
            last_joy_tick: self.last_joy_tick,
            last_energy_tick: self.last_energy_tick,
            last_health_tick: self.last_health_tick,
            health_debit_ms: self.health_debit_ms,
            shape: self.shape,
            growth_stage: self.growth_stage,
            asleep_since: self.asleep_since,
            alive: self.alive,
            time_created: self.time_created,
        }
    }
}

impl Friend {
    #[verifier::type_invariant]
    closed spec fn well_formed(self) -> bool {
        self@.valid()
    }

    /// A pet adopted at `now`: an egg with every statistic at 50, awake and
    /// alive, with every decay cursor at `now` and nothing owed.
    pub fn new(name: &str, shape: CreatureShapes, now: i64) -> (friend: Friend)
        ensures
            friend@ == FriendView::fresh(name@, shape, now as int),
            friend@.valid(),
    {
        let food = Stat::new(INITIAL_STAT);
        let joy = Stat::new(INITIAL_STAT);
        let energy = Stat::new(INITIAL_STAT);
        let health = Stat::new(INITIAL_STAT);
        Friend {
            name: name.to_owned(),
            food: food.unwrap(),
            joy: joy.unwrap(),
            energy: energy.unwrap(),
            health: health.unwrap(),
            last_food_tick: now,
            last_joy_tick: now,
            last_energy_tick: now,
            last_health_tick: now,
            health_debit_ms: 0,
            shape,
            growth_stage: GrowthStage::Egg,
            asleep_since: None,
            alive: true,
            time_created: now,
        }
    }

    /// The pet that `record` describes, or what is wrong with the record.
    pub fn from_record(record: FriendRecord) -> (restored: Result<Friend, RecordError>)
        ensures
            match restored {
                Ok(friend) => record.defect() is None && friend@ == record.described()
                    && friend@.valid(),
                Err(error) => record.defect() == Some(error),
            },
    {
        if record.food > STAT_MAX || record.joy > STAT_MAX || record.energy > STAT_MAX
            || record.health > STAT_MAX {
            return Err(RecordError::StatOutOfRange);
        }
        if record.health_debit_ms < 0 {
            return Err(RecordError::NegativeHealthDebit);
        }
        if record.asleep != record.asleep_since.is_some() {
            return Err(RecordError::SleepMismatch);
        }
        let food = Stat::new(record.food);
        let joy = Stat::new(record.joy);
        let energy = Stat::new(record.energy);
        let health = Stat::new(record.health);
        Ok(
            Friend {
                name: record.name,
                food: food.unwrap(),
                joy: joy.unwrap(),
                energy: energy.unwrap(),
                health: health.unwrap(),
                last_food_tick: record.last_food_tick,
                last_joy_tick: record.last_joy_tick,
                last_energy_tick: record.last_energy_tick,
                last_health_tick: record.last_health_tick,
                health_debit_ms: record.health_debit_ms,
                shape: record.shape,
                growth_stage: record.growth_stage,
                asleep_since: record.asleep_since,
                alive: record.alive,
                time_created: record.time_created,
            },
        )
    }

    /// The pet as plain values, from which [`Friend::from_record`] restores
    /// it as it is.
    pub fn to_record(&self) -> (record: FriendRecord)
        ensures
            record.defect() is None,
            record.described() == self@,
            record.asleep == self@.asleep(),
    {
        proof {
            use_type_invariant(self);
        }
        FriendRecord {
            name: self.name.clone(),
            food: self.food.value(),
            joy: self.joy.value(),
            energy: self.energy.value(),
            health: self.health.value(),
            last_food_tick: self.last_food_tick,
            last_joy_tick: self.last_joy_tick,
            last_energy_tick: self.last_energy_tick,
            last_health_tick: self.last_health_tick,
            health_debit_ms: self.health_debit_ms,
            shape: self.shape,
            growth_stage: self.growth_stage,
            asleep: self.asleep_since.is_some(),
            asleep_since: self.asleep_since,
            alive: self.alive,
            time_created: self.time_created,
        }
    }

    /// Looks at the pet's age once and lets it grow by one stage if the age
    /// has reached the dwell time of its stage.
    fn update_growth_stage(&mut self, now: i64)
        ensures
            final(self)@ == old(self)@.grown(now as int),
            old(self)@.growth_stage.rank() <= final(self)@.growth_stage.rank() <= old(
                self,
            )@.growth_stage.rank() + 1,
            final(self)@ == (FriendView {
                growth_stage: final(self)@.growth_stage,
                ..old(self)@
            }),
    {
        proof {
            use_type_invariant(&*self);
        }
        match self.growth_stage.dwell_ms() {
            Some(dwell) => {
                if has_elapsed(now, self.time_created, dwell) {
                    self.growth_stage.next_stage();
                }
            },
            None => {},
        }
    }

    /// Takes one point of food for every food quantum that is due.
    fn decay_food(&mut self, now: i64)
        ensures
            final(self)@ == old(self)@.food_decayed(now as int),
    {
        proof {
            use_type_invariant(&*self);
        }
        let ghost start = self@;
        let ghost mut done: int = 0;
        while has_elapsed(now, self.last_food_tick, FOOD_QUANTUM_MS)
            invariant
                start.valid(),
                0 <= done,
                done > 0 ==> now - start.last_food_tick >= done * FOOD_QUANTUM_MS,
                self@ == (FriendView {
                    food: saturating_difference(start.food, done),
                    last_food_tick: start.last_food_tick + done * FOOD_QUANTUM_MS,
                    ..start
                }),
            decreases now - self.last_food_tick,
        {
            self.food.subtract(1);
            self.last_food_tick = self.last_food_tick + FOOD_QUANTUM_MS;
            proof {
                done = done + 1;
            }
        }
    }

    /// Takes one point of joy for every joy quantum that is due.
    fn decay_joy(&mut self, now: i64)
        ensures
            final(self)@ == old(self)@.joy_decayed(now as int),
    {
        proof {
            use_type_invariant(&*self);
        }
        let ghost start = self@;
        let ghost mut done: int = 0;
        while has_elapsed(now, self.last_joy_tick, JOY_QUANTUM_MS)
            invariant
                start.valid(),
                0 <= done,
                done > 0 ==> now - start.last_joy_tick >= done * JOY_QUANTUM_MS,
                self@ == (FriendView {
                    joy: saturating_difference(start.joy, done),
                    last_joy_tick: start.last_joy_tick + done * JOY_QUANTUM_MS,
                    ..start
                }),
            decreases now - self.last_joy_tick,
        {
            self.joy.subtract(1);
            self.last_joy_tick = self.last_joy_tick + JOY_QUANTUM_MS;
            proof {
                done = done + 1;
            }
        }
    }

    /// Wakes a pet that has slept for longer than [`MAX_SLEEP_MS`].
    fn update_asleep_status(&mut self, now: i64)
        ensures
            final(self)@ == (FriendView {
                asleep_since: match old(self)@.asleep_since {
                    Some(since) => if FriendView::overslept(since, now as int) {
                        None
                    } else {
                        Some(since)
                    },
                    None => None,
                },
                ..old(self)@
            }),
    {
        proof {
            use_type_invariant(&*self);
        }
        if let Some(start_sleeping) = self.asleep_since {
            if now as i128 - start_sleeping as i128 > MAX_SLEEP_MS as i128 {
                self.asleep_since = None;
            }
        }
    }

    /// Works off every energy quantum that is due: sleep restores energy,
    /// being awake costs it, and after each quantum a pet that has
    /// overslept wakes.
    fn decay_energy(&mut self, now: i64)
        ensures
            final(self)@ == old(self)@.energy_decayed(now as int),
    {
        proof {
            use_type_invariant(&*self);
        }
        let ghost start = self@;
        let ghost mut done: int = 0;
        while has_elapsed(now, self.last_energy_tick, ENERGY_QUANTUM_MS)
            invariant
                start.valid(),
                0 <= done,
                done > 0 ==> now - start.last_energy_tick >= done * ENERGY_QUANTUM_MS,
                self.last_energy_tick == start.last_energy_tick + done * ENERGY_QUANTUM_MS,
                self@ == start.after_energy_quanta(now as int, done),
            decreases now - self.last_energy_tick,
        {
            if self.asleep_since.is_some() {
                self.energy.add(SLEEP_ENERGY_GAIN);
            } else {
                self.energy.subtract(1);
            }
            self.last_energy_tick = self.last_energy_tick + ENERGY_QUANTUM_MS;
            self.update_asleep_status(now);
            proof {
                done = done + 1;
            }
        }
    }

    /// Collects owed health decay: one point of health and one minute of
    /// what is owed for every health quantum that is due, while a whole
    /// minute is owed.
    fn decay_health(&mut self, now: i64)
        ensures
            final(self)@ == old(self)@.health_decayed(now as int),
    {
        proof {
            use_type_invariant(&*self);
        }
        let ghost start = self@;
        let ghost mut done: int = 0;
        while has_elapsed(now, self.last_health_tick, HEALTH_QUANTUM_MS)
            invariant
                start.valid(),
                0 <= done,
                done > 0 ==> now - start.last_health_tick >= done * HEALTH_QUANTUM_MS,
                self@ == (FriendView {
                    health: saturating_difference(start.health, start.health_quanta_paid(done)),
                    health_debit_ms: start.health_debit_ms - start.health_quanta_paid(done)
                        * HEALTH_QUANTUM_MS,
                    last_health_tick: start.last_health_tick + done * HEALTH_QUANTUM_MS,
                    ..start
                }),
            decreases now - self.last_health_tick,
        {
            if self.health_debit_ms >= HEALTH_QUANTUM_MS {
                self.health.subtract(1);
                self.health_debit_ms = self.health_debit_ms - HEALTH_QUANTUM_MS;
            }
            self.last_health_tick = self.last_health_tick + HEALTH_QUANTUM_MS;
            proof {
                done = done + 1;
            }
        }
    }

    /// Lets the time up to `now` wear on the statistics, quantum by
    /// quantum: food first, then energy, joy and health.
    fn update_stats(&mut self, now: i64)
        ensures
            final(self)@ == old(self)@.stats_decayed(now as int),
            caught_up(
                old(self)@.last_food_tick,
                final(self)@.last_food_tick,
                now as int,
                FOOD_QUANTUM_MS as int,
            ),
            caught_up(
                old(self)@.last_energy_tick,
                final(self)@.last_energy_tick,
                now as int,
                ENERGY_QUANTUM_MS as int,
            ),
            caught_up(
                old(self)@.last_joy_tick,
                final(self)@.last_joy_tick,
                now as int,
                JOY_QUANTUM_MS as int,
            ),
            caught_up(
                old(self)@.last_health_tick,
                final(self)@.last_health_tick,
                now as int,
                HEALTH_QUANTUM_MS as int,
            ),
            old(self)@.last_food_tick <= now ==> {
                let due = (now - old(self)@.last_food_tick) / (FOOD_QUANTUM_MS as int);
                &&& final(self)@.food == saturating_difference(old(self)@.food, due)
                &&& final(self)@.last_food_tick == old(self)@.last_food_tick + due
                    * FOOD_QUANTUM_MS
                &&& now - final(self)@.last_food_tick == (now - old(self)@.last_food_tick) % (
                FOOD_QUANTUM_MS as int)
            },
    {
        proof {
            use_type_invariant(&*self);
        }
        self.decay_food(now);
        self.decay_energy(now);
        self.decay_joy(now);
        self.decay_health(now);
    }

    /// Judges the statistics: the pet dies if food, joy and health sum to
    /// less than [`SURVIVAL_SUM`], if two or more statistics stand at 0, or
    /// if health stands at 0.
    fn update_alive_status(&mut self)
        ensures
            final(self)@ == old(self)@.judged(),
    {
        proof {
            use_type_invariant(&*self);
        }
        let food: u32 = self.food.value();
        let joy: u32 = self.joy.value();
        let energy: u32 = self.energy.value();
        let health: u32 = self.health.value();
        let stats_sum: u32 = food + joy + health;
        if stats_sum < SURVIVAL_SUM {
            self.alive = false;
        }
        let mut counter: u8 = 0;
        if food == 0 {
            counter = counter + 1;
        }
        if joy == 0 {
            counter = counter + 1;
        }
        if energy == 0 {
            counter = counter + 1;
        }
        if health == 0 {
            counter = counter + 1;
        }
        if counter >= 2 {
            self.alive = false;
        }
        if health == 0 {
            self.alive = false;
        }
    }

    /// Advances the pet to the time `now`. This is the only way time acts on
    /// a pet. The pet's age is looked at once, so it grows by one stage at
    /// most. An egg is not touched further. Any other pet has every decay
    /// quantum that is due taken from its statistics, each decay cursor
    /// moving on by whole quanta only, and is then judged: a pet that has
    /// died stays dead.
    pub fn update_state(&mut self, now: i64)
        ensures
            final(self)@ == old(self)@.updated(now as int),
            final(self)@.growth_stage.rank() >= old(self)@.growth_stage.rank(),
            !old(self)@.alive ==> !final(self)@.alive,
            final(self)@.growth_stage == GrowthStage::Egg ==> final(self)@ == old(self)@,
            final(self)@.valid(),
            final(self)@.growth_stage != GrowthStage::Egg ==> {
                &&& caught_up(
                    old(self)@.last_food_tick,
                    final(self)@.last_food_tick,
                    now as int,
                    FOOD_QUANTUM_MS as int,
                )
                &&& caught_up(
                    old(self)@.last_energy_tick,
                    final(self)@.last_energy_tick,
                    now as int,
                    ENERGY_QUANTUM_MS as int,
                )
                &&& caught_up(
                    old(self)@.last_joy_tick,
                    final(self)@.last_joy_tick,
                    now as int,
                    JOY_QUANTUM_MS as int,
                )
                &&& caught_up(
                    old(self)@.last_health_tick,
                    final(self)@.last_health_tick,
                    now as int,
                    HEALTH_QUANTUM_MS as int,
                )
            },
            final(self)@.growth_stage != GrowthStage::Egg && old(self)@.last_food_tick
                <= now ==> {
                let due = (now - old(self)@.last_food_tick) / (FOOD_QUANTUM_MS as int);
                &&& final(self)@.food == saturating_difference(old(self)@.food, due)
                &&& final(self)@.last_food_tick == old(self)@.last_food_tick + due
                    * FOOD_QUANTUM_MS
            },
    {
        self.update_growth_stage(now);
        if self.growth_stage != GrowthStage::Egg {
            self.update_stats(now);
            self.update_alive_status();
        }
        proof {
            use_type_invariant(&*self);
        }
    }

    pub fn name(&self) -> (name: &str)
        ensures
            name@ == self@.name,
    {
        self.name.as_str()
    }

    /// Feeds the pet: the dish's points go to the food statistic, and a
    /// third of them, in minutes, is added to the health decay owed. An egg
    /// does not eat.
    pub fn eat(&mut self, food: Food)
        requires
            old(self)@.growth_stage != GrowthStage::Egg ==> old(self)@.health_debit_ms
                + food_health_debt_ms(food) <= i64::MAX,
        ensures
            final(self)@ == old(self)@.fed(food),
            final(self)@.valid(),
    {
        proof {
            use_type_invariant(&*self);
        }
        if self.growth_stage == GrowthStage::Egg {
            return ;
        }
        self.food.add(food.points());
        self.health_debit_ms = self.health_debit_ms + (food.points() / 3) as i64 * MINUTE_MILLIS;
    }

    /// Sends an awake pet to sleep at `now`, or wakes a sleeping one. An egg
    /// does neither.
    pub fn toggle_sleep(&mut self, now: i64)
        ensures
            final(self)@ == old(self)@.sleep_toggled(now as int),
            final(self)@.valid(),
    {
        proof {
            use_type_invariant(&*self);
        }
        if self.growth_stage == GrowthStage::Egg {
            return ;
        }
        if self.asleep_since.is_some() {
            self.asleep_since = None;
        } else {
            self.asleep_since = Some(now);
        }
    }

    /// Plays with the pet: joy rises by [`PLAY_JOY`], and ten minutes are
    /// added to the health decay owed. An egg does not play.
    pub fn play(&mut self)
        requires
            old(self)@.growth_stage != GrowthStage::Egg ==> old(self)@.health_debit_ms
                + PLAY_HEALTH_DEBT_MS <= i64::MAX,
        ensures
            final(self)@ == old(self)@.played(),
            final(self)@.valid(),
    {
        proof {
            use_type_invariant(&*self);
        }
        if self.growth_stage != GrowthStage::Egg {
            self.joy.add(PLAY_JOY);
            self.health_debit_ms = self.health_debit_ms + PLAY_HEALTH_DEBT_MS;
        }
    }

    /// Gives the pet medicine: health rises by [`MEDICINE_HEALTH`]. An egg
    /// takes none.
    pub fn take_medicine(&mut self)
        ensures
            final(self)@ == old(self)@.medicated(),
            final(self)@.valid(),
    {
        proof {
            use_type_invariant(&*self);
        }
        if self.growth_stage != GrowthStage::Egg {
            self.health.add(MEDICINE_HEALTH);
        }
    }

    pub fn is_asleep(&self) -> (asleep: bool)
        ensures
            asleep == self@.asleep(),
    {
        self.asleep_since.is_some()
    }

    /// When the pet fell asleep, if it is asleep.
    pub fn asleep_since(&self) -> (since: Option<i64>)
        ensures
            instant(since) == self@.asleep_since,
    {
        self.asleep_since
    }

    pub fn food(&self) -> (stat: &Stat)
        ensures
            stat@ == self@.food,
            0 <= stat@ <= STAT_MAX,
    {
        proof {
            use_type_invariant(self);
        }
        &self.food
    }

    pub fn joy(&self) -> (stat: &Stat)
        ensures
            stat@ == self@.joy,
            0 <= stat@ <= STAT_MAX,
    {
        proof {
            use_type_invariant(self);
        }
        &self.joy
    }

    pub fn energy(&self) -> (stat: &Stat)
        ensures
            stat@ == self@.energy,
            0 <= stat@ <= STAT_MAX,
    {
        proof {
            use_type_invariant(self);
        }
        &self.energy
    }

    pub fn health(&self) -> (stat: &Stat)
        ensures
            stat@ == self@.health,
            0 <= stat@ <= STAT_MAX,
    {
        proof {
            use_type_invariant(self);
        }
        &self.health
    }

    pub fn growth_stage(&self) -> (stage: GrowthStage)
        ensures
            stage == self@.growth_stage,
    {
        self.growth_stage
    }

    /// The species and colour of the pet.
    pub fn shape(&self) -> (shape: CreatureShapes)
        ensures
            shape == self@.shape,
    {
        self.shape
    }

    /// The sprite the pet is drawn with at its present stage.
    pub fn get_shape_wrapper(&self) -> (sprite: ShapeWrapper)
        ensures
            sprite == self@.shape.spec_shape_at(self@.growth_stage),
    {
        self.shape.shape_at(self.growth_stage)
    }

    /// The sprite of the pet, read from `image_bytes`, the PNG picture that
    /// stands for the pet at its present stage: the black points of the
    /// picture in the colour of the pet.
    pub fn get_pixel_vector(&self, image_bytes: &[u8]) -> (sprite: Result<
        PixelVectorShape,
        SpriteError,
    >)
        ensures
            match sprite {
                Ok(shape) => loaded(decoded_luma(image_bytes@), self@.shape.spec_color()) == Ok::<
                    Seq<crate::sprite::Pixel>,
                    SpriteError,
                >(shape@),
                Err(error) => loaded(decoded_luma(image_bytes@), self@.shape.spec_color()) == Err::<
                    Seq<crate::sprite::Pixel>,
                    SpriteError,
                >(error),
            },
    {
        match load_sprite(image_bytes, self.shape.get_color()) {
            Ok(pixels) => Ok(PixelVectorShape::new(pixels)),
            Err(error) => Err(error),
        }
    }

    pub fn alive(&self) -> (alive: &bool)
        ensures
            *alive == self@.alive,
    {
        &self.alive
    }

    pub fn time_created(&self) -> (at: i64)
        ensures
            at == self@.time_created,
    {
        self.time_created
    }

    /// Health decay that is owed and not yet collected, in milliseconds.
    pub fn health_debit_ms(&self) -> (owed: i64)
        ensures
            owed == self@.health_debit_ms,
            owed >= 0,
    {
        proof {
            use_type_invariant(self);
        }
        self.health_debit_ms
    }

    /// Whole hours that lie between adoption and `now`, rounded towards
    /// the time of adoption; negative if `now` lies before it.
    pub fn age_hours(&self, now: i64) -> (hours: i64)
        ensures
            hours == self@.age_hours(now as int),
    {
        if now >= self.time_created {
            let age: i128 = now as i128 - self.time_created as i128;
            (age / HOUR_MILLIS as i128) as i64
        } else {
            let until: i128 = self.time_created as i128 - now as i128;
            (0 - until / HOUR_MILLIS as i128) as i64
        }
    }
}

} // verus!
