//! A life statistic bounded to the range 0 to 100.

use vstd::prelude::*;

verus! {

/// The largest value a statistic can hold.
pub const STAT_MAX: u32 = 100;

/// Why a statistic could not take a value.
#[derive(Debug, Clone, Copy, PartialEq, Eq, Structural)]
pub enum StatError {
    /// The value lies above [`STAT_MAX`].
    OutOfRange,
}

/// What a statistic holding `v` holds after `n` is added to it.
pub open spec fn saturating_sum(v: int, n: int) -> int {
    if v + n <= STAT_MAX as int {
        v + n
    } else {
        STAT_MAX as int
    }
}

/// What a statistic holding `v` holds after `n` is taken from it.
pub open spec fn saturating_difference(v: int, n: int) -> int {
    if v >= n {
        v - n
    } else {
        0
    }
}

/// An integer that always stays within 0 and [`STAT_MAX`].
#[derive(Debug, Clone, Copy)]
pub struct Stat(u32);

impl View for Stat {
    type V = int;

    closed spec fn view(&self) -> int {
        self.0 as int
    }
}

impl Stat {
    #[verifier::type_invariant]
    closed spec fn in_range(self) -> bool {
        self.0 <= STAT_MAX
    }

    /// The current value.
    pub fn value(&self) -> (v: u32)
        ensures
            v as int == self@,
            v <= STAT_MAX,
    {
        proof {
            use_type_invariant(self);
        }
        self.0
    }

    /// A statistic holding `value`, or `OutOfRange` when `value` exceeds
    /// [`STAT_MAX`].
    pub fn new(value: u32) -> (r: Result<Stat, StatError>)
        ensures
            value <= STAT_MAX ==> r is Ok && r->Ok_0@ == value,
            value > STAT_MAX ==> r == Err::<Stat, StatError>(StatError::OutOfRange),
    {
        if value <= STAT_MAX {
            Ok(Stat(value))
        } else {
            Err(StatError::OutOfRange)
        }
    }

    /// Adds `value`, stopping at [`STAT_MAX`].
    pub fn add(&mut self, value: u32)
        ensures
            final(self)@ == saturating_sum(old(self)@, value as int),
            old(self)@ + value > STAT_MAX ==> final(self)@ == STAT_MAX,
        no_unwind
    {
        proof {
            use_type_invariant(&*self);
        }
        if value <= STAT_MAX - self.0 {
            self.0 = self.0 + value;
        } else {
            self.0 = STAT_MAX;
        }
    }

    /// Takes `value` away, stopping at 0.
    pub fn subtract(&mut self, value: u32)
        ensures
            final(self)@ == saturating_difference(old(self)@, value as int),
            value >= old(self)@ ==> final(self)@ == 0,
        no_unwind
    {
        proof {
            use_type_invariant(&*self);
        }
        if self.0 >= value {
            self.0 = self.0 - value;
        } else {
            self.0 = 0;
        }
    }

    /// Replaces the value by `value`, or leaves it as it is and reports
    /// `OutOfRange` when `value` exceeds [`STAT_MAX`].
    pub fn set(&mut self, value: u32) -> (r: Result<(), StatError>)
        ensures
            value <= STAT_MAX ==> r is Ok && final(self)@ == value,
            value > STAT_MAX ==> r == Err::<(), StatError>(StatError::OutOfRange) && final(self)@
                == old(self)@,
        no_unwind
    {
        if value <= STAT_MAX {
            self.0 = value;
            Ok(())
        } else {
            Err(StatError::OutOfRange)
        }
    }

    /// Whether the statistic stands at [`STAT_MAX`].
    pub fn is_max(&self) -> (b: bool)
        ensures
            b <==> self@ == STAT_MAX,
    {
        self.0 == STAT_MAX
    }
}

/// Every statistic lies within 0 and [`STAT_MAX`], whatever was added to or
/// taken from it.
pub proof fn lemma_saturating_arithmetic_stays_in_range(v: int, n: int)
    requires
        0 <= v <= STAT_MAX,
        0 <= n,
    ensures
        0 <= saturating_sum(v, n) <= STAT_MAX,
        0 <= saturating_difference(v, n) <= STAT_MAX,
        n >= v ==> saturating_difference(v, n) == 0,
        v + n > STAT_MAX ==> saturating_sum(v, n) == STAT_MAX,
{
}

} // verus!
