use vstd::prelude::*;

verus! {

/// Logic level of a digital output pin.
#[derive(Clone, Copy, Debug, PartialEq, Eq, Structural)]
pub enum Level {
    Low,
    High,
}

impl Level {
    /// The opposite level.
    pub open spec fn flipped(self) -> Level {
        match self {
            Level::Low => Level::High,
            Level::High => Level::Low,
        }
    }

    /// Returns the opposite level.
    pub fn toggled(self) -> (r: Level)
        ensures
            r == self.flipped(),
    {
        match self {
            Level::Low => Level::High,
            Level::High => Level::Low,
        }
    }
}

/// The level reached from `l` after `n` toggles.
pub open spec fn flipped_times(l: Level, n: nat) -> Level {
    if n % 2 == 0 {
        l
    } else {
        l.flipped()
    }
}

} // verus!
