//! The pet record and the time-based decay rule.
//!
//! A pet's hunger, happiness and energy are bounded integers in
//! `[0, MAX_STAT]`. Stats decay lazily: whenever a record is read, the whole
//! hours elapsed since `last_updated` are applied in one step. Hunger loses
//! one point per hour, happiness one point per two hours, and energy never
//! decays passively. A pet dies exactly when decay drives hunger or
//! happiness to zero; death is a one-way latch.

use vstd::prelude::*;

verus! {

/// Upper bound for hunger, happiness and energy.
pub const MAX_STAT: u32 = 100;

/// Seconds in one decay period (one hour).
pub const DECAY_PERIOD_SECONDS: u64 = 3600;

/// Hunger gained by feeding.
pub const FEED_HUNGER_GAIN: u32 = 30;

/// Happiness gained by playing.
pub const PLAY_HAPPINESS_GAIN: u32 = 20;

/// Energy spent by playing.
pub const PLAY_ENERGY_COST: u64 = 15;

/// Energy gained by sleeping.
pub const SLEEP_ENERGY_GAIN: u32 = 40;

/// Least energy with which a pet can work.
pub const WORK_ENERGY_MIN: u32 = 20;

/// Energy spent by working.
pub const WORK_ENERGY_COST: u64 = 20;

/// Happiness spent by working.
pub const WORK_HAPPINESS_COST: u64 = 10;

/// Coins granted for one unit of work.
pub const WORK_COIN_REWARD: i128 = 25;

/// Coin price of the glasses cosmetic.
pub const GLASSES_COIN_COST: i128 = 50;

/// Why an operation on a pet was refused.
#[derive(Clone, Copy, Debug, PartialEq, Eq, Structural)]
pub enum Error {
    /// No pet record exists for the owner.
    NotFound,
    /// A still-alive pet already exists for the owner.
    AlreadyExists,
    /// The pet is no longer alive.
    Deceased,
    /// Not enough energy to work, or not enough coins to mint.
    InsufficientResource,
}

/// One owner's pet record.
#[derive(Debug)]
pub struct Pet {
    /// Identity of the owner; immutable after creation.
    pub owner: u64,
    /// Display name; immutable after creation.
    pub name: String,
    /// Timestamp at creation; immutable.
    pub birthdate: u64,
    /// Timestamp of the last decay or action application.
    pub last_updated: u64,
    /// False exactly once decay has driven hunger or happiness to zero.
    pub is_alive: bool,
    /// Bounded stat in `[0, MAX_STAT]`.
    pub hunger: u32,
    /// Bounded stat in `[0, MAX_STAT]`.
    pub happiness: u32,
    /// Bounded stat in `[0, MAX_STAT]`.
    pub energy: u32,
    /// Cosmetic flag; false until purchased, never reverts.
    pub has_glasses: bool,
}

impl Pet {
    /// Every stat lies within the bounded range.
    pub open spec fn wf(self) -> bool {
        &&& self.hunger <= MAX_STAT
        &&& self.happiness <= MAX_STAT
        &&& self.energy <= MAX_STAT
    }
}

/// A value lowered by `d`, floored at zero.
pub open spec fn lowered(x: int, d: int) -> int {
    if x - d <= 0 {
        0
    } else {
        x - d
    }
}

/// A value raised by `d`, capped at `MAX_STAT`.
pub open spec fn raised(x: int, d: int) -> int {
    if x + d >= MAX_STAT {
        MAX_STAT as int
    } else {
        x + d
    }
}

/// Seconds since the pet was last updated, floored at zero to guard
/// against a clock reading behind the record.
pub open spec fn elapsed_seconds(p: Pet, now: u64) -> int {
    if now >= p.last_updated {
        now - p.last_updated
    } else {
        0
    }
}

/// Whole decay periods (hours) elapsed since the pet was last updated.
pub open spec fn decay_periods(p: Pet, now: u64) -> int {
    elapsed_seconds(p, now) / (DECAY_PERIOD_SECONDS as int)
}

/// The pet as it stands at time `now`, after lazy decay.
///
/// A dead pet no longer decays. A live pet loses one hunger point per
/// whole elapsed hour and one happiness point per two whole elapsed hours,
/// each floored at zero; if either stat bottoms out the pet dies. When at
/// least one period has passed, `last_updated` advances to `now`. Energy
/// never decays passively.
pub open spec fn decayed(p: Pet, now: u64) -> Pet {
    let periods = decay_periods(p, now);
    if !p.is_alive || periods == 0 {
        p
    } else {
        let hunger = lowered(p.hunger as int, periods);
        let happiness = lowered(p.happiness as int, periods / 2);
        Pet {
            hunger: hunger as u32,
            happiness: happiness as u32,
            last_updated: now,
            is_alive: hunger != 0 && happiness != 0,
            ..p
        }
    }
}

/// A freshly created pet: full stats, alive, no cosmetics, both
/// timestamps at `now`.
pub open spec fn new_pet(owner: u64, name: String, now: u64) -> Pet {
    Pet {
        owner,
        name,
        birthdate: now,
        last_updated: now,
        is_alive: true,
        hunger: MAX_STAT,
        happiness: MAX_STAT,
        energy: MAX_STAT,
        has_glasses: false,
    }
}

/// The pet after feeding at time `now`.
pub open spec fn fed(p: Pet, now: u64) -> Pet {
    Pet {
        hunger: raised(p.hunger as int, FEED_HUNGER_GAIN as int) as u32,
        last_updated: now,
        ..p
    }
}

/// The pet after playing at time `now`.
pub open spec fn played(p: Pet, now: u64) -> Pet {
    Pet {
        happiness: raised(p.happiness as int, PLAY_HAPPINESS_GAIN as int) as u32,
        energy: lowered(p.energy as int, PLAY_ENERGY_COST as int) as u32,
        last_updated: now,
        ..p
    }
}

/// The pet after sleeping at time `now`.
pub open spec fn slept(p: Pet, now: u64) -> Pet {
    Pet {
        energy: raised(p.energy as int, SLEEP_ENERGY_GAIN as int) as u32,
        last_updated: now,
        ..p
    }
}

/// The pet after working at time `now`.
pub open spec fn worked(p: Pet, now: u64) -> Pet {
    Pet {
        energy: lowered(p.energy as int, WORK_ENERGY_COST as int) as u32,
        happiness: lowered(p.happiness as int, WORK_HAPPINESS_COST as int) as u32,
        last_updated: now,
        ..p
    }
}

/// The pet after the glasses cosmetic was minted at time `now`.
pub open spec fn with_glasses(p: Pet, now: u64) -> Pet {
    Pet { has_glasses: true, last_updated: now, ..p }
}

/// Lower a stat by `d`, saturating at zero.
pub fn lower_stat(x: u32, d: u64) -> (r: u32)
    ensures
        r as int == lowered(x as int, d as int),
{
    if d >= x as u64 {
        0
    } else {
        x - (d as u32)
    }
}

/// Raise a stat by `d`, saturating at `MAX_STAT`.
pub fn raise_stat(x: u32, d: u32) -> (r: u32)
    requires
        x <= MAX_STAT,
        d <= MAX_STAT,
    ensures
        r as int == raised(x as int, d as int),
{
    if x + d >= MAX_STAT {
        MAX_STAT
    } else {
        x + d
    }
}

impl Clone for Pet {
    /// An exact copy of the record.
    fn clone(&self) -> (r: Pet)
        ensures
            r == *self,
    {
        Pet {
            owner: self.owner,
            name: self.name.clone(),
            birthdate: self.birthdate,
            last_updated: self.last_updated,
            is_alive: self.is_alive,
            hunger: self.hunger,
            happiness: self.happiness,
            energy: self.energy,
            has_glasses: self.has_glasses,
        }
    }
}

/// The pet as it stands at time `now`: the executable form of `decayed`.
pub fn apply_decay(p: &Pet, now: u64) -> (r: Pet)
    ensures
        r == decayed(*p, now),
{
    let elapsed: u64 = if now >= p.last_updated {
        now - p.last_updated
    } else {
        0
    };
    let periods: u64 = elapsed / DECAY_PERIOD_SECONDS;
    if !p.is_alive || periods == 0 {
        return p.clone();
    }
    let hunger = lower_stat(p.hunger, periods);
    let happiness = lower_stat(p.happiness, periods / 2);
    Pet {
        hunger,
        happiness,
        last_updated: now,
        is_alive: hunger != 0 && happiness != 0,
        name: p.name.clone(),
        owner: p.owner,
        birthdate: p.birthdate,
        energy: p.energy,
        has_glasses: p.has_glasses,
    }
}

} // verus!
