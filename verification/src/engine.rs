//! The pet lifecycle engine: every operation an owner can trigger.
//!
//! The engine works on one owner's records — an optional pet and an optional
//! coin balance — together with the current clock reading, which the host
//! passes in. Every operation is all-or-nothing: a failed operation returns
//! an error and leaves both records exactly as they were.

use crate::pet::apply_decay;
use crate::pet::decayed;
use crate::pet::fed;
use crate::pet::new_pet;
use crate::pet::played;
use crate::pet::raise_stat;
use crate::pet::lower_stat;
use crate::pet::slept;
use crate::pet::with_glasses;
use crate::pet::worked;
use crate::pet::Error;
use crate::pet::Pet;
use crate::pet::FEED_HUNGER_GAIN;
use crate::pet::GLASSES_COIN_COST;
use crate::pet::MAX_STAT;
use crate::pet::PLAY_ENERGY_COST;
use crate::pet::PLAY_HAPPINESS_GAIN;
use crate::pet::SLEEP_ENERGY_GAIN;
use crate::pet::WORK_COIN_REWARD;
use crate::pet::WORK_ENERGY_COST;
use crate::pet::WORK_ENERGY_MIN;
use crate::pet::WORK_HAPPINESS_COST;
use vstd::prelude::*;

verus! {

/// One owner's persisted records: the pet, if any, and the coin balance,
/// if a coin record exists. An absent coin record reads as a balance of 0.
pub struct OwnerState {
    /// The owner's pet record, if one exists.
    pub pet: Option<Pet>,
    /// The owner's coin record, if one exists.
    pub coins: Option<i128>,
}

impl OwnerState {
    /// The pet, if present, has stats in range, and the coin balance is
    /// never negative.
    pub open spec fn wf(self) -> bool {
        &&& match self.pet {
            Some(p) => p.wf(),
            None => true,
        }
        &&& match self.coins {
            Some(c) => c >= 0,
            None => true,
        }
    }

    /// The coin balance an owner reads: the stored value, or 0 when no
    /// coin record exists.
    pub open spec fn coin_balance(self) -> int {
        match self.coins {
            Some(c) => c as int,
            None => 0,
        }
    }

    /// A state with no records at all.
    pub fn new() -> (r: OwnerState)
        ensures
            r.pet is None,
            r.coins is None,
            r.wf(),
    {
        OwnerState { pet: None, coins: None }
    }
}

/// The engine's entry points. The host resolves authorization and the
/// current time before calling in, and persists the state afterwards.
pub struct TamagotchiContract;

impl TamagotchiContract {
    /// Create a fresh pet for the owner, with full stats, and reset the
    /// coin balance to 0. Fails exactly when a pet record exists that is
    /// still alive once lazy decay is applied; a failure changes nothing.
    pub fn create(state: &mut OwnerState, owner: u64, name: String, now: u64) -> (r: Result<
        Pet,
        Error,
    >)
        requires
            old(state).wf(),
        ensures
            final(state).wf(),
            match r {
                Ok(pet) => {
                    &&& old(state).pet is None || !decayed(old(state).pet->0, now).is_alive
                    &&& pet == new_pet(owner, name, now)
                    &&& final(state).pet == Some(pet)
                    &&& final(state).coins == Some(0i128)
                },
                Err(e) => {
                    &&& e == Error::AlreadyExists
                    &&& old(state).pet is Some
                    &&& decayed(old(state).pet->0, now).is_alive
                    &&& *final(state) == *old(state)
                },
            },
    {
        let existing_alive = match &state.pet {
            Some(p) => apply_decay(p, now).is_alive,
            None => false,
        };
        if existing_alive {
            return Err(Error::AlreadyExists);
        }
        let pet = Pet {
            owner,
            name,
            birthdate: now,
            last_updated: now,
            is_alive: true,
            hunger: MAX_STAT,
            happiness: MAX_STAT,
            energy: MAX_STAT,
            has_glasses: false,
        };
        let snapshot = pet.clone();
        state.pet = Some(pet);
        state.coins = Some(0);
        Ok(snapshot)
    }

    /// Feed the pet: hunger rises by `FEED_HUNGER_GAIN`, capped at
    /// `MAX_STAT`. Fails exactly when no pet exists or the pet is not
    /// alive once lazy decay is applied; a failure changes nothing.
    pub fn feed(state: &mut OwnerState, now: u64) -> (r: Result<(), Error>)
        requires
            old(state).wf(),
        ensures
            final(state).wf(),
            match r {
                Ok(()) => {
                    &&& old(state).pet is Some
                    &&& decayed(old(state).pet->0, now).is_alive
                    &&& final(state).pet == Some(fed(decayed(old(state).pet->0, now), now))
                    &&& final(state).coins == old(state).coins
                },
                Err(e) => {
                    &&& *final(state) == *old(state)
                    &&& (e == Error::NotFound <==> old(state).pet is None)
                    &&& (e == Error::Deceased <==> old(state).pet is Some && !decayed(
                        old(state).pet->0,
                        now,
                    ).is_alive)
                    &&& (e == Error::NotFound || e == Error::Deceased)
                },
            },
    {
        let pet = match &state.pet {
            None => {
                return Err(Error::NotFound);
            },
            Some(p) => apply_decay(p, now),
        };
        if !pet.is_alive {
            return Err(Error::Deceased);
        }
        let updated = Pet { hunger: raise_stat(pet.hunger, FEED_HUNGER_GAIN), last_updated: now, ..pet };
        state.pet = Some(updated);
        Ok(())
    }

    /// Play with the pet: happiness rises by `PLAY_HAPPINESS_GAIN`
    /// (capped at `MAX_STAT`), energy falls by `PLAY_ENERGY_COST`
    /// (floored at 0). Fails exactly when no pet exists or the pet is not
    /// alive once lazy decay is applied; a failure changes nothing.
    pub fn play(state: &mut OwnerState, now: u64) -> (r: Result<(), Error>)
        requires
            old(state).wf(),
        ensures
            final(state).wf(),
            match r {
                Ok(()) => {
                    &&& old(state).pet is Some
                    &&& decayed(old(state).pet->0, now).is_alive
                    &&& final(state).pet == Some(played(decayed(old(state).pet->0, now), now))
                    &&& final(state).coins == old(state).coins
                },
                Err(e) => {
                    &&& *final(state) == *old(state)
                    &&& (e == Error::NotFound <==> old(state).pet is None)
                    &&& (e == Error::Deceased <==> old(state).pet is Some && !decayed(
                        old(state).pet->0,
                        now,
                    ).is_alive)
                    &&& (e == Error::NotFound || e == Error::Deceased)
                },
            },
    {
        let pet = match &state.pet {
            None => {
                return Err(Error::NotFound);
            },
            Some(p) => apply_decay(p, now),
        };
        if !pet.is_alive {
            return Err(Error::Deceased);
        }
        let updated = Pet {
            happiness: raise_stat(pet.happiness, PLAY_HAPPINESS_GAIN),
            energy: lower_stat(pet.energy, PLAY_ENERGY_COST),
            last_updated: now,
            ..pet
        };
        state.pet = Some(updated);
        Ok(())
    }

    /// Let the pet sleep: energy rises by `SLEEP_ENERGY_GAIN`, capped at
    /// `MAX_STAT`. Fails exactly when no pet exists or the pet is not
    /// alive once lazy decay is applied; a failure changes nothing.
    pub fn sleep(state: &mut OwnerState, now: u64) -> (r: Result<(), Error>)
        requires
            old(state).wf(),
        ensures
            final(state).wf(),
            match r {
                Ok(()) => {
                    &&& old(state).pet is Some
                    &&& decayed(old(state).pet->0, now).is_alive
                    &&& final(state).pet == Some(slept(decayed(old(state).pet->0, now), now))
                    &&& final(state).coins == old(state).coins
                },
                Err(e) => {
                    &&& *final(state) == *old(state)
                    &&& (e == Error::NotFound <==> old(state).pet is None)
                    &&& (e == Error::Deceased <==> old(state).pet is Some && !decayed(
                        old(state).pet->0,
                        now,
                    ).is_alive)
                    &&& (e == Error::NotFound || e == Error::Deceased)
                },
            },
    {
        let pet = match &state.pet {
            None => {
                return Err(Error::NotFound);
            },
            Some(p) => apply_decay(p, now),
        };
        if !pet.is_alive {
            return Err(Error::Deceased);
        }
        let updated = Pet { energy: raise_stat(pet.energy, SLEEP_ENERGY_GAIN), last_updated: now, ..pet };
        state.pet = Some(updated);
        Ok(())
    }

    /// Put the pet to work: energy falls by `WORK_ENERGY_COST` and
    /// happiness by `WORK_HAPPINESS_COST` (floored at 0), and the owner
    /// earns `WORK_COIN_REWARD` coins. Fails exactly when no pet exists,
    /// the pet is not alive once lazy decay is applied, or its energy
    /// after decay is below `WORK_ENERGY_MIN`; a failure changes nothing.
    pub fn work(state: &mut OwnerState, now: u64) -> (r: Result<(), Error>)
        requires
            old(state).wf(),
            old(state).coin_balance() + WORK_COIN_REWARD <= i128::MAX,
        ensures
            final(state).wf(),
            match r {
                Ok(()) => {
                    &&& old(state).pet is Some
                    &&& decayed(old(state).pet->0, now).is_alive
                    &&& decayed(old(state).pet->0, now).energy >= WORK_ENERGY_MIN
                    &&& final(state).pet == Some(worked(decayed(old(state).pet->0, now), now))
                    &&& final(state).coins is Some
                    &&& final(state).coin_balance() == old(state).coin_balance()
                        + WORK_COIN_REWARD
                },
                Err(e) => {
                    &&& *final(state) == *old(state)
                    &&& (e == Error::NotFound <==> old(state).pet is None)
                    &&& (e == Error::Deceased <==> old(state).pet is Some && !decayed(
                        old(state).pet->0,
                        now,
                    ).is_alive)
                    &&& (e == Error::InsufficientResource <==> old(state).pet is Some && decayed(
                        old(state).pet->0,
                        now,
                    ).is_alive && decayed(old(state).pet->0, now).energy < WORK_ENERGY_MIN)
                    &&& (e == Error::NotFound || e == Error::Deceased
                        || e == Error::InsufficientResource)
                },
            },
    {
        let pet = match &state.pet {
            None => {
                return Err(Error::NotFound);
            },
            Some(p) => apply_decay(p, now),
        };
        if !pet.is_alive {
            return Err(Error::Deceased);
        }
        if pet.energy < WORK_ENERGY_MIN {
            return Err(Error::InsufficientResource);
        }
        let coins: i128 = match &state.coins {
            Some(c) => *c,
            None => 0,
        };
        let updated = Pet {
            energy: lower_stat(pet.energy, WORK_ENERGY_COST),
            happiness: lower_stat(pet.happiness, WORK_HAPPINESS_COST),
            last_updated: now,
            ..pet
        };
        state.pet = Some(updated);
        state.coins = Some(coins + WORK_COIN_REWARD);
        Ok(())
    }

    /// Buy the glasses cosmetic for `GLASSES_COIN_COST` coins. Fails
    /// exactly when no pet exists, the pet is not alive once lazy decay
    /// is applied, or the coin balance is below the price; a failure
    /// changes nothing.
    pub fn mint_glasses(state: &mut OwnerState, now: u64) -> (r: Result<(), Error>)
        requires
            old(state).wf(),
        ensures
            final(state).wf(),
            match r {
                Ok(()) => {
                    &&& old(state).pet is Some
                    &&& decayed(old(state).pet->0, now).is_alive
                    &&& old(state).coin_balance() >= GLASSES_COIN_COST
                    &&& final(state).pet == Some(with_glasses(decayed(old(state).pet->0, now), now))
                    &&& final(state).coins is Some
                    &&& final(state).coin_balance() == old(state).coin_balance()
                        - GLASSES_COIN_COST
                },
                Err(e) => {
                    &&& *final(state) == *old(state)
                    &&& (e == Error::NotFound <==> old(state).pet is None)
                    &&& (e == Error::Deceased <==> old(state).pet is Some && !decayed(
                        old(state).pet->0,
                        now,
                    ).is_alive)
                    &&& (e == Error::InsufficientResource <==> old(state).pet is Some && decayed(
                        old(state).pet->0,
                        now,
                    ).is_alive && old(state).coin_balance() < GLASSES_COIN_COST)
                    &&& (e == Error::NotFound || e == Error::Deceased
                        || e == Error::InsufficientResource)
                },
            },
    {
        let pet = match &state.pet {
            None => {
                return Err(Error::NotFound);
            },
            Some(p) => apply_decay(p, now),
        };
        if !pet.is_alive {
            return Err(Error::Deceased);
        }
        let coins: i128 = match &state.coins {
            Some(c) => *c,
            None => 0,
        };
        if coins < GLASSES_COIN_COST {
            return Err(Error::InsufficientResource);
        }
        let updated = Pet { has_glasses: true, last_updated: now, ..pet };
        state.pet = Some(updated);
        state.coins = Some(coins - GLASSES_COIN_COST);
        Ok(())
    }

    /// Return the pet as it stands now, with lazy decay applied and
    /// persisted. Fails exactly when no pet record exists.
    pub fn get_pet(state: &mut OwnerState, now: u64) -> (r: Result<Pet, Error>)
        requires
            old(state).wf(),
        ensures
            final(state).wf(),
            final(state).coins == old(state).coins,
            match r {
                Ok(pet) => {
                    &&& old(state).pet is Some
                    &&& pet == decayed(old(state).pet->0, now)
                    &&& final(state).pet == Some(pet)
                },
                Err(e) => {
                    &&& e == Error::NotFound
                    &&& old(state).pet is None
                    &&& *final(state) == *old(state)
                },
            },
    {
        let pet = match &state.pet {
            None => {
                return Err(Error::NotFound);
            },
            Some(p) => apply_decay(p, now),
        };
        let snapshot = pet.clone();
        state.pet = Some(pet);
        Ok(snapshot)
    }

    /// The owner's coin balance; 0 when no coin record exists. Never fails.
    pub fn get_coins(state: &OwnerState) -> (r: i128)
        ensures
            r as int == state.coin_balance(),
    {
        match &state.coins {
            Some(c) => *c,
            None => 0,
        }
    }

    /// A lenient status probe: whether a pet record exists and, if so,
    /// its liveness, hunger and happiness after lazy decay, which is
    /// persisted as on any read. Never fails; absence reads as
    /// `(false, false, 0, 0)`.
    pub fn debug_pet_status(state: &mut OwnerState, now: u64) -> (r: (bool, bool, u32, u32))
        requires
            old(state).wf(),
        ensures
            final(state).wf(),
            final(state).coins == old(state).coins,
            match old(state).pet {
                None => r == (false, false, 0u32, 0u32) && *final(state) == *old(state),
                Some(p) => {
                    &&& r == (true, decayed(p, now).is_alive, decayed(p, now).hunger, decayed(
                        p,
                        now,
                    ).happiness)
                    &&& final(state).pet == Some(decayed(p, now))
                },
            },
    {
        let pet = match &state.pet {
            None => {
                return (false, false, 0, 0);
            },
            Some(p) => apply_decay(p, now),
        };
        let status = (true, pet.is_alive, pet.hunger, pet.happiness);
        state.pet = Some(pet);
        status
    }

    /// Delete the pet record and the coin record, whichever exist.
    /// Idempotent: absence is not an error.
    pub fn remove_pet(state: &mut OwnerState)
        ensures
            final(state).pet is None,
            final(state).coins is None,
            final(state).wf(),
    {
        state.pet = None;
        state.coins = None;
    }
}

} // verus!
