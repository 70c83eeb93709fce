//! Laws of the decay rule and the stat clamps.
//!
//! The engine's operations state their own behaviour in their contracts;
//! the proofs here pin down the properties of lazy decay that hold across
//! operations: idempotence, the exact decay amounts, the death condition,
//! and the preservation of the stat bounds.

use crate::pet::decay_periods;
use crate::pet::decayed;
use crate::pet::fed;
use crate::pet::lowered;
use crate::pet::played;
use crate::pet::raised;
use crate::pet::slept;
use crate::pet::with_glasses;
use crate::pet::worked;
use crate::pet::Pet;
use crate::pet::DECAY_PERIOD_SECONDS;
use crate::pet::MAX_STAT;
use vstd::prelude::*;

verus! {

/// When no whole decay period has elapsed — in particular when the clock
/// has not advanced past `last_updated` at all — decay leaves the record
/// untouched.
pub proof fn lemma_decay_zero_elapsed(p: Pet, now: u64)
    requires
        decay_periods(p, now) == 0,
    ensures
        decayed(p, now) == p,
{
}

/// Decay is idempotent: reading a record twice at the same clock value
/// yields the same record as reading it once.
pub proof fn lemma_decay_idempotent(p: Pet, now: u64)
    ensures
        decayed(decayed(p, now), now) == decayed(p, now),
{
    let d = decayed(p, now);
    if p.is_alive && decay_periods(p, now) != 0 {
        assert(d.last_updated == now);
        assert(decay_periods(d, now) == 0);
    }
}

/// A live pet loses exactly `elapsed / 3600` hunger points and exactly
/// `(elapsed / 3600) / 2` happiness points, each floored at zero, where
/// `elapsed` is the seconds since the record was last updated.
pub proof fn lemma_decay_amounts(p: Pet, now: u64)
    requires
        p.is_alive,
        now >= p.last_updated,
    ensures
        ({
            let periods = ((now - p.last_updated) as int) / (DECAY_PERIOD_SECONDS as int);
            &&& decayed(p, now).hunger == lowered(p.hunger as int, periods)
            &&& decayed(p, now).happiness == lowered(p.happiness as int, periods / 2)
        }),
{
}

/// Decay touches only hunger, happiness, liveness and the update
/// timestamp; in particular energy never decays from time alone, and the
/// glasses cosmetic is kept.
pub proof fn lemma_decay_changes_only_stats(p: Pet, now: u64)
    ensures
        decayed(p, now).owner == p.owner,
        decayed(p, now).name == p.name,
        decayed(p, now).birthdate == p.birthdate,
        decayed(p, now).energy == p.energy,
        decayed(p, now).has_glasses == p.has_glasses,
{
}

/// Once a pet is not alive, decay leaves the whole record unchanged.
pub proof fn lemma_dead_decay_identity(p: Pet, now: u64)
    requires
        !p.is_alive,
    ensures
        decayed(p, now) == p,
{
}

/// A live pet dies under decay exactly when at least one period has
/// elapsed and decay drives hunger or happiness to exactly zero.
pub proof fn lemma_death_iff_zero_stat(p: Pet, now: u64)
    requires
        p.is_alive,
    ensures
        !decayed(p, now).is_alive <==> decay_periods(p, now) > 0 && (decayed(p, now).hunger == 0
            || decayed(p, now).happiness == 0),
{
}

/// Liveness is a one-way latch under decay: a pet alive after decay was
/// alive before.
pub proof fn lemma_alive_latch(p: Pet, now: u64)
    ensures
        decayed(p, now).is_alive ==> p.is_alive,
{
}

/// Decay keeps every stat within `[0, MAX_STAT]`.
pub proof fn lemma_decay_preserves_wf(p: Pet, now: u64)
    requires
        p.wf(),
    ensures
        decayed(p, now).wf(),
{
}

/// The clamps saturate and never overshoot: a lowered stat stays in
/// `[0, x]`, a raised stat stays in `[x, MAX_STAT]`.
pub proof fn lemma_clamp_bounds(x: int, d: int)
    requires
        0 <= x <= MAX_STAT,
        d >= 0,
    ensures
        0 <= lowered(x, d) <= x,
        x <= raised(x, d) <= MAX_STAT,
{
}

/// Every action keeps the stats within `[0, MAX_STAT]`: increases
/// saturate at the cap, decreases at zero.
pub proof fn lemma_actions_preserve_wf(p: Pet, now: u64)
    requires
        p.wf(),
    ensures
        fed(p, now).wf(),
        played(p, now).wf(),
        slept(p, now).wf(),
        worked(p, now).wf(),
        with_glasses(p, now).wf(),
{
}

/// Actions never change who the pet is or whether it is alive, and the
/// glasses cosmetic never reverts: only minting touches it, and only to
/// set it.
pub proof fn lemma_actions_keep_identity(p: Pet, now: u64)
    ensures
        fed(p, now).is_alive == p.is_alive && fed(p, now).has_glasses == p.has_glasses,
        played(p, now).is_alive == p.is_alive && played(p, now).has_glasses == p.has_glasses,
        slept(p, now).is_alive == p.is_alive && slept(p, now).has_glasses == p.has_glasses,
        worked(p, now).is_alive == p.is_alive && worked(p, now).has_glasses == p.has_glasses,
        with_glasses(p, now).is_alive == p.is_alive && with_glasses(p, now).has_glasses,
{
}

/// The update timestamp never moves backwards under decay, and never
/// past the clock reading.
pub proof fn lemma_last_updated_monotone(p: Pet, now: u64)
    requires
        now >= p.last_updated,
    ensures
        p.last_updated <= decayed(p, now).last_updated <= now,
{
}

} // verus!
