//! Simulation core of an arcade vacuum game: a player sucks up waves of
//! hostile ghosts while difficulty escalates and periodic upgrades are
//! offered.
//!
//! The crate covers the threat lifecycle — wave-based spawning and difficulty
//! scaling, collision-event classification, the per-entity suction (capture)
//! state machine, player vitals and camera-feedback bookkeeping, and the
//! upgrade-selection flow that ties them together. Rendering, audio, input
//! capture and the physics engine's geometric detection are external
//! collaborators; the core consumes only discrete contact notifications and
//! plain elapsed-time ticks.
//!
//! All quantities are fixed-point integers:
//! - durations and elapsed time are in milliseconds;
//! - health, damage and regeneration are in milli-hit-points
//!   (regeneration per second);
//! - speeds are in milli-units per second;
//! - multipliers, fractions and visual scales are in per-mille
//!   (1000 stands for 1.0).

use vstd::prelude::*;

pub mod camera;
pub mod collision_events;
pub mod danger;
pub mod enemy_spawner;
pub mod events;
pub mod game;
pub mod rng;
pub mod stats;
pub mod suction;
pub mod upgrade;

verus! {

/// Mathematical value of scaling `x` by the per-mille factor `m`, saturating
/// at the largest representable value.
pub open spec fn scaled(x: u64, m: u64) -> int {
    let v = x * m / 1000;
    if v > u64::MAX { u64::MAX as int } else { v }
}

/// Clamps a mathematical value into the 64-bit range from above.
pub open spec fn sat_u64(x: int) -> int {
    if x > u64::MAX {
        u64::MAX as int
    } else {
        x
    }
}

/// Clamps a mathematical value into the 32-bit range from above.
pub open spec fn sat_u32(x: int) -> int {
    if x > u32::MAX {
        u32::MAX as int
    } else {
        x
    }
}

/// The product of two values that fit in 64 bits fits in 128 bits.
pub proof fn lemma_u64_mul_fits_u128(x: u64, m: u64)
    ensures
        x * m <= u128::MAX,
{
    assert(x * m <= u128::MAX) by (nonlinear_arith)
        requires
            x <= u64::MAX,
            m <= u64::MAX,
    ;
}

/// Scales `x` by the per-mille factor `m` (1000 stands for 1.0), rounding
/// down and saturating at `u64::MAX`.
pub fn scale_per_mille(x: u64, m: u64) -> (r: u64)
    ensures
        r == scaled(x, m),
{
    proof {
        lemma_u64_mul_fits_u128(x, m);
    }
    let v: u128 = (x as u128) * (m as u128) / 1000;
    if v > u64::MAX as u128 {
        u64::MAX
    } else {
        v as u64
    }
}

} // verus!
