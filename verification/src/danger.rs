//! Danger level: a weighted blend of missing health and on-screen threat
//! density that the audio collaborator uses to crossfade between a calm and
//! a tense track.

use vstd::prelude::*;

verus! {

/// The single global danger-level record.
///
/// `remaining_health` and `ghosts_on_screen` are per-mille fractions (of the
/// maximum health and of the wave quota); the weights are small blend
/// factors; the threshold pair brackets the crossfade band in per-mille.
pub struct DangerLevel {
    pub remaining_health: u64,
    pub ghosts_on_screen: u64,
    pub health_weight: u64,
    pub ghost_weight: u64,
    pub base_to_medium_threshold: (u64, u64),
}

/// Which way the audio crossfade moves for a given danger level.
#[derive(Clone, Copy, Debug, PartialEq, Eq, Structural)]
pub enum MixShift {
    /// Danger is past both thresholds: fade the tense track in.
    TowardMedium,
    /// Danger is under both thresholds: fade the calm track in.
    TowardBase,
    /// Danger sits between the thresholds: leave the mix as it is.
    Hold,
}

/// The normalized danger level with weights applied, in per-mille: missing
/// health and threat density, each weighted, divided by the total weight.
pub open spec fn danger_of(d: DangerLevel) -> int {
    let missing = if d.remaining_health >= 1000 {
        0int
    } else {
        1000 - d.remaining_health
    };
    (missing * d.health_weight + d.ghosts_on_screen * d.ghost_weight) / (d.health_weight
        + d.ghost_weight)
}

impl DangerLevel {
    /// Well-formed record: the blend weights are small and not both zero.
    pub open spec fn wf(self) -> bool {
        &&& 1 <= self.health_weight + self.ghost_weight
        &&& self.health_weight <= 1000
        &&& self.ghost_weight <= 1000
    }

    /// The defaults: full health, no threats, missing health weighted twice
    /// as heavily as threat density, and a crossfade band of 32.0% to 35.0%.
    pub fn new() -> (d: DangerLevel)
        ensures
            d == (DangerLevel {
                remaining_health: 1000u64,
                ghosts_on_screen: 0u64,
                health_weight: 2u64,
                ghost_weight: 1u64,
                base_to_medium_threshold: (320u64, 350u64),
            }),
            d.wf(),
    {
        DangerLevel {
            remaining_health: 1000,
            ghosts_on_screen: 0,
            health_weight: 2,
            ghost_weight: 1,
            base_to_medium_threshold: (320, 350),
        }
    }

    /// Records this tick's inputs: remaining health and on-screen threat
    /// density, both in per-mille.
    pub fn update(&mut self, remaining_health: u64, ghosts_on_screen: u64)
        ensures
            *final(self) == (DangerLevel { remaining_health, ghosts_on_screen, ..*old(self) }),
    {
        self.remaining_health = remaining_health;
        self.ghosts_on_screen = ghosts_on_screen;
    }

    /// The normalized danger level with weights applied, in per-mille.
    pub fn danger_level(&self) -> (r: u64)
        requires
            self.wf(),
        ensures
            r == danger_of(*self),
    {
        let missing: u64 = if self.remaining_health >= 1000 {
            0
        } else {
            1000 - self.remaining_health
        };
        proof {
            assert(self.ghosts_on_screen * self.ghost_weight <= u64::MAX * 1000) by (
            nonlinear_arith)
                requires
                    self.ghosts_on_screen <= u64::MAX,
                    self.ghost_weight <= 1000,
            ;
            assert(missing * self.health_weight <= 1000000) by (nonlinear_arith)
                requires
                    missing <= 1000,
                    self.health_weight <= 1000,
            ;
            assert((missing * self.health_weight + self.ghosts_on_screen * self.ghost_weight) / (
            self.health_weight + self.ghost_weight) <= u64::MAX) by (nonlinear_arith)
                requires
                    0 <= missing <= u64::MAX,
                    0 <= self.ghosts_on_screen <= u64::MAX,
                    0 <= self.health_weight,
                    0 <= self.ghost_weight,
                    1 <= self.health_weight + self.ghost_weight,
            ;
        }
        let num: u128 = (missing as u128) * (self.health_weight as u128) + (self.ghosts_on_screen
            as u128) * (self.ghost_weight as u128);
        let r: u128 = num / ((self.health_weight + self.ghost_weight) as u128);
        r as u64
    }

    /// The crossfade decision for the current danger level: past the whole
    /// band the tense track fades in, under it the calm track fades in, and
    /// inside the band the two adjustments cancel and the mix holds.
    pub fn mix_shift(&self) -> (r: MixShift)
        requires
            self.wf(),
        ensures
            r == (if danger_of(*self) > self.base_to_medium_threshold.0 && !(danger_of(*self)
                < self.base_to_medium_threshold.1) {
                MixShift::TowardMedium
            } else if !(danger_of(*self) > self.base_to_medium_threshold.0) && danger_of(*self)
                < self.base_to_medium_threshold.1 {
                MixShift::TowardBase
            } else {
                MixShift::Hold
            }),
    {
        let danger = self.danger_level();
        let up = danger > self.base_to_medium_threshold.0;
        let down = danger < self.base_to_medium_threshold.1;
        if up && !down {
            MixShift::TowardMedium
        } else if !up && down {
            MixShift::TowardBase
        } else {
            MixShift::Hold
        }
    }
}

/// On-screen threat density: the live threat count as a per-mille fraction
/// of the wave quota. Live threats never outnumber the quota, since each was
/// spawned against it.
pub fn ghost_fraction(alive: usize, wave_size: u32) -> (r: u64)
    requires
        1 <= wave_size,
        alive <= wave_size,
    ensures
        r == alive * 1000 / (wave_size as int),
        r <= 1000,
{
    let v: u128 = (alive as u128) * 1000 / (wave_size as u128);
    proof {
        assert(alive * 1000 / (wave_size as int) <= 1000) by (nonlinear_arith)
            requires
                1 <= wave_size,
                alive <= wave_size,
        ;
    }
    v as u64
}

} // verus!
