//! Wave-based spawning of threat entities: a repeating interval timer
//! produces at most one threat per tick while the wave's quota is unmet,
//! eliminations are counted, a full quota ends the wave, and difficulty
//! escalates once per picked upgrade.

use vstd::prelude::*;

use crate::scale_per_mille;
use crate::scaled;

verus! {

/// A repeating interval timer, advanced by elapsed milliseconds. With a zero
/// duration it fires on every tick.
pub struct RepeatTimer {
    pub elapsed: u64,
    pub duration: u64,
}

/// Whether advancing `t` by `dt` milliseconds completes its interval.
pub open spec fn timer_fires(t: RepeatTimer, dt: u64) -> bool {
    t.duration == 0 || t.elapsed + dt >= t.duration
}

/// The timer after advancing by `dt`: the elapsed time grows, and on firing
/// the overshoot beyond the interval is kept.
pub open spec fn timer_after(t: RepeatTimer, dt: u64) -> RepeatTimer {
    if t.duration == 0 {
        RepeatTimer { elapsed: 0, ..t }
    } else if t.elapsed + dt >= t.duration {
        RepeatTimer { elapsed: ((t.elapsed + dt) % (t.duration as int)) as u64, ..t }
    } else {
        RepeatTimer { elapsed: (t.elapsed + dt) as u64, ..t }
    }
}

impl RepeatTimer {
    /// Well-formed timer: the elapsed time stays below the interval between
    /// ticks (and is zero when the interval is zero).
    pub open spec fn wf(self) -> bool {
        if self.duration == 0 {
            self.elapsed == 0
        } else {
            self.elapsed < self.duration
        }
    }

    /// A fresh timer with an interval of `duration` milliseconds.
    pub fn new(duration: u64) -> (t: RepeatTimer)
        ensures
            t == (RepeatTimer { elapsed: 0u64, duration }),
            t.wf(),
    {
        RepeatTimer { elapsed: 0, duration }
    }

    /// Advances the timer by `dt` milliseconds and reports whether the
    /// interval completed during this tick.
    pub fn tick(&mut self, dt: u64) -> (fired: bool)
        requires
            old(self).wf(),
        ensures
            fired == timer_fires(*old(self), dt),
            *final(self) == timer_after(*old(self), dt),
            final(self).wf(),
    {
        if self.duration == 0 {
            self.elapsed = 0;
            true
        } else {
            let total: u128 = self.elapsed as u128 + dt as u128;
            if total >= self.duration as u128 {
                self.elapsed = (total % (self.duration as u128)) as u64;
                true
            } else {
                self.elapsed = total as u64;
                false
            }
        }
    }
}

/// The quota a wave grows to at escalation: about a tenth more, saturating
/// at the representable range.
pub open spec fn grown_quota(w: u32) -> int {
    let v = w * 11 / 10;
    if v > u32::MAX {
        u32::MAX as int
    } else {
        v
    }
}

/// The single global wave-spawning record.
///
/// Units: `current_time_between_ghosts` is milliseconds, `damage` is
/// milli-hit-points, `speed` is milli-units per second.
pub struct GhostSpawnConfig {
    pub timer: RepeatTimer,
    pub current_time_between_ghosts: u64,
    pub damage: u64,
    pub speed: u64,
    pub wave_size: u32,
    pub spawned_ghosts: u32,
    pub eliminated_ghosts: u32,
    pub current_wave: u32,
}

/// The configuration after one escalation: the quota grows by about a tenth,
/// the spawned count restarts, damage and speed grow by a tenth, the spawn
/// interval shrinks by a tenth, the timer restarts with the new interval and
/// the wave number advances. Eliminations are untouched.
pub open spec fn escalated(c: GhostSpawnConfig) -> GhostSpawnConfig {
    GhostSpawnConfig {
        timer: RepeatTimer {
            elapsed: 0u64,
            duration: scaled(c.current_time_between_ghosts, 900) as u64,
        },
        current_time_between_ghosts: scaled(c.current_time_between_ghosts, 900) as u64,
        damage: scaled(c.damage, 1100) as u64,
        speed: scaled(c.speed, 1100) as u64,
        wave_size: grown_quota(c.wave_size) as u32,
        spawned_ghosts: 0u32,
        eliminated_ghosts: c.eliminated_ghosts,
        current_wave: (c.current_wave + 1) as u32,
    }
}

/// The spawn configuration a new play session starts from.
pub open spec fn initial_config() -> GhostSpawnConfig {
    GhostSpawnConfig {
        timer: RepeatTimer { elapsed: 0u64, duration: 800u64 },
        current_time_between_ghosts: 800u64,
        damage: 8_000u64,
        speed: 2_000u64,
        wave_size: 25u32,
        spawned_ghosts: 0u32,
        eliminated_ghosts: 0u32,
        current_wave: 1u32,
    }
}

impl GhostSpawnConfig {
    /// Well-formed configuration: the quota is positive (a quota of zero is a
    /// startup validation failure), neither counter outruns the quota, the
    /// timer is sound and its interval is the configured time between
    /// spawns.
    pub open spec fn wf(self) -> bool {
        &&& 1 <= self.wave_size
        &&& self.eliminated_ghosts <= self.wave_size
        &&& self.spawned_ghosts <= self.wave_size
        &&& self.timer.wf()
        &&& self.timer.duration == self.current_time_between_ghosts
    }

    /// The configuration a new play session starts from: a spawn every
    /// 800 milliseconds, 8 hit points of contact damage, a speed of 2 units
    /// per second, a quota of 25, and wave number 1.
    pub fn new() -> (c: GhostSpawnConfig)
        ensures
            c == initial_config(),
            c.wf(),
    {
        GhostSpawnConfig {
            timer: RepeatTimer::new(800),
            current_time_between_ghosts: 800,
            damage: 8_000,
            speed: 2_000,
            wave_size: 25,
            spawned_ghosts: 0,
            eliminated_ghosts: 0,
            current_wave: 1,
        }
    }

    /// The current wave's elimination quota.
    pub fn wave_size(&self) -> (r: u32)
        ensures
            r == self.wave_size,
    {
        self.wave_size
    }

    /// The current wave number, starting at 1.
    pub fn current_wave(&self) -> (r: u32)
        ensures
            r == self.current_wave,
    {
        self.current_wave
    }

    /// Counts one eliminated threat. The caller owes that the threat was
    /// alive, which keeps the count within the quota: eliminations only ever
    /// come from entities spawned in the current cycle.
    pub fn eliminate_ghost(&mut self)
        requires
            old(self).wf(),
            old(self).eliminated_ghosts < old(self).wave_size,
        ensures
            *final(self) == (GhostSpawnConfig {
                eliminated_ghosts: (old(self).eliminated_ghosts + 1) as u32,
                ..*old(self)
            }),
            final(self).wf(),
    {
        self.eliminated_ghosts = self.eliminated_ghosts + 1;
    }

    /// Advances the spawn-interval timer by `dt` milliseconds and decides
    /// whether a threat spawns this tick: only on a completed interval while
    /// the quota is unmet. A met quota is not an error — the timer still
    /// advances and no entity is produced.
    pub fn tick_spawn(&mut self, dt: u64) -> (spawn: bool)
        requires
            old(self).wf(),
        ensures
            spawn == (timer_fires(old(self).timer, dt) && old(self).spawned_ghosts < old(
                self,
            ).wave_size),
            *final(self) == (GhostSpawnConfig {
                timer: timer_after(old(self).timer, dt),
                spawned_ghosts: if spawn {
                    (old(self).spawned_ghosts + 1) as u32
                } else {
                    old(self).spawned_ghosts
                },
                ..*old(self)
            }),
            final(self).wf(),
    {
        let fired = self.timer.tick(dt);
        if fired && self.spawned_ghosts < self.wave_size {
            self.spawned_ghosts = self.spawned_ghosts + 1;
            true
        } else {
            false
        }
    }

    /// Whether the wave just ended: a count of eliminations equal to the
    /// quota emits one wave end and resets the elimination count to zero;
    /// the spawned count is left unchanged until the next escalation.
    pub fn check_wave_end(&mut self) -> (ended: bool)
        requires
            old(self).wf(),
        ensures
            ended == (old(self).eliminated_ghosts == old(self).wave_size),
            *final(self) == (GhostSpawnConfig {
                eliminated_ghosts: if ended {
                    0u32
                } else {
                    old(self).eliminated_ghosts
                },
                ..*old(self)
            }),
            final(self).wf(),
    {
        if self.eliminated_ghosts == self.wave_size {
            self.eliminated_ghosts = 0;
            true
        } else {
            false
        }
    }

    /// Escalation, once per picked upgrade: the quota grows by about a
    /// tenth, the spawned count restarts, contact damage and speed grow by a
    /// tenth, the spawn interval shrinks by a tenth (no floor is enforced on
    /// it, nor a ceiling on the quota or rates — difficulty growth is
    /// unbounded by design), the timer restarts with the new interval, and
    /// the wave number advances.
    pub fn escalate(&mut self)
        requires
            old(self).wf(),
            old(self).current_wave < u32::MAX,
        ensures
            *final(self) == escalated(*old(self)),
            final(self).wf(),
    {
        proof {
            assert(grown_quota(self.wave_size) >= self.wave_size) by (nonlinear_arith)
                requires
                    1 <= self.wave_size <= u32::MAX,
            ;
        }
        let w: u64 = (self.wave_size as u64) * 11 / 10;
        self.wave_size = if w > u32::MAX as u64 {
            u32::MAX
        } else {
            w as u32
        };
        self.spawned_ghosts = 0;
        self.damage = scale_per_mille(self.damage, 1100);
        self.speed = scale_per_mille(self.speed, 1100);
        self.current_time_between_ghosts = scale_per_mille(self.current_time_between_ghosts, 900);
        self.timer = RepeatTimer::new(self.current_time_between_ghosts);
        self.current_wave = self.current_wave + 1;
    }
}

/// Law: a wave end fires exactly once per quota cycle — right after the
/// check that fired and reset the count, an immediate second check cannot
/// fire again without further eliminations.
pub proof fn lemma_wave_end_fires_once(c: GhostSpawnConfig)
    requires
        c.wf(),
        c.eliminated_ghosts == c.wave_size,
    ensures
        (GhostSpawnConfig { eliminated_ghosts: 0u32, ..c }).eliminated_ghosts != (GhostSpawnConfig {
            eliminated_ghosts: 0u32,
            ..c
        }).wave_size,
{
}

} // verus!
