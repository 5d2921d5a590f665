//! Player vitals and score: health with regeneration, capture-time and
//! movement multipliers, kill counter, and the regeneration-pause flag that
//! is set while an upgrade choice is pending.

use vstd::prelude::*;

verus! {

/// The single global record of player vitals and score.
///
/// Units: `max_health`, `health` and `regeneration` are milli-hit-points
/// (`regeneration` per second); `suck_time` is a duration in milliseconds;
/// `movement_speed` is in milli-units per second.
pub struct Stats {
    pub max_health: u64,
    pub health: u64,
    pub regeneration: u64,
    pub sucked_ghosts: u32,
    pub suck_time: u64,
    pub movement_speed: u64,
    pub reg_paused: bool,
}

/// One operation on the vitals, for stating laws about operation sequences.
pub enum StatsOp {
    /// A regeneration tick over `dt` milliseconds.
    Regenerate { dt: u64 },
    /// A hit for `amount` milli-hit-points.
    Damage { amount: u64 },
    /// A heal worth `permille` thousandths of the current maximum health.
    HealPercent { permille: u64 },
}

/// The mathematical effect of one vitals operation on well-formed stats.
pub open spec fn stats_apply(s: Stats, op: StatsOp) -> Stats {
    match op {
        StatsOp::Regenerate { dt } => {
            if s.reg_paused {
                s
            } else {
                let total = s.health + dt * s.regeneration / 1000;
                let h = if total > s.max_health {
                    s.max_health as int
                } else {
                    total
                };
                Stats { health: h as u64, ..s }
            }
        },
        StatsOp::Damage { amount } => {
            let h = if s.health >= amount {
                s.health - amount
            } else {
                0
            };
            Stats { health: h as u64, ..s }
        },
        StatsOp::HealPercent { permille } => {
            let total = s.health + s.max_health * permille / 1000;
            let h = if total > s.max_health {
                s.max_health as int
            } else {
                total
            };
            Stats { health: h as u64, ..s }
        },
    }
}

/// The result of applying a whole sequence of vitals operations in order.
pub open spec fn stats_apply_all(s: Stats, ops: Seq<StatsOp>) -> Stats
    decreases ops.len(),
{
    if ops.len() == 0 {
        s
    } else {
        stats_apply_all(stats_apply(s, ops[0]), ops.drop_first())
    }
}

/// The vitals a new play session starts from.
pub open spec fn initial_stats() -> Stats {
    Stats {
        max_health: 100_000u64,
        health: 100_000u64,
        regeneration: 1_000u64,
        sucked_ghosts: 0u32,
        suck_time: 500u64,
        movement_speed: 5_000u64,
        reg_paused: false,
    }
}

impl Stats {
    /// Well-formed vitals: the maximum is positive, health never exceeds it,
    /// and the capture duration is positive.
    pub open spec fn wf(self) -> bool {
        &&& 1 <= self.max_health
        &&& self.health <= self.max_health
        &&& 1 <= self.suck_time
    }

    /// Default vitals on (re)entry into a play session: 100 hit points of
    /// 100, regeneration of 1 hit point per second, a capture time of half a
    /// second, base movement speed of 5 units per second, nothing sucked yet
    /// and regeneration running.
    pub fn new() -> (s: Stats)
        ensures
            s == initial_stats(),
            s.wf(),
    {
        Stats {
            max_health: 100_000,
            health: 100_000,
            regeneration: 1_000,
            sucked_ghosts: 0,
            suck_time: 500,
            movement_speed: 5_000,
            reg_paused: false,
        }
    }

    /// Remaining health as a per-mille fraction of the maximum
    /// (1000 means unhurt, 0 means dead).
    pub fn normalized_health(&self) -> (r: u64)
        requires
            self.wf(),
        ensures
            r == self.health * 1000 / (self.max_health as int),
            r <= 1000,
    {
        let v: u128 = (self.health as u128) * 1000 / (self.max_health as u128);
        proof {
            assert(self.health * 1000 / (self.max_health as int) <= 1000) by (nonlinear_arith)
                requires
                    1 <= self.max_health,
                    self.health <= self.max_health,
            ;
        }
        v as u64
    }

    /// A regeneration tick: while regeneration is not paused, health grows by
    /// `dt` milliseconds' worth of the regeneration rate, clamped to the
    /// maximum. While it is paused the call changes nothing.
    pub fn regenerate(&mut self, dt: u64)
        requires
            old(self).wf(),
        ensures
            *final(self) == stats_apply(*old(self), StatsOp::Regenerate { dt }),
            final(self).wf(),
    {
        if !self.reg_paused {
            proof {
                crate::lemma_u64_mul_fits_u128(dt, self.regeneration);
            }
            let gain: u128 = (dt as u128) * (self.regeneration as u128) / 1000;
            let total: u128 = (self.health as u128) + gain;
            if total > self.max_health as u128 {
                self.health = self.max_health;
            } else {
                self.health = total as u64;
            }
        }
    }

    /// A hit: health drops by `amount`, stopping at zero.
    pub fn take_damage(&mut self, amount: u64)
        requires
            old(self).wf(),
        ensures
            *final(self) == stats_apply(*old(self), StatsOp::Damage { amount }),
            final(self).wf(),
    {
        if self.health >= amount {
            self.health = self.health - amount;
        } else {
            self.health = 0;
        }
    }

    /// Heals `permille` thousandths of the current maximum health, clamped to
    /// the maximum.
    pub fn add_health_percent(&mut self, permille: u64)
        requires
            old(self).wf(),
        ensures
            *final(self) == stats_apply(*old(self), StatsOp::HealPercent { permille }),
            final(self).wf(),
    {
        proof {
            crate::lemma_u64_mul_fits_u128(self.max_health, permille);
        }
        let gain: u128 = (self.max_health as u128) * (permille as u128) / 1000;
        let total: u128 = (self.health as u128) + gain;
        if total > self.max_health as u128 {
            self.health = self.max_health;
        } else {
            self.health = total as u64;
        }
    }

    /// The externally observed player-death condition: health has reached
    /// zero. The outer game-state transition is the caller's business.
    pub fn is_dead(&self) -> (r: bool)
        ensures
            r == (self.health == 0),
    {
        self.health == 0
    }
}

/// Law: after any sequence of regenerate, damage and heal operations applied
/// to well-formed vitals, `0 <= health <= max_health` still holds (health is
/// unsigned, so the lower bound is the upper bound on the drop).
pub proof fn lemma_health_stays_bounded(s: Stats, ops: Seq<StatsOp>)
    requires
        s.wf(),
    ensures
        stats_apply_all(s, ops).wf(),
        stats_apply_all(s, ops).health <= stats_apply_all(s, ops).max_health,
    decreases ops.len(),
{
    if ops.len() > 0 {
        lemma_health_stays_bounded(stats_apply(s, ops[0]), ops.drop_first());
    }
}

} // verus!
