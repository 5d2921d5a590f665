//! Camera feedback: additive shake magnitude with time-based decay, read by
//! an external camera collaborator. Any impact source stacks shake without a
//! cap; every tick damps it proportionally and subtracts a linear term.

use vstd::prelude::*;

verus! {

/// The single global camera-feedback record.
///
/// Units: shake channels are milli-units; `translational_strength` and
/// `falloff` are per-mille factors. Decay shrinks toward zero only when
/// `falloff` exceeds 1000 (a factor above 1.0).
pub struct CameraSettings {
    pub translational_shake: u64,
    pub rotational_shake: u64,
    pub translational_strength: u64,
    pub falloff: u64,
}

/// Sum of two shake magnitudes, saturating at the largest representable
/// value (the design puts no cap on stacked shake).
pub open spec fn shake_sum(a: u64, b: u64) -> int {
    if a + b > u64::MAX {
        u64::MAX as int
    } else {
        a + b
    }
}

/// One decay step: the magnitude is divided by the falloff factor and then
/// reduced by the elapsed time, stopping at zero.
pub open spec fn decayed(shake: int, falloff: u64, dt: u64) -> int {
    let damped = shake * 1000 / (falloff as int);
    if damped >= dt {
        damped - dt
    } else {
        0
    }
}

/// The shake magnitude after `n` idle decay ticks of `dt` milliseconds each.
pub open spec fn shake_after_idle(shake: int, falloff: u64, dt: u64, n: nat) -> int
    decreases n,
{
    if n == 0 {
        shake
    } else {
        decayed(shake_after_idle(shake, falloff, dt, (n - 1) as nat), falloff, dt)
    }
}

/// Damping by a falloff of at least 1.0 never grows the magnitude.
proof fn lemma_damped_le(s: int, f: u64)
    requires
        0 <= s,
        1000 <= f,
    ensures
        0 <= s * 1000 / (f as int) <= s,
{
    assert(0 <= s * 1000 / (f as int) <= s) by (nonlinear_arith)
        requires
            0 <= s,
            1000 <= f,
    ;
}

/// Damping by a falloff above 1.0 strictly shrinks a positive magnitude.
proof fn lemma_damped_lt(s: int, f: u64)
    requires
        1 <= s,
        1001 <= f,
    ensures
        0 <= s * 1000 / (f as int) < s,
{
    assert(0 <= s * 1000 / (f as int) < s) by (nonlinear_arith)
        requires
            1 <= s,
            1001 <= f,
    ;
}

/// After `n` idle ticks a magnitude of `s` has lost at least `n`, and it
/// never goes below zero.
proof fn lemma_shake_shrinks(s: int, falloff: u64, dt: u64, n: nat)
    requires
        0 <= s,
        falloff > 1000,
    ensures
        0 <= shake_after_idle(s, falloff, dt, n),
        shake_after_idle(s, falloff, dt, n) <= s - n || shake_after_idle(s, falloff, dt, n) == 0,
    decreases n,
{
    if n > 0 {
        lemma_shake_shrinks(s, falloff, dt, (n - 1) as nat);
        let prev = shake_after_idle(s, falloff, dt, (n - 1) as nat);
        if prev == 0 {
            lemma_damped_le(0, falloff);
        } else {
            lemma_damped_lt(prev, falloff);
        }
    }
}

/// Law: with a falloff factor above 1.0, idle decay ticks never take the
/// shake magnitude below zero, and enough of them — at most as many as the
/// magnitude itself — drive it to exactly zero, whatever the tick length.
pub proof fn lemma_shake_reaches_zero(shake: u64, falloff: u64, dt: u64, n: nat)
    requires
        falloff > 1000,
        n >= shake,
    ensures
        shake_after_idle(shake as int, falloff, dt, n) == 0,
        forall|k: nat| #![auto] shake_after_idle(shake as int, falloff, dt, k) >= 0,
{
    lemma_shake_shrinks(shake as int, falloff, dt, n);
    assert forall|k: nat| #![auto] shake_after_idle(shake as int, falloff, dt, k) >= 0 by {
        lemma_shake_shrinks(shake as int, falloff, dt, k);
    }
}

/// The camera feedback a new play session starts from.
pub open spec fn initial_camera() -> CameraSettings {
    CameraSettings {
        translational_shake: 0u64,
        rotational_shake: 0u64,
        translational_strength: 1_000u64,
        falloff: 1_100u64,
    }
}

impl CameraSettings {
    /// Well-formed feedback: the falloff factor exceeds 1.0, so decay is
    /// guaranteed to make progress (a falloff at or below 1.0 is a startup
    /// configuration error, not a runtime condition).
    pub open spec fn wf(self) -> bool {
        self.falloff > 1000
    }

    /// Default feedback: no shake, unit strength, a falloff factor of 1.1.
    pub fn new() -> (c: CameraSettings)
        ensures
            c == initial_camera(),
            c.wf(),
    {
        CameraSettings {
            translational_shake: 0,
            rotational_shake: 0,
            translational_strength: 1_000,
            falloff: 1_100,
        }
    }

    /// Feedback with a chosen falloff and strength, for startup
    /// configuration. Rejects a falloff at or below 1.0, under which decay
    /// could not shrink the shake.
    pub fn with_falloff(falloff: u64, translational_strength: u64) -> (c: Option<CameraSettings>)
        ensures
            falloff > 1000 <==> c is Some,
            c is Some ==> c->0 == (CameraSettings {
                translational_shake: 0u64,
                rotational_shake: 0u64,
                translational_strength,
                falloff,
            }) && c->0.wf(),
    {
        if falloff > 1000 {
            Some(CameraSettings {
                translational_shake: 0,
                rotational_shake: 0,
                translational_strength,
                falloff,
            })
        } else {
            None
        }
    }

    /// An impact: both shake channels grow additively by `value`, without a
    /// cap short of the representable range.
    pub fn add(&mut self, value: u64)
        ensures
            final(self).translational_shake == shake_sum(old(self).translational_shake, value),
            final(self).rotational_shake == shake_sum(old(self).rotational_shake, value),
            final(self).translational_strength == old(self).translational_strength,
            final(self).falloff == old(self).falloff,
    {
        self.translational_shake = if self.translational_shake <= u64::MAX - value {
            self.translational_shake + value
        } else {
            u64::MAX
        };
        self.rotational_shake = if self.rotational_shake <= u64::MAX - value {
            self.rotational_shake + value
        } else {
            u64::MAX
        };
    }

    /// Grows only the translational channel, as a held vacuum trigger does.
    pub fn add_translational(&mut self, value: u64)
        ensures
            final(self).translational_shake == shake_sum(old(self).translational_shake, value),
            final(self).rotational_shake == old(self).rotational_shake,
            final(self).translational_strength == old(self).translational_strength,
            final(self).falloff == old(self).falloff,
    {
        self.translational_shake = if self.translational_shake <= u64::MAX - value {
            self.translational_shake + value
        } else {
            u64::MAX
        };
    }

    /// One decay tick over `dt` milliseconds: each channel is divided by the
    /// falloff factor and reduced by `dt`, stopping at zero.
    pub fn tick(&mut self, dt: u64)
        requires
            old(self).wf(),
        ensures
            final(self).translational_shake == decayed(
                old(self).translational_shake as int,
                old(self).falloff,
                dt,
            ),
            final(self).rotational_shake == decayed(
                old(self).rotational_shake as int,
                old(self).falloff,
                dt,
            ),
            final(self).translational_strength == old(self).translational_strength,
            final(self).falloff == old(self).falloff,
            final(self).wf(),
    {
        proof {
            lemma_damped_le(self.translational_shake as int, self.falloff);
            lemma_damped_le(self.rotational_shake as int, self.falloff);
        }
        let damped_t: u128 = (self.translational_shake as u128) * 1000 / (self.falloff as u128);
        self.translational_shake = if damped_t >= dt as u128 {
            (damped_t - dt as u128) as u64
        } else {
            0
        };
        let damped_r: u128 = (self.rotational_shake as u128) * 1000 / (self.falloff as u128);
        self.rotational_shake = if damped_r >= dt as u128 {
            (damped_r - dt as u128) as u64
        } else {
            0
        };
    }
}

} // verus!
