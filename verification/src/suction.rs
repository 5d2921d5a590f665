//! Per-entity suction (capture) state machine: a suckable entity is Free
//! until a nozzle contact starts a countdown, shrinks while Capturing, and on
//! timer completion emits a single capture event and becomes Captured
//! (terminal; the entity is removed right after). A stop contact before
//! completion cancels the capture and restores the visual scale.

use vstd::prelude::*;

verus! {

/// The capture state of one suckable entity. Times are milliseconds.
#[derive(Clone, Copy, Debug, PartialEq, Eq, Structural)]
pub enum SuctionState {
    /// No timer: the entity reacts to normal contact rules.
    Free,
    /// A countdown is running; its mere presence marks the entity as being
    /// captured.
    Capturing { remaining: u64, duration: u64 },
    /// The countdown completed; terminal.
    Captured,
}

/// One input to the state machine.
#[derive(Clone, Copy, Debug, PartialEq, Eq, Structural)]
pub enum SuctionOp {
    /// Nozzle contact began; a fresh countdown of `duration` milliseconds.
    Start { duration: u64 },
    /// Nozzle contact ended.
    Stop,
    /// `dt` milliseconds of simulation time passed.
    Tick { dt: u64 },
}

/// One transition: the next state, and whether a capture event is emitted.
pub open spec fn suction_step(s: SuctionState, op: SuctionOp) -> (SuctionState, bool) {
    match op {
        SuctionOp::Start { duration } => {
            match s {
                SuctionState::Captured => (s, false),
                _ => (SuctionState::Capturing { remaining: duration, duration }, false),
            }
        },
        SuctionOp::Stop => {
            match s {
                SuctionState::Capturing { .. } => (SuctionState::Free, false),
                _ => (s, false),
            }
        },
        SuctionOp::Tick { dt } => {
            match s {
                SuctionState::Capturing { remaining, duration } => {
                    if dt >= remaining {
                        (SuctionState::Captured, true)
                    } else {
                        (
                            SuctionState::Capturing {
                                remaining: (remaining - dt) as u64,
                                duration,
                            },
                            false,
                        )
                    }
                },
                _ => (s, false),
            }
        },
    }
}

/// A whole run: the final state and how many capture events were emitted.
pub open spec fn suction_run(s: SuctionState, ops: Seq<SuctionOp>) -> (SuctionState, nat)
    decreases ops.len(),
{
    if ops.len() == 0 {
        (s, 0nat)
    } else {
        let head = suction_step(s, ops[0]);
        let rest = suction_run(head.0, ops.drop_first());
        (rest.0, (if head.1 { 1nat } else { 0nat }) + rest.1)
    }
}

/// The visual scale of an entity in state `s`, in per-mille of its rest
/// size: full size while Free, the fraction of time remaining while
/// Capturing, zero once Captured.
pub open spec fn scale_of(s: SuctionState) -> int {
    match s {
        SuctionState::Free => 1000,
        SuctionState::Capturing { remaining, duration } => remaining * 1000 / (duration as int),
        SuctionState::Captured => 0,
    }
}

/// True when every operation is a time tick.
pub open spec fn all_ticks(ops: Seq<SuctionOp>) -> bool {
    forall|i: int| 0 <= i < ops.len() ==> ops[i] is Tick
}

/// The total time advanced by a sequence of tick operations.
pub open spec fn total_dt(ops: Seq<SuctionOp>) -> int
    decreases ops.len(),
{
    if ops.len() == 0 {
        0
    } else {
        (match ops[0] {
            SuctionOp::Tick { dt } => dt as int,
            _ => 0,
        }) + total_dt(ops.drop_first())
    }
}

impl SuctionState {
    /// Well-formed state: a running countdown is positive and never exceeds
    /// its duration.
    pub open spec fn wf(self) -> bool {
        match self {
            SuctionState::Capturing { remaining, duration } => {
                1 <= remaining <= duration
            },
            _ => true,
        }
    }

    /// Nozzle contact began: a Free entity enters Capturing with a fresh
    /// countdown of `duration` milliseconds; a contact on an entity already
    /// Capturing restarts its countdown; a Captured entity is already gone
    /// and nothing changes.
    pub fn on_suck_start(&mut self, duration: u64)
        requires
            old(self).wf(),
            1 <= duration,
        ensures
            *final(self) == suction_step(*old(self), SuctionOp::Start { duration }).0,
            !suction_step(*old(self), SuctionOp::Start { duration }).1,
            final(self).wf(),
    {
        match self {
            SuctionState::Captured => {},
            _ => {
                *self = SuctionState::Capturing { remaining: duration, duration };
            },
        }
    }

    /// Nozzle contact ended: a Capturing entity loses its countdown and
    /// returns to Free (its scale is thereby back at 1.0); on a Free entity
    /// the call is an idempotent no-op; a Captured entity is already gone.
    pub fn on_suck_stop(&mut self)
        requires
            old(self).wf(),
        ensures
            *final(self) == suction_step(*old(self), SuctionOp::Stop).0,
            !suction_step(*old(self), SuctionOp::Stop).1,
            final(self).wf(),
    {
        match self {
            SuctionState::Capturing { .. } => {
                *self = SuctionState::Free;
            },
            _ => {},
        }
    }

    /// A time tick of `dt` milliseconds: a running countdown advances, and on
    /// reaching zero the state becomes Captured and the single capture event
    /// is emitted (`true`). Free and Captured states are unaffected by time.
    pub fn tick(&mut self, dt: u64) -> (captured: bool)
        requires
            old(self).wf(),
        ensures
            *final(self) == suction_step(*old(self), SuctionOp::Tick { dt }).0,
            captured == suction_step(*old(self), SuctionOp::Tick { dt }).1,
            final(self).wf(),
    {
        match self {
            SuctionState::Capturing { remaining, duration } => {
                if dt >= *remaining {
                    *self = SuctionState::Captured;
                    true
                } else {
                    *remaining = *remaining - dt;
                    false
                }
            },
            _ => false,
        }
    }

    /// Whether a countdown is running. Its mere presence marks the entity as
    /// being captured, and the physics collaborator then takes the entity
    /// out of the normal contact rules: it can touch only the nozzle until
    /// the capture completes or is cancelled.
    pub fn is_capturing(&self) -> (r: bool)
        ensures
            r == (self is Capturing),
    {
        match self {
            SuctionState::Capturing { .. } => true,
            _ => false,
        }
    }

    /// The visual scale in per-mille of the rest size: 1000 while Free,
    /// the fraction of capture time remaining while Capturing, 0 once
    /// Captured.
    pub fn scale(&self) -> (r: u64)
        requires
            self.wf(),
        ensures
            r == scale_of(*self),
            r <= 1000,
    {
        match self {
            SuctionState::Free => 1000,
            SuctionState::Capturing { remaining, duration } => {
                let v: u128 = (*remaining as u128) * 1000 / (*duration as u128);
                proof {
                    assert(*remaining * 1000 / (*duration as int) <= 1000) by (nonlinear_arith)
                        requires
                            1 <= *duration,
                            *remaining <= *duration,
                    ;
                }
                v as u64
            },
            SuctionState::Captured => 0,
        }
    }
}

/// A transition from a sound state is sound, as long as a start carries a
/// positive duration.
pub proof fn lemma_step_preserves_wf(s: SuctionState, op: SuctionOp)
    requires
        s.wf(),
        op is Start ==> op->Start_duration >= 1,
    ensures
        suction_step(s, op).0.wf(),
{
}

/// A run distributes over concatenation: the second leg starts where the
/// first ended, and emission counts add.
proof fn lemma_run_append(s: SuctionState, a: Seq<SuctionOp>, b: Seq<SuctionOp>)
    ensures
        suction_run(s, a + b).0 == suction_run(suction_run(s, a).0, b).0,
        suction_run(s, a + b).1 == suction_run(s, a).1 + suction_run(suction_run(s, a).0, b).1,
    decreases a.len(),
{
    if a.len() == 0 {
        assert(a + b =~= b);
    } else {
        let head = suction_step(s, a[0]);
        assert((a + b)[0] == a[0]);
        assert((a + b).drop_first() =~= a.drop_first() + b);
        lemma_run_append(head.0, a.drop_first(), b);
    }
}

/// Ticks that do not exhaust a running countdown keep the entity Capturing,
/// reduce the countdown by exactly the elapsed time, and emit nothing.
proof fn lemma_ticks_keep_capturing(remaining: u64, duration: u64, ticks: Seq<SuctionOp>)
    requires
        1 <= remaining <= duration,
        all_ticks(ticks),
        total_dt(ticks) < remaining,
    ensures
        suction_run(SuctionState::Capturing { remaining, duration }, ticks).0
            == (SuctionState::Capturing {
                remaining: (remaining - total_dt(ticks)) as u64,
                duration,
            }),
        suction_run(SuctionState::Capturing { remaining, duration }, ticks).1 == 0,
    decreases ticks.len(),
{
    if ticks.len() > 0 {
        let dt = ticks[0]->Tick_dt;
        assert(total_dt(ticks.drop_first()) >= 0) by {
            lemma_total_dt_nonneg(ticks.drop_first());
        }
        lemma_ticks_keep_capturing(
            (remaining - dt) as u64,
            duration,
            ticks.drop_first(),
        );
    }
}

/// The total time of a tick sequence is never negative.
proof fn lemma_total_dt_nonneg(ops: Seq<SuctionOp>)
    ensures
        total_dt(ops) >= 0,
    decreases ops.len(),
{
    if ops.len() > 0 {
        lemma_total_dt_nonneg(ops.drop_first());
    }
}

/// Law: a capture begun on a free entity and stopped before its countdown
/// completes emits no capture event anywhere in the run, and the entity ends
/// Free with its visual scale back at exactly 1.0.
pub proof fn lemma_stop_before_completion(duration: u64, ticks: Seq<SuctionOp>)
    requires
        1 <= duration,
        all_ticks(ticks),
        total_dt(ticks) < duration,
    ensures
        ({
            let ops = seq![SuctionOp::Start { duration }] + ticks + seq![SuctionOp::Stop];
            let run = suction_run(SuctionState::Free, ops);
            run.0 is Free && run.1 == 0 && scale_of(run.0) == 1000
        }),
{
    let start = seq![SuctionOp::Start { duration }];
    let stop = seq![SuctionOp::Stop];
    let capturing = SuctionState::Capturing { remaining: duration, duration };
    assert(start.len() == 1 && start[0] == SuctionOp::Start { duration });
    assert(start.drop_first() =~= Seq::<SuctionOp>::empty());
    assert(suction_step(SuctionState::Free, start[0]) == (capturing, false));
    assert(suction_run(capturing, start.drop_first()) == (capturing, 0nat));
    assert(suction_run(SuctionState::Free, start) == (capturing, 0nat));
    lemma_total_dt_nonneg(ticks);
    lemma_ticks_keep_capturing(duration, duration, ticks);
    let after_ticks = suction_run(capturing, ticks).0;
    assert(stop.len() == 1 && stop[0] == SuctionOp::Stop);
    assert(stop.drop_first() =~= Seq::<SuctionOp>::empty());
    assert(suction_step(after_ticks, SuctionOp::Stop) == (SuctionState::Free, false));
    assert(suction_run(SuctionState::Free, stop.drop_first()) == (SuctionState::Free, 0nat));
    assert(suction_run(after_ticks, stop) == (SuctionState::Free, 0nat));
    lemma_run_append(SuctionState::Free, start, ticks + stop);
    assert(start + (ticks + stop) =~= start + ticks + stop);
    lemma_run_append(capturing, ticks, stop);
}

/// Law: one entity never emits more than one capture event — over any
/// operation sequence the emission count is exactly one when a run that did
/// not begin Captured ends Captured, and zero otherwise.
pub proof fn lemma_captured_at_most_once(s: SuctionState, ops: Seq<SuctionOp>)
    ensures
        suction_run(s, ops).1 == if !(s is Captured) && suction_run(s, ops).0 is Captured {
            1nat
        } else {
            0nat
        },
        suction_run(s, ops).1 <= 1,
        s is Captured ==> suction_run(s, ops).0 is Captured,
    decreases ops.len(),
{
    if ops.len() > 0 {
        let head = suction_step(s, ops[0]);
        lemma_captured_at_most_once(head.0, ops.drop_first());
        assert(suction_run(s, ops).0 == suction_run(head.0, ops.drop_first()).0);
        assert(suction_run(s, ops).1 == (if head.1 {
            1nat
        } else {
            0nat
        }) + suction_run(head.0, ops.drop_first()).1);
        if s is Captured {
            assert(head.0 is Captured && !head.1);
        } else if head.1 {
            assert(head.0 is Captured);
        } else {
            assert(!(head.0 is Captured));
        }
    }
}

} // verus!
