//! The owned game state threaded through each per-tick system call: the
//! three global records (vitals, camera feedback, spawn configuration), the
//! live threats and upgrade pickups, the nozzle's enabled flag and the id
//! source for spawned entities. One discrete simulation tick drives every
//! component; event queues are produced and drained once per tick.

use vstd::prelude::*;

use crate::camera::CameraSettings;
use crate::camera::initial_camera;
use crate::camera::decayed;
use crate::camera::shake_sum;
use crate::enemy_spawner::GhostSpawnConfig;
use crate::enemy_spawner::escalated;
use crate::enemy_spawner::initial_config;
use crate::enemy_spawner::timer_after;
use crate::enemy_spawner::timer_fires;
use crate::collision_events::CollideWithPlayer;
use crate::collision_events::SuckEvent;
use crate::events::DamageEvent;
use crate::events::Sucked;
use crate::events::VacuumEvent;
use crate::events::PickedUpgrade;
use crate::events::PlayerDied;
use crate::events::WaveEnd;
use crate::collision_events::Contact;
use crate::collision_events::handle_collisions;
use crate::collision_events::player_hits_of;
use crate::collision_events::suck_events_of;
use crate::stats::Stats;
use crate::stats::StatsOp;
use crate::stats::initial_stats;
use crate::stats::stats_apply;
use crate::suction::SuctionOp;
use crate::suction::SuctionState;
use crate::suction::suction_step;
use crate::rng::random_u32;
use crate::upgrade::Upgrade;
use crate::upgrade::upgrade_applied;

verus! {

/// One live hostile entity: its contact damage in milli-hit-points, its
/// movement speed in milli-units per second, and its capture state.
#[derive(Clone, Copy, Debug, PartialEq, Eq, Structural)]
pub struct Threat {
    pub id: u64,
    pub damage: u64,
    pub speed: u64,
    pub suction: SuctionState,
}

/// One live upgrade pickup: the buff it grants, the entity showing its
/// label, and its capture state.
#[derive(Clone, Debug, PartialEq, Eq)]
pub struct Pickup {
    pub id: u64,
    pub label_id: u64,
    pub upgrade: Upgrade,
    pub suction: SuctionState,
}

/// A spawn instruction for the rendering collaborator: the new threat's
/// identity and stats, and a pseudo-random word from which the placement
/// angle around the player is derived.
#[derive(Clone, Copy, Debug, PartialEq, Eq, Structural)]
pub struct SpawnOrder {
    pub id: u64,
    pub damage: u64,
    pub speed: u64,
    pub angle_seed: u32,
}

/// Threat identifiers are pairwise distinct.
pub open spec fn threat_ids_unique(ts: Seq<Threat>) -> bool {
    forall|i: int, j: int| 0 <= i < j < ts.len() ==> ts[i].id != ts[j].id
}

/// Every threat is sound and carries an identifier the id source has already
/// passed.
pub open spec fn threats_wf(ts: Seq<Threat>, next_id: u64) -> bool {
    &&& threat_ids_unique(ts)
    &&& forall|i: int|
        0 <= i < ts.len() ==> (#[trigger] ts[i]).id < next_id && ts[i].suction.wf()
}

/// Pickup and label identifiers are pairwise distinct.
pub open spec fn pickup_ids_unique(ps: Seq<Pickup>) -> bool {
    &&& forall|i: int, j: int| 0 <= i < j < ps.len() ==> ps[i].id != ps[j].id
    &&& forall|i: int, j: int|
        0 <= i < ps.len() && 0 <= j < ps.len() ==> (#[trigger] ps[i]).id != (
        #[trigger] ps[j]).label_id
}

/// Every pickup is sound and its identifiers come from the id source.
pub open spec fn pickups_wf(ps: Seq<Pickup>, next_id: u64) -> bool {
    &&& pickup_ids_unique(ps)
    &&& forall|i: int|
        0 <= i < ps.len() ==> (#[trigger] ps[i]).id < next_id && ps[i].label_id < next_id
            && ps[i].suction.wf() && ps[i].upgrade.wf()
}

/// No identifier names both a threat and a pickup or label.
pub open spec fn threats_pickups_disjoint(ts: Seq<Threat>, ps: Seq<Pickup>) -> bool {
    forall|i: int, j: int|
        0 <= i < ts.len() && 0 <= j < ps.len() ==> (#[trigger] ts[i]).id != (
        #[trigger] ps[j]).id && ts[i].id != ps[j].label_id
}

/// The target entity of a suction event.
pub open spec fn suck_target(e: SuckEvent) -> u64 {
    match e {
        SuckEvent::Start(id) => id,
        SuckEvent::Stop(id) => id,
    }
}

/// The state-machine input a suction event stands for, under the current
/// capture-duration setting.
pub open spec fn suck_op(e: SuckEvent, suck_time: u64) -> SuctionOp {
    match e {
        SuckEvent::Start(_) => SuctionOp::Start { duration: suck_time },
        SuckEvent::Stop(_) => SuctionOp::Stop,
    }
}

/// The threats after routing one suction event: only the targeted entity
/// steps its capture state machine.
pub open spec fn threats_after_suck(ts: Seq<Threat>, e: SuckEvent, suck_time: u64) -> Seq<Threat> {
    ts.map_values(
        |t: Threat|
            if t.id == suck_target(e) {
                Threat { suction: suction_step(t.suction, suck_op(e, suck_time)).0, ..t }
            } else {
                t
            },
    )
}

/// The threats after routing a whole queue of suction events in order.
pub open spec fn threats_after_sucks(ts: Seq<Threat>, es: Seq<SuckEvent>, suck_time: u64) -> Seq<
    Threat,
>
    decreases es.len(),
{
    if es.len() == 0 {
        ts
    } else {
        threats_after_sucks(threats_after_suck(ts, es[0], suck_time), es.drop_first(), suck_time)
    }
}

/// The pickups after routing one suction event.
pub open spec fn pickups_after_suck(ps: Seq<Pickup>, e: SuckEvent, suck_time: u64) -> Seq<Pickup> {
    ps.map_values(
        |p: Pickup|
            if p.id == suck_target(e) {
                Pickup { suction: suction_step(p.suction, suck_op(e, suck_time)).0, ..p }
            } else {
                p
            },
    )
}

/// The pickups after routing a whole queue of suction events in order.
pub open spec fn pickups_after_sucks(ps: Seq<Pickup>, es: Seq<SuckEvent>, suck_time: u64) -> Seq<
    Pickup,
>
    decreases es.len(),
{
    if es.len() == 0 {
        ps
    } else {
        pickups_after_sucks(pickups_after_suck(ps, es[0], suck_time), es.drop_first(), suck_time)
    }
}

/// The threats after one time tick: every capture state machine advances.
pub open spec fn threats_after_tick(ts: Seq<Threat>, dt: u64) -> Seq<Threat> {
    ts.map_values(
        |t: Threat| Threat { suction: suction_step(t.suction, SuctionOp::Tick { dt }).0, ..t },
    )
}

/// The pickups after one time tick.
pub open spec fn pickups_after_tick(ps: Seq<Pickup>, dt: u64) -> Seq<Pickup> {
    ps.map_values(
        |p: Pickup| Pickup { suction: suction_step(p.suction, SuctionOp::Tick { dt }).0, ..p },
    )
}

/// The capture events a time tick emits among the threats, in list order.
pub open spec fn captured_threats(ts: Seq<Threat>, dt: u64) -> Seq<Sucked>
    decreases ts.len(),
{
    if ts.len() == 0 {
        Seq::empty()
    } else {
        let rest = captured_threats(ts.drop_last(), dt);
        if suction_step(ts.last().suction, SuctionOp::Tick { dt }).1 {
            rest.push(Sucked(ts.last().id))
        } else {
            rest
        }
    }
}

/// The capture events a time tick emits among the pickups, in list order.
pub open spec fn captured_pickups(ps: Seq<Pickup>, dt: u64) -> Seq<Sucked>
    decreases ps.len(),
{
    if ps.len() == 0 {
        Seq::empty()
    } else {
        let rest = captured_pickups(ps.drop_last(), dt);
        if suction_step(ps.last().suction, SuctionOp::Tick { dt }).1 {
            rest.push(Sucked(ps.last().id))
        } else {
            rest
        }
    }
}

/// The first listed threat carrying identifier `id`.
pub open spec fn find_threat(ts: Seq<Threat>, id: u64) -> Option<Threat>
    decreases ts.len(),
{
    if ts.len() == 0 {
        None
    } else {
        let rest = find_threat(ts.drop_last(), id);
        if rest is Some {
            rest
        } else if ts.last().id == id {
            Some(ts.last())
        } else {
            None
        }
    }
}

/// The threats with identifier `id` removed, in their original order.
pub open spec fn threats_except(ts: Seq<Threat>, id: u64) -> Seq<Threat>
    decreases ts.len(),
{
    if ts.len() == 0 {
        ts
    } else {
        let rest = threats_except(ts.drop_last(), id);
        if ts.last().id == id {
            rest
        } else {
            rest.push(ts.last())
        }
    }
}

/// Removing one identifier keeps the threat list sound: soundness and
/// disjointness carry over, a found identifier accounts for exactly one
/// removed entry, and a miss removes nothing.
proof fn lemma_threats_except_wf(ts: Seq<Threat>, id: u64, next_id: u64, ps: Seq<Pickup>)
    requires
        threats_wf(ts, next_id),
        threats_pickups_disjoint(ts, ps),
    ensures
        threats_wf(threats_except(ts, id), next_id),
        threats_pickups_disjoint(threats_except(ts, id), ps),
        find_threat(ts, id) is Some ==> threats_except(ts, id).len() + 1 == ts.len(),
        find_threat(ts, id) is None ==> threats_except(ts, id) == ts,
        find_threat(ts, id) is Some ==> find_threat(ts, id)->0.id == id,
        forall|m: int|
            0 <= m < threats_except(ts, id).len() ==> exists|n: int|
                0 <= n < ts.len() && #[trigger] threats_except(ts, id)[m] == ts[n],
    decreases ts.len(),
{
    if ts.len() > 0 {
        let dl = ts.drop_last();
        assert(threats_wf(dl, next_id));
        assert(threats_pickups_disjoint(dl, ps));
        lemma_threats_except_wf(dl, id, next_id, ps);
        let rest = threats_except(dl, id);
        assert forall|m: int| 0 <= m < rest.len() implies (#[trigger] rest[m]).id
            != ts.last().id by {
            let n = choose|n: int| 0 <= n < dl.len() && rest[m] == dl[n];
            assert(ts[n].id != ts[ts.len() - 1].id);
        }
        if ts.last().id == id {
            assert(find_threat(dl, id) is None) by {
                if find_threat(dl, id) is Some {
                    assert(exists|n: int|
                        0 <= n < dl.len() && #[trigger] dl[n] == find_threat(dl, id)->0) by {
                        lemma_find_threat_exists(dl, id);
                    }
                    let n = choose|n: int|
                        0 <= n < dl.len() && #[trigger] dl[n] == find_threat(dl, id)->0;
                    assert(ts[n].id != ts[ts.len() - 1].id);
                }
            }
            assert(threats_except(ts, id) == rest);
            assert forall|m: int|
                0 <= m < threats_except(ts, id).len() implies exists|n: int|
                0 <= n < ts.len() && #[trigger] threats_except(ts, id)[m] == ts[n] by {
                let n = choose|n: int| 0 <= n < dl.len() && rest[m] == dl[n];
                assert(threats_except(ts, id)[m] == ts[n]);
            }
        } else {
            let out = rest.push(ts.last());
            assert forall|m: int| 0 <= m < out.len() implies exists|n: int|
                0 <= n < ts.len() && #[trigger] out[m] == ts[n] by {
                if m < rest.len() {
                    let n = choose|n: int| 0 <= n < dl.len() && rest[m] == dl[n];
                    assert(out[m] == ts[n]);
                } else {
                    assert(out[m] == ts[ts.len() - 1]);
                }
            }
            assert forall|m: int| 0 <= m < out.len() implies (#[trigger] out[m]).id < next_id
                && out[m].suction.wf() by {
                let n = choose|n: int| 0 <= n < ts.len() && out[m] == ts[n];
                assert(ts[n].id < next_id && ts[n].suction.wf());
            }
            assert(threat_ids_unique(out)) by {
                assert forall|i: int, j: int| 0 <= i < j < out.len() implies out[i].id
                    != out[j].id by {
                    if j < rest.len() {
                        assert(rest[i].id != rest[j].id);
                    } else {
                        assert(out[i].id != ts.last().id);
                    }
                }
            }
            assert forall|i: int, j: int|
                0 <= i < out.len() && 0 <= j < ps.len() implies (#[trigger] out[i]).id != (
            #[trigger] ps[j]).id && out[i].id != ps[j].label_id by {
                let n = choose|n: int| 0 <= n < ts.len() && out[i] == ts[n];
                assert(ts[n].id != ps[j].id && ts[n].id != ps[j].label_id);
            }
        }
    }
}

/// A found threat is a listed one.
proof fn lemma_find_threat_exists(ts: Seq<Threat>, id: u64)
    requires
        find_threat(ts, id) is Some,
    ensures
        exists|n: int| 0 <= n < ts.len() && #[trigger] ts[n] == find_threat(ts, id)->0,
        find_threat(ts, id)->0.id == id,
    decreases ts.len(),
{
    if ts.len() > 0 {
        let dl = ts.drop_last();
        if find_threat(dl, id) is Some {
            lemma_find_threat_exists(dl, id);
            let n = choose|n: int| 0 <= n < dl.len() && #[trigger] dl[n] == find_threat(dl, id)->0;
            assert(ts[n] == find_threat(ts, id)->0);
        } else {
            assert(ts[ts.len() - 1] == find_threat(ts, id)->0);
        }
    }
}

/// Resolution of a queue of player hits: each hit whose threat is still
/// listed deals that threat's contact damage, counts one elimination and
/// removes the threat; a hit on an entity already gone is a silent no-op, so
/// no entity is ever counted twice.
pub open spec fn hits_resolved(ts: Seq<Threat>, hits: Seq<CollideWithPlayer>) -> (
    Seq<Threat>,
    Seq<DamageEvent>,
    int,
)
    decreases hits.len(),
{
    if hits.len() == 0 {
        (ts, Seq::<DamageEvent>::empty(), 0int)
    } else {
        let id = hits[0].0;
        match find_threat(ts, id) {
            Some(t) => {
                let rest = hits_resolved(threats_except(ts, id), hits.drop_first());
                (rest.0, seq![DamageEvent(t.damage)] + rest.1, 1 + rest.2)
            },
            None => hits_resolved(ts, hits.drop_first()),
        }
    }
}

/// The hit-resolution fold only shrinks the list and counts what it removed.
proof fn lemma_hits_resolved_counts(ts: Seq<Threat>, hits: Seq<CollideWithPlayer>)
    ensures
        0 <= hits_resolved(ts, hits).2,
        hits_resolved(ts, hits).1.len() == hits_resolved(ts, hits).2,
    decreases hits.len(),
{
    if hits.len() > 0 {
        let id = hits[0].0;
        match find_threat(ts, id) {
            Some(t) => {
                lemma_hits_resolved_counts(threats_except(ts, id), hits.drop_first());
            },
            None => {
                lemma_hits_resolved_counts(ts, hits.drop_first());
            },
        }
    }
}

/// Resolution of a queue of capture events against the threats: each event
/// whose threat is still listed counts one sucked ghost and one elimination
/// and removes the threat; an event whose entity is already gone — captured
/// and also hit in the same tick, say — is a silent no-op, so no entity is
/// ever counted twice.
pub open spec fn ghosts_resolved(ts: Seq<Threat>, events: Seq<Sucked>) -> (Seq<Threat>, int)
    decreases events.len(),
{
    if events.len() == 0 {
        (ts, 0int)
    } else {
        let id = events[0].0;
        if find_threat(ts, id) is Some {
            let rest = ghosts_resolved(threats_except(ts, id), events.drop_first());
            (rest.0, 1 + rest.1)
        } else {
            ghosts_resolved(ts, events.drop_first())
        }
    }
}

/// The ghost-resolution fold counts at least nothing.
proof fn lemma_ghosts_resolved_counts(ts: Seq<Threat>, events: Seq<Sucked>)
    ensures
        0 <= ghosts_resolved(ts, events).1,
    decreases events.len(),
{
    if events.len() > 0 {
        let id = events[0].0;
        if find_threat(ts, id) is Some {
            lemma_ghosts_resolved_counts(threats_except(ts, id), events.drop_first());
        } else {
            lemma_ghosts_resolved_counts(ts, events.drop_first());
        }
    }
}

/// The first listed pickup carrying identifier `id`.
pub open spec fn find_pickup(ps: Seq<Pickup>, id: u64) -> Option<Pickup>
    decreases ps.len(),
{
    if ps.len() == 0 {
        None
    } else {
        let rest = find_pickup(ps.drop_last(), id);
        if rest is Some {
            rest
        } else if ps.last().id == id {
            Some(ps.last())
        } else {
            None
        }
    }
}

/// The pickup a queue of capture events honors: the one matched by the first
/// event whose entity is a live pickup. Later matches go unhonored, because
/// capturing one pickup destroys them all.
pub open spec fn first_picked(ps: Seq<Pickup>, events: Seq<Sucked>) -> Option<Pickup>
    decreases events.len(),
{
    if events.len() == 0 {
        None
    } else {
        let rest = first_picked(ps, events.drop_last());
        if rest is Some {
            rest
        } else {
            find_pickup(ps, events.last().0)
        }
    }
}

/// A pick can only be honored while a pickup pair is actually pending.
proof fn lemma_first_picked_nonempty(ps: Seq<Pickup>, events: Seq<Sucked>)
    requires
        first_picked(ps, events) is Some,
    ensures
        ps.len() > 0,
    decreases events.len(),
{
    if events.len() > 0 {
        if first_picked(ps, events.drop_last()) is Some {
            lemma_first_picked_nonempty(ps, events.drop_last());
        }
    }
}

/// The vitals after a queue of damage events lands, one hit at a time.
pub open spec fn damage_applied(s: Stats, es: Seq<DamageEvent>) -> Stats
    decreases es.len(),
{
    if es.len() == 0 {
        s
    } else {
        stats_apply(damage_applied(s, es.drop_last()), StatsOp::Damage { amount: es.last().0 })
    }
}

/// Routes one suction event to its target among the threats.
#[verifier::loop_isolation(false)]
fn route_suck_to_threats(threats: &mut Vec<Threat>, e: SuckEvent, suck_time: u64)
    requires
        1 <= suck_time,
        forall|m: int| 0 <= m < old(threats)@.len() ==> (#[trigger] old(threats)@[m]).suction.wf(),
    ensures
        final(threats)@ == threats_after_suck(old(threats)@, e, suck_time),
{
    let (target, is_start): (u64, bool) = match e {
        SuckEvent::Start(id) => (id, true),
        SuckEvent::Stop(id) => (id, false),
    };
    let n = threats.len();
    for k in 0..n
        invariant
            n == threats@.len(),
            forall|m: int|
                0 <= m < k ==> threats@[m] == threats_after_suck(old(threats)@, e, suck_time)[m],
            forall|m: int| k <= m < n ==> threats@[m] == old(threats)@[m],
    {
        let mut t = threats[k];
        if t.id == target {
            if is_start {
                t.suction.on_suck_start(suck_time);
            } else {
                t.suction.on_suck_stop();
            }
            threats[k] = t;
        }
    }
    proof {
        assert(threats@ =~= threats_after_suck(old(threats)@, e, suck_time));
    }
}

/// Routes one suction event to its target among the pickups.
#[verifier::loop_isolation(false)]
fn route_suck_to_pickups(pickups: &mut Vec<Pickup>, e: SuckEvent, suck_time: u64)
    requires
        1 <= suck_time,
        forall|m: int| 0 <= m < old(pickups)@.len() ==> (#[trigger] old(pickups)@[m]).suction.wf(),
    ensures
        final(pickups)@ == pickups_after_suck(old(pickups)@, e, suck_time),
{
    let (target, is_start): (u64, bool) = match e {
        SuckEvent::Start(id) => (id, true),
        SuckEvent::Stop(id) => (id, false),
    };
    let n = pickups.len();
    for k in 0..n
        invariant
            n == pickups@.len(),
            forall|m: int|
                0 <= m < k ==> pickups@[m] == pickups_after_suck(old(pickups)@, e, suck_time)[m],
            forall|m: int| k <= m < n ==> pickups@[m] == old(pickups)@[m],
    {
        let p = &mut pickups[k];
        if p.id == target {
            if is_start {
                p.suction.on_suck_start(suck_time);
            } else {
                p.suction.on_suck_stop();
            }
        }
    }
    proof {
        assert(pickups@ =~= pickups_after_suck(old(pickups)@, e, suck_time));
    }
}

/// Advances every threat's capture state machine by `dt` milliseconds and
/// appends the capture events that fired.
#[verifier::loop_isolation(false)]
fn tick_threats(threats: &mut Vec<Threat>, dt: u64, sucked: &mut Vec<Sucked>)
    requires
        forall|m: int| 0 <= m < old(threats)@.len() ==> (#[trigger] old(threats)@[m]).suction.wf(),
    ensures
        final(threats)@ == threats_after_tick(old(threats)@, dt),
        final(sucked)@ == old(sucked)@ + captured_threats(old(threats)@, dt),
{
    let n = threats.len();
    for k in 0..n
        invariant
            n == threats@.len(),
            forall|m: int| 0 <= m < k ==> threats@[m] == threats_after_tick(old(threats)@, dt)[m],
            forall|m: int| k <= m < n ==> threats@[m] == old(threats)@[m],
            sucked@ == old(sucked)@ + captured_threats(old(threats)@.take(k as int), dt),
    {
        proof {
            assert(old(threats)@.take(k + 1).drop_last() =~= old(threats)@.take(k as int));
            assert(old(threats)@.take(k + 1).last() == old(threats)@[k as int]);
        }
        let mut t = threats[k];
        let fired = t.suction.tick(dt);
        threats[k] = t;
        if fired {
            sucked.push(Sucked(t.id));
        }
    }
    proof {
        assert(old(threats)@.take(n as int) =~= old(threats)@);
        assert(threats@ =~= threats_after_tick(old(threats)@, dt));
    }
}

/// Advances every pickup's capture state machine by `dt` milliseconds and
/// appends the capture events that fired.
#[verifier::loop_isolation(false)]
fn tick_pickups(pickups: &mut Vec<Pickup>, dt: u64, sucked: &mut Vec<Sucked>)
    requires
        forall|m: int| 0 <= m < old(pickups)@.len() ==> (#[trigger] old(pickups)@[m]).suction.wf(),
    ensures
        final(pickups)@ == pickups_after_tick(old(pickups)@, dt),
        final(sucked)@ == old(sucked)@ + captured_pickups(old(pickups)@, dt),
{
    let n = pickups.len();
    for k in 0..n
        invariant
            n == pickups@.len(),
            forall|m: int| 0 <= m < k ==> pickups@[m] == pickups_after_tick(old(pickups)@, dt)[m],
            forall|m: int| k <= m < n ==> pickups@[m] == old(pickups)@[m],
            sucked@ == old(sucked)@ + captured_pickups(old(pickups)@.take(k as int), dt),
    {
        proof {
            assert(old(pickups)@.take(k + 1).drop_last() =~= old(pickups)@.take(k as int));
            assert(old(pickups)@.take(k + 1).last() == old(pickups)@[k as int]);
        }
        let p = &mut pickups[k];
        let fired = p.suction.tick(dt);
        let id = p.id;
        if fired {
            sucked.push(Sucked(id));
        }
    }
    proof {
        assert(old(pickups)@.take(n as int) =~= old(pickups)@);
        assert(pickups@ =~= pickups_after_tick(old(pickups)@, dt));
    }
}

/// The owned game state, one instance per play session.
pub struct GameCore {
    pub stats: Stats,
    pub camera: CameraSettings,
    pub config: GhostSpawnConfig,
    pub threats: Vec<Threat>,
    pub pickups: Vec<Pickup>,
    pub nozzle_active: bool,
    pub next_id: u64,
}

impl GameCore {
    /// The cross-component invariant. Besides each record's own soundness:
    /// identifiers are unique and fresh; live threats plus eliminations never
    /// outnumber the threats spawned this cycle (so the elimination count
    /// never exceeds the wave quota); pickups exist exactly two at a time or
    /// not at all; and while a pickup pair is pending — between a wave end
    /// and the pick — the wave is over: no threat is alive, the elimination
    /// count is freshly reset and the quota is fully spawned.
    pub open spec fn wf(self) -> bool {
        &&& self.stats.wf()
        &&& self.camera.wf()
        &&& self.config.wf()
        &&& threats_wf(self.threats@, self.next_id)
        &&& pickups_wf(self.pickups@, self.next_id)
        &&& threats_pickups_disjoint(self.threats@, self.pickups@)
        &&& self.threats@.len() + self.config.eliminated_ghosts <= self.config.spawned_ghosts
        &&& (self.pickups@.len() == 0 || self.pickups@.len() == 2)
        &&& self.pickups@.len() > 0 ==> self.threats@.len() == 0
            && self.config.eliminated_ghosts == 0 && self.config.spawned_ghosts
            == self.config.wave_size
    }

    /// A fresh play session: default records, no live entities, the nozzle
    /// off.
    pub fn new() -> (c: GameCore)
        ensures
            c.stats == initial_stats(),
            c.camera == initial_camera(),
            c.config == initial_config(),
            c.threats@ == Seq::<Threat>::empty(),
            c.pickups@ == Seq::<Pickup>::empty(),
            !c.nozzle_active,
            c.next_id == 0,
            c.wf(),
    {
        GameCore {
            stats: Stats::new(),
            camera: CameraSettings::new(),
            config: GhostSpawnConfig::new(),
            threats: Vec::new(),
            pickups: Vec::new(),
            nozzle_active: false,
            next_id: 0,
        }
    }

    /// Re-entry into a play session: the vitals, camera feedback and spawn
    /// configuration return to their defaults and every live entity is
    /// removed. The id source keeps counting so identifiers stay fresh.
    pub fn reset(&mut self)
        ensures
            final(self).stats == initial_stats(),
            final(self).camera == initial_camera(),
            final(self).config == initial_config(),
            final(self).threats@ == Seq::<Threat>::empty(),
            final(self).pickups@ == Seq::<Pickup>::empty(),
            !final(self).nozzle_active,
            final(self).next_id == old(self).next_id,
            final(self).wf(),
    {
        self.stats = Stats::new();
        self.camera = CameraSettings::new();
        self.config = GhostSpawnConfig::new();
        self.threats = Vec::new();
        self.pickups = Vec::new();
        self.nozzle_active = false;
    }

    /// The vacuum trigger changed: the nozzle collider is enabled while the
    /// trigger is held and disabled when it is released.
    pub fn handle_vacuum(&mut self, event: VacuumEvent)
        ensures
            *final(self) == (GameCore {
                nozzle_active: event is Start,
                ..*old(self)
            }),
    {
        self.nozzle_active = match event {
            VacuumEvent::Start => true,
            VacuumEvent::Stop => false,
        };
    }

    /// One spawn-interval tick: the timer advances by `dt` milliseconds and,
    /// if it completed while the wave's quota is unmet, exactly one threat
    /// carrying the current damage and speed values is created at a
    /// pseudo-random angle around the player, and the spawned count grows. A
    /// met quota produces no entity and is not an error.
    pub fn spawn_enemy(&mut self, dt: u64) -> (order: Option<SpawnOrder>)
        requires
            old(self).wf(),
            old(self).next_id < u64::MAX,
        ensures
            order is Some <==> (timer_fires(old(self).config.timer, dt) && old(
                self,
            ).config.spawned_ghosts < old(self).config.wave_size),
            final(self).config == (GhostSpawnConfig {
                timer: timer_after(old(self).config.timer, dt),
                spawned_ghosts: if order is Some {
                    (old(self).config.spawned_ghosts + 1) as u32
                } else {
                    old(self).config.spawned_ghosts
                },
                ..old(self).config
            }),
            order is Some ==> {
                &&& order->0.id == old(self).next_id
                &&& order->0.damage == old(self).config.damage
                &&& order->0.speed == old(self).config.speed
                &&& final(self).threats@ == old(self).threats@.push(Threat {
                    id: old(self).next_id,
                    damage: old(self).config.damage,
                    speed: old(self).config.speed,
                    suction: SuctionState::Free,
                })
                &&& final(self).next_id == old(self).next_id + 1
            },
            order is None ==> final(self).threats@ == old(self).threats@ && final(self).next_id
                == old(self).next_id,
            final(self).stats == old(self).stats,
            final(self).camera == old(self).camera,
            final(self).pickups == old(self).pickups,
            final(self).nozzle_active == old(self).nozzle_active,
            final(self).wf(),
    {
        let fired = self.config.tick_spawn(dt);
        if fired {
            let id = self.next_id;
            self.next_id = self.next_id + 1;
            let threat = Threat {
                id,
                damage: self.config.damage,
                speed: self.config.speed,
                suction: SuctionState::Free,
            };
            self.threats.push(threat);
            Some(SpawnOrder { id, damage: threat.damage, speed: threat.speed, angle_seed: random_u32() })
        } else {
            None
        }
    }

    /// Routes a tick's suction-event queue to its target entities, in queue
    /// order: a start event begins (or restarts) a capture whose duration is
    /// the current suck-time setting, a stop event cancels one, and an event
    /// whose target is already gone is a silent no-op.
    #[verifier::loop_isolation(false)]
    pub fn apply_suck_events(&mut self, events: &Vec<SuckEvent>)
        requires
            old(self).wf(),
        ensures
            final(self).threats@ == threats_after_sucks(
                old(self).threats@,
                events@,
                old(self).stats.suck_time,
            ),
            final(self).pickups@ == pickups_after_sucks(
                old(self).pickups@,
                events@,
                old(self).stats.suck_time,
            ),
            final(self).stats == old(self).stats,
            final(self).camera == old(self).camera,
            final(self).config == old(self).config,
            final(self).nozzle_active == old(self).nozzle_active,
            final(self).next_id == old(self).next_id,
            final(self).wf(),
    {
        let ghost t0 = old(self).threats@;
        let ghost p0 = old(self).pickups@;
        let st = self.stats.suck_time;
        let n = events.len();
        proof {
            assert(events@.skip(0) =~= events@);
        }
        for i in 0..n
            invariant
                self.stats == old(self).stats,
                self.camera == old(self).camera,
                self.config == old(self).config,
                self.nozzle_active == old(self).nozzle_active,
                self.next_id == old(self).next_id,
                threats_after_sucks(self.threats@, events@.skip(i as int), st)
                    == threats_after_sucks(t0, events@, st),
                pickups_after_sucks(self.pickups@, events@.skip(i as int), st)
                    == pickups_after_sucks(p0, events@, st),
                threats_wf(self.threats@, self.next_id),
                pickups_wf(self.pickups@, self.next_id),
                threats_pickups_disjoint(self.threats@, self.pickups@),
                self.threats@.len() == t0.len(),
                self.pickups@.len() == p0.len(),
        {
            let e = events[i];
            let ghost bt = self.threats@;
            let ghost bp = self.pickups@;
            route_suck_to_threats(&mut self.threats, e, st);
            route_suck_to_pickups(&mut self.pickups, e, st);
            proof {
                assert forall|m: int| 0 <= m < self.threats@.len() implies (
                #[trigger] self.threats@[m]).id == bt[m].id && self.threats@[m].suction.wf() by {
                    crate::suction::lemma_step_preserves_wf(bt[m].suction, suck_op(e, st));
                }
                assert forall|m: int| 0 <= m < self.pickups@.len() implies (
                #[trigger] self.pickups@[m]).id == bp[m].id && self.pickups@[m].label_id
                    == bp[m].label_id && self.pickups@[m].suction.wf()
                    && self.pickups@[m].upgrade.wf() by {
                    crate::suction::lemma_step_preserves_wf(bp[m].suction, suck_op(e, st));
                }
                assert(events@.skip(i as int)[0] == events@[i as int]);
                assert(events@.skip(i as int).drop_first() =~= events@.skip(i + 1));
            }
        }
        proof {
            assert(events@.skip(n as int) =~= Seq::<SuckEvent>::empty());
        }
    }

    /// One time tick for every running capture: countdowns advance by `dt`
    /// milliseconds — whether or not a nozzle currently exists, since only
    /// the attraction motion, owned by the rendering collaborator, depends on
    /// one — and each countdown that completes emits one capture event for
    /// its entity. Captured entities stay listed until the events are
    /// resolved.
    pub fn advance_suction(&mut self, dt: u64) -> (sucked: Vec<Sucked>)
        requires
            old(self).wf(),
        ensures
            final(self).threats@ == threats_after_tick(old(self).threats@, dt),
            final(self).pickups@ == pickups_after_tick(old(self).pickups@, dt),
            sucked@ == captured_threats(old(self).threats@, dt) + captured_pickups(
                old(self).pickups@,
                dt,
            ),
            final(self).stats == old(self).stats,
            final(self).camera == old(self).camera,
            final(self).config == old(self).config,
            final(self).nozzle_active == old(self).nozzle_active,
            final(self).next_id == old(self).next_id,
            final(self).wf(),
    {
        let ghost t0 = old(self).threats@;
        let ghost p0 = old(self).pickups@;
        let mut sucked: Vec<Sucked> = Vec::new();
        tick_threats(&mut self.threats, dt, &mut sucked);
        tick_pickups(&mut self.pickups, dt, &mut sucked);
        proof {
            assert(sucked@ =~= captured_threats(t0, dt) + captured_pickups(p0, dt));
            assert forall|m: int| 0 <= m < self.threats@.len() implies (
            #[trigger] self.threats@[m]).id == t0[m].id && self.threats@[m].suction.wf() by {
                crate::suction::lemma_step_preserves_wf(t0[m].suction, SuctionOp::Tick { dt });
            }
            assert forall|m: int| 0 <= m < self.pickups@.len() implies (
            #[trigger] self.pickups@[m]).id == p0[m].id && self.pickups@[m].label_id
                == p0[m].label_id && self.pickups@[m].suction.wf()
                && self.pickups@[m].upgrade.wf() by {
                crate::suction::lemma_step_preserves_wf(p0[m].suction, SuctionOp::Tick { dt });
            }
        }
        sucked
    }

    /// Resolves a tick's player-hit events: each hit whose threat is still
    /// alive deals that threat's contact damage (returned as one damage event
    /// per hit), counts exactly one elimination for the wave and removes the
    /// entity; a hit on an entity already gone is a silent no-op. The
    /// elimination count stays within the wave quota.
    #[verifier::loop_isolation(false)]
    #[verifier::rlimit(40)]
    pub fn resolve_player_hits(&mut self, hits: &Vec<CollideWithPlayer>) -> (damage: Vec<
        DamageEvent,
    >)
        requires
            old(self).wf(),
        ensures
            ({
                let r = hits_resolved(old(self).threats@, hits@);
                &&& final(self).threats@ == r.0
                &&& damage@ == r.1
                &&& final(self).config == (GhostSpawnConfig {
                    eliminated_ghosts: (old(self).config.eliminated_ghosts + r.2) as u32,
                    ..old(self).config
                })
                &&& old(self).config.eliminated_ghosts + r.2 <= old(self).config.wave_size
            }),
            final(self).stats == old(self).stats,
            final(self).camera == old(self).camera,
            final(self).pickups == old(self).pickups,
            final(self).nozzle_active == old(self).nozzle_active,
            final(self).next_id == old(self).next_id,
            final(self).wf(),
    {
        let mut damage: Vec<DamageEvent> = Vec::new();
        let ghost t0 = old(self).threats@;
        let ghost total = hits_resolved(t0, hits@);
        let n = hits.len();
        proof {
            assert(hits@.skip(0) =~= hits@);
        }
        for i in 0..n
            invariant
                self.stats == old(self).stats,
                self.camera == old(self).camera,
                self.pickups == old(self).pickups,
                self.nozzle_active == old(self).nozzle_active,
                self.next_id == old(self).next_id,
                self.config.timer == old(self).config.timer,
                self.config.current_time_between_ghosts == old(
                    self,
                ).config.current_time_between_ghosts,
                self.config.damage == old(self).config.damage,
                self.config.speed == old(self).config.speed,
                self.config.wave_size == old(self).config.wave_size,
                self.config.spawned_ghosts == old(self).config.spawned_ghosts,
                self.config.current_wave == old(self).config.current_wave,
                threats_wf(self.threats@, self.next_id),
                threats_pickups_disjoint(self.threats@, self.pickups@),
                self.threats@.len() + self.config.eliminated_ghosts <= self.config.spawned_ghosts,
                self.pickups@.len() > 0 ==> self.threats@.len() == 0
                    && self.config.eliminated_ghosts == 0 && self.config.spawned_ghosts
                    == self.config.wave_size,
                hits_resolved(self.threats@, hits@.skip(i as int)).0 == total.0,
                damage@ + hits_resolved(self.threats@, hits@.skip(i as int)).1 == total.1,
                self.config.eliminated_ghosts + hits_resolved(
                    self.threats@,
                    hits@.skip(i as int),
                ).2 == old(self).config.eliminated_ghosts + total.2,
        {
            let id = hits[i].0;
            let ghost before = self.threats@;
            let mut kept: Vec<Threat> = Vec::new();
            let mut found: Option<Threat> = None;
            let tn = self.threats.len();
            for k in 0..tn
                invariant
                    tn == self.threats@.len(),
                    self.threats@ == before,
                    kept@ == threats_except(before.take(k as int), id),
                    found == find_threat(before.take(k as int), id),
            {
                proof {
                    assert(before.take(k + 1).drop_last() =~= before.take(k as int));
                    assert(before.take(k + 1).last() == before[k as int]);
                }
                let t = self.threats[k];
                if t.id == id {
                    if found.is_none() {
                        found = Some(t);
                    }
                } else {
                    kept.push(t);
                }
            }
            proof {
                assert(before.take(tn as int) =~= before);
                assert(hits@.skip(i as int)[0] == hits@[i as int]);
                assert(hits@.skip(i as int).drop_first() =~= hits@.skip(i + 1));
                lemma_threats_except_wf(before, id, self.next_id, self.pickups@);
            }
            match found {
                Some(t) => {
                    self.threats = kept;
                    damage.push(DamageEvent(t.damage));
                    self.config.eliminate_ghost();
                    proof {
                        lemma_hits_resolved_counts(self.threats@, hits@.skip(i + 1));
                        assert(damage@ =~= damage@.drop_last() + seq![DamageEvent(t.damage)]);
                        assert(seq![DamageEvent(t.damage)] + hits_resolved(
                            self.threats@,
                            hits@.skip(i + 1),
                        ).1 =~= hits_resolved(before, hits@.skip(i as int)).1);
                        assert(damage@.drop_last() + (seq![DamageEvent(t.damage)] + hits_resolved(
                            self.threats@,
                            hits@.skip(i + 1),
                        ).1) =~= damage@ + hits_resolved(self.threats@, hits@.skip(i + 1)).1);
                    }
                },
                None => {
                    proof {
                        assert(hits_resolved(self.threats@, hits@.skip(i as int))
                            == hits_resolved(self.threats@, hits@.skip(i + 1)));
                    }
                },
            }
        }
        proof {
            assert(hits@.skip(n as int) =~= Seq::<CollideWithPlayer>::empty());
            lemma_hits_resolved_counts(t0, hits@);
        }
        damage
    }

    /// Resolves a tick's capture events against the threats: each captured
    /// ghost counts once toward the score and the wave, shakes the camera,
    /// and is removed; an event whose entity is already gone — hit and
    /// captured in the same tick, say — is a silent no-op, so no entity is
    /// ever counted twice. The elimination count stays within the wave quota;
    /// the score saturates at its representable range rather than wrap.
    #[verifier::loop_isolation(false)]
    #[verifier::rlimit(40)]
    pub fn resolve_sucked_ghosts(&mut self, sucked: &Vec<Sucked>)
        requires
            old(self).wf(),
        ensures
            ({
                let r = ghosts_resolved(old(self).threats@, sucked@);
                &&& final(self).threats@ == r.0
                &&& final(self).config == (GhostSpawnConfig {
                    eliminated_ghosts: (old(self).config.eliminated_ghosts + r.1) as u32,
                    ..old(self).config
                })
                &&& old(self).config.eliminated_ghosts + r.1 <= old(self).config.wave_size
                &&& final(self).stats == (Stats {
                    sucked_ghosts: crate::sat_u32(old(self).stats.sucked_ghosts + r.1) as u32,
                    ..old(self).stats
                })
                &&& final(self).camera == (CameraSettings {
                    translational_shake: crate::sat_u64(
                        old(self).camera.translational_shake + 100 * r.1,
                    ) as u64,
                    rotational_shake: crate::sat_u64(
                        old(self).camera.rotational_shake + 100 * r.1,
                    ) as u64,
                    ..old(self).camera
                })
            }),
            final(self).pickups == old(self).pickups,
            final(self).nozzle_active == old(self).nozzle_active,
            final(self).next_id == old(self).next_id,
            final(self).wf(),
    {
        let ghost t0 = old(self).threats@;
        let ghost total = ghosts_resolved(t0, sucked@);
        let ghost mut done: int = 0;
        let n = sucked.len();
        proof {
            assert(sucked@.skip(0) =~= sucked@);
        }
        for i in 0..n
            invariant
                self.pickups == old(self).pickups,
                self.nozzle_active == old(self).nozzle_active,
                self.next_id == old(self).next_id,
                self.config.timer == old(self).config.timer,
                self.config.current_time_between_ghosts == old(
                    self,
                ).config.current_time_between_ghosts,
                self.config.damage == old(self).config.damage,
                self.config.speed == old(self).config.speed,
                self.config.wave_size == old(self).config.wave_size,
                self.config.spawned_ghosts == old(self).config.spawned_ghosts,
                self.config.current_wave == old(self).config.current_wave,
                threats_wf(self.threats@, self.next_id),
                threats_pickups_disjoint(self.threats@, self.pickups@),
                self.threats@.len() + self.config.eliminated_ghosts <= self.config.spawned_ghosts,
                self.pickups@.len() > 0 ==> self.threats@.len() == 0
                    && self.config.eliminated_ghosts == 0 && self.config.spawned_ghosts
                    == self.config.wave_size,
                0 <= done,
                self.config.eliminated_ghosts == old(self).config.eliminated_ghosts + done,
                self.stats == (Stats {
                    sucked_ghosts: crate::sat_u32(old(self).stats.sucked_ghosts + done) as u32,
                    ..old(self).stats
                }),
                self.camera == (CameraSettings {
                    translational_shake: crate::sat_u64(
                        old(self).camera.translational_shake + 100 * done,
                    ) as u64,
                    rotational_shake: crate::sat_u64(
                        old(self).camera.rotational_shake + 100 * done,
                    ) as u64,
                    ..old(self).camera
                }),
                ghosts_resolved(self.threats@, sucked@.skip(i as int)).0 == total.0,
                done + ghosts_resolved(self.threats@, sucked@.skip(i as int)).1 == total.1,
        {
            let id = sucked[i].0;
            let ghost before = self.threats@;
            let mut kept: Vec<Threat> = Vec::new();
            let mut found: Option<Threat> = None;
            let tn = self.threats.len();
            for k in 0..tn
                invariant
                    tn == self.threats@.len(),
                    self.threats@ == before,
                    kept@ == threats_except(before.take(k as int), id),
                    found == find_threat(before.take(k as int), id),
            {
                proof {
                    assert(before.take(k + 1).drop_last() =~= before.take(k as int));
                    assert(before.take(k + 1).last() == before[k as int]);
                }
                let t = self.threats[k];
                if t.id == id {
                    if found.is_none() {
                        found = Some(t);
                    }
                } else {
                    kept.push(t);
                }
            }
            proof {
                assert(before.take(tn as int) =~= before);
                assert(sucked@.skip(i as int)[0] == sucked@[i as int]);
                assert(sucked@.skip(i as int).drop_first() =~= sucked@.skip(i + 1));
                lemma_threats_except_wf(before, id, self.next_id, self.pickups@);
            }
            if found.is_some() {
                self.threats = kept;
                self.stats.sucked_ghosts = if self.stats.sucked_ghosts < u32::MAX {
                    self.stats.sucked_ghosts + 1
                } else {
                    self.stats.sucked_ghosts
                };
                self.config.eliminate_ghost();
                self.camera.add(100);
                proof {
                    done = done + 1;
                    lemma_ghosts_resolved_counts(self.threats@, sucked@.skip(i + 1));
                }
            } else {
                proof {
                    assert(ghosts_resolved(self.threats@, sucked@.skip(i as int))
                        == ghosts_resolved(self.threats@, sucked@.skip(i + 1)));
                }
            }
        }
        proof {
            assert(sucked@.skip(n as int) =~= Seq::<Sucked>::empty());
            lemma_ghosts_resolved_counts(t0, sucked@);
        }
    }

    /// Resolves a tick's capture events against the upgrade pickups: only
    /// the first event matching a live pickup is honored — its modifiers are
    /// applied to the vitals, the camera shakes once, and both pickups (with
    /// their labels) are destroyed, emitting exactly one picked-upgrade
    /// event. Any further capture events for pickups in the same pass find
    /// the entities already gone and are ignored.
    #[verifier::loop_isolation(false)]
    pub fn resolve_sucked_upgrades(&mut self, sucked: &Vec<Sucked>) -> (picked: Option<
        PickedUpgrade,
    >)
        requires
            old(self).wf(),
        ensures
            picked is Some <==> first_picked(old(self).pickups@, sucked@) is Some,
            picked is Some ==> ({
                let p = first_picked(old(self).pickups@, sucked@)->0;
                &&& final(self).stats == crate::upgrade::upgrade_applied(
                    p.upgrade,
                    old(self).stats,
                )
                &&& final(self).camera == (CameraSettings {
                    translational_shake: shake_sum(
                        old(self).camera.translational_shake,
                        100,
                    ) as u64,
                    rotational_shake: shake_sum(old(self).camera.rotational_shake, 100) as u64,
                    ..old(self).camera
                })
                &&& final(self).pickups@.len() == 0
            }),
            picked is None ==> final(self).stats == old(self).stats && final(self).camera == old(
                self,
            ).camera && final(self).pickups == old(self).pickups,
            final(self).threats == old(self).threats,
            final(self).config == old(self).config,
            final(self).nozzle_active == old(self).nozzle_active,
            final(self).next_id == old(self).next_id,
            final(self).wf(),
    {
        let ghost p0 = old(self).pickups@;
        let mut found: Option<usize> = None;
        let n = sucked.len();
        for i in 0..n
            invariant
                *self == *old(self),
                match found {
                    Some(j) => j < self.pickups@.len() && first_picked(p0, sucked@.take(i as int))
                        == Some(self.pickups@[j as int]),
                    None => first_picked(p0, sucked@.take(i as int)) is None,
                },
        {
            proof {
                assert(sucked@.take(i + 1).drop_last() =~= sucked@.take(i as int));
                assert(sucked@.take(i + 1).last() == sucked@[i as int]);
            }
            if found.is_none() {
                let id = sucked[i].0;
                let pn = self.pickups.len();
                let mut hit: Option<usize> = None;
                for j in 0..pn
                    invariant
                        *self == *old(self),
                        pn == self.pickups@.len(),
                        match hit {
                            Some(h) => h < self.pickups@.len() && find_pickup(
                                p0.take(j as int),
                                id,
                            ) == Some(self.pickups@[h as int]),
                            None => find_pickup(p0.take(j as int), id) is None,
                        },
                {
                    proof {
                        assert(p0.take(j + 1).drop_last() =~= p0.take(j as int));
                        assert(p0.take(j + 1).last() == p0[j as int]);
                    }
                    if hit.is_none() && self.pickups[j].id == id {
                        hit = Some(j);
                    }
                }
                proof {
                    assert(p0.take(pn as int) =~= p0);
                }
                found = hit;
            }
        }
        proof {
            assert(sucked@.take(n as int) =~= sucked@);
        }
        match found {
            Some(j) => {
                let chosen = &self.pickups[j];
                chosen.upgrade.apply(&mut self.stats);
                self.camera.add(100);
                self.pickups.clear();
                Some(PickedUpgrade)
            },
            None => None,
        }
    }

    /// Applies a tick's damage events: each one costs the vitals its amount
    /// (stopping at zero) and kicks the translational camera shake by half a
    /// unit.
    #[verifier::loop_isolation(false)]
    pub fn apply_damage(&mut self, events: &Vec<DamageEvent>)
        requires
            old(self).wf(),
        ensures
            final(self).stats == damage_applied(old(self).stats, events@),
            final(self).camera == (CameraSettings {
                translational_shake: crate::sat_u64(
                    old(self).camera.translational_shake + 500 * events@.len(),
                ) as u64,
                ..old(self).camera
            }),
            final(self).config == old(self).config,
            final(self).threats == old(self).threats,
            final(self).pickups == old(self).pickups,
            final(self).nozzle_active == old(self).nozzle_active,
            final(self).next_id == old(self).next_id,
            final(self).wf(),
    {
        let n = events.len();
        for i in 0..n
            invariant
                self.stats == damage_applied(old(self).stats, events@.take(i as int)),
                self.camera == (CameraSettings {
                    translational_shake: crate::sat_u64(
                        old(self).camera.translational_shake + 500 * i,
                    ) as u64,
                    ..old(self).camera
                }),
                self.config == old(self).config,
                self.threats == old(self).threats,
                self.pickups == old(self).pickups,
                self.nozzle_active == old(self).nozzle_active,
                self.next_id == old(self).next_id,
                self.stats.wf(),
        {
            proof {
                assert(events@.take(i + 1).drop_last() =~= events@.take(i as int));
                assert(events@.take(i + 1).last() == events@[i as int]);
            }
            self.stats.take_damage(events[i].0);
            self.camera.add_translational(500);
        }
        proof {
            assert(events@.take(n as int) =~= events@);
        }
    }

    /// Checks the wave quota after this tick's eliminations: reaching it
    /// emits exactly one wave-end event, resets the elimination count to
    /// zero and pauses regeneration until an upgrade is picked. The spawned
    /// count is left for the coming escalation.
    pub fn check_wave_end(&mut self) -> (ended: Option<WaveEnd>)
        requires
            old(self).wf(),
        ensures
            ended is Some <==> old(self).config.eliminated_ghosts == old(self).config.wave_size,
            final(self).config == (GhostSpawnConfig {
                eliminated_ghosts: if ended is Some {
                    0u32
                } else {
                    old(self).config.eliminated_ghosts
                },
                ..old(self).config
            }),
            final(self).stats == (Stats {
                reg_paused: if ended is Some {
                    true
                } else {
                    old(self).stats.reg_paused
                },
                ..old(self).stats
            }),
            final(self).camera == old(self).camera,
            final(self).threats == old(self).threats,
            final(self).pickups == old(self).pickups,
            final(self).nozzle_active == old(self).nozzle_active,
            final(self).next_id == old(self).next_id,
            final(self).wf(),
    {
        let ended = self.config.check_wave_end();
        if ended {
            self.stats.reg_paused = true;
            Some(WaveEnd)
        } else {
            None
        }
    }

    /// On wave end: samples two distinct modifiers from the fixed catalog
    /// and offers them as a pair of capturable pickups, each with a label
    /// entity. The pair appears only while no offer is pending and the wave
    /// is fully spawned and cleared.
    pub fn spawn_pickups(&mut self)
        requires
            old(self).wf(),
            old(self).pickups@.len() == 0,
            old(self).threats@.len() == 0,
            old(self).config.eliminated_ghosts == 0,
            old(self).config.spawned_ghosts == old(self).config.wave_size,
            old(self).next_id <= u64::MAX - 4,
        ensures
            final(self).pickups@.len() == 2,
            final(self).pickups@[0].id == old(self).next_id,
            final(self).pickups@[0].label_id == old(self).next_id + 1,
            final(self).pickups@[1].id == old(self).next_id + 2,
            final(self).pickups@[1].label_id == old(self).next_id + 3,
            final(self).pickups@[0].suction is Free,
            final(self).pickups@[1].suction is Free,
            exists|i: int, j: int|
                0 <= i < 5 && 0 <= j < 5 && i != j && crate::upgrade::mods_of(
                    final(self).pickups@[0].upgrade,
                ) == crate::upgrade::catalog_mods(i) && crate::upgrade::mods_of(
                    final(self).pickups@[1].upgrade,
                ) == crate::upgrade::catalog_mods(j),
            final(self).next_id == old(self).next_id + 4,
            final(self).stats == old(self).stats,
            final(self).camera == old(self).camera,
            final(self).config == old(self).config,
            final(self).threats == old(self).threats,
            final(self).nozzle_active == old(self).nozzle_active,
            final(self).wf(),
    {
        let (left, right) = Upgrade::pick_two();
        let id = self.next_id;
        self.pickups.push(
            Pickup { id, label_id: id + 1, upgrade: left, suction: SuctionState::Free },
        );
        self.pickups.push(
            Pickup { id: id + 2, label_id: id + 3, upgrade: right, suction: SuctionState::Free },
        );
        self.next_id = id + 4;
    }

    /// After an upgrade is picked: regeneration resumes and difficulty
    /// escalates exactly once. Picks only happen while a pickup pair is
    /// pending, which is after a wave end — so no threat is alive and no
    /// elimination is on the books.
    pub fn on_picked_upgrade(&mut self)
        requires
            old(self).wf(),
            old(self).config.current_wave < u32::MAX,
            old(self).threats@.len() == 0,
            old(self).config.eliminated_ghosts == 0,
            old(self).pickups@.len() == 0,
        ensures
            final(self).stats == (Stats { reg_paused: false, ..old(self).stats }),
            final(self).config == crate::enemy_spawner::escalated(old(self).config),
            final(self).camera == old(self).camera,
            final(self).threats == old(self).threats,
            final(self).pickups == old(self).pickups,
            final(self).nozzle_active == old(self).nozzle_active,
            final(self).next_id == old(self).next_id,
            final(self).wf(),
    {
        self.stats.reg_paused = false;
        self.config.escalate();
    }

    /// A vitals tick: while regeneration is not paused, health grows by `dt`
    /// milliseconds' worth of the regeneration rate; a health of zero then
    /// emits the player-death event and pauses regeneration. The outer
    /// game-state machine owns the transition that follows.
    pub fn tick_vitals(&mut self, dt: u64) -> (died: Option<PlayerDied>)
        requires
            old(self).wf(),
        ensures
            ({
                let s1 = stats_apply(old(self).stats, StatsOp::Regenerate { dt });
                &&& (died is Some <==> s1.health == 0)
                &&& final(self).stats == if s1.health == 0 {
                    Stats { reg_paused: true, ..s1 }
                } else {
                    s1
                }
            }),
            final(self).camera == old(self).camera,
            final(self).config == old(self).config,
            final(self).threats == old(self).threats,
            final(self).pickups == old(self).pickups,
            final(self).nozzle_active == old(self).nozzle_active,
            final(self).next_id == old(self).next_id,
            final(self).wf(),
    {
        self.stats.regenerate(dt);
        let dead = self.stats.is_dead();
        if dead {
            self.stats.reg_paused = true;
            Some(PlayerDied)
        } else {
            None
        }
    }

    /// One whole simulation tick, phases in the order the design requires —
    /// classification before consumption and consumption before escalation:
    /// raw contacts are classified; suction events route to their targets;
    /// capture countdowns advance; player hits and then captures resolve
    /// against threats and pickups; a pick escalates the difficulty; a
    /// reached quota ends the wave and offers the next upgrade pair; the
    /// spawn timer runs; damage lands on the vitals; regeneration and the
    /// camera decay tick. Returns everything the audio and UI collaborators
    /// subscribe to.
    #[verifier::rlimit(80)]
    pub fn process_tick(&mut self, dt: u64, contacts: &Vec<Contact>) -> (report: TickReport)
        requires
            old(self).wf(),
            old(self).next_id <= u64::MAX - 5,
            old(self).config.current_wave < u32::MAX,
        ensures
            final(self).wf(),
            final(self).config.eliminated_ghosts <= final(self).config.wave_size,
            final(self).stats.health <= final(self).stats.max_health,
            final(self).next_id <= old(self).next_id + 5,
            final(self).nozzle_active == old(self).nozzle_active,
            report.picked_upgrade is Some ==> final(self).config.current_wave == old(
                self,
            ).config.current_wave + 1,
            report.picked_upgrade is None ==> final(self).config.wave_size == old(
                self,
            ).config.wave_size && final(self).config.damage == old(self).config.damage && final(self).config.speed == old(self).config.speed && final(self).config.current_time_between_ghosts == old(self).config.current_time_between_ghosts
                && final(self).config.current_wave == old(self).config.current_wave,
            report.wave_end is Some ==> final(self).pickups@.len() == 2,
            report.player_died is Some ==> final(self).stats.health == 0,
            ({
                let st = old(self).stats.suck_time;
                let sucks = suck_events_of(contacts@);
                let hits = player_hits_of(contacts@);
                let threats_routed = threats_after_sucks(old(self).threats@, sucks, st);
                let pickups_routed = pickups_after_sucks(old(self).pickups@, sucks, st);
                let threats_ticked = threats_after_tick(threats_routed, dt);
                let pickups_ticked = pickups_after_tick(pickups_routed, dt);
                let sucked = captured_threats(threats_routed, dt) + captured_pickups(
                    pickups_routed,
                    dt,
                );
                let hr = hits_resolved(threats_ticked, hits);
                let gr = ghosts_resolved(hr.0, sucked);
                let picked = first_picked(pickups_ticked, sucked);
                let c_elim = GhostSpawnConfig {
                    eliminated_ghosts: (old(self).config.eliminated_ghosts + hr.2 + gr.1) as u32,
                    ..old(self).config
                };
                let c_escalated = if picked is Some {
                    escalated(c_elim)
                } else {
                    c_elim
                };
                let ended = c_escalated.eliminated_ghosts == c_escalated.wave_size;
                let c_checked = GhostSpawnConfig {
                    eliminated_ghosts: if ended {
                        0u32
                    } else {
                        c_escalated.eliminated_ghosts
                    },
                    ..c_escalated
                };
                let spawns = timer_fires(c_checked.timer, dt) && c_checked.spawned_ghosts
                    < c_checked.wave_size;
                let spawn_id = old(self).next_id + if ended {
                    4int
                } else {
                    0int
                };
                let s_scored = Stats {
                    sucked_ghosts: crate::sat_u32(old(self).stats.sucked_ghosts + gr.1) as u32,
                    ..old(self).stats
                };
                let s_upgraded = if picked is Some {
                    Stats { reg_paused: false, ..upgrade_applied(picked->0.upgrade, s_scored) }
                } else {
                    s_scored
                };
                let s_waved = Stats {
                    reg_paused: if ended {
                        true
                    } else {
                        s_upgraded.reg_paused
                    },
                    ..s_upgraded
                };
                let s_damaged = damage_applied(s_waved, hr.1);
                let s_regen = stats_apply(s_damaged, StatsOp::Regenerate { dt });
                let cam_scored = CameraSettings {
                    translational_shake: crate::sat_u64(
                        old(self).camera.translational_shake + 100 * gr.1,
                    ) as u64,
                    rotational_shake: crate::sat_u64(
                        old(self).camera.rotational_shake + 100 * gr.1,
                    ) as u64,
                    ..old(self).camera
                };
                let cam_picked = if picked is Some {
                    CameraSettings {
                        translational_shake: shake_sum(cam_scored.translational_shake, 100) as u64,
                        rotational_shake: shake_sum(cam_scored.rotational_shake, 100) as u64,
                        ..cam_scored
                    }
                } else {
                    cam_scored
                };
                let cam_damaged = CameraSettings {
                    translational_shake: crate::sat_u64(
                        cam_picked.translational_shake + 500 * hr.1.len(),
                    ) as u64,
                    ..cam_picked
                };
                &&& report.sucked@ == sucked
                &&& report.damage_events@ == hr.1
                &&& (report.picked_upgrade is Some <==> picked is Some)
                &&& (report.wave_end is Some <==> ended)
                &&& (report.spawned is Some <==> spawns)
                &&& report.spawned is Some ==> report.spawned->0.id == spawn_id
                    && report.spawned->0.damage == c_checked.damage && report.spawned->0.speed
                    == c_checked.speed
                &&& (report.player_died is Some <==> s_regen.health == 0)
                &&& final(self).config == (GhostSpawnConfig {
                    timer: timer_after(c_checked.timer, dt),
                    spawned_ghosts: if spawns {
                        (c_checked.spawned_ghosts + 1) as u32
                    } else {
                        c_checked.spawned_ghosts
                    },
                    ..c_checked
                })
                &&& final(self).threats@ == if spawns {
                    gr.0.push(
                        Threat {
                            id: spawn_id as u64,
                            damage: c_checked.damage,
                            speed: c_checked.speed,
                            suction: SuctionState::Free,
                        },
                    )
                } else {
                    gr.0
                }
                &&& final(self).stats == if s_regen.health == 0 {
                    Stats { reg_paused: true, ..s_regen }
                } else {
                    s_regen
                }
                &&& final(self).camera == (CameraSettings {
                    translational_shake: decayed(
                        cam_damaged.translational_shake as int,
                        cam_damaged.falloff,
                        dt,
                    ) as u64,
                    rotational_shake: decayed(
                        cam_damaged.rotational_shake as int,
                        cam_damaged.falloff,
                        dt,
                    ) as u64,
                    ..cam_damaged
                })
                &&& final(self).next_id == spawn_id + if spawns {
                    1int
                } else {
                    0int
                }
                &&& (!ended && picked is None ==> final(self).pickups@ == pickups_ticked)
                &&& (!ended && picked is Some ==> final(self).pickups@.len() == 0)
                &&& (ended ==> final(self).pickups@.len() == 2 && final(self).pickups@[0].id == old(
                    self,
                ).next_id && final(self).pickups@[0].label_id == old(self).next_id + 1 && final(self).pickups@[1].id == old(self).next_id + 2 && final(self).pickups@[1].label_id
                    == old(self).next_id + 3 && final(self).pickups@[0].suction is Free && final(self).pickups@[1].suction is Free && exists|i: int, j: int|
                    0 <= i < 5 && 0 <= j < 5 && i != j && crate::upgrade::mods_of(
                        final(self).pickups@[0].upgrade,
                    ) == crate::upgrade::catalog_mods(i) && crate::upgrade::mods_of(
                        final(self).pickups@[1].upgrade,
                    ) == crate::upgrade::catalog_mods(j))
            }),
    {
        let ghost g0 = *old(self);
        let ghost st = g0.stats.suck_time;
        let ghost threats_routed = threats_after_sucks(g0.threats@, suck_events_of(contacts@), st);
        let ghost pickups_routed = pickups_after_sucks(g0.pickups@, suck_events_of(contacts@), st);
        let ghost threats_ticked = threats_after_tick(threats_routed, dt);
        let ghost pickups_ticked = pickups_after_tick(pickups_routed, dt);
        let ghost sucked_s = captured_threats(threats_routed, dt) + captured_pickups(
            pickups_routed,
            dt,
        );
        let ghost hr = hits_resolved(threats_ticked, player_hits_of(contacts@));
        let ghost gr = ghosts_resolved(hr.0, sucked_s);
        let ghost picked_s = first_picked(pickups_ticked, sucked_s);
        let (hits, suck_events) = handle_collisions(contacts);
        self.apply_suck_events(&suck_events);
        let sucked = self.advance_suction(dt);
        proof {
            assert(self.threats@ == threats_ticked);
            assert(self.pickups@ == pickups_ticked);
            assert(sucked@ == sucked_s);
        }
        let damage_events = self.resolve_player_hits(&hits);
        self.resolve_sucked_ghosts(&sucked);
        proof {
            lemma_hits_resolved_counts(threats_ticked, player_hits_of(contacts@));
            lemma_ghosts_resolved_counts(hr.0, sucked_s);
            assert(self.threats@ == gr.0);
            assert(self.config == (GhostSpawnConfig {
                eliminated_ghosts: (g0.config.eliminated_ghosts + hr.2 + gr.1) as u32,
                ..g0.config
            }));
        }
        let ghost c_elim = self.config;
        let ghost mid = *self;
        let picked = self.resolve_sucked_upgrades(&sucked);
        proof {
            assert(picked is Some <==> picked_s is Some);
        }
        if picked.is_some() {
            proof {
                lemma_first_picked_nonempty(mid.pickups@, sucked@);
            }
            self.on_picked_upgrade();
        }
        proof {
            assert(self.config == if picked_s is Some {
                escalated(c_elim)
            } else {
                c_elim
            });
        }
        let ended = self.check_wave_end();
        if ended.is_some() {
            self.spawn_pickups();
        }
        let spawned = self.spawn_enemy(dt);
        self.apply_damage(&damage_events);
        let died = self.tick_vitals(dt);
        self.camera.tick(dt);
        TickReport {
            spawned,
            damage_events,
            sucked,
            wave_end: ended,
            picked_upgrade: picked,
            player_died: died,
        }
    }
}

/// Everything one simulation tick produces for the outer layers: the spawn
/// instruction, the damage taken, the captures that completed, and the
/// wave-end, picked-upgrade and player-death events.
pub struct TickReport {
    pub spawned: Option<SpawnOrder>,
    pub damage_events: Vec<DamageEvent>,
    pub sucked: Vec<Sucked>,
    pub wave_end: Option<WaveEnd>,
    pub picked_upgrade: Option<PickedUpgrade>,
    pub player_died: Option<PlayerDied>,
}


/// Law: between resets the elimination count never exceeds the wave quota —
/// live threats plus eliminations are bounded by the threats spawned this
/// cycle, which the spawn gate keeps within the quota.
pub proof fn lemma_eliminations_within_quota(g: GameCore)
    requires
        g.wf(),
    ensures
        g.config.eliminated_ghosts <= g.config.wave_size,
{
}

} // verus!
