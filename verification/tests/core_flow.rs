//! Whole-lifecycle scenarios through the owned game state: hit resolution,
//! wave ends, upgrade pickups, capture cancellation, and a full tick cycle.

use ghost_suckers::collision_events::Contact;
use ghost_suckers::collision_events::ContactEntity;
use ghost_suckers::collision_events::ContactPhase;
use ghost_suckers::collision_events::CollideWithPlayer;
use ghost_suckers::collision_events::EntityTags;
use ghost_suckers::collision_events::SuckEvent;
use ghost_suckers::events::Sucked;
use ghost_suckers::events::VacuumEvent;
use ghost_suckers::game::GameCore;
use ghost_suckers::game::Pickup;
use ghost_suckers::suction::SuctionState;
use ghost_suckers::upgrade::Upgrade;

fn nozzle_contact(id: u64) -> Contact {
    Contact {
        left: ContactEntity { id, tags: EntityTags { suckable: true, player: false, nozzle: false } },
        right: ContactEntity {
            id: 999_999,
            tags: EntityTags { suckable: false, player: false, nozzle: true },
        },
        phase: ContactPhase::Started,
    }
}

#[test]
fn single_threat_wave_ends_once() {
    let mut core = GameCore::new();
    core.config.wave_size = 1;
    let order = core.spawn_enemy(800).expect("the interval elapsed and the quota is open");
    assert_eq!(core.threats.len(), 1);
    assert_eq!(order.damage, 8_000);
    assert_eq!(order.speed, 2_000);

    let damage = core.resolve_player_hits(&vec![CollideWithPlayer(order.id)]);
    assert_eq!(damage.len(), 1);
    assert_eq!(damage[0].0, 8_000);
    assert_eq!(core.config.eliminated_ghosts, 1);
    assert!(core.threats.is_empty());

    assert!(core.check_wave_end().is_some());
    assert_eq!(core.config.eliminated_ghosts, 0);
    assert!(core.stats.reg_paused);
    assert!(core.check_wave_end().is_none(), "a wave end fires exactly once");
}

#[test]
fn stale_hit_is_a_silent_no_op() {
    let mut core = GameCore::new();
    let order = core.spawn_enemy(800).expect("spawn");
    let hits = vec![CollideWithPlayer(order.id), CollideWithPlayer(order.id)];
    let damage = core.resolve_player_hits(&hits);
    assert_eq!(damage.len(), 1, "a hit on an entity already gone deals nothing");
    assert_eq!(core.config.eliminated_ghosts, 1, "never double-counted");
}

#[test]
fn hit_and_capture_same_tick_count_once() {
    let mut core = GameCore::new();
    let order = core.spawn_enemy(800).expect("spawn");
    let damage = core.resolve_player_hits(&vec![CollideWithPlayer(order.id)]);
    assert_eq!(damage.len(), 1);
    // the capture event for the same entity finds it already gone
    core.resolve_sucked_ghosts(&vec![Sucked(order.id)]);
    assert_eq!(core.config.eliminated_ghosts, 1);
    assert_eq!(core.stats.sucked_ghosts, 0);
}

#[test]
fn captured_ghost_scores_and_shakes() {
    let mut core = GameCore::new();
    let order = core.spawn_enemy(800).expect("spawn");
    core.resolve_sucked_ghosts(&vec![Sucked(order.id)]);
    assert_eq!(core.stats.sucked_ghosts, 1);
    assert_eq!(core.config.eliminated_ghosts, 1);
    assert!(core.threats.is_empty());
    assert_eq!(core.camera.translational_shake, 100);
    assert_eq!(core.camera.rotational_shake, 100);
}

#[test]
fn suck_stop_before_completion_cancels_capture() {
    let mut core = GameCore::new();
    let order = core.spawn_enemy(800).expect("spawn");
    core.apply_suck_events(&vec![SuckEvent::Start(order.id)]);
    let sucked = core.advance_suction(250);
    assert!(sucked.is_empty(), "half the 500 ms suck time has passed");
    assert!(matches!(core.threats[0].suction, SuctionState::Capturing { .. }));
    assert_eq!(core.threats[0].suction.scale(), 500);

    core.apply_suck_events(&vec![SuckEvent::Stop(order.id)]);
    assert!(matches!(core.threats[0].suction, SuctionState::Free));
    assert_eq!(core.threats[0].suction.scale(), 1000, "scale resets to 1.0");
    let later = core.advance_suction(10_000);
    assert!(later.is_empty(), "no capture event ever fires for a cancelled capture");
}

#[test]
fn capture_completes_after_suck_time() {
    let mut core = GameCore::new();
    let order = core.spawn_enemy(800).expect("spawn");
    core.apply_suck_events(&vec![SuckEvent::Start(order.id)]);
    let first = core.advance_suction(499);
    assert!(first.is_empty());
    let second = core.advance_suction(1);
    assert_eq!(second, vec![Sucked(order.id)]);
    let third = core.advance_suction(1_000);
    assert!(third.is_empty(), "an entity emits at most one capture event");
}

#[test]
fn heal_pickup_heals_a_fifth_of_max() {
    let mut core = GameCore::new();
    core.stats.health = 50_000;
    // the post-wave window: quota spawned and cleared, a pickup pair pending
    core.config.spawned_ghosts = core.config.wave_size;
    let mut heal = Upgrade::default();
    heal.health = 200;
    core.pickups.push(Pickup { id: 100, label_id: 101, upgrade: heal, suction: SuctionState::Free });
    core.pickups.push(Pickup {
        id: 102,
        label_id: 103,
        upgrade: Upgrade::default(),
        suction: SuctionState::Free,
    });
    core.next_id = 200;

    let picked = core.resolve_sucked_upgrades(&vec![Sucked(100)]);
    assert!(picked.is_some(), "the picked-upgrade event fires exactly once");
    assert_eq!(core.stats.health, 70_000, "healing 20% of a 100-point maximum");
    assert_eq!(core.pickups.len(), 0, "the sibling pickup and the labels go too");
    let again = core.resolve_sucked_upgrades(&vec![Sucked(102)]);
    assert!(again.is_none(), "the other capture finds its entity already gone");
}

#[test]
fn vacuum_trigger_toggles_nozzle() {
    let mut core = GameCore::new();
    assert!(!core.nozzle_active);
    core.handle_vacuum(VacuumEvent::Start);
    assert!(core.nozzle_active);
    core.handle_vacuum(VacuumEvent::Stop);
    assert!(!core.nozzle_active);
}

#[test]
fn reset_restores_defaults_and_clears_entities() {
    let mut core = GameCore::new();
    let order = core.spawn_enemy(800).expect("spawn");
    core.stats.health = 1;
    core.camera.add(5_000);
    core.reset();
    assert_eq!(core.stats.health, 100_000);
    assert_eq!(core.camera.translational_shake, 0);
    assert_eq!(core.config.current_wave, 1);
    assert!(core.threats.is_empty());
    assert!(core.pickups.is_empty());
    let next = core.spawn_enemy(800).expect("spawn after reset");
    assert!(next.id > order.id, "identifiers stay fresh across a reset");
}

#[test]
fn full_tick_cycle_through_an_upgrade() {
    let mut core = GameCore::new();
    core.config.wave_size = 1;
    core.stats.suck_time = 400;

    // the interval elapses: one threat spawns
    let r1 = core.process_tick(800, &vec![]);
    let ghost_id = r1.spawned.expect("quota open, interval elapsed").id;
    assert!(r1.wave_end.is_none() && r1.picked_upgrade.is_none() && r1.player_died.is_none());

    // nozzle contact: capture starts and, with 400 ms elapsing, completes
    let r2 = core.process_tick(400, &vec![nozzle_contact(ghost_id)]);
    assert_eq!(r2.sucked, vec![Sucked(ghost_id)]);
    assert!(r2.wave_end.is_some(), "one elimination meets the quota of one");
    assert!(r2.picked_upgrade.is_none());
    assert_eq!(core.pickups.len(), 2, "the wave end offers two pickups");
    assert_eq!(core.stats.sucked_ghosts, 1);
    assert!(core.stats.reg_paused, "regeneration pauses while the choice is pending");

    // capture one pickup: the upgrade applies and difficulty escalates
    let pid = core.pickups[0].id;
    let r3 = core.process_tick(400, &vec![nozzle_contact(pid)]);
    assert!(r3.picked_upgrade.is_some());
    assert!(r3.wave_end.is_none());
    assert!(core.pickups.is_empty());
    assert!(!core.stats.reg_paused, "regeneration resumes on the pick");
    assert_eq!(core.config.current_wave, 2);
    assert_eq!(core.config.damage, 8_800);
    assert_eq!(core.config.speed, 2_200);
    assert_eq!(core.config.current_time_between_ghosts, 720);
    assert_eq!(core.config.spawned_ghosts, 0);
}

#[test]
fn player_death_reported_at_zero_health() {
    let mut core = GameCore::new();
    core.stats.health = 1;
    core.stats.regeneration = 0;
    let order = core.spawn_enemy(800).expect("spawn");
    let r = core.process_tick(0, &vec![Contact {
        left: ContactEntity {
            id: order.id,
            tags: EntityTags { suckable: true, player: false, nozzle: false },
        },
        right: ContactEntity {
            id: 1_000_000,
            tags: EntityTags { suckable: false, player: true, nozzle: false },
        },
        phase: ContactPhase::Started,
    }]);
    assert_eq!(r.damage_events.len(), 1);
    assert!(r.player_died.is_some());
    assert_eq!(core.stats.health, 0);
    assert!(core.stats.reg_paused);
}
