//! Component-level behavior: vitals, camera decay, suction state machine,
//! spawn timing, escalation, danger level and the collision classifier.

use ghost_suckers::camera::CameraSettings;
use ghost_suckers::collision_events::CollideWithPlayer;
use ghost_suckers::collision_events::Contact;
use ghost_suckers::collision_events::ContactEntity;
use ghost_suckers::collision_events::ContactPhase;
use ghost_suckers::collision_events::EntityTags;
use ghost_suckers::collision_events::SuckEvent;
use ghost_suckers::collision_events::handle_collisions;
use ghost_suckers::danger::DangerLevel;
use ghost_suckers::danger::MixShift;
use ghost_suckers::danger::ghost_fraction;
use ghost_suckers::enemy_spawner::GhostSpawnConfig;
use ghost_suckers::enemy_spawner::RepeatTimer;
use ghost_suckers::scale_per_mille;
use ghost_suckers::stats::Stats;
use ghost_suckers::suction::SuctionState;
use ghost_suckers::upgrade::Upgrade;

fn tagged(id: u64, suckable: bool, player: bool, nozzle: bool) -> ContactEntity {
    ContactEntity { id, tags: EntityTags { suckable, player, nozzle } }
}

#[test]
fn stats_defaults() {
    let s = Stats::new();
    assert_eq!(s.max_health, 100_000);
    assert_eq!(s.health, 100_000);
    assert_eq!(s.regeneration, 1_000);
    assert_eq!(s.sucked_ghosts, 0);
    assert_eq!(s.suck_time, 500);
    assert_eq!(s.movement_speed, 5_000);
    assert!(!s.reg_paused);
}

#[test]
fn regenerate_adds_rate_per_second_clamped() {
    let mut s = Stats::new();
    s.health = 50_000;
    // 2.5 seconds at 1 hit point per second
    s.regenerate(2_500);
    assert_eq!(s.health, 52_500);
    s.health = 99_900;
    s.regenerate(2_500);
    assert_eq!(s.health, 100_000);
}

#[test]
fn regenerate_paused_changes_nothing() {
    let mut s = Stats::new();
    s.health = 10_000;
    s.reg_paused = true;
    s.regenerate(60_000);
    assert_eq!(s.health, 10_000);
}

#[test]
fn damage_saturates_at_zero() {
    let mut s = Stats::new();
    s.take_damage(30_000);
    assert_eq!(s.health, 70_000);
    assert!(!s.is_dead());
    s.take_damage(999_999);
    assert_eq!(s.health, 0);
    assert!(s.is_dead());
}

#[test]
fn heal_percent_clamps_at_max() {
    let mut s = Stats::new();
    s.health = 50_000;
    s.add_health_percent(200);
    assert_eq!(s.health, 70_000);
    s.add_health_percent(900);
    assert_eq!(s.health, 100_000);
}

#[test]
fn normalized_health_is_per_mille() {
    let mut s = Stats::new();
    s.health = 25_000;
    assert_eq!(s.normalized_health(), 250);
    s.health = 100_000;
    assert_eq!(s.normalized_health(), 1000);
    s.health = 0;
    assert_eq!(s.normalized_health(), 0);
}

#[test]
fn camera_decay_formula() {
    let mut c = CameraSettings::new();
    assert_eq!(c.falloff, 1_100);
    c.falloff = 2_000;
    c.add(1_000);
    c.tick(100);
    // 1000 * 1000 / 2000 - 100
    assert_eq!(c.translational_shake, 400);
    assert_eq!(c.rotational_shake, 400);
}

#[test]
fn camera_shake_reaches_exact_zero_and_stays() {
    let mut c = CameraSettings::new();
    c.add(5);
    c.add(5);
    let mut guard = 0;
    while c.translational_shake > 0 {
        c.tick(1);
        guard += 1;
        assert!(guard <= 20, "shake must reach zero in few idle ticks");
    }
    assert_eq!(c.translational_shake, 0);
    assert_eq!(c.rotational_shake, 0);
    c.tick(0);
    assert_eq!(c.translational_shake, 0);
}

#[test]
fn camera_rejects_flat_falloff() {
    assert!(CameraSettings::with_falloff(1_000, 1_000).is_none());
    assert!(CameraSettings::with_falloff(1_001, 1_000).is_some());
}

#[test]
fn suction_completes_and_captures_once() {
    let mut s = SuctionState::Free;
    s.on_suck_start(300);
    assert!(!s.tick(299));
    assert!(s.tick(1));
    assert!(matches!(s, SuctionState::Captured));
    assert_eq!(s.scale(), 0);
    // terminal: nothing fires again
    assert!(!s.tick(10_000));
    s.on_suck_start(300);
    assert!(!s.tick(10_000));
    assert!(matches!(s, SuctionState::Captured));
}

#[test]
fn capture_halfway_then_stopped_never_fires() {
    let mut s = SuctionState::Free;
    s.on_suck_start(1_000);
    assert!(!s.tick(500), "no capture event yet at half the timer");
    assert_eq!(s.scale(), 500);
    s.on_suck_stop();
    assert!(matches!(s, SuctionState::Free), "the timer is removed");
    assert_eq!(s.scale(), 1_000, "the scale resets to 1.0");
    assert!(!s.tick(100_000), "no capture event is ever emitted");
}

#[test]
fn suction_stop_is_idempotent_on_free() {
    let mut s = SuctionState::Free;
    s.on_suck_stop();
    assert!(matches!(s, SuctionState::Free));
    assert_eq!(s.scale(), 1000);
}

#[test]
fn suction_restart_resets_countdown() {
    let mut s = SuctionState::Free;
    s.on_suck_start(400);
    assert!(!s.tick(300));
    s.on_suck_start(400);
    assert!(!s.tick(300));
    assert_eq!(s.scale(), 250);
}

#[test]
fn repeat_timer_keeps_overshoot() {
    let mut t = RepeatTimer::new(800);
    assert!(!t.tick(500));
    assert!(t.tick(500));
    assert_eq!(t.elapsed, 200);
    let mut zero = RepeatTimer::new(0);
    assert!(zero.tick(0));
    assert!(zero.tick(123));
}

#[test]
fn spawn_config_defaults_and_spawn_gate() {
    let mut c = GhostSpawnConfig::new();
    assert_eq!(c.wave_size(), 25);
    assert_eq!(c.current_wave(), 1);
    assert_eq!(c.damage, 8_000);
    assert_eq!(c.speed, 2_000);
    assert!(!c.tick_spawn(500));
    assert!(c.tick_spawn(500));
    assert_eq!(c.spawned_ghosts, 1);
    // a met quota still ticks the timer but spawns nothing
    c.spawned_ghosts = c.wave_size;
    assert!(!c.tick_spawn(10_000));
    assert_eq!(c.spawned_ghosts, c.wave_size);
}

#[test]
fn wave_end_fires_exactly_once() {
    let mut c = GhostSpawnConfig::new();
    c.wave_size = 2;
    c.spawned_ghosts = 2;
    c.eliminate_ghost();
    assert!(!c.check_wave_end());
    c.eliminate_ghost();
    assert_eq!(c.eliminated_ghosts, 2);
    assert!(c.check_wave_end());
    assert_eq!(c.eliminated_ghosts, 0);
    assert!(!c.check_wave_end());
}

#[test]
fn escalation_formula() {
    let mut c = GhostSpawnConfig::new();
    c.spawned_ghosts = 25;
    c.escalate();
    assert_eq!(c.wave_size, 27);
    assert_eq!(c.spawned_ghosts, 0);
    assert_eq!(c.damage, 8_800);
    assert_eq!(c.speed, 2_200);
    assert_eq!(c.current_time_between_ghosts, 720);
    assert_eq!(c.timer.duration, 720);
    assert_eq!(c.timer.elapsed, 0);
    assert_eq!(c.current_wave, 2);
}

#[test]
fn scale_per_mille_saturates() {
    assert_eq!(scale_per_mille(800, 900), 720);
    assert_eq!(scale_per_mille(u64::MAX, 1_100), u64::MAX);
    assert_eq!(scale_per_mille(0, 1_100), 0);
}

#[test]
fn danger_level_weighted_blend() {
    let mut d = DangerLevel::new();
    assert_eq!(d.danger_level(), 0);
    d.update(400, 300);
    // (600 * 2 + 300 * 1) / 3
    assert_eq!(d.danger_level(), 500);
    assert_eq!(d.mix_shift(), MixShift::TowardMedium);
    d.update(1_000, 0);
    assert_eq!(d.mix_shift(), MixShift::TowardBase);
    // inside the band the two adjustments cancel
    d.update(1_000, 1_000);
    assert_eq!(d.danger_level(), 333);
    assert_eq!(d.mix_shift(), MixShift::Hold);
}

#[test]
fn mix_shift_band_edges() {
    let mut d = DangerLevel::new();
    d.update(1_000, 960);
    assert_eq!(d.danger_level(), 320);
    assert_eq!(d.mix_shift(), MixShift::TowardBase, "at the lower edge only the calm fade runs");
    d.update(1_000, 1_050);
    assert_eq!(d.danger_level(), 350);
    assert_eq!(d.mix_shift(), MixShift::TowardMedium, "at the upper edge only the tense fade runs");
    d.update(1_000, 1_020);
    assert_eq!(d.danger_level(), 340);
    assert_eq!(d.mix_shift(), MixShift::Hold);
}

#[test]
fn capturing_state_is_observable() {
    let mut s = SuctionState::Free;
    assert!(!s.is_capturing());
    s.on_suck_start(100);
    assert!(s.is_capturing());
    assert!(s.tick(100));
    assert!(!s.is_capturing());
}

#[test]
fn ghost_fraction_is_per_mille_of_quota() {
    assert_eq!(ghost_fraction(5, 25), 200);
    assert_eq!(ghost_fraction(0, 25), 0);
    assert_eq!(ghost_fraction(25, 25), 1000);
}

#[test]
fn upgrade_catalog_and_default() {
    let all = Upgrade::all();
    assert_eq!(all.len(), 5);
    assert_eq!(all[0].max_health, 1_100);
    assert_eq!(all[1].health, 200);
    assert_eq!(all[2].regeneration, 1_100);
    assert_eq!(all[3].suck_time, 900);
    assert_eq!(all[4].movement_speed, 1_100);
    assert_eq!(all[0].label, "Increases maximum health by 10%");
    assert_eq!(all[1].label, "Heals 20% of your maximum health");
    let neutral = Upgrade::default();
    assert_eq!(neutral.max_health, 1_000);
    assert_eq!(neutral.health, 0);
    assert_eq!(neutral.label, "");
}

#[test]
fn pick_two_is_distinct_sampling() {
    for _ in 0..50 {
        let (a, b) = Upgrade::pick_two();
        let all = Upgrade::all();
        assert!(all.iter().any(|u| *u == a));
        assert!(all.iter().any(|u| *u == b));
        assert_ne!(a, b, "sampling is without replacement from distinct entries");
    }
}

#[test]
fn upgrade_apply_scales_health_with_max() {
    let mut s = Stats::new();
    s.health = 50_000;
    let all = Upgrade::all();
    // +10% maximum health keeps the health fraction
    all[0].apply(&mut s);
    assert_eq!(s.max_health, 110_000);
    assert_eq!(s.health, 55_000);
    // -10% suck time
    all[3].apply(&mut s);
    assert_eq!(s.suck_time, 450);
    // +10% regeneration and movement
    all[2].apply(&mut s);
    all[4].apply(&mut s);
    assert_eq!(s.regeneration, 1_100);
    assert_eq!(s.movement_speed, 5_500);
}

#[test]
fn classifier_routes_by_role_tags() {
    let threat = tagged(7, true, false, false);
    let player = tagged(1, false, true, false);
    let nozzle = tagged(2, false, false, true);
    let wall = tagged(3, false, false, false);
    let contacts = vec![
        Contact { left: threat, right: player, phase: ContactPhase::Started },
        Contact { left: nozzle, right: threat, phase: ContactPhase::Started },
        Contact { left: threat, right: nozzle, phase: ContactPhase::Stopped },
        Contact { left: threat, right: wall, phase: ContactPhase::Started },
        Contact { left: player, right: wall, phase: ContactPhase::Started },
    ];
    let (hits, sucks) = handle_collisions(&contacts);
    assert_eq!(hits, vec![CollideWithPlayer(7)]);
    assert_eq!(sucks, vec![SuckEvent::Start(7), SuckEvent::Stop(7)]);
}

#[test]
fn classifier_nozzle_takes_precedence_over_player() {
    // one contact matching both roles: the capture interpretation wins and
    // the damage interpretation is suppressed
    let threat = tagged(7, true, false, false);
    let both = ContactEntity { id: 1, tags: EntityTags { suckable: false, player: true, nozzle: true } };
    let contacts = vec![Contact { left: threat, right: both, phase: ContactPhase::Started }];
    let (hits, sucks) = handle_collisions(&contacts);
    assert!(hits.is_empty());
    assert_eq!(sucks, vec![SuckEvent::Start(7)]);
}

#[test]
fn classifier_stop_without_nozzle_is_silent() {
    let threat = tagged(7, true, false, false);
    let player = tagged(1, false, true, false);
    let contacts = vec![Contact { left: threat, right: player, phase: ContactPhase::Stopped }];
    let (hits, sucks) = handle_collisions(&contacts);
    assert!(hits.is_empty());
    assert!(sucks.is_empty());
}
