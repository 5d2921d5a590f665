//! The upgrade catalog and its application to the player's vitals. At wave
//! end two distinct modifiers are sampled without replacement from a fixed
//! catalog of five and offered as capturable pickups; the captured one is
//! applied to the vitals.

use vstd::prelude::*;

use crate::rng::random_index;
use crate::scale_per_mille;
use crate::scaled;
use crate::stats::Stats;

verus! {

/// One buff: per-mille stat modifiers and a display label. `max_health`,
/// `regeneration`, `suck_time` and `movement_speed` are multiplicative
/// factors (1000 keeps the stat as it is); `health` is an instantaneous heal
/// as a per-mille fraction of the maximum health.
#[derive(Clone, Debug, PartialEq, Eq)]
pub struct Upgrade {
    pub max_health: u64,
    pub health: u64,
    pub regeneration: u64,
    pub suck_time: u64,
    pub movement_speed: u64,
    pub label: String,
}

/// The per-mille modifiers of one upgrade, in the order max-health factor,
/// heal fraction, regeneration factor, suck-time factor, movement factor.
pub open spec fn mods_of(u: Upgrade) -> (u64, u64, u64, u64, u64) {
    (u.max_health, u.health, u.regeneration, u.suck_time, u.movement_speed)
}

/// The modifiers of the fixed catalog entry at position `i`: a tenth more
/// maximum health; a heal of a fifth of the maximum; a tenth more
/// regeneration; a tenth less capture time; a tenth more movement speed.
pub open spec fn catalog_mods(i: int) -> (u64, u64, u64, u64, u64) {
    if i == 0 {
        (1100u64, 0u64, 1000u64, 1000u64, 1000u64)
    } else if i == 1 {
        (1000u64, 200u64, 1000u64, 1000u64, 1000u64)
    } else if i == 2 {
        (1000u64, 0u64, 1100u64, 1000u64, 1000u64)
    } else if i == 3 {
        (1000u64, 0u64, 1000u64, 900u64, 1000u64)
    } else {
        (1000u64, 0u64, 1000u64, 1000u64, 1100u64)
    }
}

/// The vitals after applying upgrade `u`: the maximum scales by the
/// max-health factor and, when that factor grows it, health scales along to
/// keep its fraction; then the heal lands, clamped to the new maximum; the
/// rate and scale fields each scale by their factor. A capture duration
/// never reaches zero: it floors at one millisecond.
pub open spec fn upgrade_applied(u: Upgrade, s: Stats) -> Stats {
    let h1 = if u.max_health > 1000 {
        scaled(s.health, u.max_health)
    } else {
        s.health as int
    };
    let m1 = scaled(s.max_health, u.max_health);
    let total = h1 + m1 * u.health / 1000;
    let healed = if total > m1 {
        m1
    } else {
        total
    };
    let st = scaled(s.suck_time, u.suck_time);
    Stats {
        max_health: m1 as u64,
        health: healed as u64,
        regeneration: scaled(s.regeneration, u.regeneration) as u64,
        suck_time: (if st == 0 {
            1int
        } else {
            st
        }) as u64,
        movement_speed: scaled(s.movement_speed, u.movement_speed) as u64,
        ..s
    }
}

/// Scaling by a per-mille factor is monotone in the scaled value.
proof fn lemma_scaled_monotone(x: u64, y: u64, m: u64)
    requires
        x <= y,
    ensures
        scaled(x, m) <= scaled(y, m),
{
    assert(x * m / 1000 <= y * m / 1000) by (nonlinear_arith)
        requires
            x <= y,
            0 <= m,
    ;
}

/// Scaling by a factor of at least 1.0 never shrinks the value.
proof fn lemma_scaled_grows(x: u64, m: u64)
    requires
        1000 <= m,
    ensures
        x <= scaled(x, m),
{
    assert(x <= x * m / 1000) by (nonlinear_arith)
        requires
            1000 <= m,
            0 <= x,
    ;
}

impl Default for Upgrade {
    /// The neutral upgrade: every factor 1.0, no heal, an empty label.
    fn default() -> (u: Upgrade)
        ensures
            mods_of(u) == (1000u64, 0u64, 1000u64, 1000u64, 1000u64),
            u.label@ == Seq::<char>::empty(),
            u.wf(),
    {
        Upgrade {
            max_health: 1000,
            health: 0,
            regeneration: 1000,
            suck_time: 1000,
            movement_speed: 1000,
            label: String::new(),
        }
    }
}

impl Upgrade {
    /// Well-formed upgrade: the max-health factor never shrinks the maximum,
    /// so the vitals' positive maximum is preserved by application.
    pub open spec fn wf(self) -> bool {
        1000 <= self.max_health
    }

    /// Applies this upgrade's modifiers to the vitals. Multiplicative for
    /// the rate and scale fields; the heal is a fraction of the maximum
    /// health as it stands after the maximum itself changed in this same
    /// application, clamped to that maximum.
    pub fn apply(&self, stats: &mut Stats)
        requires
            old(stats).wf(),
            self.wf(),
        ensures
            *final(stats) == upgrade_applied(*self, *old(stats)),
            final(stats).wf(),
    {
        proof {
            lemma_scaled_monotone(stats.health, stats.max_health, self.max_health);
            lemma_scaled_grows(stats.max_health, self.max_health);
        }
        if self.max_health > 1000 {
            stats.health = scale_per_mille(stats.health, self.max_health);
        }
        stats.max_health = scale_per_mille(stats.max_health, self.max_health);
        stats.add_health_percent(self.health);
        stats.regeneration = scale_per_mille(stats.regeneration, self.regeneration);
        let st = scale_per_mille(stats.suck_time, self.suck_time);
        stats.suck_time = if st == 0 {
            1
        } else {
            st
        };
        stats.movement_speed = scale_per_mille(stats.movement_speed, self.movement_speed);
    }

    /// The fixed catalog of five upgrades that wave-end offers sample from,
    /// each the neutral upgrade but for one modifier, under five distinct
    /// nonempty display labels.
    pub fn all() -> (v: Vec<Upgrade>)
        ensures
            v@.len() == 5,
            forall|i: int| 0 <= i < 5 ==> mods_of(#[trigger] v@[i]) == catalog_mods(i),
            forall|i: int| 0 <= i < 5 ==> (#[trigger] v@[i]).wf(),
            v@[0].label@ == "Increases maximum health by 10%"@,
            v@[1].label@ == "Heals 20% of your maximum health"@,
            v@[2].label@ == "Increases health regeneration by 10%"@,
            v@[3].label@ == "Decreases time to vacuum ghosts by 10%"@,
            v@[4].label@ == "Increases movement speed by 10%"@,
            forall|i: int, j: int| 0 <= i < j < 5 ==> v@[i].label@ != v@[j].label@,
            forall|i: int| 0 <= i < 5 ==> (#[trigger] v@[i]).label@.len() > 0,
    {
        let mut v: Vec<Upgrade> = Vec::new();
        v.push(Upgrade {
            max_health: 1100,
            health: 0,
            regeneration: 1000,
            suck_time: 1000,
            movement_speed: 1000,
            label: "Increases maximum health by 10%".to_owned(),
        });
        v.push(Upgrade {
            max_health: 1000,
            health: 200,
            regeneration: 1000,
            suck_time: 1000,
            movement_speed: 1000,
            label: "Heals 20% of your maximum health".to_owned(),
        });
        v.push(Upgrade {
            max_health: 1000,
            health: 0,
            regeneration: 1100,
            suck_time: 1000,
            movement_speed: 1000,
            label: "Increases health regeneration by 10%".to_owned(),
        });
        v.push(Upgrade {
            max_health: 1000,
            health: 0,
            regeneration: 1000,
            suck_time: 900,
            movement_speed: 1000,
            label: "Decreases time to vacuum ghosts by 10%".to_owned(),
        });
        v.push(Upgrade {
            max_health: 1000,
            health: 0,
            regeneration: 1000,
            suck_time: 1000,
            movement_speed: 1100,
            label: "Increases movement speed by 10%".to_owned(),
        });
        proof {
            reveal_strlit("Increases maximum health by 10%");
            reveal_strlit("Heals 20% of your maximum health");
            reveal_strlit("Increases health regeneration by 10%");
            reveal_strlit("Decreases time to vacuum ghosts by 10%");
            reveal_strlit("Increases movement speed by 10%");
            // the two equal-length labels differ in their eleventh letter;
            // every other pair differs in length
            assert(v@[0].label@[11] != v@[4].label@[11]);
            assert(v@[1].label@[0] != v@[2].label@[0]);
            assert(v@[1].label@[0] != v@[3].label@[0]);
            assert(v@[0].label@ != v@[1].label@);
            assert(v@[0].label@ != v@[2].label@);
            assert(v@[0].label@ != v@[3].label@);
            assert(v@[0].label@ != v@[4].label@);
            assert(v@[1].label@ != v@[2].label@);
            assert(v@[1].label@ != v@[3].label@);
            assert(v@[1].label@ != v@[4].label@);
            assert(v@[2].label@ != v@[3].label@);
            assert(v@[2].label@ != v@[4].label@);
            assert(v@[3].label@ != v@[4].label@);
        }
        v
    }

    /// Samples two distinct catalog entries without replacement: the two
    /// offered pickups never carry the same catalog position.
    pub fn pick_two() -> (r: (Upgrade, Upgrade))
        ensures
            exists|i: int, j: int|
                0 <= i < 5 && 0 <= j < 5 && i != j && mods_of(r.0) == catalog_mods(i) && mods_of(
                    r.1,
                ) == catalog_mods(j),
            r.0.wf(),
            r.1.wf(),
    {
        let mut upgrades = Upgrade::all();
        let first_index = random_index(upgrades.len());
        let left = upgrades.remove(first_index);
        let second_index = random_index(upgrades.len());
        let right = upgrades.remove(second_index);
        proof {
            let i = first_index as int;
            let j = if second_index < first_index {
                second_index as int
            } else {
                second_index + 1
            };
            assert(0 <= i < 5 && 0 <= j < 5 && i != j && mods_of(left) == catalog_mods(i)
                && mods_of(right) == catalog_mods(j));
        }
        (left, right)
    }
}

} // verus!
