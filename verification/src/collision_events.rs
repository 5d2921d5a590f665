//! Collision-event classification: raw begin/end contact pairs from the
//! physics collaborator are turned into domain events based on the role tags
//! of the two entities involved. Purely event-emitting; no state mutation.

use vstd::prelude::*;

verus! {

/// The role capability set of one entity, assigned at spawn time: the player
/// body, the player's vacuum nozzle intake, and suckable entities (threats
/// and upgrade pickups).
#[derive(Clone, Copy, Debug, PartialEq, Eq, Structural)]
pub struct EntityTags {
    pub suckable: bool,
    pub player: bool,
    pub nozzle: bool,
}

/// One side of a raw contact notification.
#[derive(Clone, Copy, Debug, PartialEq, Eq, Structural)]
pub struct ContactEntity {
    pub id: u64,
    pub tags: EntityTags,
}

/// Whether a contact pair began or ended touching.
#[derive(Clone, Copy, Debug, PartialEq, Eq, Structural)]
pub enum ContactPhase {
    Started,
    Stopped,
}

/// A raw contact notification from the physics collaborator.
#[derive(Clone, Copy, Debug, PartialEq, Eq, Structural)]
pub struct Contact {
    pub left: ContactEntity,
    pub right: ContactEntity,
    pub phase: ContactPhase,
}

/// A suckable entity began touching the player body.
#[derive(Clone, Copy, Debug, PartialEq, Eq, Structural)]
pub struct CollideWithPlayer(pub u64);

/// A suckable entity began (`Start`) or stopped (`Stop`) touching the active
/// nozzle.
#[derive(Clone, Copy, Debug, PartialEq, Eq, Structural)]
pub enum SuckEvent {
    Start(u64),
    Stop(u64),
}

/// True when the pair contains a suckable entity.
pub open spec fn pair_suckable(c: Contact) -> bool {
    c.left.tags.suckable || c.right.tags.suckable
}

/// The suckable entity of the pair, the left one preferred when both sides
/// carry the tag.
pub open spec fn suckable_of(c: Contact) -> u64 {
    if c.left.tags.suckable {
        c.left.id
    } else {
        c.right.id
    }
}

/// True when either side of the pair is a nozzle.
pub open spec fn pair_has_nozzle(c: Contact) -> bool {
    c.left.tags.nozzle || c.right.tags.nozzle
}

/// True when either side of the pair is the player body.
pub open spec fn pair_has_player(c: Contact) -> bool {
    c.left.tags.player || c.right.tags.player
}

/// The suction event a contact classifies to: a begin contact of a suckable
/// with a nozzle starts a capture, an end contact stops one. Anything else
/// produces no suction event.
pub open spec fn classify_suck(c: Contact) -> Option<SuckEvent> {
    if pair_suckable(c) && pair_has_nozzle(c) {
        match c.phase {
            ContactPhase::Started => Some(SuckEvent::Start(suckable_of(c))),
            ContactPhase::Stopped => Some(SuckEvent::Stop(suckable_of(c))),
        }
    } else {
        None
    }
}

/// The player-hit event a contact classifies to: a begin contact of a
/// suckable with the player body — unless the pair also involves a nozzle, in
/// which case the capture interpretation takes precedence and suppresses the
/// hit for that contact.
pub open spec fn classify_player_hit(c: Contact) -> Option<CollideWithPlayer> {
    if c.phase is Started && pair_suckable(c) && !pair_has_nozzle(c) && pair_has_player(c) {
        Some(CollideWithPlayer(suckable_of(c)))
    } else {
        None
    }
}

/// All player-hit events of a contact stream, in stream order.
pub open spec fn player_hits_of(cs: Seq<Contact>) -> Seq<CollideWithPlayer>
    decreases cs.len(),
{
    if cs.len() == 0 {
        Seq::empty()
    } else {
        let rest = player_hits_of(cs.drop_last());
        match classify_player_hit(cs.last()) {
            Some(e) => rest.push(e),
            None => rest,
        }
    }
}

/// All suction events of a contact stream, in stream order.
pub open spec fn suck_events_of(cs: Seq<Contact>) -> Seq<SuckEvent>
    decreases cs.len(),
{
    if cs.len() == 0 {
        Seq::empty()
    } else {
        let rest = suck_events_of(cs.drop_last());
        match classify_suck(cs.last()) {
            Some(e) => rest.push(e),
            None => rest,
        }
    }
}

/// Classifies a tick's raw contact notifications into the player-hit and
/// suction event queues, in stream order. Pairs matching no tagged role
/// produce no event.
pub fn handle_collisions(contacts: &Vec<Contact>) -> (r: (Vec<CollideWithPlayer>, Vec<SuckEvent>))
    ensures
        r.0@ == player_hits_of(contacts@),
        r.1@ == suck_events_of(contacts@),
{
    let mut hits: Vec<CollideWithPlayer> = Vec::new();
    let mut sucks: Vec<SuckEvent> = Vec::new();
    let n = contacts.len();
    for i in 0..n
        invariant
            n == contacts.len(),
            hits@ == player_hits_of(contacts@.take(i as int)),
            sucks@ == suck_events_of(contacts@.take(i as int)),
    {
        let c = contacts[i];
        proof {
            assert(contacts@.take(i + 1).drop_last() =~= contacts@.take(i as int));
            assert(contacts@.take(i + 1).last() == c);
        }
        if c.left.tags.suckable || c.right.tags.suckable {
            let suckable_id = if c.left.tags.suckable {
                c.left.id
            } else {
                c.right.id
            };
            let has_nozzle = c.left.tags.nozzle || c.right.tags.nozzle;
            let has_player = c.left.tags.player || c.right.tags.player;
            match c.phase {
                ContactPhase::Started => {
                    if has_nozzle {
                        sucks.push(SuckEvent::Start(suckable_id));
                    } else if has_player {
                        hits.push(CollideWithPlayer(suckable_id));
                    }
                },
                ContactPhase::Stopped => {
                    if has_nozzle {
                        sucks.push(SuckEvent::Stop(suckable_id));
                    }
                },
            }
        }
    }
    proof {
        assert(contacts@.take(n as int) =~= contacts@);
    }
    (hits, sucks)
}

} // verus!
