//! Domain events produced and drained once per simulation tick. Audio and UI
//! collaborators subscribe to them read-only; the core never blocks on their
//! handling.

use vstd::prelude::*;

verus! {

/// The player was hit for this many milli-hit-points.
#[derive(Clone, Copy, Debug, PartialEq, Eq, Structural)]
pub struct DamageEvent(pub u64);

/// The vacuum trigger was pressed or released.
#[derive(Clone, Copy, Debug, PartialEq, Eq, Structural)]
pub enum VacuumEvent {
    Start,
    Stop,
}

/// A wave's elimination quota was just reached.
#[derive(Clone, Copy, Debug, PartialEq, Eq, Structural)]
pub struct WaveEnd;

/// The entity with this identifier completed its capture.
#[derive(Clone, Copy, Debug, PartialEq, Eq, Structural)]
pub struct Sucked(pub u64);

/// An upgrade pickup was captured and its modifiers applied.
#[derive(Clone, Copy, Debug, PartialEq, Eq, Structural)]
pub struct PickedUpgrade;

/// The player's health reached zero.
#[derive(Clone, Copy, Debug, PartialEq, Eq, Structural)]
pub struct PlayerDied;

} // verus!
