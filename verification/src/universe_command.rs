use vstd::prelude::*;
use crate::ids::UniverseId;
use crate::relationship::Relationship;
use crate::universe_event::UniverseEvent;

verus! {

/// A directive sent from the supervisor to one universe actor, applied by
/// that actor in the order sent.
#[derive(Clone, Copy, Debug, PartialEq, Eq, Structural)]
pub enum UniverseCommand {
    /// Resume autonomous execution. Idempotent.
    Start,
    /// Pause autonomous execution. Idempotent.
    Stop,
    /// Apply an event to the universe's state.
    InjectEvent(UniverseEvent),
    /// Terminate the actor gracefully, without a collapse intent.
    Shutdown,
    /// Record a relationship with a peer, rolled once at the younger
    /// universe's birth.
    SetRelationship(UniverseId, Relationship),
}

} // verus!
