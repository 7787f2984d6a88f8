use vstd::prelude::*;
use crate::ids::UniverseId;

verus! {

/// An actor's declared desire, produced during its tick or its collapse and
/// executed by the supervisor. The actor never touches another actor's
/// state directly.
#[derive(Clone, Copy, Debug, PartialEq, Eq, Structural)]
pub enum UniverseIntent {
    Attack { target: UniverseId, damage: i32 },
    Heal { target: UniverseId, amount: i32 },
    Dead { self_id: UniverseId },
}

} // verus!
