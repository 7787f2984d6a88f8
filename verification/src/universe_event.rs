use vstd::prelude::*;
use crate::ids::UniverseId;

verus! {

/// The payload of `UniverseCommand::InjectEvent`: something that happens to
/// a universe.
#[derive(Clone, Copy, Debug, PartialEq, Eq, Structural)]
pub enum UniverseEvent {
    /// Damage the universe by the given strength.
    Shatter(i32),
    /// Heal the universe by the given strength; a collapsed universe stays
    /// collapsed.
    Heal(i32),
    /// Damage so bad the universe collapses at once.
    Crash,
    /// A peer has collapsed: forget it from both relationship sets.
    PeerCollapsed(UniverseId),
}

} // verus!
