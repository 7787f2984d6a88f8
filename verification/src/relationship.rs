use vstd::prelude::*;

verus! {

/// The symmetric label a pair of universes rolls at the birth of the newer
/// one. Assigned once per pair and never mutated; a peer can only disappear
/// from the relationship sets by collapsing.
#[derive(Clone, Copy, Debug, PartialEq, Eq, Structural)]
pub enum Relationship {
    Brother,
    Enemy,
}

} // verus!
