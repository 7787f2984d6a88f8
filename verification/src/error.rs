use vstd::prelude::*;
use vstd::string::*;
use crate::ids::UniverseId;
use crate::numfmt::{dec_seq, usize_to_dec};

verus! {

/// Errors that can occur when looking up universes in the supervisor's
/// registry.
#[derive(Clone, Debug, PartialEq, Eq)]
pub enum UniverseLookupError {
    IdNotFoundForName(String),
    UniverseNotFoundForId(UniverseId),
}

/// What a lookup error says for itself.
pub open spec fn lookup_error_msg(e: UniverseLookupError) -> Seq<char> {
    match e {
        UniverseLookupError::IdNotFoundForName(name) => "Universe name '"@ + name@
            + "' not found"@,
        UniverseLookupError::UniverseNotFoundForId(id) => "Universe with ID '"@ + dec_seq(
            id as nat,
        ) + "' not found"@,
    }
}

impl UniverseLookupError {
    /// This error, written out for a human.
    pub fn message(&self) -> (s: String)
        ensures
            s@ == lookup_error_msg(*self),
    {
        match self {
            UniverseLookupError::IdNotFoundForName(name) => {
                let mut m = "Universe name '".to_owned();
                m.append(name.as_str());
                m.append("' not found");
                m
            },
            UniverseLookupError::UniverseNotFoundForId(id) => {
                let mut m = "Universe with ID '".to_owned();
                m.append(usize_to_dec(*id).as_str());
                m.append("' not found");
                m
            },
        }
    }
}

/// Errors that can occur when creating a universe.
#[derive(Clone, Debug, PartialEq, Eq)]
pub enum UniverseCreateError {
    NameAlreadyExists(String),
}

} // verus!
