use vstd::prelude::*;

pub mod protocol;
pub mod registry;
pub mod relay;
pub mod startup;

verus! {

/// Outcome of a create or join request against the room registry.
#[derive(Clone, Copy, Debug, PartialEq, Eq, Structural)]
pub enum PairError {
    /// The room id is already occupied by a waiting creator.
    Conflict,
    /// No creator is currently waiting on the room id.
    NotFound,
}

} // verus!
