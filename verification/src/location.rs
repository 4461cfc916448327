use vstd::prelude::*;

verus! {

/// A handle on a place in the source text.
///
/// The handle is handed in with a token, a marker or a field and comes back
/// out in errors and method definitions. Nothing is ever decided by it.
#[derive(Clone, Copy, Debug, PartialEq, Eq, Structural)]
pub struct Location {
    pub id: u64,
}

impl Location {
    pub fn new(id: u64) -> (at: Location)
        ensures
            at.id == id,
    {
        Location { id }
    }
}

} // verus!
