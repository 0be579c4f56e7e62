//! The chain-identity record: the accepted preset and chain name pair.

use vstd::prelude::*;

verus! {

/// Representation of a chain-spec row to be inserted.
#[derive(Debug)]
pub struct NewSpec {
    pub name: String,
    pub preset_base: String,
}

impl NewSpec {
    pub fn new(name: &str, preset_base: &str) -> (r: NewSpec)
        ensures
            r.name@ == name@,
            r.preset_base@ == preset_base@,
    {
        NewSpec { name: name.to_owned(), preset_base: preset_base.to_owned() }
    }
}

} // verus!
