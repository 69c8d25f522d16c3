use vstd::prelude::*;

verus! {

/// A sequencer block projected onto the transactions of a single rollup.
///
/// Its identity is its height; the payload is carried through untouched.
#[derive(Clone, Debug, PartialEq, Eq)]
pub struct FilteredBlock {
    pub height: u64,
    pub payload: Vec<u8>,
}

impl FilteredBlock {
    pub fn new(height: u64, payload: Vec<u8>) -> (r: Self)
        ensures
            r.height == height,
            r.payload@ == payload@,
    {
        FilteredBlock { height, payload }
    }

    pub fn height(&self) -> (r: u64)
        ensures
            r == self.height,
    {
        self.height
    }
}

} // verus!
