//! A vote cast in a poll.

use vstd::prelude::*;

verus! {

/// The option a voter chose.
#[derive(Clone, Debug, PartialEq, Eq)]
pub struct Ballot {
    pub option: String,
}

} // verus!
