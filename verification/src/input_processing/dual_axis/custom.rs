//! Stages that the embedding application defines.
use vstd::prelude::*;

verus! {

/// The handle of a stage that the embedding application supplies and runs.
#[derive(Debug, Clone, Copy, PartialEq, Eq, Hash)]
pub struct CustomStage {
    pub id: u64,
}

} // verus!
