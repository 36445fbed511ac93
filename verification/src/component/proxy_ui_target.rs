use crate::entity::Entity;
use vstd::prelude::*;

verus! {

/// The marker on a proxy: the target that it stands for.
#[derive(Clone, Copy, Debug, PartialEq, Eq, Structural)]
pub struct ProxyUiTarget(pub Entity);

impl ProxyUiTarget {
    /// The target that the marked proxy stands for.
    pub fn target_entity(&self) -> (target: Entity)
        ensures
            target == self.0,
    {
        self.0
    }
}

} // verus!
