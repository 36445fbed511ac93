use crate::entity::Entity;
use vstd::prelude::*;

verus! {

/// The declaration that a UI element wishes to stand for a target. It is
/// consumed by the pass that builds associations.
#[derive(Clone, Copy, Debug, PartialEq, Eq, Structural)]
pub struct ProxyUi {
    pub target_entity: Entity,
}

impl ProxyUi {
    /// Declares the wish to stand for `target_entity`.
    pub fn proxy(target_entity: Entity) -> (declaration: ProxyUi)
        ensures
            declaration.target_entity == target_entity,
    {
        ProxyUi { target_entity }
    }
}

} // verus!
