use crate::entity::Entity;
use vstd::prelude::*;

verus! {

/// The marker on a target: the proxy that stands for it.
#[derive(Clone, Copy, Debug, PartialEq, Eq, Structural)]
pub struct ProxyUiProxied(pub Entity);

impl ProxyUiProxied {
    /// The proxy that stands for the marked target.
    pub fn get_proxy_ui_entity(&self) -> (proxy: Entity)
        ensures
            proxy == self.0,
    {
        self.0
    }
}

} // verus!
