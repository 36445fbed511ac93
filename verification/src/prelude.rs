pub use crate::component::ProxyUi;
pub use crate::component::ProxyUiNodeState;
pub use crate::component::ProxyUiProxied;
pub use crate::component::ProxyUiTarget;
pub use crate::entity::Entity;
