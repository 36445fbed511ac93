pub use proxy_ui::ProxyUi;
pub use proxy_ui_node_state::NodeStateView;
pub use proxy_ui_node_state::ProxyUiNodeState;
pub use proxy_ui_proxied::ProxyUiProxied;
pub use proxy_ui_target::ProxyUiTarget;

pub mod proxy_ui;
pub mod proxy_ui_node_state;
pub mod proxy_ui_proxied;
pub mod proxy_ui_target;
