pub mod proxy_ui_added;
pub mod proxy_ui_update;
