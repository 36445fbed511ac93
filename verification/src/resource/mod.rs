pub mod proxy_ui_entity_map;
