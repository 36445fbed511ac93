use bevy_ui_proxy::entity::Entity;
use bevy_ui_proxy::resource::proxy_ui_entity_map::Overwritten;
use bevy_ui_proxy::resource::proxy_ui_entity_map::ProxyUiEntityMap;

#[test]
fn test_proxy_ui_entity_map() {
    let mut proxy_ui_entity_map = ProxyUiEntityMap::default();
    let proxy_target_entity = Entity::from_raw(1);
    let proxy_ui_entity = Entity::from_raw(2);
    assert_eq!(
        proxy_ui_entity_map.insert(proxy_target_entity, proxy_ui_entity),
        Overwritten::Neither
    );
    assert!(proxy_ui_entity_map.is_proxied(&proxy_target_entity));
    assert!(proxy_ui_entity_map.contains_proxy(&proxy_ui_entity));
    assert_eq!(
        proxy_ui_entity_map.get_proxied_target_entity(&proxy_ui_entity),
        Some(proxy_target_entity)
    );
    assert_eq!(
        proxy_ui_entity_map.get_proxy_entity(&proxy_target_entity),
        Some(proxy_ui_entity)
    );
    assert_eq!(
        proxy_ui_entity_map.remove_by_proxied_target_entity(&proxy_target_entity),
        Some((proxy_target_entity, proxy_ui_entity))
    );
    assert_eq!(proxy_ui_entity_map.remove_by_proxy_entity(&proxy_ui_entity), None);
}

#[test]
fn empty_registry_knows_nobody() {
    let registry = ProxyUiEntityMap::new();
    let e = Entity::from_raw(7);
    assert!(!registry.is_proxied(&e));
    assert!(!registry.contains_proxy(&e));
    assert_eq!(registry.get_proxy_entity(&e), None);
    assert_eq!(registry.get_proxied_target_entity(&e), None);
}

#[test]
fn sides_are_not_confused() {
    let mut registry = ProxyUiEntityMap::new();
    let target = Entity::from_raw(1);
    let proxy = Entity::from_raw(2);
    registry.insert(target, proxy);
    assert!(!registry.is_proxied(&proxy));
    assert!(!registry.contains_proxy(&target));
    assert_eq!(registry.get_proxy_entity(&proxy), None);
    assert_eq!(registry.get_proxied_target_entity(&target), None);
    assert_eq!(registry.remove_by_proxied_target_entity(&proxy), None);
    assert_eq!(registry.remove_by_proxy_entity(&target), None);
    assert!(registry.is_proxied(&target));
}

#[test]
fn insert_same_pair_reports_pair() {
    let mut registry = ProxyUiEntityMap::new();
    let target = Entity::from_raw(1);
    let proxy = Entity::from_raw(2);
    registry.insert(target, proxy);
    assert_eq!(registry.insert(target, proxy), Overwritten::Pair(target, proxy));
    assert_eq!(registry.get_proxy_entity(&target), Some(proxy));
    assert_eq!(registry.get_proxied_target_entity(&proxy), Some(target));
}

#[test]
fn insert_bound_target_evicts_stale_pair() {
    let mut registry = ProxyUiEntityMap::new();
    let target = Entity::from_raw(1);
    let old_proxy = Entity::from_raw(2);
    let new_proxy = Entity::from_raw(3);
    registry.insert(target, old_proxy);
    assert_eq!(registry.insert(target, new_proxy), Overwritten::Left(target, old_proxy));
    assert_eq!(registry.get_proxy_entity(&target), Some(new_proxy));
    assert!(!registry.contains_proxy(&old_proxy));
    assert_eq!(registry.get_proxied_target_entity(&new_proxy), Some(target));
}

#[test]
fn insert_bound_proxy_evicts_stale_pair() {
    let mut registry = ProxyUiEntityMap::new();
    let old_target = Entity::from_raw(1);
    let new_target = Entity::from_raw(4);
    let proxy = Entity::from_raw(2);
    registry.insert(old_target, proxy);
    assert_eq!(registry.insert(new_target, proxy), Overwritten::Right(old_target, proxy));
    assert_eq!(registry.get_proxied_target_entity(&proxy), Some(new_target));
    assert!(!registry.is_proxied(&old_target));
}

#[test]
fn insert_across_two_pairs_evicts_both() {
    let mut registry = ProxyUiEntityMap::new();
    let a = Entity::from_raw(1);
    let b = Entity::from_raw(2);
    let c = Entity::from_raw(3);
    let d = Entity::from_raw(4);
    registry.insert(a, b);
    registry.insert(c, d);
    assert_eq!(registry.insert(a, d), Overwritten::Both((a, b), (c, d)));
    assert_eq!(registry.get_proxy_entity(&a), Some(d));
    assert_eq!(registry.get_proxied_target_entity(&d), Some(a));
    assert!(!registry.is_proxied(&c));
    assert!(!registry.contains_proxy(&b));
}

#[test]
fn remove_by_proxy_returns_the_pair() {
    let mut registry = ProxyUiEntityMap::new();
    let target = Entity::from_raw(10);
    let proxy = Entity::from_raw(20);
    let other_target = Entity::from_raw(30);
    let other_proxy = Entity::from_raw(40);
    registry.insert(target, proxy);
    registry.insert(other_target, other_proxy);
    assert_eq!(registry.remove_by_proxy_entity(&proxy), Some((target, proxy)));
    assert!(!registry.is_proxied(&target));
    assert!(!registry.contains_proxy(&proxy));
    assert_eq!(registry.get_proxy_entity(&other_target), Some(other_proxy));
    assert_eq!(registry.remove_by_proxy_entity(&proxy), None);
}

#[test]
fn entity_bits_round_trip() {
    assert_eq!(Entity::from_raw(5).to_bits(), 5);
    assert_eq!(Entity::from_bits(0x0000_0002_0000_0005).to_bits(), 0x0000_0002_0000_0005);
    assert_eq!(Entity::from_raw(5), Entity::from_bits(5));
    assert_ne!(Entity::from_raw(5), Entity::from_bits(0x0000_0001_0000_0005));
}
