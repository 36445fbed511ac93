use bevy_ui_proxy::command::perform_all;
use bevy_ui_proxy::command::Command;
use bevy_ui_proxy::command::Markers;
use bevy_ui_proxy::error::ProxyUiStateError;
use bevy_ui_proxy::prelude::Entity;
use bevy_ui_proxy::prelude::ProxyUi;
use bevy_ui_proxy::prelude::ProxyUiProxied;
use bevy_ui_proxy::prelude::ProxyUiTarget;
use bevy_ui_proxy::resource::proxy_ui_entity_map::ProxyUiEntityMap;
use bevy_ui_proxy::system::proxy_ui_added::associate;
use bevy_ui_proxy::system::proxy_ui_added::proxy_ui_added;
use bevy_ui_proxy::system::proxy_ui_added::validate_state;
use bevy_ui_proxy::system::proxy_ui_added::AddedProxyUi;

fn bare() -> Markers {
    Markers { declaration: None, proxied: None, target: None, has_node: false }
}

fn declared(proxy: Entity, target: Entity) -> AddedProxyUi {
    AddedProxyUi {
        proxy_ui_entity: proxy,
        proxy_ui: ProxyUi::proxy(target),
        has_node: false,
        target_has_node: false,
    }
}

#[test]
fn test_proxy_ui_added() {
    let dummy_proxied_entity = Entity::from_raw(0);
    let dummy_proxy_ui_entity = Entity::from_raw(1);
    let scene = vec![
        (
            dummy_proxied_entity,
            Markers {
                declaration: None,
                proxied: Some(ProxyUiProxied(dummy_proxy_ui_entity)),
                target: None,
                has_node: false,
            },
        ),
        (
            dummy_proxy_ui_entity,
            Markers {
                declaration: Some(ProxyUi::proxy(dummy_proxied_entity)),
                proxied: None,
                target: Some(ProxyUiTarget(dummy_proxied_entity)),
                has_node: false,
            },
        ),
    ];
    let mut proxy_ui_entity_map = ProxyUiEntityMap::default();
    let added = vec![declared(dummy_proxy_ui_entity, dummy_proxied_entity)];
    let commands = proxy_ui_added(&mut proxy_ui_entity_map, &added);
    let scene: Vec<(Entity, Markers)> = scene
        .iter()
        .map(|(entity, markers)| (*entity, perform_all(&commands, *entity, *markers)))
        .collect();

    // should have been removed
    assert_eq!(scene.iter().filter(|(_, markers)| markers.declaration.is_some()).count(), 0);

    let query_proxy_ui_proxied: Vec<(Entity, ProxyUiProxied)> = scene
        .iter()
        .filter_map(|(entity, markers)| markers.proxied.map(|marker| (*entity, marker)))
        .collect();
    let query_proxy_ui_proxy_target: Vec<(Entity, ProxyUiTarget)> = scene
        .iter()
        .filter_map(|(entity, markers)| markers.target.map(|marker| (*entity, marker)))
        .collect();
    assert_eq!(query_proxy_ui_proxied.len(), 1);
    assert_eq!(query_proxy_ui_proxy_target.len(), 1);

    for ((proxied_entity, proxied), (proxy_target_entity, proxy_target)) in
        query_proxy_ui_proxied.iter().zip(query_proxy_ui_proxy_target.iter())
    {
        assert_eq!(*proxied_entity, proxy_target.target_entity());
        assert_eq!(*proxy_target_entity, proxied.get_proxy_ui_entity());
    }
}

#[test]
fn fresh_declaration_is_wired_and_registered() {
    let target = Entity::from_raw(10);
    let proxy = Entity::from_raw(11);
    let mut registry = ProxyUiEntityMap::new();
    let commands = associate(&mut registry, &declared(proxy, target));
    assert_eq!(
        commands,
        vec![
            Command::RemoveProxyUi(proxy),
            Command::InsertProxied(target, ProxyUiProxied(proxy)),
            Command::InsertTarget(proxy, ProxyUiTarget(target)),
            Command::InsertDefaultNode(proxy),
        ]
    );
    assert_eq!(registry.get_proxy_entity(&target), Some(proxy));
    assert_eq!(registry.get_proxied_target_entity(&proxy), Some(target));

    let proxy_markers = perform_all(
        &commands,
        proxy,
        Markers { declaration: Some(ProxyUi::proxy(target)), ..bare() },
    );
    let target_markers = perform_all(&commands, target, bare());
    assert_eq!(
        proxy_markers,
        Markers {
            declaration: None,
            proxied: None,
            target: Some(ProxyUiTarget(target)),
            has_node: true
        }
    );
    assert_eq!(
        target_markers,
        Markers {
            declaration: None,
            proxied: Some(ProxyUiProxied(proxy)),
            target: None,
            has_node: false
        }
    );
    // round trip through the markers
    let back = target_markers.proxied.unwrap().get_proxy_ui_entity();
    assert_eq!(back, proxy);
    assert_eq!(proxy_markers.target.unwrap().target_entity(), target);
}

#[test]
fn proxy_with_a_node_gets_no_second_node() {
    let target = Entity::from_raw(10);
    let proxy = Entity::from_raw(11);
    let mut registry = ProxyUiEntityMap::new();
    let added = AddedProxyUi { has_node: true, ..declared(proxy, target) };
    let commands = associate(&mut registry, &added);
    assert_eq!(
        commands,
        vec![
            Command::RemoveProxyUi(proxy),
            Command::InsertProxied(target, ProxyUiProxied(proxy)),
            Command::InsertTarget(proxy, ProxyUiTarget(target)),
        ]
    );
    assert!(registry.contains_proxy(&proxy));
}

#[test]
fn validation_verdicts() {
    let target = Entity::from_raw(1);
    let other_target = Entity::from_raw(3);
    let proxy = Entity::from_raw(2);
    let other_proxy = Entity::from_raw(4);
    let mut registry = ProxyUiEntityMap::new();
    assert_eq!(validate_state(&registry, &proxy, &ProxyUi::proxy(target)), Ok(()));
    registry.insert(target, proxy);
    assert_eq!(
        validate_state(&registry, &proxy, &ProxyUi::proxy(target)),
        Err(ProxyUiStateError::DuplicateProxyUi)
    );
    assert_eq!(
        validate_state(&registry, &proxy, &ProxyUi::proxy(other_target)),
        Err(ProxyUiStateError::MultipleProxyUiPerEntity)
    );
    // a second proxy for a target that is bound already passes validation
    assert_eq!(validate_state(&registry, &other_proxy, &ProxyUi::proxy(target)), Ok(()));
}

#[test]
fn second_declaration_of_a_pair_is_a_duplicate() {
    let target = Entity::from_raw(1);
    let proxy = Entity::from_raw(2);
    let mut registry = ProxyUiEntityMap::new();
    let added = vec![declared(proxy, target), declared(proxy, target)];
    let commands = proxy_ui_added(&mut registry, &added);
    assert_eq!(
        commands,
        vec![
            Command::RemoveProxyUi(proxy),
            Command::InsertProxied(target, ProxyUiProxied(proxy)),
            Command::InsertTarget(proxy, ProxyUiTarget(target)),
            Command::InsertDefaultNode(proxy),
            Command::RemoveProxyUi(proxy),
        ]
    );
    assert_eq!(registry.get_proxy_entity(&target), Some(proxy));
    assert_eq!(registry.get_proxied_target_entity(&proxy), Some(target));
}

#[test]
fn declaration_against_a_second_target_is_a_conflict() {
    let target = Entity::from_raw(1);
    let second_target = Entity::from_raw(5);
    let proxy = Entity::from_raw(2);
    let mut registry = ProxyUiEntityMap::new();
    associate(&mut registry, &declared(proxy, target));
    let commands = associate(&mut registry, &declared(proxy, second_target));
    assert_eq!(commands, vec![Command::RemoveProxyUi(proxy)]);
    assert_eq!(registry.get_proxied_target_entity(&proxy), Some(target));
    assert_eq!(registry.get_proxy_entity(&target), Some(proxy));
    assert!(!registry.is_proxied(&second_target));
}

#[test]
fn target_with_a_node_is_rolled_back() {
    let target = Entity::from_raw(1);
    let proxy = Entity::from_raw(2);
    let mut registry = ProxyUiEntityMap::new();
    let added = AddedProxyUi { target_has_node: true, ..declared(proxy, target) };
    let commands = associate(&mut registry, &added);
    assert_eq!(
        commands,
        vec![
            Command::RemoveProxyUi(proxy),
            Command::InsertProxied(target, ProxyUiProxied(proxy)),
            Command::InsertTarget(proxy, ProxyUiTarget(target)),
            Command::InsertDefaultNode(proxy),
            Command::RemoveProxyUi(proxy),
            Command::RemoveTarget(proxy),
            Command::RemoveProxied(target),
        ]
    );
    assert!(!registry.is_proxied(&target));
    assert!(!registry.contains_proxy(&proxy));
    let proxy_markers = perform_all(
        &commands,
        proxy,
        Markers { declaration: Some(ProxyUi::proxy(target)), ..bare() },
    );
    let target_markers = perform_all(&commands, target, Markers { has_node: true, ..bare() });
    assert_eq!(proxy_markers.declaration, None);
    assert_eq!(proxy_markers.target, None);
    assert_eq!(target_markers.proxied, None);
}

#[test]
fn new_proxy_for_a_bound_target_evicts_the_old_pair() {
    let target = Entity::from_raw(1);
    let proxy = Entity::from_raw(2);
    let newer_proxy = Entity::from_raw(3);
    let mut registry = ProxyUiEntityMap::new();
    let added = vec![declared(proxy, target), declared(newer_proxy, target)];
    proxy_ui_added(&mut registry, &added);
    assert_eq!(registry.get_proxy_entity(&target), Some(newer_proxy));
    assert!(!registry.contains_proxy(&proxy));
}

#[test]
fn empty_pass_changes_nothing() {
    let mut registry = ProxyUiEntityMap::new();
    registry.insert(Entity::from_raw(1), Entity::from_raw(2));
    let commands = proxy_ui_added(&mut registry, &Vec::new());
    assert!(commands.is_empty());
    assert_eq!(registry.get_proxy_entity(&Entity::from_raw(1)), Some(Entity::from_raw(2)));
}

#[test]
fn commands_leave_other_entities_alone() {
    let target = Entity::from_raw(1);
    let proxy = Entity::from_raw(2);
    let bystander = Entity::from_raw(9);
    let mut registry = ProxyUiEntityMap::new();
    let commands = associate(&mut registry, &declared(proxy, target));
    let before = Markers {
        declaration: Some(ProxyUi::proxy(target)),
        proxied: None,
        target: Some(ProxyUiTarget(Entity::from_raw(8))),
        has_node: false,
    };
    assert_eq!(perform_all(&commands, bystander, before), before);
    assert_eq!(
        Command::RemoveTarget(bystander).perform(bystander, before),
        Markers { target: None, ..before }
    );
}

#[test]
fn rejected_declaration_is_consumed_all_the_same() {
    let target = Entity::from_raw(1);
    let proxy = Entity::from_raw(2);
    let mut registry = ProxyUiEntityMap::new();
    associate(&mut registry, &declared(proxy, target));
    let commands = associate(&mut registry, &declared(proxy, target));
    let before = Markers {
        declaration: Some(ProxyUi::proxy(target)),
        proxied: None,
        target: Some(ProxyUiTarget(target)),
        has_node: true,
    };
    assert_eq!(perform_all(&commands, proxy, before), Markers { declaration: None, ..before });
    let target_before = Markers { proxied: Some(ProxyUiProxied(proxy)), ..bare() };
    assert_eq!(perform_all(&commands, target, target_before), target_before);
}
