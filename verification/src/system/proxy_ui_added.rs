use crate::command::apply_all;
use crate::command::lemma_apply_all_concat;
use crate::command::lemma_apply_all_keeps_consumed;
use crate::command::lemma_apply_all_push;
use crate::command::Command;
use crate::command::Markers;
use crate::component::ProxyUi;
use crate::component::ProxyUiProxied;
use crate::component::ProxyUiTarget;
use crate::entity::Entity;
use crate::error::ProxyUiStateError;
use crate::resource::proxy_ui_entity_map::has_proxy;
use crate::resource::proxy_ui_entity_map::is_bijective;
use crate::resource::proxy_ui_entity_map::lemma_registered_is_bijective;
use crate::resource::proxy_ui_entity_map::proxy_of;
use crate::resource::proxy_ui_entity_map::target_of;
use crate::resource::proxy_ui_entity_map::registered;
use crate::resource::proxy_ui_entity_map::ProxyUiEntityMap;
use vstd::prelude::*;

verus! {

/// What the pass reads of one declaration that appeared since the last tick.
#[derive(Clone, Copy, Debug, PartialEq, Eq, Structural)]
pub struct AddedProxyUi {
    /// The UI element that carries the declaration.
    pub proxy_ui_entity: Entity,
    /// The declaration.
    pub proxy_ui: ProxyUi,
    /// Whether the UI element has a UI layout node.
    pub has_node: bool,
    /// Whether the declared target has a UI layout node.
    pub target_has_node: bool,
}

/// The verdict on declaring `proxy` for `target` against the registered
/// `pairs`: a proxy that is registered is turned down, as a duplicate where it
/// is registered with this target, as a conflict where with another.
pub open spec fn validation(pairs: Set<(Entity, Entity)>, proxy: Entity, target: Entity) -> Result<
    (),
    ProxyUiStateError,
> {
    if pairs.contains((target, proxy)) {
        Err(ProxyUiStateError::DuplicateProxyUi)
    } else if has_proxy(pairs, proxy) {
        Err(ProxyUiStateError::MultipleProxyUiPerEntity)
    } else {
        Ok(())
    }
}

impl AddedProxyUi {
    /// The declared target.
    pub open spec fn target(self) -> Entity {
        self.proxy_ui.target_entity
    }

    /// The declaration passes validation against `pairs`.
    pub open spec fn is_valid(self, pairs: Set<(Entity, Entity)>) -> bool {
        validation(pairs, self.proxy_ui_entity, self.target()) is Ok
    }

    /// The declaration becomes an association: it is valid and its target has
    /// no UI layout node.
    pub open spec fn is_associated(self, pairs: Set<(Entity, Entity)>) -> bool {
        self.is_valid(pairs) && !self.target_has_node
    }

    /// The commands that wire both sides: the two markers, and an empty UI
    /// layout node for a proxy that has none.
    pub open spec fn wiring(self) -> Seq<Command> {
        let markers = seq![
            Command::RemoveProxyUi(self.proxy_ui_entity),
            Command::InsertProxied(self.target(), ProxyUiProxied(self.proxy_ui_entity)),
            Command::InsertTarget(self.proxy_ui_entity, ProxyUiTarget(self.target())),
        ];
        if self.has_node {
            markers
        } else {
            markers.push(Command::InsertDefaultNode(self.proxy_ui_entity))
        }
    }

    /// The commands that undo the wiring.
    pub open spec fn rollback(self) -> Seq<Command> {
        seq![
            Command::RemoveProxyUi(self.proxy_ui_entity),
            Command::RemoveTarget(self.proxy_ui_entity),
            Command::RemoveProxied(self.target()),
        ]
    }

    /// The commands that the declaration leads to against `pairs`: the
    /// declaration is always consumed; a valid one is wired; one whose target
    /// has a UI layout node is then rolled back.
    pub open spec fn commands(self, pairs: Set<(Entity, Entity)>) -> Seq<Command> {
        if !self.is_valid(pairs) {
            seq![Command::RemoveProxyUi(self.proxy_ui_entity)]
        } else if self.target_has_node {
            self.wiring() + self.rollback()
        } else {
            self.wiring()
        }
    }

    /// The registered pairs once the declaration is processed against `pairs`.
    pub open spec fn registry_after(self, pairs: Set<(Entity, Entity)>) -> Set<(Entity, Entity)> {
        if self.is_associated(pairs) {
            registered(pairs, self.target(), self.proxy_ui_entity)
        } else {
            pairs
        }
    }
}

/// The registered pairs once all of `added` are processed, in order.
pub open spec fn pairs_after(pairs: Set<(Entity, Entity)>, added: Seq<AddedProxyUi>) -> Set<
    (Entity, Entity),
>
    decreases added.len(),
{
    if added.len() == 0 {
        pairs
    } else {
        added.last().registry_after(pairs_after(pairs, added.drop_last()))
    }
}

/// The commands that processing all of `added`, in order, leads to.
pub open spec fn commands_after(pairs: Set<(Entity, Entity)>, added: Seq<AddedProxyUi>) -> Seq<
    Command,
>
    decreases added.len(),
{
    if added.len() == 0 {
        Seq::empty()
    } else {
        commands_after(pairs, added.drop_last()) + added.last().commands(
            pairs_after(pairs, added.drop_last()),
        )
    }
}

/// Validates a declaration against the registry.
pub fn validate_state(
    proxy_ui_entity_map: &ProxyUiEntityMap,
    proxy_ui_entity: &Entity,
    proxy_ui: &ProxyUi,
) -> (verdict: Result<(), ProxyUiStateError>)
    requires
        proxy_ui_entity_map.wf(),
    ensures
        verdict == validation(proxy_ui_entity_map@, *proxy_ui_entity, proxy_ui.target_entity),
{
    let proxy_target_entity = proxy_ui.target_entity;
    if proxy_ui_entity_map.contains_proxy(proxy_ui_entity) {
        match proxy_ui_entity_map.get_proxied_target_entity(proxy_ui_entity) {
            Some(registered_target) => {
                if registered_target == proxy_target_entity {
                    Err(ProxyUiStateError::DuplicateProxyUi)
                } else {
                    Err(ProxyUiStateError::MultipleProxyUiPerEntity)
                }
            },
            None => Err(ProxyUiStateError::MultipleProxyUiPerEntity),
        }
    } else {
        Ok(())
    }
}

/// Processes one declaration: consumes it, validates it, wires both sides,
/// rolls the wiring back where the target has a UI layout node, and registers
/// the pair where it does not.
pub fn associate(proxy_ui_entity_map: &mut ProxyUiEntityMap, added: &AddedProxyUi) -> (commands:
    Vec<Command>)
    requires
        old(proxy_ui_entity_map).wf(),
    ensures
        final(proxy_ui_entity_map).wf(),
        final(proxy_ui_entity_map)@ == added.registry_after(old(proxy_ui_entity_map)@),
        commands@ == added.commands(old(proxy_ui_entity_map)@),
{
    let proxy_ui_entity = added.proxy_ui_entity;
    let mut commands: Vec<Command> = Vec::new();
    commands.push(Command::RemoveProxyUi(proxy_ui_entity));
    if validate_state(proxy_ui_entity_map, &proxy_ui_entity, &added.proxy_ui).is_err() {
        assert(commands@ =~= added.commands(old(proxy_ui_entity_map)@));
        return commands;
    }
    let proxy_target_entity = added.proxy_ui.target_entity;
    commands.push(Command::InsertProxied(proxy_target_entity, ProxyUiProxied(proxy_ui_entity)));
    commands.push(Command::InsertTarget(proxy_ui_entity, ProxyUiTarget(proxy_target_entity)));
    if !added.has_node {
        commands.push(Command::InsertDefaultNode(proxy_ui_entity));
    }
    assert(commands@ =~= added.wiring());
    if added.target_has_node {
        commands.push(Command::RemoveProxyUi(proxy_ui_entity));
        commands.push(Command::RemoveTarget(proxy_ui_entity));
        commands.push(Command::RemoveProxied(proxy_target_entity));
        assert(commands@ =~= added.wiring() + added.rollback());
        return commands;
    }
    proxy_ui_entity_map.insert(proxy_target_entity, proxy_ui_entity);
    commands
}

/// The pass that builds associations: processes every declaration that
/// appeared since the last tick, in order, against the registry.
pub fn proxy_ui_added(proxy_ui_entity_map: &mut ProxyUiEntityMap, added: &Vec<AddedProxyUi>) -> (commands:
    Vec<Command>)
    requires
        old(proxy_ui_entity_map).wf(),
    ensures
        final(proxy_ui_entity_map).wf(),
        final(proxy_ui_entity_map)@ == pairs_after(old(proxy_ui_entity_map)@, added@),
        commands@ == commands_after(old(proxy_ui_entity_map)@, added@),
{
    let ghost before = proxy_ui_entity_map@;
    let mut commands: Vec<Command> = Vec::new();
    let mut i: usize = 0;
    while i < added.len()
        invariant
            i <= added.len(),
            proxy_ui_entity_map.wf(),
            proxy_ui_entity_map@ == pairs_after(before, added@.take(i as int)),
            commands@ == commands_after(before, added@.take(i as int)),
        decreases added.len() - i,
    {
        assert(added@.take(i + 1).drop_last() =~= added@.take(i as int));
        let mut more = associate(proxy_ui_entity_map, &added[i]);
        commands.append(&mut more);
        i += 1;
    }
    assert(added@.take(i as int) =~= added@);
    commands
}

/// What the wiring of a declaration does to the markers of any entity.
pub proof fn lemma_wiring_effect(added: AddedProxyUi, entity: Entity, markers: Markers)
    ensures
        apply_all(added.wiring(), entity, markers) == (Markers {
            declaration: if entity == added.proxy_ui_entity {
                None
            } else {
                markers.declaration
            },
            proxied: if entity == added.target() {
                Some(ProxyUiProxied(added.proxy_ui_entity))
            } else {
                markers.proxied
            },
            target: if entity == added.proxy_ui_entity {
                Some(ProxyUiTarget(added.target()))
            } else {
                markers.target
            },
            has_node: markers.has_node || (entity == added.proxy_ui_entity && !added.has_node),
        }),
{
    let a = Command::RemoveProxyUi(added.proxy_ui_entity);
    let b = Command::InsertProxied(added.target(), ProxyUiProxied(added.proxy_ui_entity));
    let c = Command::InsertTarget(added.proxy_ui_entity, ProxyUiTarget(added.target()));
    let d = Command::InsertDefaultNode(added.proxy_ui_entity);
    let none = Seq::<Command>::empty();
    lemma_apply_all_push(none, a, entity, markers);
    lemma_apply_all_push(none.push(a), b, entity, markers);
    lemma_apply_all_push(none.push(a).push(b), c, entity, markers);
    lemma_apply_all_push(none.push(a).push(b).push(c), d, entity, markers);
    assert(seq![a, b, c] =~= none.push(a).push(b).push(c));
}

/// What the rollback of a declaration does to the markers of any entity.
pub proof fn lemma_rollback_effect(added: AddedProxyUi, entity: Entity, markers: Markers)
    ensures
        apply_all(added.rollback(), entity, markers) == (Markers {
            declaration: if entity == added.proxy_ui_entity {
                None
            } else {
                markers.declaration
            },
            proxied: if entity == added.target() {
                None
            } else {
                markers.proxied
            },
            target: if entity == added.proxy_ui_entity {
                None
            } else {
                markers.target
            },
            has_node: markers.has_node,
        }),
{
    let a = Command::RemoveProxyUi(added.proxy_ui_entity);
    let b = Command::RemoveTarget(added.proxy_ui_entity);
    let c = Command::RemoveProxied(added.target());
    let none = Seq::<Command>::empty();
    lemma_apply_all_push(none, a, entity, markers);
    lemma_apply_all_push(none.push(a), b, entity, markers);
    lemma_apply_all_push(none.push(a).push(b), c, entity, markers);
    assert(seq![a, b, c] =~= none.push(a).push(b).push(c));
}

/// A declaration is consumed whatever becomes of it: after its commands the
/// UI element carries no declaration.
pub proof fn lemma_declaration_is_consumed(
    pairs: Set<(Entity, Entity)>,
    added: AddedProxyUi,
    markers: Markers,
)
    ensures
        apply_all(added.commands(pairs), added.proxy_ui_entity, markers).declaration is None,
{
    let proxy = added.proxy_ui_entity;
    if !added.is_valid(pairs) {
        lemma_apply_all_push(Seq::empty(), Command::RemoveProxyUi(proxy), proxy, markers);
        assert(seq![Command::RemoveProxyUi(proxy)] =~= Seq::<Command>::empty().push(
            Command::RemoveProxyUi(proxy),
        ));
    } else {
        lemma_wiring_effect(added, proxy, markers);
        if added.target_has_node {
            lemma_apply_all_concat(added.wiring(), added.rollback(), proxy, markers);
            lemma_rollback_effect(added, proxy, apply_all(added.wiring(), proxy, markers));
        }
    }
}

/// After a pass no UI element whose declaration the pass read carries one.
pub proof fn lemma_pass_consumes_every_declaration(
    pairs: Set<(Entity, Entity)>,
    added: Seq<AddedProxyUi>,
    i: int,
    markers: Markers,
)
    requires
        0 <= i < added.len(),
    ensures
        apply_all(
            commands_after(pairs, added),
            added[i].proxy_ui_entity,
            markers,
        ).declaration is None,
    decreases added.len(),
{
    let proxy = added[i].proxy_ui_entity;
    let earlier = commands_after(pairs, added.drop_last());
    let last = added.last().commands(pairs_after(pairs, added.drop_last()));
    lemma_apply_all_concat(earlier, last, proxy, markers);
    if i == added.len() - 1 {
        lemma_declaration_is_consumed(
            pairs_after(pairs, added.drop_last()),
            added.last(),
            apply_all(earlier, proxy, markers),
        );
    } else {
        lemma_pass_consumes_every_declaration(pairs, added.drop_last(), i, markers);
        lemma_apply_all_keeps_consumed(last, proxy, apply_all(earlier, proxy, markers));
    }
}

/// A declaration that becomes an association links both sides to each other:
/// the proxy's marker names the target, the target's marker names the proxy,
/// and the registry, still a bijection, finds each from the other.
pub proof fn lemma_association_is_symmetric(
    pairs: Set<(Entity, Entity)>,
    added: AddedProxyUi,
    proxy_markers: Markers,
    target_markers: Markers,
)
    requires
        is_bijective(pairs),
        added.is_associated(pairs),
    ensures
        apply_all(added.commands(pairs), added.proxy_ui_entity, proxy_markers).target == Some(
            ProxyUiTarget(added.target()),
        ),
        apply_all(added.commands(pairs), added.target(), target_markers).proxied == Some(
            ProxyUiProxied(added.proxy_ui_entity),
        ),
        is_bijective(added.registry_after(pairs)),
        added.registry_after(pairs).contains((added.target(), added.proxy_ui_entity)),
        proxy_of(added.registry_after(pairs), added.target()) == added.proxy_ui_entity,
        target_of(added.registry_after(pairs), added.proxy_ui_entity) == added.target(),
{
    lemma_wiring_effect(added, added.proxy_ui_entity, proxy_markers);
    lemma_wiring_effect(added, added.target(), target_markers);
    lemma_registered_is_bijective(pairs, added.target(), added.proxy_ui_entity);
}

/// Once a proxy is associated, declaring it again is turned down and changes
/// nothing: as a duplicate for the same target, as a conflict for another.
pub proof fn lemma_redeclaration_is_rejected(
    pairs: Set<(Entity, Entity)>,
    added: AddedProxyUi,
    again: AddedProxyUi,
)
    requires
        added.is_associated(pairs),
        again.proxy_ui_entity == added.proxy_ui_entity,
    ensures
        validation(added.registry_after(pairs), again.proxy_ui_entity, again.target()) == Err::<
            (),
            ProxyUiStateError,
        >(
            if again.target() == added.target() {
                ProxyUiStateError::DuplicateProxyUi
            } else {
                ProxyUiStateError::MultipleProxyUiPerEntity
            },
        ),
        again.registry_after(added.registry_after(pairs)) == added.registry_after(pairs),
        again.commands(added.registry_after(pairs)) == seq![Command::RemoveProxyUi(again.proxy_ui_entity)],
        pairs_after(pairs, seq![added, again]) == added.registry_after(pairs),
{
    let after = added.registry_after(pairs);
    assert(after.contains((added.target(), added.proxy_ui_entity)));
    let both = seq![added, again];
    assert(both.drop_last() =~= seq![added]);
    assert(seq![added].drop_last() =~= Seq::<AddedProxyUi>::empty());
    assert(pairs_after(pairs, Seq::<AddedProxyUi>::empty()) == pairs);
    assert(pairs_after(pairs, seq![added]) == after);
}

/// A valid declaration whose target carries a UI layout node leaves nothing
/// behind: no marker on either side, no declaration, no change to the
/// registry.
pub proof fn lemma_rollback_leaves_nothing(
    pairs: Set<(Entity, Entity)>,
    added: AddedProxyUi,
    proxy_markers: Markers,
    target_markers: Markers,
)
    requires
        added.is_valid(pairs),
        added.target_has_node,
    ensures
        apply_all(added.commands(pairs), added.proxy_ui_entity, proxy_markers).target is None,
        apply_all(added.commands(pairs), added.proxy_ui_entity, proxy_markers).declaration is None,
        apply_all(added.commands(pairs), added.target(), target_markers).proxied is None,
        added.registry_after(pairs) == pairs,
{
    let proxy = added.proxy_ui_entity;
    let target = added.target();
    lemma_apply_all_concat(added.wiring(), added.rollback(), proxy, proxy_markers);
    lemma_rollback_effect(added, proxy, apply_all(added.wiring(), proxy, proxy_markers));
    lemma_apply_all_concat(added.wiring(), added.rollback(), target, target_markers);
    lemma_rollback_effect(added, target, apply_all(added.wiring(), target, target_markers));
}

} // verus!
