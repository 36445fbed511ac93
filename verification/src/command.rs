use crate::component::ProxyUi;
use crate::component::ProxyUiProxied;
use crate::component::ProxyUiTarget;
use crate::entity::Entity;
use vstd::prelude::*;

verus! {

/// A change to the markers of one entity, for the host to perform.
#[derive(Clone, Copy, Debug, PartialEq, Eq, Structural)]
pub enum Command {
    /// Take the declaration off the entity.
    RemoveProxyUi(Entity),
    /// Put the marker of a target on the entity.
    InsertProxied(Entity, ProxyUiProxied),
    /// Put the marker of a proxy on the entity.
    InsertTarget(Entity, ProxyUiTarget),
    /// Give the entity an empty UI layout node.
    InsertDefaultNode(Entity),
    /// Take the marker of a proxy off the entity.
    RemoveTarget(Entity),
    /// Take the marker of a target off the entity.
    RemoveProxied(Entity),
}

/// What the passes read and change of one entity.
#[derive(Clone, Copy, Debug, PartialEq, Eq, Structural)]
pub struct Markers {
    pub declaration: Option<ProxyUi>,
    pub proxied: Option<ProxyUiProxied>,
    pub target: Option<ProxyUiTarget>,
    pub has_node: bool,
}

impl Command {
    /// The entity that the command addresses.
    pub open spec fn entity(self) -> Entity {
        match self {
            Command::RemoveProxyUi(e) => e,
            Command::InsertProxied(e, _) => e,
            Command::InsertTarget(e, _) => e,
            Command::InsertDefaultNode(e) => e,
            Command::RemoveTarget(e) => e,
            Command::RemoveProxied(e) => e,
        }
    }

    /// The markers of `entity` once the command is performed: changed where
    /// the command addresses `entity`, the same where it does not.
    pub open spec fn apply(self, entity: Entity, markers: Markers) -> Markers {
        if self.entity() != entity {
            markers
        } else {
            match self {
                Command::RemoveProxyUi(_) => Markers { declaration: None, ..markers },
                Command::InsertProxied(_, marker) => Markers { proxied: Some(marker), ..markers },
                Command::InsertTarget(_, marker) => Markers { target: Some(marker), ..markers },
                Command::InsertDefaultNode(_) => Markers { has_node: true, ..markers },
                Command::RemoveTarget(_) => Markers { target: None, ..markers },
                Command::RemoveProxied(_) => Markers { proxied: None, ..markers },
            }
        }
    }

    /// Performs the command on the markers of `entity`.
    pub fn perform(&self, entity: Entity, markers: Markers) -> (after: Markers)
        ensures
            after == self.apply(entity, markers),
    {
        let mut after = markers;
        match *self {
            Command::RemoveProxyUi(e) => {
                if e == entity {
                    after.declaration = None;
                }
            },
            Command::InsertProxied(e, marker) => {
                if e == entity {
                    after.proxied = Some(marker);
                }
            },
            Command::InsertTarget(e, marker) => {
                if e == entity {
                    after.target = Some(marker);
                }
            },
            Command::InsertDefaultNode(e) => {
                if e == entity {
                    after.has_node = true;
                }
            },
            Command::RemoveTarget(e) => {
                if e == entity {
                    after.target = None;
                }
            },
            Command::RemoveProxied(e) => {
                if e == entity {
                    after.proxied = None;
                }
            },
        }
        after
    }
}

/// The markers of `entity` once all of `commands` are performed, in order.
pub open spec fn apply_all(commands: Seq<Command>, entity: Entity, markers: Markers) -> Markers
    decreases commands.len(),
{
    if commands.len() == 0 {
        markers
    } else {
        commands.last().apply(entity, apply_all(commands.drop_last(), entity, markers))
    }
}

/// Performs all of `commands`, in order, on the markers of `entity`.
pub fn perform_all(commands: &Vec<Command>, entity: Entity, markers: Markers) -> (after: Markers)
    ensures
        after == apply_all(commands@, entity, markers),
{
    let mut after = markers;
    let mut i: usize = 0;
    while i < commands.len()
        invariant
            i <= commands.len(),
            after == apply_all(commands@.take(i as int), entity, markers),
        decreases commands.len() - i,
    {
        assert(commands@.take(i + 1).drop_last() =~= commands@.take(i as int));
        after = commands[i].perform(entity, after);
        i += 1;
    }
    assert(commands@.take(i as int) =~= commands@);
    after
}

/// Performing `first + second` is performing `first`, then `second`.
pub proof fn lemma_apply_all_concat(
    first: Seq<Command>,
    second: Seq<Command>,
    entity: Entity,
    markers: Markers,
)
    ensures
        apply_all(first + second, entity, markers) == apply_all(
            second,
            entity,
            apply_all(first, entity, markers),
        ),
    decreases second.len(),
{
    if second.len() == 0 {
        assert(first + second =~= first);
    } else {
        assert((first + second).drop_last() =~= first + second.drop_last());
        lemma_apply_all_concat(first, second.drop_last(), entity, markers);
    }
}

/// Performing `commands.push(last)` is performing `commands`, then `last`.
pub proof fn lemma_apply_all_push(
    commands: Seq<Command>,
    last: Command,
    entity: Entity,
    markers: Markers,
)
    ensures
        apply_all(commands.push(last), entity, markers) == last.apply(
            entity,
            apply_all(commands, entity, markers),
        ),
{
    assert(commands.push(last).drop_last() =~= commands);
}

/// No command puts a declaration on an entity: one that has none before a run
/// of commands has none after it.
pub proof fn lemma_apply_all_keeps_consumed(
    commands: Seq<Command>,
    entity: Entity,
    markers: Markers,
)
    requires
        markers.declaration is None,
    ensures
        apply_all(commands, entity, markers).declaration is None,
    decreases commands.len(),
{
    if commands.len() > 0 {
        lemma_apply_all_keeps_consumed(commands.drop_last(), entity, markers);
    }
}

} // verus!
