use crate::command::apply_all;
use crate::command::lemma_apply_all_push;
use crate::command::Command;
use crate::command::Markers;
use crate::component::NodeStateView;
use crate::component::ProxyUiNodeState;
use crate::component::ProxyUiTarget;
use crate::entity::Entity;
use crate::math::GlobalTransform;
use crate::math::Rect;
use crate::math::Transform;
use crate::math::UNIT;
use crate::ui::Style;
use crate::ui::Visibility;
use vstd::prelude::*;

verus! {

/// What the pass reads of one confirmed proxy and of its target.
#[derive(Clone, Debug, PartialEq, Eq)]
pub struct ProxyUiItem {
    /// The proxy.
    pub proxy_ui_entity: Entity,
    /// Its marker, which names the target.
    pub proxy_ui_target: ProxyUiTarget,
    /// The snapshot that the proxy holds from an earlier tick.
    pub node_state: Option<ProxyUiNodeState>,
    /// The rectangle of the proxy in UI space.
    pub ui_rect: Rect,
    /// That rectangle with both corners mapped into the world, where the host
    /// had a window and a camera to map them with.
    pub mapped_rect: Option<Rect>,
    /// The style of the proxy.
    pub style: Style,
    /// The placement of the proxy relative to its parent.
    pub transform: Transform,
    /// The placement of the proxy in the world.
    pub global_transform: GlobalTransform,
    /// The visibility that the proxy asks for.
    pub visibility: Visibility,
    /// Whether the proxy is in fact visible.
    pub view_visibility: bool,
    /// Whether the target carries a UI layout node, which it must not.
    pub target_has_node: bool,
}

/// What the pass decides for one proxy.
#[derive(Clone, Debug, PartialEq, Eq)]
pub enum Update {
    /// Nothing moved: nothing is written.
    Unchanged,
    /// The target carries a UI layout node: both markers are to be removed.
    TearDown { proxy: Entity, target: Entity },
    /// The snapshot changed: one copy goes to the proxy, one to the target.
    Write { proxy: Entity, target: Entity, proxy_state: ProxyUiNodeState, target_state: ProxyUiNodeState },
}

/// What an update holds.
pub enum UpdateView {
    Unchanged,
    TearDown { proxy: Entity, target: Entity },
    Write { proxy: Entity, target: Entity, proxy_state: NodeStateView, target_state: NodeStateView },
}

impl View for Update {
    type V = UpdateView;

    open spec fn view(&self) -> UpdateView {
        match *self {
            Update::Unchanged => UpdateView::Unchanged,
            Update::TearDown { proxy, target } => UpdateView::TearDown { proxy, target },
            Update::Write { proxy, target, proxy_state, target_state } => UpdateView::Write {
                proxy,
                target,
                proxy_state: proxy_state@,
                target_state: target_state@,
            },
        }
    }
}

impl UpdateView {
    /// The marker commands that the update asks for: on a tear-down the
    /// marker leaves the target and the marker leaves the proxy; otherwise
    /// none.
    pub open spec fn commands(self) -> Seq<Command> {
        match self {
            UpdateView::TearDown { proxy, target } => seq![
                Command::RemoveProxied(target),
                Command::RemoveTarget(proxy),
            ],
            _ => Seq::empty(),
        }
    }

    /// The snapshots that the update writes, each with the entity that
    /// receives it: on a write one for the proxy and one for the target;
    /// otherwise none.
    pub open spec fn writes(self) -> Seq<(Entity, NodeStateView)> {
        match self {
            UpdateView::Write { proxy, target, proxy_state, target_state } => seq![
                (proxy, proxy_state),
                (target, target_state),
            ],
            _ => Seq::empty(),
        }
    }
}

impl Update {
    /// The marker commands that the update asks for.
    pub fn commands(&self) -> (commands: Vec<Command>)
        ensures
            commands@ == self@.commands(),
    {
        let mut commands: Vec<Command> = Vec::new();
        match self {
            Update::TearDown { proxy, target } => {
                commands.push(Command::RemoveProxied(*target));
                commands.push(Command::RemoveTarget(*proxy));
                assert(commands@ =~= self@.commands());
            },
            _ => {},
        }
        commands
    }
}

/// Whether some camera is marked active.
pub open spec fn has_active_camera(cameras_active: Seq<bool>) -> bool {
    exists|i: int| 0 <= i < cameras_active.len() && cameras_active[i]
}

/// The rectangle in the world: what the host mapped, where there is a primary
/// window, an active camera and a mapped rectangle; the zero rectangle where
/// one of them is missing.
pub open spec fn world_rect_of(
    has_primary_window: bool,
    has_camera: bool,
    mapped_rect: Option<Rect>,
) -> Rect {
    if has_primary_window && has_camera && mapped_rect is Some {
        mapped_rect->0
    } else {
        Rect::zero()
    }
}

/// The UI scale in force: the given one, or one where none is given.
pub open spec fn scale_of(ui_scale: Option<u32>) -> u32 {
    match ui_scale {
        Some(scale) => scale,
        None => UNIT,
    }
}

/// The snapshot of `item` at this tick.
pub open spec fn node_state_of(
    ui_scale: Option<u32>,
    has_primary_window: bool,
    has_camera: bool,
    item: ProxyUiItem,
) -> NodeStateView {
    NodeStateView {
        ui_rect: item.ui_rect,
        world_rect: world_rect_of(has_primary_window, has_camera, item.mapped_rect),
        global_transform: item.global_transform,
        transform: item.transform,
        style: item.style@,
        ui_scale: scale_of(ui_scale),
        visibility: item.visibility,
        view_visibility: item.view_visibility,
    }
}

/// Whether `state` differs from the snapshot held before; with none held
/// before, it does.
pub open spec fn differs(previous: Option<ProxyUiNodeState>, state: NodeStateView) -> bool {
    match previous {
        Some(held) => !held@.same(state),
        None => true,
    }
}

/// What the pass decides for `item`: a tear-down where the target carries a
/// UI layout node; else a write of the new snapshot to both sides where it
/// differs from the one held; else nothing.
pub open spec fn update_of(
    ui_scale: Option<u32>,
    has_primary_window: bool,
    has_camera: bool,
    item: ProxyUiItem,
) -> UpdateView {
    let state = node_state_of(ui_scale, has_primary_window, has_camera, item);
    if item.target_has_node {
        UpdateView::TearDown { proxy: item.proxy_ui_entity, target: item.proxy_ui_target.0 }
    } else if differs(item.node_state, state) {
        UpdateView::Write {
            proxy: item.proxy_ui_entity,
            target: item.proxy_ui_target.0,
            proxy_state: state,
            target_state: state,
        }
    } else {
        UpdateView::Unchanged
    }
}

/// The first camera that is marked active.
pub fn active_camera(cameras_active: &Vec<bool>) -> (found: Option<usize>)
    ensures
        found is Some == has_active_camera(cameras_active@),
        match found {
            Some(i) => {
                &&& i < cameras_active.len()
                &&& cameras_active[i as int]
                &&& forall|j: int| 0 <= j < i ==> !cameras_active[j]
            },
            None => true,
        },
{
    let mut i: usize = 0;
    while i < cameras_active.len()
        invariant
            i <= cameras_active.len(),
            forall|j: int| 0 <= j < i ==> !cameras_active[j],
        decreases cameras_active.len() - i,
    {
        if cameras_active[i] {
            return Some(i);
        }
        i += 1;
    }
    None
}

/// The rectangle in the world for one proxy.
pub fn world_rect(has_primary_window: bool, has_camera: bool, mapped_rect: Option<Rect>) -> (rect:
    Rect)
    ensures
        rect == world_rect_of(has_primary_window, has_camera, mapped_rect),
{
    if has_primary_window && has_camera {
        match mapped_rect {
            Some(mapped) => mapped,
            None => Rect::default(),
        }
    } else {
        Rect::default()
    }
}

/// Decides for one proxy what this tick has to change.
pub fn update_proxy(
    ui_scale: Option<u32>,
    has_primary_window: bool,
    has_camera: bool,
    item: &ProxyUiItem,
) -> (update: Update)
    ensures
        update@ == update_of(ui_scale, has_primary_window, has_camera, *item),
{
    let ui_scale = match ui_scale {
        Some(scale) => scale,
        None => UNIT,
    };
    let new_node_state = ProxyUiNodeState {
        ui_rect: item.ui_rect,
        world_rect: world_rect(has_primary_window, has_camera, item.mapped_rect),
        global_transform: item.global_transform,
        transform: item.transform,
        style: item.style.duplicate(),
        ui_scale,
        visibility: item.visibility,
        view_visibility: item.view_visibility,
    };
    let proxy_ui_node_state_has_changed = match &item.node_state {
        Some(proxy_ui_node_state) => proxy_ui_node_state.is_changed(&new_node_state),
        None => true,
    };
    let proxied_entity = item.proxy_ui_target.target_entity();
    if item.target_has_node {
        return Update::TearDown { proxy: item.proxy_ui_entity, target: proxied_entity };
    }
    if proxy_ui_node_state_has_changed {
        Update::Write {
            proxy: item.proxy_ui_entity,
            target: proxied_entity,
            proxy_state: new_node_state.duplicate(),
            target_state: new_node_state,
        }
    } else {
        Update::Unchanged
    }
}

/// The pass that keeps targets in step: decides for every confirmed proxy, in
/// order, what this tick has to change.
pub fn proxy_ui_update(
    ui_scale: Option<u32>,
    has_primary_window: bool,
    cameras_active: &Vec<bool>,
    items: &Vec<ProxyUiItem>,
) -> (updates: Vec<Update>)
    ensures
        updates.len() == items.len(),
        forall|i: int|
            0 <= i < items.len() ==> (#[trigger] updates[i])@ == update_of(
                ui_scale,
                has_primary_window,
                has_active_camera(cameras_active@),
                items[i],
            ),
{
    let has_camera = active_camera(cameras_active).is_some();
    let mut updates: Vec<Update> = Vec::new();
    let mut i: usize = 0;
    while i < items.len()
        invariant
            i <= items.len(),
            updates.len() == i,
            has_camera == has_active_camera(cameras_active@),
            forall|k: int|
                0 <= k < i ==> (#[trigger] updates[k])@ == update_of(
                    ui_scale,
                    has_primary_window,
                    has_camera,
                    items[k],
                ),
        decreases items.len() - i,
    {
        let update = update_proxy(ui_scale, has_primary_window, has_camera, &items[i]);
        updates.push(update);
        i += 1;
    }
    updates
}

/// A snapshot without a not-a-number equals itself.
pub proof fn lemma_numeric_state_is_same_as_itself(state: NodeStateView)
    requires
        state.is_numeric(),
    ensures
        state.same(state),
{
}

/// Where nothing moved since the snapshot that the proxy holds was taken, and
/// no number in it is a not-a-number, nothing is written and no marker is
/// touched.
pub proof fn lemma_unchanged_inputs_write_nothing(
    ui_scale: Option<u32>,
    has_primary_window: bool,
    has_camera: bool,
    item: ProxyUiItem,
)
    requires
        !item.target_has_node,
        item.node_state is Some,
        item.node_state->0@ == node_state_of(ui_scale, has_primary_window, has_camera, item),
        node_state_of(ui_scale, has_primary_window, has_camera, item).is_numeric(),
    ensures
        update_of(ui_scale, has_primary_window, has_camera, item) == UpdateView::Unchanged,
        update_of(ui_scale, has_primary_window, has_camera, item).writes() == Seq::<
            (Entity, NodeStateView),
        >::empty(),
        update_of(ui_scale, has_primary_window, has_camera, item).commands() == Seq::<
            Command,
        >::empty(),
{
    lemma_numeric_state_is_same_as_itself(
        node_state_of(ui_scale, has_primary_window, has_camera, item),
    );
}

/// Where the new snapshot differs from the one held, or none is held, and the
/// target is in order, exactly two snapshots are written: the new one to the
/// proxy and the same to the target.
pub proof fn lemma_changed_inputs_write_both(
    ui_scale: Option<u32>,
    has_primary_window: bool,
    has_camera: bool,
    item: ProxyUiItem,
)
    requires
        !item.target_has_node,
        differs(item.node_state, node_state_of(ui_scale, has_primary_window, has_camera, item)),
    ensures
        update_of(ui_scale, has_primary_window, has_camera, item).writes() == seq![
            (
                item.proxy_ui_entity,
                node_state_of(ui_scale, has_primary_window, has_camera, item),
            ),
            (
                item.proxy_ui_target.0,
                node_state_of(ui_scale, has_primary_window, has_camera, item),
            ),
        ],
        update_of(ui_scale, has_primary_window, has_camera, item).commands() == Seq::<
            Command,
        >::empty(),
{
}

/// Where the target carries a UI layout node, the association is taken down
/// whole: the proxy loses its marker, the target loses its marker, and no
/// snapshot is written.
pub proof fn lemma_tear_down_removes_both_markers(
    ui_scale: Option<u32>,
    has_primary_window: bool,
    has_camera: bool,
    item: ProxyUiItem,
    proxy_markers: Markers,
    target_markers: Markers,
)
    requires
        item.target_has_node,
    ensures
        apply_all(
            update_of(ui_scale, has_primary_window, has_camera, item).commands(),
            item.proxy_ui_entity,
            proxy_markers,
        ).target is None,
        apply_all(
            update_of(ui_scale, has_primary_window, has_camera, item).commands(),
            item.proxy_ui_target.0,
            target_markers,
        ).proxied is None,
        update_of(ui_scale, has_primary_window, has_camera, item).writes() == Seq::<
            (Entity, NodeStateView),
        >::empty(),
{
    let a = Command::RemoveProxied(item.proxy_ui_target.0);
    let b = Command::RemoveTarget(item.proxy_ui_entity);
    let none = Seq::<Command>::empty();
    assert(seq![a, b] =~= none.push(a).push(b));
    lemma_apply_all_push(none, a, item.proxy_ui_entity, proxy_markers);
    lemma_apply_all_push(none.push(a), b, item.proxy_ui_entity, proxy_markers);
    lemma_apply_all_push(none, a, item.proxy_ui_target.0, target_markers);
    lemma_apply_all_push(none.push(a), b, item.proxy_ui_target.0, target_markers);
}

/// With no camera marked active, or with no primary window, the rectangle in
/// the world of every proxy is the zero rectangle, whatever the host mapped.
pub proof fn lemma_missing_collaborator_gives_zero_rect(
    ui_scale: Option<u32>,
    has_primary_window: bool,
    cameras_active: Seq<bool>,
    item: ProxyUiItem,
)
    requires
        !has_primary_window || forall|i: int|
            0 <= i < cameras_active.len() ==> !cameras_active[i],
    ensures
        node_state_of(
            ui_scale,
            has_primary_window,
            has_active_camera(cameras_active),
            item,
        ).world_rect == Rect::zero(),
        update_of(
            ui_scale,
            has_primary_window,
            has_active_camera(cameras_active),
            item,
        ) matches UpdateView::Write { proxy_state, target_state, .. } ==> proxy_state.world_rect
            == Rect::zero() && target_state.world_rect == Rect::zero(),
{
}

/// Two ticks with the same inputs: where the first tick wrote a snapshot, the
/// proxy holds it at the second tick, and no number in it is a not-a-number,
/// the second tick writes nothing.
pub proof fn lemma_second_tick_writes_nothing(
    ui_scale: Option<u32>,
    has_primary_window: bool,
    has_camera: bool,
    first: ProxyUiItem,
    second: ProxyUiItem,
)
    requires
        second.ui_rect == first.ui_rect,
        second.mapped_rect == first.mapped_rect,
        second.style@ == first.style@,
        second.transform == first.transform,
        second.global_transform == first.global_transform,
        second.visibility == first.visibility,
        second.view_visibility == first.view_visibility,
        !second.target_has_node,
        update_of(ui_scale, has_primary_window, has_camera, first) is Write,
        second.node_state is Some,
        second.node_state->0@ == update_of(
            ui_scale,
            has_primary_window,
            has_camera,
            first,
        )->Write_proxy_state,
        node_state_of(ui_scale, has_primary_window, has_camera, first).is_numeric(),
    ensures
        update_of(ui_scale, has_primary_window, has_camera, second) == UpdateView::Unchanged,
{
    assert(node_state_of(ui_scale, has_primary_window, has_camera, second) == node_state_of(
        ui_scale,
        has_primary_window,
        has_camera,
        first,
    ));
    lemma_unchanged_inputs_write_nothing(ui_scale, has_primary_window, has_camera, second);
}

} // verus!
