use crate::math::same_number;
use crate::math::is_nan;
use crate::math::number_eq;
use crate::math::GlobalTransform;
use crate::math::Rect;
use crate::math::Transform;
use crate::ui::Style;
use crate::ui::Visibility;
use vstd::prelude::*;

verus! {

/// The snapshot of a proxy's layout at one tick. Numbers are held as the bit
/// patterns of single-precision numbers.
#[derive(Clone, Debug, PartialEq, Eq)]
pub struct ProxyUiNodeState {
    pub ui_rect: Rect,
    pub world_rect: Rect,
    pub global_transform: GlobalTransform,
    pub transform: Transform,
    pub style: Style,
    pub ui_scale: u32,
    pub visibility: Visibility,
    pub view_visibility: bool,
}

/// What a snapshot holds.
pub struct NodeStateView {
    pub ui_rect: Rect,
    pub world_rect: Rect,
    pub global_transform: GlobalTransform,
    pub transform: Transform,
    pub style: Seq<u8>,
    pub ui_scale: u32,
    pub visibility: Visibility,
    pub view_visibility: bool,
}

impl NodeStateView {
    /// Structural equality of two snapshots: every number equal as a number,
    /// everything else equal as it stands.
    pub open spec fn same(self, other: NodeStateView) -> bool {
        &&& self.ui_rect.same(other.ui_rect)
        &&& self.world_rect.same(other.world_rect)
        &&& self.global_transform.same(other.global_transform)
        &&& self.transform.same(other.transform)
        &&& self.style == other.style
        &&& same_number(self.ui_scale, other.ui_scale)
        &&& self.visibility == other.visibility
        &&& self.view_visibility == other.view_visibility
    }

    /// No number of the snapshot is a not-a-number.
    pub open spec fn is_numeric(self) -> bool {
        &&& self.ui_rect.is_numeric()
        &&& self.world_rect.is_numeric()
        &&& self.global_transform.is_numeric()
        &&& self.transform.is_numeric()
        &&& !is_nan(self.ui_scale)
    }
}

impl View for ProxyUiNodeState {
    type V = NodeStateView;

    open spec fn view(&self) -> NodeStateView {
        NodeStateView {
            ui_rect: self.ui_rect,
            world_rect: self.world_rect,
            global_transform: self.global_transform,
            transform: self.transform,
            style: self.style@,
            ui_scale: self.ui_scale,
            visibility: self.visibility,
            view_visibility: self.view_visibility,
        }
    }
}

impl ProxyUiNodeState {
    /// The rectangle of the proxy in UI space.
    pub fn get_ui_rect(&self) -> (rect: &Rect)
        ensures
            *rect == self.ui_rect,
    {
        &self.ui_rect
    }

    /// The rectangle of the proxy mapped into the world.
    pub fn get_world_rect(&self) -> (rect: &Rect)
        ensures
            *rect == self.world_rect,
    {
        &self.world_rect
    }

    /// The placement of the proxy in the world.
    pub fn get_global_transform(&self) -> (transform: &GlobalTransform)
        ensures
            *transform == self.global_transform,
    {
        &self.global_transform
    }

    /// The placement of the proxy relative to its parent.
    pub fn get_transform(&self) -> (transform: &Transform)
        ensures
            *transform == self.transform,
    {
        &self.transform
    }

    /// The style of the proxy.
    pub fn get_style(&self) -> (style: &Style)
        ensures
            *style == self.style,
    {
        &self.style
    }

    /// The UI scale factor that was in force.
    pub fn get_ui_scale(&self) -> (scale: &u32)
        ensures
            *scale == self.ui_scale,
    {
        &self.ui_scale
    }

    /// The visibility that the proxy asks for.
    pub fn get_visibility(&self) -> (visibility: &Visibility)
        ensures
            *visibility == self.visibility,
    {
        &self.visibility
    }

    /// Whether the proxy was in fact visible.
    pub fn get_view_visibility(&self) -> (visible: &bool)
        ensures
            *visible == self.view_visibility,
    {
        &self.view_visibility
    }

    /// The visibility to give to a target: `Visible` where the proxy was in
    /// fact visible, `Hidden` where it was not, never `Inherited`.
    pub fn get_computed_visibility(&self) -> (visibility: Visibility)
        ensures
            visibility == if self.view_visibility {
                Visibility::Visible
            } else {
                Visibility::Hidden
            },
    {
        match self.view_visibility {
            true => Visibility::Visible,
            false => Visibility::Hidden,
        }
    }

    /// A second snapshot that holds the same.
    pub fn duplicate(&self) -> (copy: ProxyUiNodeState)
        ensures
            copy@ == self@,
    {
        ProxyUiNodeState {
            ui_rect: self.ui_rect,
            world_rect: self.world_rect,
            global_transform: self.global_transform,
            transform: self.transform,
            style: self.style.duplicate(),
            ui_scale: self.ui_scale,
            visibility: self.visibility,
            view_visibility: self.view_visibility,
        }
    }

    /// Whether `new_state` differs from this snapshot.
    pub fn is_changed(&self, new_state: &ProxyUiNodeState) -> (changed: bool)
        ensures
            changed == !self@.same(new_state@),
    {
        !(self.ui_rect.is_same(&new_state.ui_rect) && self.world_rect.is_same(
            &new_state.world_rect,
        ) && self.global_transform.is_same(&new_state.global_transform) && self.transform.is_same(
            &new_state.transform,
        ) && self.style.is_same(&new_state.style) && number_eq(self.ui_scale, new_state.ui_scale)
            && self.visibility == new_state.visibility && self.view_visibility
            == new_state.view_visibility)
    }
}

} // verus!
