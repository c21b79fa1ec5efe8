use vstd::prelude::*;

verus! {

/// The actions that move the camera over the canvas.
#[derive(Clone, Copy, Debug, PartialEq, Eq, Hash, Structural)]
pub enum CameraMovement {
    /// Drag the view across the canvas.
    Pan,
    /// Zoom by dragging the mouse up or down.
    Zoom,
    /// The key held to zoom by dragging.
    ZoomModifier,
    /// Zoom with the mouse wheel.
    ZoomWheel,
}

/// The kinds of input that an action reads: a button that is pressed or not,
/// one axis, or two axes together.
#[derive(Clone, Copy, Debug, PartialEq, Eq, Hash, Structural)]
pub enum ControlKind {
    Button,
    Axis,
    DualAxis,
}

/// The buttons that the camera's bindings use.
#[derive(Clone, Copy, Debug, PartialEq, Eq, Hash, Structural)]
pub enum ButtonInput {
    /// The right mouse button.
    MouseRight,
    /// Either Alt key.
    Alt,
}

/// The single axes that the camera's bindings use.
#[derive(Clone, Copy, Debug, PartialEq, Eq, Hash, Structural)]
pub enum AxisInput {
    /// The vertical motion of the mouse.
    MouseMoveY,
    /// The vertical motion of the mouse wheel.
    MouseScrollY,
}

/// The pairs of axes that the camera's bindings use.
#[derive(Clone, Copy, Debug, PartialEq, Eq, Hash, Structural)]
pub enum DualAxisInput {
    /// The motion of the mouse, both axes.
    MouseMove,
}

/// One input that an action is bound to. An axis or a pair of axes may be
/// chorded with buttons that must all be held for it to count.
#[derive(Clone, Debug)]
pub enum Binding {
    Button(ButtonInput),
    Axis(Vec<ButtonInput>, AxisInput),
    DualAxis(Vec<ButtonInput>, DualAxisInput),
}

/// The kind of input that each camera action reads.
pub open spec fn control_kind(action: CameraMovement) -> ControlKind {
    match action {
        CameraMovement::Pan => ControlKind::DualAxis,
        CameraMovement::Zoom => ControlKind::Axis,
        CameraMovement::ZoomModifier => ControlKind::Button,
        CameraMovement::ZoomWheel => ControlKind::Axis,
    }
}

/// The kind of input that a binding gives.
pub open spec fn binding_kind(binding: Binding) -> ControlKind {
    match binding {
        Binding::Button(_) => ControlKind::Button,
        Binding::Axis(_, _) => ControlKind::Axis,
        Binding::DualAxis(_, _) => ControlKind::DualAxis,
    }
}

/// The input that the camera binds `action` to: Alt for the zoom modifier;
/// the mouse's motion while the right button is held for panning; its
/// vertical motion while the right button and Alt are held for zooming; the
/// vertical scroll of the wheel for zooming with it.
pub open spec fn binds(action: CameraMovement, binding: Binding) -> bool {
    match action {
        CameraMovement::ZoomModifier => binding matches Binding::Button(ButtonInput::Alt),
        CameraMovement::Pan => binding matches Binding::DualAxis(held, DualAxisInput::MouseMove)
            && held@ == seq![ButtonInput::MouseRight],
        CameraMovement::Zoom => binding matches Binding::Axis(held, AxisInput::MouseMoveY)
            && held@ == seq![ButtonInput::MouseRight, ButtonInput::Alt],
        CameraMovement::ZoomWheel => binding matches Binding::Axis(held, AxisInput::MouseScrollY)
            && held@.len() == 0,
    }
}

/// The camera's input map: the zoom modifier, panning, zooming and zooming
/// with the wheel, in this order, each with the input that `binds` gives it.
pub open spec fn is_camera_input_map(map: Seq<(CameraMovement, Binding)>) -> bool {
    &&& map.len() == 4
    &&& map[0].0 == CameraMovement::ZoomModifier
    &&& map[1].0 == CameraMovement::Pan
    &&& map[2].0 == CameraMovement::Zoom
    &&& map[3].0 == CameraMovement::ZoomWheel
    &&& forall|i: int| 0 <= i < map.len() ==> #[trigger] binds(map[i].0, map[i].1)
}

impl CameraMovement {
    /// The kind of input that this action reads.
    pub fn input_control_kind(&self) -> (kind: ControlKind)
        ensures
            kind == control_kind(*self),
    {
        match self {
            CameraMovement::Pan => ControlKind::DualAxis,
            CameraMovement::Zoom => ControlKind::Axis,
            CameraMovement::ZoomModifier => ControlKind::Button,
            CameraMovement::ZoomWheel => ControlKind::Axis,
        }
    }
}

/// Builds the camera's input map.
pub fn input_map() -> (map: Vec<(CameraMovement, Binding)>)
    ensures
        is_camera_input_map(map@),
{
    let mut map: Vec<(CameraMovement, Binding)> = Vec::new();
    map.push((CameraMovement::ZoomModifier, Binding::Button(ButtonInput::Alt)));
    let pan_held: Vec<ButtonInput> = vec![ButtonInput::MouseRight];
    map.push((CameraMovement::Pan, Binding::DualAxis(pan_held, DualAxisInput::MouseMove)));
    let zoom_held: Vec<ButtonInput> = vec![ButtonInput::MouseRight, ButtonInput::Alt];
    map.push((CameraMovement::Zoom, Binding::Axis(zoom_held, AxisInput::MouseMoveY)));
    let wheel_held: Vec<ButtonInput> = Vec::new();
    map.push((CameraMovement::ZoomWheel, Binding::Axis(wheel_held, AxisInput::MouseScrollY)));
    proof {
        assert(pan_held@ =~= seq![ButtonInput::MouseRight]);
        assert(zoom_held@ =~= seq![ButtonInput::MouseRight, ButtonInput::Alt]);
        assert(binds(map@[0].0, map@[0].1));
        assert(binds(map@[1].0, map@[1].1));
        assert(binds(map@[2].0, map@[2].1));
        assert(binds(map@[3].0, map@[3].1));
    }
    map
}

/// In the camera's input map every action is bound to an input of the kind
/// that the action reads.
pub proof fn input_map_matches_control_kinds(map: Seq<(CameraMovement, Binding)>)
    requires
        is_camera_input_map(map),
    ensures
        forall|i: int| 0 <= i < map.len() ==> binding_kind(#[trigger] map[i].1) == control_kind(map[i].0),
{
    assert forall|i: int| 0 <= i < map.len() implies binding_kind(#[trigger] map[i].1) == control_kind(map[i].0) by {
        assert(binds(map[i].0, map[i].1));
    }
}

/// The camera's input map binds every camera action, each exactly once.
pub proof fn input_map_binds_each_action_once(map: Seq<(CameraMovement, Binding)>, action: CameraMovement)
    requires
        is_camera_input_map(map),
    ensures
        exists|i: int| 0 <= i < map.len() && #[trigger] map[i].0 == action,
        forall|i: int, j: int| 0 <= i < map.len() && 0 <= j < map.len() && #[trigger] map[i].0 == action
            && #[trigger] map[j].0 == action ==> i == j,
{
    match action {
        CameraMovement::ZoomModifier => assert(map[0].0 == action),
        CameraMovement::Pan => assert(map[1].0 == action),
        CameraMovement::Zoom => assert(map[2].0 == action),
        CameraMovement::ZoomWheel => assert(map[3].0 == action),
    }
}

} // verus!
