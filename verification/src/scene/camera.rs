//! Camera handling.

use vstd::prelude::*;

verus! {

/// Whether a key went down or up.
#[derive(Clone, Copy, Debug, PartialEq, Eq, Structural)]
pub enum ElementState {
    Pressed,
    Released,
}

/// What a key does to the camera.
#[derive(Clone, Copy, Debug, PartialEq, Eq, Structural)]
pub enum CameraAction {
    MoveForward,
    MoveBackward,
    YawLeft,
    PitchUp,
    YawRight,
    PitchDown,
}

/// A key that changed state. `action` is `None` for a key the camera does not
/// listen to.
#[derive(Clone, Copy, Debug, PartialEq, Eq, Structural)]
pub struct KeyboardInput {
    pub state: ElementState,
    pub action: Option<CameraAction>,
}

/// The camera. Position, angles, up vector, depth range and focal length are
/// single-precision bit patterns.
#[derive(Clone, Copy, Debug, PartialEq, Eq)]
pub struct Camera {
    pub position: [u32; 3],
    /// Yaw, pitch and roll in radians.
    pub rotation: [u32; 3],
    pub up: [u32; 3],
    /// Forward and backward are held.
    pub view_move: (bool, bool),
    /// Yaw left, pitch up, yaw right and pitch down are held.
    pub view_rotate: (bool, bool, bool, bool),
    pub depth_range: (u32, u32),
    pub focal_length: u32,
}

/// The held state of the six controls.
pub type Controls = ((bool, bool), (bool, bool, bool, bool));

/// The controls after `action` is set to `held`.
pub open spec fn spec_set_control(controls: Controls, action: CameraAction, held: bool) -> Controls {
    let (view_move, view_rotate) = controls;
    match action {
        CameraAction::MoveForward => ((held, view_move.1), view_rotate),
        CameraAction::MoveBackward => ((view_move.0, held), view_rotate),
        CameraAction::YawLeft => (view_move, (held, view_rotate.1, view_rotate.2, view_rotate.3)),
        CameraAction::PitchUp => (view_move, (view_rotate.0, held, view_rotate.2, view_rotate.3)),
        CameraAction::YawRight => (view_move, (view_rotate.0, view_rotate.1, held, view_rotate.3)),
        CameraAction::PitchDown => (view_move, (view_rotate.0, view_rotate.1, view_rotate.2, held)),
    }
}

/// The controls after a key changed state: the key's control is held exactly
/// when the key went down; a key without action changes nothing.
pub open spec fn spec_on_event(controls: Controls, input: KeyboardInput) -> Controls {
    match input.action {
        Some(action) => spec_set_control(controls, action, input.state == ElementState::Pressed),
        None => controls,
    }
}

impl Camera {
    /// The held state of the six controls.
    pub open spec fn controls(&self) -> Controls {
        (self.view_move, self.view_rotate)
    }

    /// Takes note of a key that changed state. Only the controls change.
    pub fn on_event(&mut self, input: KeyboardInput)
        ensures
            final(self).controls() == spec_on_event(old(self).controls(), input),
            final(self).position == old(self).position,
            final(self).rotation == old(self).rotation,
            final(self).up == old(self).up,
            final(self).depth_range == old(self).depth_range,
            final(self).focal_length == old(self).focal_length,
    {
        let held: bool = match input.state {
            ElementState::Pressed => true,
            ElementState::Released => false,
        };
        match input.action {
            Some(CameraAction::MoveForward) => self.view_move.0 = held,
            Some(CameraAction::MoveBackward) => self.view_move.1 = held,
            Some(CameraAction::YawLeft) => self.view_rotate.0 = held,
            Some(CameraAction::PitchUp) => self.view_rotate.1 = held,
            Some(CameraAction::YawRight) => self.view_rotate.2 = held,
            Some(CameraAction::PitchDown) => self.view_rotate.3 = held,
            None => (),
        }
    }
}

/// A key event never touches a control other than its own, and what it sets
/// does not depend on what was held before.
pub proof fn lemma_on_event_independent(controls: Controls, other: Controls, input: KeyboardInput)
    ensures
        input.action == Some(CameraAction::MoveForward) ==> {
            &&& spec_on_event(controls, input).0.0 == spec_on_event(other, input).0.0
            &&& spec_on_event(controls, input).0.1 == controls.0.1
            &&& spec_on_event(controls, input).1 == controls.1
        },
        input.action == Some(CameraAction::MoveBackward) ==> {
            &&& spec_on_event(controls, input).0.1 == spec_on_event(other, input).0.1
            &&& spec_on_event(controls, input).0.0 == controls.0.0
            &&& spec_on_event(controls, input).1 == controls.1
        },
        input.action.is_some() && input.action != Some(CameraAction::MoveForward) && input.action
            != Some(CameraAction::MoveBackward) ==> spec_on_event(controls, input).0 == controls.0,
        spec_on_event(spec_on_event(controls, input), input) == spec_on_event(controls, input),
{
}

} // verus!
