//! The renderer: a pure map from the animation state to the one drawing
//! command for the frame. The host turns the command's integers into its
//! backend's calls — the polar-to-Cartesian placement (the sweep angle is
//! `orbit_step / max_orbit_step` of a full turn) and the unit-range color
//! conversion are the host's, since both live in floating point.

use vstd::prelude::*;
use crate::color::IntColor;
use crate::model::{AppState, Model, Shape};

verus! {

/// What one frame draws.
#[derive(Clone, Copy, Debug, PartialEq, Eq, Structural)]
pub enum DrawCommand {
    /// Wipe the canvas to the fixed dark gray background.
    ClearBackground,
    /// Stroke one transparent-filled shape at the current sweep position.
    DrawShape {
        shape: Shape,
        /// Shape size in whole units.
        radius: u32,
        /// Frames elapsed in the sweep; the sweep angle is
        /// `orbit_step / max_orbit_step` of a full turn.
        orbit_step: u32,
        max_orbit_step: u32,
        /// Radial offset in half-units (twice the offset in whole units).
        distance2: u32,
        /// Stroke color, channels in `[0, 255]`.
        color: IntColor,
    },
    /// Leave the canvas as the previous frame left it.
    Nothing,
}

/// The command a given state draws: a clear while `Clear`, the current shape
/// at the current sweep position while `Update`, nothing otherwise.
pub fn view(model: &Model) -> (cmd: DrawCommand)
    ensures
        model.app_state is Clear ==> cmd == DrawCommand::ClearBackground,
        model.app_state is Update ==> cmd == (DrawCommand::DrawShape {
            shape: model.shape,
            radius: model.radius,
            orbit_step: model.orbit_step,
            max_orbit_step: model.max_orbit_step,
            distance2: model.current_distance2,
            color: model.current_color,
        }),
        !(model.app_state is Clear) && !(model.app_state is Update)
            ==> cmd == DrawCommand::Nothing,
{
    match model.app_state {
        AppState::Clear => DrawCommand::ClearBackground,
        AppState::Update => DrawCommand::DrawShape {
            shape: model.shape,
            radius: model.radius,
            orbit_step: model.orbit_step,
            max_orbit_step: model.max_orbit_step,
            distance2: model.current_distance2,
            color: model.current_color,
        },
        _ => DrawCommand::Nothing,
    }
}

} // verus!
