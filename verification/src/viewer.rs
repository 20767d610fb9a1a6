//! The viewer's state, and what one frame of input does to it.

use vstd::prelude::*;
use crate::config::{default_params, ShaderConfig, ShadingModel, ShadingModelEnum, WidgetInput};
use crate::object::Object;
use crate::pod::{MINUS_THREE, ONE, THREE, ZERO};
use crate::renderer::uniform::LightUniform;

verus! {

/// One step of the camera.
#[derive(Clone, Copy, PartialEq, Eq, Structural, Debug)]
pub enum CameraCommand {
    Forward,
    Backward,
    Right,
    Left,
    Up,
    Down,
    /// Turn by the distance the pointer moved.
    Look,
}

/// An axis of the camera's own frame: x to its right, y upwards, z the way
/// it faces.
#[derive(Clone, Copy, PartialEq, Eq, Structural, Debug)]
pub enum Axis {
    X,
    Y,
    Z,
}

/// One step of fixed length along an axis of the camera's own frame, or
/// against it.
#[derive(Clone, Copy, PartialEq, Eq, Structural, Debug)]
pub struct Step {
    pub axis: Axis,
    pub along: bool,
}

impl CameraCommand {
    /// The step a command takes: right, up and forward go along x, y and z,
    /// left, down and backward against them. A turn is no step.
    pub open spec fn step_of(self) -> Option<Step> {
        match self {
            CameraCommand::Forward => Some(Step { axis: Axis::Z, along: true }),
            CameraCommand::Backward => Some(Step { axis: Axis::Z, along: false }),
            CameraCommand::Right => Some(Step { axis: Axis::X, along: true }),
            CameraCommand::Left => Some(Step { axis: Axis::X, along: false }),
            CameraCommand::Up => Some(Step { axis: Axis::Y, along: true }),
            CameraCommand::Down => Some(Step { axis: Axis::Y, along: false }),
            CameraCommand::Look => None,
        }
    }

    /// The command that goes the other way; a turn has none but itself.
    pub open spec fn opposite(self) -> CameraCommand {
        match self {
            CameraCommand::Forward => CameraCommand::Backward,
            CameraCommand::Backward => CameraCommand::Forward,
            CameraCommand::Right => CameraCommand::Left,
            CameraCommand::Left => CameraCommand::Right,
            CameraCommand::Up => CameraCommand::Down,
            CameraCommand::Down => CameraCommand::Up,
            CameraCommand::Look => CameraCommand::Look,
        }
    }

    /// The step the command takes, if it is no turn.
    pub fn step(self) -> (s: Option<Step>)
        ensures
            s == self.step_of(),
    {
        match self {
            CameraCommand::Forward => Some(Step { axis: Axis::Z, along: true }),
            CameraCommand::Backward => Some(Step { axis: Axis::Z, along: false }),
            CameraCommand::Right => Some(Step { axis: Axis::X, along: true }),
            CameraCommand::Left => Some(Step { axis: Axis::X, along: false }),
            CameraCommand::Up => Some(Step { axis: Axis::Y, along: true }),
            CameraCommand::Down => Some(Step { axis: Axis::Y, along: false }),
            CameraCommand::Look => None,
        }
    }
}

/// A command and its opposite step along the same axis, one along it and
/// one against it: the displacement that the one adds is the displacement
/// that the other takes away.
pub proof fn lemma_opposite_steps_cancel(command: CameraCommand)
    ensures
        command.opposite().opposite() == command,
        match command.step_of() {
            Some(step) => command.opposite().step_of() == Some(
                Step { axis: step.axis, along: !step.along },
            ),
            None => command.opposite() == command,
        },
{
}

/// What the user interface reported for one frame.
#[derive(PartialEq, Eq, Debug)]
pub struct FrameInput {
    /// Size of the viewport in pixels.
    pub viewport: (u32, u32),
    pub pointer_in_viewport: bool,
    /// Whether the key for each step is held.
    pub forward: bool,
    pub backward: bool,
    pub right: bool,
    pub left: bool,
    pub up: bool,
    pub down: bool,
    /// Whether the primary pointer button is held.
    pub primary_down: bool,
    /// The variant the model selector shows.
    pub selected_model: ShadingModelEnum,
    /// What the sliders of the active model's widget reported.
    pub widget: WidgetInput,
    /// The file the file dialog returned, if it returned one.
    pub selected_file: Option<String>,
}

/// What the frame asks of the parts that the viewer does not hold itself.
#[derive(PartialEq, Eq, Debug)]
pub struct FrameActions {
    /// The ping-pong pair must be created anew for a viewport of this size.
    pub resize: Option<(u32, u32)>,
    /// The steps the camera takes, in order.
    pub camera: Vec<CameraCommand>,
    /// The mesh pipeline must be built again.
    pub rebuild_pipeline: bool,
    /// The mesh must be loaded again.
    pub reload_mesh: bool,
}

/// `steps` followed by `command` if `held`.
pub open spec fn then_if(steps: Seq<CameraCommand>, held: bool, command: CameraCommand) -> Seq<
    CameraCommand,
> {
    if held {
        steps.push(command)
    } else {
        steps
    }
}

/// The steps the camera takes: none unless the pointer is over the
/// viewport; else one for each key that is held, in a fixed order, and a
/// turn if the primary button is held.
pub open spec fn camera_commands(input: FrameInput) -> Seq<CameraCommand> {
    if !input.pointer_in_viewport {
        Seq::empty()
    } else {
        let s0 = then_if(Seq::empty(), input.forward, CameraCommand::Forward);
        let s1 = then_if(s0, input.backward, CameraCommand::Backward);
        let s2 = then_if(s1, input.right, CameraCommand::Right);
        let s3 = then_if(s2, input.left, CameraCommand::Left);
        let s4 = then_if(s3, input.up, CameraCommand::Up);
        let s5 = then_if(s4, input.down, CameraCommand::Down);
        then_if(s5, input.primary_down, CameraCommand::Look)
    }
}

/// Whether a frame with `input` asks for the pipeline to be built again
/// while the variant `active` is active: it does when another variant is
/// selected, or when the user let go of a slider of the active one.
pub open spec fn rebuild_needed(active: ShadingModelEnum, input: FrameInput) -> bool {
    input.selected_model != active || input.widget.any_released()
}

/// The size for which the ping-pong pair must be created anew, if it must:
/// the viewport's, when it differs from the size last seen and is not
/// empty.
pub open spec fn resize_needed(seen: Option<(u32, u32)>, viewport: (u32, u32)) -> Option<
    (u32, u32),
> {
    if seen != Some(viewport) && viewport.0 > 0 && viewport.1 > 0 {
        Some(viewport)
    } else {
        None
    }
}

/// Switching to another variant asks for exactly one rebuild: the frame in
/// which `choice` is first selected asks for one, whatever else it reports,
/// and a later frame, in which the selection stays and no slider is let go
/// of, asks for none.
pub proof fn lemma_switch_rebuilds_once(
    active: ShadingModelEnum,
    choice: ShadingModelEnum,
    switch: FrameInput,
    later: FrameInput,
)
    requires
        choice != active,
        switch.selected_model == choice,
        later.selected_model == choice,
        !later.widget.any_released(),
    ensures
        rebuild_needed(active, switch),
        !rebuild_needed(choice, later),
{
}

/// The viewer: the configuration, the mesh file, the light, and the size of
/// the viewport when it was last seen.
#[derive(PartialEq, Eq, Debug)]
pub struct App {
    pub shader_conf: ShaderConfig,
    pub object: Object,
    pub light: LightUniform,
    pub viewport_size: Option<(u32, u32)>,
}

impl App {
    /// The viewer as it starts: Phong shading, no effects, the default
    /// mesh, a white light, and no viewport seen yet.
    pub fn new() -> (app: App)
        ensures
            app.shader_conf.active_model.tag() == ShadingModelEnum::Phong,
            app.shader_conf.active_model.params() == default_params(),
            app.shader_conf.active_post_effects@.len() == 0,
            app.shader_conf.selected_effect is None,
            app.object.opened_file is None,
            app.light.position@ == seq![ZERO, THREE, MINUS_THREE],
            app.light.color@ == seq![ONE, ONE, ONE],
            app.viewport_size is None,
    {
        App {
            shader_conf: ShaderConfig::new(),
            object: Object::new(),
            light: LightUniform::new(),
            viewport_size: None,
        }
    }

    /// Takes one frame of input. The viewport's size is remembered. A
    /// newly selected variant replaces the active model by that variant
    /// with its default coefficients, and what the sliders reported is
    /// dropped, for they showed the model that was replaced; otherwise the
    /// active model takes the values the sliders show. A file the dialog
    /// returned becomes the opened file.
    pub fn update(&mut self, input: FrameInput) -> (actions: FrameActions)
        ensures
            final(self).viewport_size == Some(input.viewport),
            actions.resize == resize_needed(old(self).viewport_size, input.viewport),
            actions.camera@ == camera_commands(input),
            actions.rebuild_pipeline == rebuild_needed(
                old(self).shader_conf.active_model.tag(),
                input,
            ),
            final(self).shader_conf.active_model.tag() == input.selected_model,
            final(self).shader_conf.active_model.params() == if input.selected_model
                != old(self).shader_conf.active_model.tag() {
                default_params()
            } else {
                input.widget.values@
            },
            final(self).shader_conf.active_post_effects == old(self).shader_conf.active_post_effects,
            final(self).shader_conf.selected_effect == old(self).shader_conf.selected_effect,
            actions.reload_mesh == input.selected_file is Some,
            final(self).object.opened_file == if input.selected_file is Some {
                input.selected_file
            } else {
                old(self).object.opened_file
            },
            final(self).light == old(self).light,
    {
        let changed = match self.viewport_size {
            Some(seen) => seen.0 != input.viewport.0 || seen.1 != input.viewport.1,
            None => true,
        };
        let resize = if changed && input.viewport.0 > 0 && input.viewport.1 > 0 {
            Some(input.viewport)
        } else {
            None
        };
        self.viewport_size = Some(input.viewport);

        let mut camera: Vec<CameraCommand> = Vec::new();
        if input.pointer_in_viewport {
            if input.forward {
                camera.push(CameraCommand::Forward);
            }
            if input.backward {
                camera.push(CameraCommand::Backward);
            }
            if input.right {
                camera.push(CameraCommand::Right);
            }
            if input.left {
                camera.push(CameraCommand::Left);
            }
            if input.up {
                camera.push(CameraCommand::Up);
            }
            if input.down {
                camera.push(CameraCommand::Down);
            }
            if input.primary_down {
                camera.push(CameraCommand::Look);
            }
        }

        let switched = self.shader_conf.select_model(input.selected_model);
        let rebuild_pipeline = if switched {
            true
        } else {
            self.shader_conf.active_model.build_widget(input.widget)
        };
        let reload_mesh = self.object.build_widget(input.selected_file);
        FrameActions { resize, camera, rebuild_pipeline, reload_mesh }
    }
}

} // verus!
