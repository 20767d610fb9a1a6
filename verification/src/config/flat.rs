//! Flat shading: ambient, diffuse and specular terms from the normal of each
//! face.

use vstd::prelude::*;
use crate::config::{default_params, ShadingModel, ShadingModelEnum, WidgetInput};
use crate::pod::{cast_words, FOUR, TWENTIETH, TWO_FIFTHS};
use crate::renderer::plan::{ShaderStages, UniformPlan, UniformRole};

verus! {

/// Source of the flat shading model. The uniform blocks are the camera at
/// group 0, the light at group 1 and the coefficients at group 2.
pub const FLAT_WGSL: &'static str = "
struct Camera {
    proj: mat4x4<f32>,
    view: mat4x4<f32>,
};

struct Light {
    position: vec3<f32>,
    color: vec3<f32>,
};

struct Params {
    ka: f32,
    kd: f32,
    ks: f32,
    alph: f32,
};

@group(0) @binding(0) var<uniform> camera: Camera;
@group(1) @binding(0) var<uniform> light: Light;
@group(2) @binding(0) var<uniform> params: Params;

struct VertexInput {
    @location(0) position: vec3<f32>,
    @location(1) normal: vec3<f32>,
    @location(2) texcoord: vec2<f32>,
};

struct VertexOutput {
    @builtin(position) clip_position: vec4<f32>,
    @location(0) view_position: vec3<f32>,
    @location(1) view_normal: vec3<f32>,
    @location(2) texcoord: vec2<f32>,
};

@vertex
fn vs_main(in: VertexInput) -> VertexOutput {
    var out: VertexOutput;
    let view_position = camera.view * vec4<f32>(in.position, 1.0);
    out.clip_position = camera.proj * view_position;
    out.view_position = view_position.xyz;
    out.view_normal = (camera.view * vec4<f32>(in.normal, 0.0)).xyz;
    out.texcoord = in.texcoord;
    return out;
}

@fragment
fn fs_main(in: VertexOutput) -> @location(0) vec4<f32> {
    let v = normalize(-in.view_position);
    let face = normalize(cross(dpdx(in.view_position), dpdy(in.view_position)));
    let n = select(-face, face, dot(face, v) > 0.0);
    let light_position = (camera.view * vec4<f32>(light.position, 1.0)).xyz;
    let l = normalize(light_position - in.view_position);
    let r = reflect(-l, n);
    let diffuse = max(dot(n, l), 0.0);
    let specular = pow(max(dot(r, v), 0.0), params.alph);
    let intensity = params.ka + params.kd * diffuse + params.ks * specular;
    return vec4<f32>(intensity * light.color, 1.0);
}
";

/// The Flat model's coefficients, as binary32 encodings in the order of
/// the shader's `Params` struct: ambient, diffuse and specular strength,
/// then shininess.
#[derive(Clone, Copy, PartialEq, Eq, Debug)]
pub struct Flat {
    coefficients: [u32; 4],
}

impl Flat {
    /// The model with its default coefficients.
    pub fn new() -> (p: Flat)
        ensures
            p.params() == default_params(),
    {
        let p = Flat { coefficients: [TWENTIETH, TWO_FIFTHS, TWO_FIFTHS, FOUR] };
        assert(p.coefficients@ =~= seq![TWENTIETH, TWO_FIFTHS, TWO_FIFTHS, FOUR]);
        p
    }

    /// The block is four words, whatever the coefficients.
    pub proof fn lemma_four_words(self)
        ensures
            self.params().len() == 4,
    {
    }

    /// The coefficients in the order of the block.
    pub fn coefficients(&self) -> (c: [u32; 4])
        ensures
            c@ == self.params(),
    {
        self.coefficients
    }
}

impl ShadingModel for Flat {
    open spec fn tag(&self) -> ShadingModelEnum {
        ShadingModelEnum::Flat
    }

    closed spec fn params(&self) -> Seq<u32> {
        self.coefficients@
    }

    fn build_widget(&mut self, input: WidgetInput) -> (changed: bool) {
        self.coefficients = input.values;
        input.released[0] || input.released[1] || input.released[2] || input.released[3]
    }

    fn get_source(&self) -> (s: String) {
        FLAT_WGSL.to_owned()
    }

    fn as_enum(&self) -> (e: ShadingModelEnum) {
        ShadingModelEnum::Flat
    }

    fn create_uniform(&self) -> (plan: UniformPlan) {
        UniformPlan {
            role: UniformRole::Params,
            visibility: ShaderStages { vertex: false, fragment: true },
            min_binding_size: Some(16),
            size: 16,
        }
    }

    fn to_params(&self) -> (bytes: &[u8]) {
        cast_words(self.coefficients.as_slice())
    }
}

} // verus!
