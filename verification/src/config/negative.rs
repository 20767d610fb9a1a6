//! Colour inversion: every channel but alpha is replaced by its complement.

use vstd::prelude::*;
use crate::config::{cached_pipeline, PostEffect, PostEffectEnum};
use crate::renderer::plan::{PostPipelinePlan, TextureFormat};

verus! {

/// Source of the colour inversion pass.
pub const NEGATIVE_WGSL: &'static str = "
struct VertexInput {
    @location(0) position: vec2<f32>,
    @location(1) texcoord: vec2<f32>,
};

struct VertexOutput {
    @builtin(position) clip_position: vec4<f32>,
    @location(0) texcoord: vec2<f32>,
};

@vertex
fn vs_main(in: VertexInput) -> VertexOutput {
    var out: VertexOutput;
    out.clip_position = vec4<f32>(in.position, 0.0, 1.0);
    out.texcoord = in.texcoord;
    return out;
}

@group(0) @binding(0) var source_texture: texture_2d<f32>;
@group(0) @binding(1) var source_sampler: sampler;

@fragment
fn fs_main(in: VertexOutput) -> @location(0) vec4<f32> {
    let color = textureSample(source_texture, source_sampler, in.texcoord);
    return vec4<f32>(vec3<f32>(1.0) - color.rgb, color.a);
}
";

/// The colour inversion effect, with the target format its pipeline was
/// last built for.
#[derive(Clone, Copy, PartialEq, Eq, Debug)]
pub struct Negative {
    pipeline: Option<TextureFormat>,
}

impl Negative {
    /// The effect with no pipeline built yet.
    pub fn new() -> (e: Negative)
        ensures
            e.built_for() is None,
    {
        Negative { pipeline: None }
    }
}

impl PostEffect for Negative {
    open spec fn tag(&self) -> PostEffectEnum {
        PostEffectEnum::Negative
    }

    closed spec fn built_for(&self) -> Option<TextureFormat> {
        self.pipeline
    }

    fn get_source(&self) -> (s: String) {
        NEGATIVE_WGSL.to_owned()
    }

    fn get_pipeline(&mut self, target_format: TextureFormat) -> (build: Option<PostPipelinePlan>) {
        let source = self.get_source();
        cached_pipeline(&mut self.pipeline, target_format, source)
    }

    fn as_enum(&self) -> (e: PostEffectEnum) {
        PostEffectEnum::Negative
    }
}

} // verus!
