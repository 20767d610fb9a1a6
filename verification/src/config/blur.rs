//! Blur: every pixel becomes the mean of the three-by-three block around it.

use vstd::prelude::*;
use crate::config::{cached_pipeline, PostEffect, PostEffectEnum};
use crate::renderer::plan::{PostPipelinePlan, TextureFormat};

verus! {

/// Source of the blur pass.
pub const BLUR_WGSL: &'static str = "
struct VertexInput {
    @location(0) position: vec2<f32>,
    @location(1) texcoord: vec2<f32>,
};

struct VertexOutput {
    @builtin(position) clip_position: vec4<f32>,
    @location(0) texcoord: vec2<f32>,
};

@vertex
fn vs_main(in: VertexInput) -> VertexOutput {
    var out: VertexOutput;
    out.clip_position = vec4<f32>(in.position, 0.0, 1.0);
    out.texcoord = in.texcoord;
    return out;
}

@group(0) @binding(0) var source_texture: texture_2d<f32>;
@group(0) @binding(1) var source_sampler: sampler;

@fragment
fn fs_main(in: VertexOutput) -> @location(0) vec4<f32> {
    let texel = vec2<f32>(1.0) / vec2<f32>(textureDimensions(source_texture));
    var sum = vec4<f32>(0.0);
    for (var dy = -1; dy <= 1; dy = dy + 1) {
        for (var dx = -1; dx <= 1; dx = dx + 1) {
            let offset = vec2<f32>(f32(dx), f32(dy)) * texel;
            sum = sum + textureSample(source_texture, source_sampler, in.texcoord + offset);
        }
    }
    return sum / 9.0;
}
";

/// The blur effect, with the target format its pipeline was last built
/// for.
#[derive(Clone, Copy, PartialEq, Eq, Debug)]
pub struct Blur {
    pipeline: Option<TextureFormat>,
}

impl Blur {
    /// The effect with no pipeline built yet.
    pub fn new() -> (e: Blur)
        ensures
            e.built_for() is None,
    {
        Blur { pipeline: None }
    }
}

impl PostEffect for Blur {
    open spec fn tag(&self) -> PostEffectEnum {
        PostEffectEnum::Blur
    }

    closed spec fn built_for(&self) -> Option<TextureFormat> {
        self.pipeline
    }

    fn get_source(&self) -> (s: String) {
        BLUR_WGSL.to_owned()
    }

    fn get_pipeline(&mut self, target_format: TextureFormat) -> (build: Option<PostPipelinePlan>) {
        let source = self.get_source();
        cached_pipeline(&mut self.pipeline, target_format, source)
    }

    fn as_enum(&self) -> (e: PostEffectEnum) {
        PostEffectEnum::Blur
    }
}

} // verus!
