//! The post-processing targets: two colour targets used in turn, one depth
//! target, and the full-screen pass that draws one into the other.

use vstd::prelude::*;
use crate::pod::{image_of, is_image, MINUS_ONE, ONE, ZERO};
use crate::renderer::plan::{
    BindingPlan, Face, FilterMode, FrontFace, PostPipelinePlan, PrimitivePlan, SamplerPlan,
    ShaderStages, TextureFormat, TexturePlan, TextureUsages, VertexAttribute, VertexBufferLayout,
    VertexFormat,
};

verus! {

/// Source of the pass that presents a target unchanged.
pub const PRESENT_WGSL: &'static str = "
struct VertexInput {
    @location(0) position: vec2<f32>,
    @location(1) texcoord: vec2<f32>,
};

struct VertexOutput {
    @builtin(position) clip_position: vec4<f32>,
    @location(0) texcoord: vec2<f32>,
};

@vertex
fn vs_main(in: VertexInput) -> VertexOutput {
    var out: VertexOutput;
    out.clip_position = vec4<f32>(in.position, 0.0, 1.0);
    out.texcoord = in.texcoord;
    return out;
}

@group(0) @binding(0) var source_texture: texture_2d<f32>;
@group(0) @binding(1) var source_sampler: sampler;

@fragment
fn fs_main(in: VertexOutput) -> @location(0) vec4<f32> {
    return textureSample(source_texture, source_sampler, in.texcoord);
}
";

/// One corner of the full-screen quad. Every component is a binary32
/// encoding.
#[derive(Clone, Copy, PartialEq, Eq, Debug)]
pub struct PostVertex {
    pub position: [u32; 2],
    pub texcoord: [u32; 2],
}

impl PostVertex {
    /// The record as it lies in a vertex buffer.
    pub open spec fn words(self) -> Seq<u32> {
        self.position@ + self.texcoord@
    }

    /// The attributes of the layout, in shader-location order.
    pub open spec fn attributes() -> Seq<VertexAttribute> {
        seq![
            VertexAttribute { offset: 0, shader_location: 0, format: VertexFormat::Float32x2 },
            VertexAttribute { offset: 8, shader_location: 1, format: VertexFormat::Float32x2 },
        ]
    }

    /// A corner at `position` in clip space that reads the input at
    /// `texcoord`.
    pub fn new(position: [u32; 2], texcoord: [u32; 2]) -> (v: PostVertex)
        ensures
            v.position == position,
            v.texcoord == texcoord,
    {
        PostVertex { position, texcoord }
    }

    /// The layout of a buffer of such records.
    pub fn desc() -> (layout: VertexBufferLayout)
        ensures
            layout.array_stride == 16,
            layout.attributes@ == Self::attributes(),
            layout.packed(),
    {
        let mut attributes: Vec<VertexAttribute> = Vec::new();
        attributes.push(
            VertexAttribute { offset: 0, shader_location: 0, format: VertexFormat::Float32x2 },
        );
        attributes.push(
            VertexAttribute { offset: 8, shader_location: 1, format: VertexFormat::Float32x2 },
        );
        let layout = VertexBufferLayout { array_stride: 16, attributes };
        proof {
            reveal_with_fuel(crate::renderer::plan::end_of, 3);
        }
        layout
    }
}

/// Number of vertices of the full-screen quad.
pub const QUAD_VERTICES: u32 = 6;

/// The full-screen quad: two clockwise triangles that cover clip space,
/// with texture coordinates that run from the top left.
pub open spec fn fullscreen_quad() -> Seq<PostVertex> {
    seq![
        PostVertex { position: [MINUS_ONE, ONE], texcoord: [ZERO, ZERO] },
        PostVertex { position: [ONE, ONE], texcoord: [ONE, ZERO] },
        PostVertex { position: [ONE, MINUS_ONE], texcoord: [ONE, ONE] },
        PostVertex { position: [ONE, MINUS_ONE], texcoord: [ONE, ONE] },
        PostVertex { position: [MINUS_ONE, MINUS_ONE], texcoord: [ZERO, ONE] },
        PostVertex { position: [MINUS_ONE, ONE], texcoord: [ZERO, ZERO] },
    ]
}

/// The contents of a vertex buffer in words: four for each vertex.
pub open spec fn quad_words(vertices: Seq<PostVertex>) -> Seq<u32> {
    Seq::new(4 * vertices.len(), |i: int| vertices[i / 4].words()[i % 4])
}

/// Lays the vertices out one after another.
pub fn post_vertex_words(vertices: &Vec<PostVertex>) -> (words: Vec<u32>)
    ensures
        words@ == quad_words(vertices@),
{
    let mut words: Vec<u32> = Vec::new();
    let mut k: usize = 0;
    while k < vertices.len()
        invariant
            k <= vertices@.len(),
            words@ == quad_words(vertices@.take(k as int)),
        decreases vertices@.len() - k,
    {
        let v = vertices[k];
        words.push(v.position[0]);
        words.push(v.position[1]);
        words.push(v.texcoord[0]);
        words.push(v.texcoord[1]);
        k += 1;
        assert(words@ =~= quad_words(vertices@.take(k as int)));
    }
    assert(vertices@.take(k as int) =~= vertices@);
    words
}

/// One of the two colour targets.
#[derive(Clone, Copy, PartialEq, Eq, Structural, Debug)]
pub enum PostProcessTexture {
    A,
    B,
}

impl PostProcessTexture {
    /// The target that is not this one.
    pub open spec fn other(self) -> PostProcessTexture {
        match self {
            PostProcessTexture::A => PostProcessTexture::B,
            PostProcessTexture::B => PostProcessTexture::A,
        }
    }

    /// The output target after `flips` exchanges, when this one is the
    /// output target before them.
    pub open spec fn after(self, flips: nat) -> PostProcessTexture
        decreases flips,
    {
        if flips == 0 {
            self
        } else {
            self.after((flips - 1) as nat).other()
        }
    }

    /// After an even number of exchanges the output target is the one it
    /// was, after an odd number the other one.
    pub proof fn lemma_after_parity(self, flips: nat)
        ensures
            self.after(flips) == if flips % 2 == 0 {
                self
            } else {
                self.other()
            },
        decreases flips,
    {
        if flips > 0 {
            self.lemma_after_parity((flips - 1) as nat);
        }
    }

    /// The target that is not this one.
    pub fn flipped(self) -> (t: PostProcessTexture)
        ensures
            t == self.other(),
    {
        match self {
            PostProcessTexture::A => PostProcessTexture::B,
            PostProcessTexture::B => PostProcessTexture::A,
        }
    }
}

/// A colour target of the pair: drawn into, then sampled.
pub open spec fn color_target(width: u32, height: u32, format: TextureFormat) -> TexturePlan {
    TexturePlan {
        width,
        height,
        format,
        usage: TextureUsages { copy_dst: false, texture_binding: true, render_attachment: true },
        view_format: Some(format),
    }
}

/// The depth target shared by both colour targets.
pub open spec fn depth_target(width: u32, height: u32) -> TexturePlan {
    TexturePlan {
        width,
        height,
        format: TextureFormat::Depth32Float,
        usage: TextureUsages { copy_dst: false, texture_binding: true, render_attachment: true },
        view_format: None,
    }
}

/// The sampler through which a pass reads its input target.
pub open spec fn target_sampler() -> SamplerPlan {
    SamplerPlan {
        mag_filter: FilterMode::Linear,
        min_filter: FilterMode::Nearest,
        mipmap_filter: FilterMode::Nearest,
    }
}

/// The bind group of a full-screen pass: the input target at binding 0, its
/// sampler at binding 1, both for the fragment stage.
pub open spec fn pass_bindings() -> Seq<BindingPlan> {
    seq![
        BindingPlan::Texture { visibility: ShaderStages { vertex: false, fragment: true } },
        BindingPlan::Sampler { visibility: ShaderStages { vertex: false, fragment: true } },
    ]
}

/// `plan` is the full-screen pass pipeline for `source`, drawing into a
/// target of `target_format`: clockwise triangles face the viewer, and back
/// faces are left out.
pub open spec fn is_pass_pipeline(
    plan: PostPipelinePlan,
    source: Seq<char>,
    target_format: TextureFormat,
) -> bool {
    &&& plan.source@ == source
    &&& plan.bindings@ == pass_bindings()
    &&& plan.vertex_layout.array_stride == 16
    &&& plan.vertex_layout.attributes@ == PostVertex::attributes()
    &&& plan.primitive == PrimitivePlan { front_face: FrontFace::Cw, cull_mode: Some(Face::Back) }
    &&& plan.target_format == target_format
}

/// Describes the pipeline of one full-screen pass.
pub fn create_post_pipeline(target_format: TextureFormat, src: String) -> (plan: PostPipelinePlan)
    ensures
        is_pass_pipeline(plan, src@, target_format),
        plan.vertex_layout.packed(),
{
    let mut bindings: Vec<BindingPlan> = Vec::new();
    bindings.push(
        BindingPlan::Texture { visibility: ShaderStages { vertex: false, fragment: true } },
    );
    bindings.push(
        BindingPlan::Sampler { visibility: ShaderStages { vertex: false, fragment: true } },
    );
    assert(bindings@ =~= pass_bindings());
    PostPipelinePlan {
        source: src,
        bindings,
        vertex_layout: PostVertex::desc(),
        primitive: PrimitivePlan { front_face: FrontFace::Cw, cull_mode: Some(Face::Back) },
        target_format,
    }
}

/// What a ping-pong pair is: its size and format, and which of the two
/// targets holds the latest output.
pub struct PostTargets {
    pub width: u32,
    pub height: u32,
    pub target_format: TextureFormat,
    pub out: PostProcessTexture,
}

/// The state of the ping-pong pair. Only a pass changes which target is the
/// output.
#[derive(Clone, Copy, PartialEq, Eq, Debug)]
pub struct PostProcessResources {
    width: u32,
    height: u32,
    target_format: TextureFormat,
    out: PostProcessTexture,
}

impl View for PostProcessResources {
    type V = PostTargets;

    closed spec fn view(&self) -> PostTargets {
        PostTargets {
            width: self.width,
            height: self.height,
            target_format: self.target_format,
            out: self.out,
        }
    }
}

/// Everything the device must create for the ping-pong pair.
#[derive(PartialEq, Eq, Debug)]
pub struct PostProcessPlan {
    /// Both colour targets are created from this one description.
    pub color: TexturePlan,
    pub depth: TexturePlan,
    pub sampler: SamplerPlan,
    /// Contents of the vertex buffer of the full-screen quad.
    pub quad: Vec<u8>,
    /// The pipeline that presents the final target.
    pub pipeline: PostPipelinePlan,
}

impl PostProcessResources {
    /// Makes the other target the output.
    pub fn swap_buffers(&mut self)
        ensures
            final(self)@ == (PostTargets { out: old(self)@.out.other(), ..old(self)@ }),
    {
        self.out = self.out.flipped();
    }

    /// The target a pass draws into: the one marked as output.
    pub fn get_texture_out_view(&self) -> (t: PostProcessTexture)
        ensures
            t == self@.out,
    {
        self.out
    }

    /// The target a pass reads: the one not marked as output.
    pub fn get_bind_group_in(&self) -> (t: PostProcessTexture)
        ensures
            t == self@.out.other(),
    {
        self.out.flipped()
    }

    /// The target that holds the finished image.
    pub fn get_final_bind_group(&self) -> (t: PostProcessTexture)
        ensures
            t == self@.out,
    {
        self.out
    }

    /// Format of both colour targets.
    pub fn format(&self) -> (f: TextureFormat)
        ensures
            f == self@.target_format,
    {
        self.target_format
    }

    /// Size of all three targets in pixels.
    pub fn size(&self) -> (s: (u32, u32))
        ensures
            s == (self@.width, self@.height),
    {
        (self.width, self.height)
    }
}

/// Describes the ping-pong pair for a viewport of `size` pixels and returns
/// its initial state, in which target A is the output.
pub fn post_effect_init(size: (u32, u32), target_format: TextureFormat) -> (r: (
    PostProcessResources,
    PostProcessPlan,
))
    ensures
        r.0@ == (PostTargets {
            width: size.0,
            height: size.1,
            target_format,
            out: PostProcessTexture::A,
        }),
        r.1.color == color_target(size.0, size.1, target_format),
        r.1.depth == depth_target(size.0, size.1),
        r.1.sampler == target_sampler(),
        is_image(r.1.quad@, quad_words(fullscreen_quad())),
        r.1.quad@.len() == 96,
        is_pass_pipeline(r.1.pipeline, PRESENT_WGSL@, target_format),
        r.1.pipeline.vertex_layout.packed(),
{
    let usage = TextureUsages { copy_dst: false, texture_binding: true, render_attachment: true };
    let color = TexturePlan {
        width: size.0,
        height: size.1,
        format: target_format,
        usage,
        view_format: Some(target_format),
    };
    let depth = TexturePlan {
        width: size.0,
        height: size.1,
        format: TextureFormat::Depth32Float,
        usage,
        view_format: None,
    };
    let sampler = SamplerPlan {
        mag_filter: FilterMode::Linear,
        min_filter: FilterMode::Nearest,
        mipmap_filter: FilterMode::Nearest,
    };

    let mut corners: Vec<PostVertex> = Vec::new();
    corners.push(PostVertex::new([MINUS_ONE, ONE], [ZERO, ZERO]));
    corners.push(PostVertex::new([ONE, ONE], [ONE, ZERO]));
    corners.push(PostVertex::new([ONE, MINUS_ONE], [ONE, ONE]));
    corners.push(PostVertex::new([ONE, MINUS_ONE], [ONE, ONE]));
    corners.push(PostVertex::new([MINUS_ONE, MINUS_ONE], [ZERO, ONE]));
    corners.push(PostVertex::new([MINUS_ONE, ONE], [ZERO, ZERO]));
    assert(corners@ =~= fullscreen_quad());
    let quad = image_of(&post_vertex_words(&corners));

    let pipeline = create_post_pipeline(target_format, PRESENT_WGSL.to_owned());
    let resources = PostProcessResources {
        width: size.0,
        height: size.1,
        target_format,
        out: PostProcessTexture::A,
    };
    (resources, PostProcessPlan { color, depth, sampler, quad, pipeline })
}

} // verus!
