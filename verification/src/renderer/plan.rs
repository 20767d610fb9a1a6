//! Plain descriptions of device resources.

use vstd::prelude::*;

verus! {

/// Name of the vertex-stage entry point in every shader source.
pub const VERTEX_ENTRY: &'static str = "vs_main";

/// Name of the fragment-stage entry point in every shader source.
pub const FRAGMENT_ENTRY: &'static str = "fs_main";

/// The texel formats the renderer touches.
#[derive(Clone, Copy, PartialEq, Eq, Structural, Debug)]
pub enum TextureFormat {
    Rgba8Unorm,
    Rgba8UnormSrgb,
    Bgra8Unorm,
    Bgra8UnormSrgb,
    Depth32Float,
}

/// Shader stages that can see a binding.
#[derive(Clone, Copy, PartialEq, Eq, Structural, Debug)]
pub struct ShaderStages {
    pub vertex: bool,
    pub fragment: bool,
}

/// How a texture may be used.
#[derive(Clone, Copy, PartialEq, Eq, Structural, Debug)]
pub struct TextureUsages {
    pub copy_dst: bool,
    pub texture_binding: bool,
    pub render_attachment: bool,
}

/// A two-dimensional, single-sample, single-mip texture.
#[derive(Clone, Copy, PartialEq, Eq, Structural, Debug)]
pub struct TexturePlan {
    pub width: u32,
    pub height: u32,
    pub format: TextureFormat,
    pub usage: TextureUsages,
    /// A format that views of the texture may take besides its own.
    pub view_format: Option<TextureFormat>,
}

/// How a sampler reads between texels.
#[derive(Clone, Copy, PartialEq, Eq, Structural, Debug)]
pub enum FilterMode {
    Nearest,
    Linear,
}

/// A sampler that clamps to the edge on all three axes.
#[derive(Clone, Copy, PartialEq, Eq, Structural, Debug)]
pub struct SamplerPlan {
    pub mag_filter: FilterMode,
    pub min_filter: FilterMode,
    pub mipmap_filter: FilterMode,
}

/// What a uniform buffer's bind group carries.
#[derive(Clone, Copy, PartialEq, Eq, Structural, Debug)]
pub enum UniformRole {
    Camera,
    Light,
    Params,
}

/// A uniform buffer of `size` bytes, writable by copy, bound alone at
/// binding 0 of a bind group of its own.
#[derive(Clone, Copy, PartialEq, Eq, Structural, Debug)]
pub struct UniformPlan {
    pub role: UniformRole,
    pub visibility: ShaderStages,
    pub min_binding_size: Option<u64>,
    pub size: u64,
}

/// One entry of a post-processing bind group layout; its position in the
/// layout is its binding number.
#[derive(Clone, Copy, PartialEq, Eq, Structural, Debug)]
pub enum BindingPlan {
    /// A filterable, non-multisampled 2D texture.
    Texture { visibility: ShaderStages },
    /// A filtering sampler.
    Sampler { visibility: ShaderStages },
}

/// The type of a vertex attribute: a vector of binary32 components.
#[derive(Clone, Copy, PartialEq, Eq, Structural, Debug)]
pub enum VertexFormat {
    Float32x2,
    Float32x3,
}

impl VertexFormat {
    /// Number of binary32 components of this format.
    pub open spec fn components(self) -> int {
        match self {
            VertexFormat::Float32x2 => 2,
            VertexFormat::Float32x3 => 3,
        }
    }

    /// Bytes one attribute of this format takes.
    pub open spec fn size(self) -> int {
        4 * self.components()
    }

    /// Bytes one attribute of this format takes.
    pub fn byte_size(self) -> (n: u64)
        ensures
            n == self.size(),
    {
        match self {
            VertexFormat::Float32x2 => 8,
            VertexFormat::Float32x3 => 12,
        }
    }
}

/// One attribute of a vertex: where it starts within the vertex, where the
/// shader reads it, and its type.
#[derive(Clone, Copy, PartialEq, Eq, Structural, Debug)]
pub struct VertexAttribute {
    pub offset: u64,
    pub shader_location: u32,
    pub format: VertexFormat,
}

/// A vertex buffer stepped once per vertex.
#[derive(PartialEq, Eq, Debug)]
pub struct VertexBufferLayout {
    pub array_stride: u64,
    pub attributes: Vec<VertexAttribute>,
}

impl VertexBufferLayout {
    /// Attribute `k` starts where attribute `k - 1` ends, its shader location
    /// is `k`, and the stride is where the last one ends.
    pub open spec fn packed(self) -> bool {
        &&& forall|k: int|
            0 <= k < self.attributes@.len() ==> {
                &&& (#[trigger] self.attributes@[k]).shader_location == k
                &&& self.attributes@[k].offset == end_of(self.attributes@, k)
            }
        &&& self.array_stride == end_of(self.attributes@, self.attributes@.len() as int)
    }
}

/// Sum of the sizes of the first `k` attributes.
pub open spec fn end_of(attributes: Seq<VertexAttribute>, k: int) -> int
    decreases k,
{
    if k <= 0 {
        0
    } else {
        end_of(attributes, k - 1) + attributes[k - 1].format.size()
    }
}

/// When a fragment passes the depth test, by its depth and the one that
/// the depth target holds.
#[derive(Clone, Copy, PartialEq, Eq, Structural, Debug)]
pub enum CompareFunction {
    Less,
    LessEqual,
}

/// Depth testing of the mesh pass.
#[derive(Clone, Copy, PartialEq, Eq, Structural, Debug)]
pub struct DepthPlan {
    pub format: TextureFormat,
    pub write_enabled: bool,
    pub compare: CompareFunction,
}

/// The winding of a triangle that faces the viewer.
#[derive(Clone, Copy, PartialEq, Eq, Structural, Debug)]
pub enum FrontFace {
    Ccw,
    Cw,
}

/// A side of a triangle.
#[derive(Clone, Copy, PartialEq, Eq, Structural, Debug)]
pub enum Face {
    Front,
    Back,
}

/// How the triangles of a triangle list are assembled: filled, with
/// `front_face` as the front and the `cull_mode` side left out.
#[derive(Clone, Copy, PartialEq, Eq, Structural, Debug)]
pub struct PrimitivePlan {
    pub front_face: FrontFace,
    pub cull_mode: Option<Face>,
}

/// The pipeline that draws the mesh. `uniforms[k]` is bound at group `k`.
#[derive(PartialEq, Eq, Debug)]
pub struct MeshPipelinePlan {
    pub source: String,
    pub uniforms: Vec<UniformPlan>,
    pub vertex_layout: VertexBufferLayout,
    pub primitive: PrimitivePlan,
    pub target_format: TextureFormat,
    pub depth: DepthPlan,
}

/// A full-screen pass pipeline, without a depth test. `bindings[k]` is
/// binding `k` of its one bind group.
#[derive(PartialEq, Eq, Debug)]
pub struct PostPipelinePlan {
    pub source: String,
    pub bindings: Vec<BindingPlan>,
    pub vertex_layout: VertexBufferLayout,
    pub primitive: PrimitivePlan,
    pub target_format: TextureFormat,
}

} // verus!
