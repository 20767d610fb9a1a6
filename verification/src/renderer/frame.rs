//! Building the mesh pipeline, and planning each frame: the uniform writes,
//! the mesh pass, and one full-screen pass for every effect of the chain.

use vstd::prelude::*;
use crate::config::{effect_source, params_uniform, shading_source, ActiveEffect, ActiveModel, PostEffect, PostEffectEnum, ShadingModel, ShadingModelEnum};
use crate::object::{asset_error, is_upload, AssetError, MeshData, MeshUpload, Object, TextureImage};
use crate::pod::{is_image, ONE};
use crate::renderer::plan::{CompareFunction, DepthPlan, FrontFace, MeshPipelinePlan, PostPipelinePlan, PrimitivePlan, TextureFormat, UniformPlan};
use crate::renderer::post::{is_pass_pipeline, PostProcessResources, PostProcessTexture, PostTargets, QUAD_VERTICES};
use crate::renderer::uniform::{CameraUniform, LightUniform, CAMERA_UNIFORM_SIZE, LIGHT_UNIFORM_SIZE};
use crate::renderer::vertex::Vertex;

verus! {

/// The bind groups of the mesh pipeline in slot order: camera at group 0,
/// light at group 1, the model's parameter block of `words` words at
/// group 2. Every shading model's source declares them so.
pub open spec fn mesh_uniforms(words: nat) -> Seq<UniformPlan> {
    seq![CameraUniform::uniform(), LightUniform::uniform(), params_uniform(words)]
}

/// The depth test of the mesh pipeline: a fragment passes, and is written,
/// when it is strictly nearer than what the depth target holds.
pub open spec fn mesh_depth() -> DepthPlan {
    DepthPlan {
        format: TextureFormat::Depth32Float,
        write_enabled: true,
        compare: CompareFunction::Less,
    }
}

/// `plan` is the mesh pipeline for a shading model of variant `model` with
/// a parameter block of `words` words, drawing into a target of
/// `target_format`: clockwise triangles face the viewer, and no side is
/// left out.
pub open spec fn is_mesh_pipeline(
    plan: MeshPipelinePlan,
    model: ShadingModelEnum,
    words: nat,
    target_format: TextureFormat,
) -> bool {
    &&& plan.source@ == shading_source(model)
    &&& plan.uniforms@ == mesh_uniforms(words)
    &&& plan.vertex_layout.array_stride == 32
    &&& plan.vertex_layout.attributes@ == Vertex::attributes()
    &&& plan.primitive == PrimitivePlan { front_face: FrontFace::Cw, cull_mode: None }
    &&& plan.target_format == target_format
    &&& plan.depth == mesh_depth()
}

/// What the device must create when the pipeline is built.
#[derive(PartialEq, Eq, Debug)]
pub struct PipelineBuild {
    pub pipeline: MeshPipelinePlan,
    pub mesh: MeshUpload,
}

/// What the resources of a frame are: which shading model the pipeline was
/// built from, how large its parameter buffer is, how many vertices the
/// vertex buffer holds, and the ping-pong pair once there is one.
pub struct FrameResources {
    pub model: ShadingModelEnum,
    pub params_size: u64,
    pub vertex_count: u32,
    pub post: Option<PostTargets>,
}

/// What a frame draws with. The pipeline, the three bind groups and their
/// buffers are built together and replaced together.
#[derive(Clone, Copy, PartialEq, Eq, Debug)]
pub struct ObjectRenderResources {
    model: ShadingModelEnum,
    params_size: u64,
    vertex_count: u32,
    post_process_resources: Option<PostProcessResources>,
}

impl View for ObjectRenderResources {
    type V = FrameResources;

    closed spec fn view(&self) -> FrameResources {
        FrameResources {
            model: self.model,
            params_size: self.params_size,
            vertex_count: self.vertex_count,
            post: match self.post_process_resources {
                Some(post) => Some(post@),
                None => None,
            },
        }
    }
}

/// What a finished rebuild leaves in place of `previous`: the candidate,
/// except that the ping-pong pair of the resources it replaces, if they
/// have one, stays.
pub open spec fn published(previous: Option<FrameResources>, candidate: FrameResources) -> FrameResources {
    FrameResources {
        post: match previous {
            Some(p) if p.post is Some => p.post,
            _ => candidate.post,
        },
        ..candidate
    }
}

/// A rebuild leaves nothing of the pipeline it replaces: the shading model,
/// the parameter buffer and the vertex buffer are the candidate's, whatever
/// was in use before.
pub proof fn lemma_publish_leaves_nothing_stale(
    previous: Option<FrameResources>,
    candidate: FrameResources,
)
    ensures
        published(previous, candidate).model == candidate.model,
        published(previous, candidate).params_size == candidate.params_size,
        published(previous, candidate).vertex_count == candidate.vertex_count,
        published(None, candidate) == candidate,
{
}

/// The bytes a frame writes into the three uniform buffers.
#[derive(PartialEq, Eq, Debug)]
pub struct UniformWrites {
    pub camera: Vec<u8>,
    pub light: Vec<u8>,
    pub params: Vec<u8>,
}

/// What a pass fills its target with before it draws.
#[derive(Clone, Copy, PartialEq, Eq, Structural, Debug)]
pub enum ClearColor {
    White,
    Transparent,
}

/// One render pass of a frame. The mesh pass draws the mesh with the depth
/// target attached; an effect pass draws the full-screen quad, reading
/// `input`, without a depth target.
#[derive(PartialEq, Eq, Debug)]
pub struct RenderPass {
    /// The target drawn into.
    pub target: PostProcessTexture,
    /// What the target is cleared to first.
    pub clear: ClearColor,
    /// The binary32 encoding of the depth that the depth target is cleared
    /// to first, where the pass has a depth target.
    pub depth_clear: Option<u32>,
    /// The target read; none for the mesh pass.
    pub input: Option<PostProcessTexture>,
    /// The effect applied; none for the mesh pass.
    pub effect: Option<PostEffectEnum>,
    /// The pipeline of the effect, where it must be built before the pass.
    pub build: Option<PostPipelinePlan>,
    pub vertex_count: u32,
}

/// Everything one frame asks of the device, in order: the uniform writes,
/// then the passes.
#[derive(PartialEq, Eq, Debug)]
pub struct FramePlan {
    pub writes: UniformWrites,
    pub passes: Vec<RenderPass>,
}

/// What is drawn into the visible surface: the full-screen quad, reading
/// `source`.
#[derive(Clone, Copy, PartialEq, Eq, Structural, Debug)]
pub struct PaintPlan {
    pub source: PostProcessTexture,
    pub vertex_count: u32,
}

/// `pass` draws `vertex_count` vertices of the mesh into `target`, over
/// white, with the depth target cleared to the far plane at depth 1.
pub open spec fn is_mesh_pass(pass: RenderPass, target: PostProcessTexture, vertex_count: u32) -> bool {
    &&& pass.target == target
    &&& pass.clear == ClearColor::White
    &&& pass.depth_clear == Some(ONE)
    &&& pass.input is None
    &&& pass.effect is None
    &&& pass.build is None
    &&& pass.vertex_count == vertex_count
}

/// `pass` applies `effect`, as it stood before the frame, reading the other
/// target and drawing into `target`, over transparent, and carries the
/// effect's pipeline exactly when none was built for `target_format`.
pub open spec fn is_effect_pass(
    pass: RenderPass,
    target: PostProcessTexture,
    effect: ActiveEffect,
    target_format: TextureFormat,
) -> bool {
    &&& pass.target == target
    &&& pass.clear == ClearColor::Transparent
    &&& pass.depth_clear is None
    &&& pass.input == Some(target.other())
    &&& pass.effect == Some(effect.tag())
    &&& pass.vertex_count == QUAD_VERTICES
    &&& pass.build is Some <==> effect.built_for() != Some(target_format)
    &&& pass.build matches Some(plan) ==> is_pass_pipeline(
        plan,
        effect_source(effect.tag()),
        target_format,
    )
}

/// `passes` is the frame over a chain of `effects`, as they stood before
/// the frame, when `first` is the output target at its start: the mesh pass
/// into `first`, then as pass `k` the effect at position `k - 1`, drawn
/// from the target written last into the other one.
pub open spec fn is_frame(
    passes: Seq<RenderPass>,
    first: PostProcessTexture,
    vertex_count: u32,
    effects: Seq<ActiveEffect>,
    target_format: TextureFormat,
) -> bool {
    &&& passes.len() == effects.len() + 1
    &&& is_mesh_pass(passes[0], first, vertex_count)
    &&& forall|k: int|
        1 <= k <= effects.len() ==> is_effect_pass(
            #[trigger] passes[k],
            first.after(k as nat),
            effects[k - 1],
            target_format,
        )
}

/// The ping-pong law. A frame over a chain of N effects has N + 1 passes.
/// Pass `k` draws into the output target as it is after `k` exchanges, so
/// that the output target is exchanged N times in all; an effect pass reads
/// the target that the pass before it drew into, which is never the one it
/// draws into itself. The last pass draws into another target than the mesh
/// pass exactly when N is odd.
pub proof fn lemma_ping_pong(
    passes: Seq<RenderPass>,
    first: PostProcessTexture,
    vertex_count: u32,
    effects: Seq<ActiveEffect>,
    target_format: TextureFormat,
)
    requires
        is_frame(passes, first, vertex_count, effects, target_format),
    ensures
        passes.len() == effects.len() + 1,
        forall|k: int| 0 <= k < passes.len() ==> (#[trigger] passes[k]).target == first.after(k as nat),
        forall|k: int|
            1 <= k < passes.len() ==> (#[trigger] passes[k]).input == Some(
                first.after((k - 1) as nat),
            ),
        forall|k: int| 0 <= k < passes.len() ==> (#[trigger] passes[k]).input != Some(passes[k].target),
        passes.last().target != passes[0].target <==> effects.len() % 2 == 1,
{
    first.lemma_after_parity(effects.len());
}

/// `after` is `before` with every pipeline built for `target_format`.
pub open spec fn all_built(
    before: Seq<ActiveEffect>,
    after: Seq<ActiveEffect>,
    target_format: TextureFormat,
) -> bool {
    &&& after.len() == before.len()
    &&& forall|i: int|
        0 <= i < before.len() ==> (#[trigger] after[i]).tag() == before[i].tag()
            && after[i].built_for() == Some(target_format)
}

impl ObjectRenderResources {
    /// Records the vertex buffer that replaced the previous one.
    pub fn set_vertex_buffer(&mut self, vertex_count: u32)
        ensures
            final(self)@ == (FrameResources { vertex_count, ..old(self)@ }),
    {
        self.vertex_count = vertex_count;
    }

    /// Records the ping-pong pair that replaced the previous one, if any.
    pub fn set_post_process_resources(&mut self, post_process_resources: PostProcessResources)
        ensures
            final(self)@ == (FrameResources { post: Some(post_process_resources@), ..old(self)@ }),
    {
        self.post_process_resources = Some(post_process_resources);
    }

    /// The variant of the shading model the pipeline was built from.
    pub fn shading_model(&self) -> (m: ShadingModelEnum)
        ensures
            m == self@.model,
    {
        self.model
    }

    /// Bytes of the parameter buffer.
    pub fn params_size(&self) -> (n: u64)
        ensures
            n == self@.params_size,
    {
        self.params_size
    }

    /// Vertices in the vertex buffer.
    pub fn vertex_count(&self) -> (n: u32)
        ensures
            n == self@.vertex_count,
    {
        self.vertex_count
    }

    /// The ping-pong pair, once there is one.
    pub fn post_process_resources(&self) -> (p: Option<PostProcessResources>)
        ensures
            match p {
                Some(post) => self@.post == Some(post@),
                None => self@.post is None,
            },
    {
        self.post_process_resources
    }

    /// Ends a rebuild. `candidate` was built while `current` was still in
    /// use; `compiled` tells whether the device accepted its shader. If it
    /// did, the candidate replaces the current resources whole, except that
    /// the ping-pong pair of the resources it replaces, if they have one,
    /// stays: it belongs to the viewport and not to the pipeline. If it did
    /// not, the current resources stay as they are.
    pub fn publish(
        current: &mut Option<ObjectRenderResources>,
        candidate: ObjectRenderResources,
        compiled: bool,
    )
        ensures
            !compiled ==> *final(current) == *old(current),
            compiled ==> {
                &&& *final(current) matches Some(now)
                &&& now@ == published(
                    match *old(current) {
                        Some(previous) => Some(previous@),
                        None => None,
                    },
                    candidate@,
                )
            },
    {
        if compiled {
            let kept = match current {
                Some(previous) => previous.post_process_resources,
                None => None,
            };
            let post = match kept {
                Some(pair) => Some(pair),
                None => candidate.post_process_resources,
            };
            *current = Some(ObjectRenderResources { post_process_resources: post, ..candidate });
        }
    }

    /// The contents of the three uniform buffers for one frame.
    pub fn prepare<M: ShadingModel>(
        &self,
        view_projection: &CameraUniform,
        light: &LightUniform,
        params: &M,
    ) -> (writes: UniformWrites)
        requires
            self@.params_size == 4 * params.params().len(),
        ensures
            is_image(writes.camera@, view_projection.words()),
            writes.camera@.len() == CAMERA_UNIFORM_SIZE,
            is_image(writes.light@, light.words()),
            writes.light@.len() == LIGHT_UNIFORM_SIZE,
            is_image(writes.params@, params.params()),
            writes.params@.len() == self@.params_size,
    {
        UniformWrites {
            camera: view_projection.to_bytes(),
            light: light.to_bytes(),
            params: vstd::slice::slice_to_vec(params.to_params()),
        }
    }

    /// What is drawn into the visible surface: the target that holds the
    /// finished image, or nothing while there is no ping-pong pair.
    pub fn paint(&self) -> (plan: Option<PaintPlan>)
        ensures
            plan == match self@.post {
                Some(post) => Some(PaintPlan { source: post.out, vertex_count: QUAD_VERTICES }),
                None => None,
            },
    {
        match &self.post_process_resources {
            Some(post) => Some(
                PaintPlan { source: post.get_final_bind_group(), vertex_count: QUAD_VERTICES },
            ),
            None => None,
        }
    }
}

/// Describes the mesh pipeline for `shading_model` and the upload of the
/// first of `models`, and returns the resources that stand for them once
/// the device has built them. They have no ping-pong pair yet.
pub fn build_pipeline<M: ShadingModel>(
    target_format: TextureFormat,
    models: &Vec<MeshData>,
    image: Option<&TextureImage>,
    shading_model: &M,
) -> (r: Result<(ObjectRenderResources, PipelineBuild), AssetError>)
    ensures
        match asset_error(models@, image) {
            Some(e) => r == Err::<(ObjectRenderResources, PipelineBuild), AssetError>(e),
            None => {
                &&& r matches Ok((resources, build))
                &&& is_mesh_pipeline(
                    build.pipeline,
                    shading_model.tag(),
                    shading_model.params().len(),
                    target_format,
                )
                &&& build.pipeline.vertex_layout.packed()
                &&& is_upload(build.mesh, models@, image)
                &&& resources@.model == shading_model.tag()
                &&& resources@.params_size == 4 * shading_model.params().len()
                &&& resources@.vertex_count == build.mesh.vertex_count
                &&& resources@.post is None
            },
        },
{
    let mesh = match Object::load_obj(models, image) {
        Err(e) => { return Err(e); },
        Ok(mesh) => mesh,
    };
    let params = shading_model.create_uniform();
    let mut uniforms: Vec<UniformPlan> = Vec::new();
    uniforms.push(CameraUniform::create_uniform());
    uniforms.push(LightUniform::create_uniform());
    uniforms.push(params);
    assert(uniforms@ =~= mesh_uniforms(shading_model.params().len()));
    let pipeline = MeshPipelinePlan {
        source: shading_model.get_source(),
        uniforms,
        vertex_layout: Vertex::desc(),
        primitive: PrimitivePlan { front_face: FrontFace::Cw, cull_mode: None },
        target_format,
        depth: DepthPlan {
            format: TextureFormat::Depth32Float,
            write_enabled: true,
            compare: CompareFunction::Less,
        },
    };
    let resources = ObjectRenderResources {
        model: shading_model.as_enum(),
        params_size: params.size,
        vertex_count: mesh.vertex_count,
        post_process_resources: None,
    };
    Ok((resources, PipelineBuild { pipeline, mesh }))
}

/// What one frame draws: the camera, the light, and the shading model as
/// they stand when the frame is made.
#[derive(Clone, Copy, PartialEq, Eq, Debug)]
pub struct ObjectRenderCallback {
    pub view_projection: CameraUniform,
    pub light: LightUniform,
    pub shading_model: ActiveModel,
}

impl ObjectRenderCallback {
    /// Plans the frame. The uniform writes come first. While there is no
    /// ping-pong pair nothing is drawn. Otherwise the mesh is drawn into
    /// the output target, and every effect of the chain, in order, is drawn
    /// from the target written last into the other one, which then becomes
    /// the output target.
    pub fn prepare(
        &self,
        resources: &mut ObjectRenderResources,
        post_effects: &mut Vec<ActiveEffect>,
    ) -> (plan: FramePlan)
        requires
            old(resources)@.params_size == 4 * self.shading_model.params().len(),
        ensures
            is_image(plan.writes.camera@, self.view_projection.words()),
            plan.writes.camera@.len() == CAMERA_UNIFORM_SIZE,
            is_image(plan.writes.light@, self.light.words()),
            plan.writes.light@.len() == LIGHT_UNIFORM_SIZE,
            is_image(plan.writes.params@, self.shading_model.params()),
            plan.writes.params@.len() == old(resources)@.params_size,
            match old(resources)@.post {
                None => {
                    &&& plan.passes@.len() == 0
                    &&& final(resources)@ == old(resources)@
                    &&& final(post_effects)@ == old(post_effects)@
                },
                Some(post) => {
                    &&& is_frame(
                        plan.passes@,
                        post.out,
                        old(resources)@.vertex_count,
                        old(post_effects)@,
                        post.target_format,
                    )
                    &&& final(resources)@ == (FrameResources {
                        post: Some(
                            PostTargets { out: post.out.after(old(post_effects)@.len()), ..post },
                        ),
                        ..old(resources)@
                    })
                    &&& all_built(old(post_effects)@, final(post_effects)@, post.target_format)
                },
            },
    {
        let writes = resources.prepare(&self.view_projection, &self.light, &self.shading_model);
        let mut passes: Vec<RenderPass> = Vec::new();
        let mut post = match resources.post_process_resources {
            None => { return FramePlan { writes, passes }; },
            Some(post) => post,
        };
        let ghost start = post@;
        let ghost first = post@.out;
        let ghost before = post_effects@;
        let target_format = post.format();
        passes.push(
            RenderPass {
                target: post.get_texture_out_view(),
                clear: ClearColor::White,
                depth_clear: Some(ONE),
                input: None,
                effect: None,
                build: None,
                vertex_count: resources.vertex_count,
            },
        );
        let mut i: usize = 0;
        while i < post_effects.len()
            invariant
                i <= before.len(),
                post_effects@.len() == before.len(),
                target_format == start.target_format,
                first == start.out,
                post@ == (PostTargets { out: first.after(i as nat), ..start }),
                passes@.len() == i + 1,
                is_mesh_pass(passes@[0], first, old(resources)@.vertex_count),
                forall|k: int|
                    1 <= k <= i ==> is_effect_pass(
                        #[trigger] passes@[k],
                        first.after(k as nat),
                        before[k - 1],
                        target_format,
                    ),
                forall|j: int|
                    0 <= j < i ==> (#[trigger] post_effects@[j]).tag() == before[j].tag()
                        && post_effects@[j].built_for() == Some(target_format),
                forall|j: int| i <= j < before.len() ==> post_effects@[j] == before[j],
            decreases before.len() - i,
        {
            let mut effect = post_effects[i];
            let build = effect.get_pipeline(target_format);
            post_effects.set(i, effect);
            post.swap_buffers();
            passes.push(
                RenderPass {
                    target: post.get_texture_out_view(),
                    clear: ClearColor::Transparent,
                    depth_clear: None,
                    input: Some(post.get_bind_group_in()),
                    effect: Some(effect.as_enum()),
                    build,
                    vertex_count: QUAD_VERTICES,
                },
            );
            i += 1;
        }
        resources.post_process_resources = Some(post);
        FramePlan { writes, passes }
    }

    /// What is drawn into the visible surface.
    pub fn paint(&self, resources: &ObjectRenderResources) -> (plan: Option<PaintPlan>)
        ensures
            plan == match resources@.post {
                Some(post) => Some(PaintPlan { source: post.out, vertex_count: QUAD_VERTICES }),
                None => None,
            },
    {
        resources.paint()
    }
}

} // verus!
