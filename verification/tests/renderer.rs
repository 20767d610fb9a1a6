use shading_pipeline::config::{
    ActiveEffect, ActiveModel, PostEffect, PostEffectEnum, ShadingModel, ShadingModelEnum,
    WidgetInput,
};
use shading_pipeline::object::{AssetError, MeshData};
use shading_pipeline::renderer::frame::{
    build_pipeline, ClearColor, FramePlan, ObjectRenderCallback, ObjectRenderResources, PaintPlan,
};
use shading_pipeline::renderer::plan::{
    BindingPlan, CompareFunction, DepthPlan, Face, FilterMode, FrontFace, PrimitivePlan,
    SamplerPlan, ShaderStages, TextureFormat, TexturePlan, TextureUsages, UniformPlan,
    UniformRole, VertexAttribute, VertexFormat,
};
use shading_pipeline::renderer::post::{
    create_post_pipeline, post_effect_init, PostProcessTexture, PostVertex, PRESENT_WGSL,
};
use shading_pipeline::renderer::uniform::{CameraUniform, LightUniform};
use shading_pipeline::renderer::vertex::{vertex_words, Vertex};

fn bits(values: &[f32]) -> Vec<u32> {
    values.iter().map(|v| v.to_bits()).collect()
}

fn reals_of_bytes(bytes: &[u8]) -> Vec<f32> {
    bytes.chunks(4).map(|c| f32::from_ne_bytes([c[0], c[1], c[2], c[3]])).collect()
}

fn triangle() -> Vec<MeshData> {
    vec![MeshData {
        positions: bits(&[0.0, 0.0, 0.0, 1.0, 0.0, 0.0, 0.0, 1.0, 0.0]),
        normals: Vec::new(),
        texcoords: Vec::new(),
        indices: vec![0, 1, 2],
    }]
}

fn identity() -> [u32; 16] {
    let mut m = [0.0f32.to_bits(); 16];
    for k in 0..4usize {
        m[5 * k] = 1.0f32.to_bits();
    }
    m
}

fn callback(model: ShadingModelEnum) -> ObjectRenderCallback {
    ObjectRenderCallback {
        view_projection: CameraUniform::new(identity(), identity()),
        light: LightUniform::new(),
        shading_model: ActiveModel::new(model),
    }
}

/// Resources for a triangle and Phong shading, with a ping-pong pair.
fn resources() -> ObjectRenderResources {
    let model = ActiveModel::new(ShadingModelEnum::Phong);
    let (mut resources, _) =
        build_pipeline(TextureFormat::Bgra8Unorm, &triangle(), None, &model).expect("it builds");
    let (post, _) = post_effect_init((640, 480), TextureFormat::Bgra8Unorm);
    resources.set_post_process_resources(post);
    resources
}

fn chain(effects: &[PostEffectEnum]) -> Vec<ActiveEffect> {
    effects.iter().map(|e| ActiveEffect::new(*e)).collect()
}

fn final_target(resources: &ObjectRenderResources) -> PostProcessTexture {
    resources.post_process_resources().expect("a ping-pong pair").get_final_bind_group()
}

#[test]
fn vertex_layout_is_position_normal_texcoord() {
    let layout = Vertex::desc();
    assert_eq!(layout.array_stride, 32);
    assert_eq!(
        layout.attributes,
        vec![
            VertexAttribute { offset: 0, shader_location: 0, format: VertexFormat::Float32x3 },
            VertexAttribute { offset: 12, shader_location: 1, format: VertexFormat::Float32x3 },
            VertexAttribute { offset: 24, shader_location: 2, format: VertexFormat::Float32x2 },
        ]
    );
    assert_eq!(VertexFormat::Float32x3.byte_size(), 12);
    assert_eq!(VertexFormat::Float32x2.byte_size(), 8);
}

#[test]
fn quad_layout_is_position_texcoord() {
    let layout = PostVertex::desc();
    assert_eq!(layout.array_stride, 16);
    assert_eq!(
        layout.attributes,
        vec![
            VertexAttribute { offset: 0, shader_location: 0, format: VertexFormat::Float32x2 },
            VertexAttribute { offset: 8, shader_location: 1, format: VertexFormat::Float32x2 },
        ]
    );
}

#[test]
fn vertices_lie_one_after_another_field_by_field() {
    let a = Vertex::new([1, 2, 3], [4, 5, 6], [7, 8]);
    let b = Vertex::new([9, 10, 11], [12, 13, 14], [15, 16]);
    assert_eq!(vertex_words(&vec![a, b]), (1..=16).collect::<Vec<u32>>());
    assert_eq!(vertex_words(&Vec::new()), Vec::<u32>::new());
    let layout = Vertex::desc();
    let words = vertex_words(&vec![a, b]);
    let normal_of_b = (layout.array_stride + layout.attributes[1].offset) as usize / 4;
    assert_eq!(words[normal_of_b..normal_of_b + 3], [12, 13, 14]);
}

#[test]
fn camera_block_is_projection_then_view() {
    let mut proj = [0u32; 16];
    let mut view = [0u32; 16];
    for k in 0..16usize {
        proj[k] = (k as f32).to_bits();
        view[k] = (100.0 + k as f32).to_bits();
    }
    let bytes = CameraUniform::new(proj, view).to_bytes();
    assert_eq!(bytes.len(), 128);
    let reals = reals_of_bytes(&bytes);
    let expected: Vec<f32> =
        (0..16).map(|k| k as f32).chain((0..16).map(|k| 100.0 + k as f32)).collect();
    assert_eq!(reals, expected);
    assert_eq!(
        CameraUniform::create_uniform(),
        UniformPlan {
            role: UniformRole::Camera,
            visibility: ShaderStages { vertex: true, fragment: true },
            min_binding_size: Some(128),
            size: 128,
        }
    );
}

#[test]
fn light_block_pads_both_vectors() {
    let light = LightUniform::new();
    let bytes = light.to_bytes();
    assert_eq!(bytes.len(), 32);
    assert_eq!(reals_of_bytes(&bytes), vec![0.0, 3.0, -3.0, 0.0, 1.0, 1.0, 1.0, 0.0]);
    assert_eq!(bytes[12..16], [0, 0, 0, 0]);
    assert_eq!(bytes[28..32], [0, 0, 0, 0]);
    assert_eq!(
        LightUniform::create_uniform(),
        UniformPlan {
            role: UniformRole::Light,
            visibility: ShaderStages { vertex: true, fragment: true },
            min_binding_size: None,
            size: 32,
        }
    );
}

#[test]
fn ping_pong_pair_is_described_for_the_viewport() {
    let (post, plan) = post_effect_init((800, 600), TextureFormat::Rgba8Unorm);
    assert_eq!(post.size(), (800, 600));
    assert_eq!(post.format(), TextureFormat::Rgba8Unorm);
    assert_eq!(post.get_texture_out_view(), PostProcessTexture::A);
    assert_eq!(post.get_bind_group_in(), PostProcessTexture::B);
    assert_eq!(post.get_final_bind_group(), PostProcessTexture::A);
    let usage = TextureUsages { copy_dst: false, texture_binding: true, render_attachment: true };
    assert_eq!(
        plan.color,
        TexturePlan {
            width: 800,
            height: 600,
            format: TextureFormat::Rgba8Unorm,
            usage,
            view_format: Some(TextureFormat::Rgba8Unorm),
        }
    );
    assert_eq!(
        plan.depth,
        TexturePlan {
            width: 800,
            height: 600,
            format: TextureFormat::Depth32Float,
            usage,
            view_format: None,
        }
    );
    assert_eq!(
        plan.sampler,
        SamplerPlan {
            mag_filter: FilterMode::Linear,
            min_filter: FilterMode::Nearest,
            mipmap_filter: FilterMode::Nearest,
        }
    );
    assert_eq!(plan.pipeline.source, PRESENT_WGSL);
    assert_eq!(plan.pipeline.target_format, TextureFormat::Rgba8Unorm);
    assert_eq!(plan.pipeline.vertex_layout, PostVertex::desc());
}

#[test]
fn quad_covers_clip_space_with_two_clockwise_triangles() {
    let (_, plan) = post_effect_init((1, 1), TextureFormat::Bgra8Unorm);
    assert_eq!(plan.quad.len(), 96);
    let expected: Vec<f32> = vec![
        -1.0, 1.0, 0.0, 0.0,
        1.0, 1.0, 1.0, 0.0,
        1.0, -1.0, 1.0, 1.0,
        1.0, -1.0, 1.0, 1.0,
        -1.0, -1.0, 0.0, 1.0,
        -1.0, 1.0, 0.0, 0.0,
    ];
    assert_eq!(reals_of_bytes(&plan.quad), expected);
}

#[test]
fn swapping_exchanges_the_targets() {
    let (mut post, _) = post_effect_init((4, 4), TextureFormat::Bgra8Unorm);
    post.swap_buffers();
    assert_eq!(post.get_texture_out_view(), PostProcessTexture::B);
    assert_eq!(post.get_bind_group_in(), PostProcessTexture::A);
    assert_eq!(post.get_final_bind_group(), PostProcessTexture::B);
    assert_eq!(post.size(), (4, 4));
    assert_eq!(post.format(), TextureFormat::Bgra8Unorm);
    post.swap_buffers();
    assert_eq!(post.get_texture_out_view(), PostProcessTexture::A);
    assert_eq!(PostProcessTexture::A.flipped(), PostProcessTexture::B);
    assert_eq!(PostProcessTexture::B.flipped(), PostProcessTexture::A);
}

#[test]
fn pass_pipeline_binds_the_input_for_the_fragment_stage() {
    let plan = create_post_pipeline(TextureFormat::Bgra8UnormSrgb, "source".to_string());
    assert_eq!(plan.source, "source");
    assert_eq!(plan.target_format, TextureFormat::Bgra8UnormSrgb);
    assert_eq!(
        plan.bindings,
        vec![
            BindingPlan::Texture { visibility: ShaderStages { vertex: false, fragment: true } },
            BindingPlan::Sampler { visibility: ShaderStages { vertex: false, fragment: true } },
        ]
    );
    assert_eq!(plan.vertex_layout, PostVertex::desc());
    assert_eq!(
        plan.primitive,
        PrimitivePlan { front_face: FrontFace::Cw, cull_mode: Some(Face::Back) }
    );
}

#[test]
fn mesh_pipeline_binds_camera_light_and_parameters_in_that_order() {
    for model in [ShadingModelEnum::Phong, ShadingModelEnum::Flat] {
        let active = ActiveModel::new(model);
        let (resources, build) =
            build_pipeline(TextureFormat::Bgra8Unorm, &triangle(), None, &active).expect("builds");
        assert_eq!(build.pipeline.source, active.get_source());
        assert_eq!(
            build.pipeline.uniforms,
            vec![
                CameraUniform::create_uniform(),
                LightUniform::create_uniform(),
                active.create_uniform()
            ]
        );
        let roles: Vec<UniformRole> = build.pipeline.uniforms.iter().map(|u| u.role).collect();
        assert_eq!(roles, vec![UniformRole::Camera, UniformRole::Light, UniformRole::Params]);
        assert_eq!(build.pipeline.vertex_layout, Vertex::desc());
        assert_eq!(build.pipeline.target_format, TextureFormat::Bgra8Unorm);
        assert_eq!(
            build.pipeline.primitive,
            PrimitivePlan { front_face: FrontFace::Cw, cull_mode: None }
        );
        assert_eq!(
            build.pipeline.depth,
            DepthPlan {
                format: TextureFormat::Depth32Float,
                write_enabled: true,
                compare: CompareFunction::Less,
            }
        );
        assert_eq!(build.mesh.vertex_count, 3);
        assert_eq!(build.mesh.vertices.len(), 96);
        assert_eq!(build.mesh.texture, None);
        assert_eq!(resources.shading_model(), model);
        assert_eq!(resources.params_size(), 16);
        assert_eq!(resources.vertex_count(), 3);
        assert_eq!(resources.post_process_resources(), None);
    }
}

#[test]
fn mesh_pipeline_is_not_built_for_a_mesh_that_cannot_be_shown() {
    let model = ActiveModel::new(ShadingModelEnum::Phong);
    let built = build_pipeline(TextureFormat::Bgra8Unorm, &Vec::new(), None, &model);
    assert_eq!(built.err(), Some(AssetError::NoModel));
}

#[test]
fn a_failed_rebuild_keeps_the_last_good_resources() {
    let mut current = Some(resources());
    let before = current;
    let flat = ActiveModel::new(ShadingModelEnum::Flat);
    let (candidate, _) =
        build_pipeline(TextureFormat::Bgra8Unorm, &triangle(), None, &flat).expect("builds");
    ObjectRenderResources::publish(&mut current, candidate, false);
    assert_eq!(current, before);
    assert_eq!(current.expect("still there").shading_model(), ShadingModelEnum::Phong);
}

#[test]
fn a_rebuild_replaces_the_resources_and_keeps_the_ping_pong_pair() {
    let mut current = Some(resources());
    let post = current.expect("there").post_process_resources();
    let flat = ActiveModel::new(ShadingModelEnum::Flat);
    let mut two_triangles = triangle();
    two_triangles[0].indices = vec![0, 1, 2, 2, 1, 0];
    let (candidate, _) =
        build_pipeline(TextureFormat::Bgra8Unorm, &two_triangles, None, &flat).expect("builds");
    ObjectRenderResources::publish(&mut current, candidate, true);
    let now = current.expect("published");
    assert_eq!(now.shading_model(), ShadingModelEnum::Flat);
    assert_eq!(now.vertex_count(), 6);
    assert_eq!(now.params_size(), 16);
    assert_eq!(now.post_process_resources(), post);
}

#[test]
fn a_rebuild_brings_its_own_pair_where_there_is_none_to_keep() {
    let phong = ActiveModel::new(ShadingModelEnum::Phong);
    let (bare, _) =
        build_pipeline(TextureFormat::Bgra8Unorm, &triangle(), None, &phong).expect("builds");
    let (post, _) = post_effect_init((8, 8), TextureFormat::Bgra8Unorm);
    let mut candidate = bare;
    candidate.set_post_process_resources(post);
    let mut current = Some(bare);
    ObjectRenderResources::publish(&mut current, candidate, true);
    assert_eq!(current, Some(candidate));
    let mut none: Option<ObjectRenderResources> = None;
    ObjectRenderResources::publish(&mut none, candidate, true);
    assert_eq!(none, Some(candidate));
    let mut swapped = candidate;
    callback(ShadingModelEnum::Phong)
        .prepare(&mut swapped, &mut chain(&[PostEffectEnum::Blur]));
    assert_eq!(final_target(&swapped), PostProcessTexture::B);
    let mut current = Some(swapped);
    ObjectRenderResources::publish(&mut current, candidate, true);
    assert_eq!(current, Some(swapped));
}

#[test]
fn the_first_build_is_published_as_it_is() {
    let mut current: Option<ObjectRenderResources> = None;
    let phong = ActiveModel::new(ShadingModelEnum::Phong);
    let (candidate, _) =
        build_pipeline(TextureFormat::Bgra8Unorm, &triangle(), None, &phong).expect("builds");
    ObjectRenderResources::publish(&mut current, candidate, true);
    assert_eq!(current, Some(candidate));
    let mut none: Option<ObjectRenderResources> = None;
    ObjectRenderResources::publish(&mut none, candidate, false);
    assert_eq!(none, None);
}

#[test]
fn switching_from_phong_to_flat_leaves_nothing_of_the_old_pipeline() {
    let mut current = Some(resources());
    let flat = ActiveModel::new(ShadingModelEnum::Flat);
    let (candidate, build) =
        build_pipeline(TextureFormat::Bgra8Unorm, &triangle(), None, &flat).expect("builds");
    assert_eq!(build.pipeline.source, flat.get_source());
    assert_ne!(build.pipeline.source, ActiveModel::new(ShadingModelEnum::Phong).get_source());
    ObjectRenderResources::publish(&mut current, candidate, true);
    assert_eq!(current.expect("published").shading_model(), flat.as_enum());
}

#[test]
fn uniform_writes_carry_camera_light_and_parameters() {
    let mut render = callback(ShadingModelEnum::Phong);
    let values = [0.1f32.to_bits(), 0.2f32.to_bits(), 0.3f32.to_bits(), 8.0f32.to_bits()];
    render.shading_model.build_widget(WidgetInput { values, released: [false; 4] });
    let mut resources = resources();
    let plan: FramePlan = render.prepare(&mut resources, &mut Vec::new());
    assert_eq!(plan.writes.camera, render.view_projection.to_bytes());
    assert_eq!(plan.writes.camera.len(), 128);
    assert_eq!(plan.writes.light, render.light.to_bytes());
    assert_eq!(reals_of_bytes(&plan.writes.params), vec![0.1, 0.2, 0.3, 8.0]);
}

#[test]
fn nothing_is_drawn_without_a_ping_pong_pair() {
    let model = ActiveModel::new(ShadingModelEnum::Phong);
    let (mut resources, _) =
        build_pipeline(TextureFormat::Bgra8Unorm, &triangle(), None, &model).expect("builds");
    let before = resources;
    let mut effects = chain(&[PostEffectEnum::Negative]);
    let render = callback(ShadingModelEnum::Phong);
    let plan = render.prepare(&mut resources, &mut effects);
    assert!(plan.passes.is_empty());
    assert_eq!(plan.writes.params.len(), 16);
    assert_eq!(resources, before);
    assert_eq!(effects, chain(&[PostEffectEnum::Negative]));
    assert_eq!(render.paint(&resources), None);
}

#[test]
fn empty_chain_phong_single_triangle() {
    let render = callback(ShadingModelEnum::Phong);
    assert_eq!(
        reals_of_bytes(render.shading_model.to_params()),
        vec![0.05, 0.4, 0.4, 4.0]
    );
    let mut resources = resources();
    let mut effects: Vec<ActiveEffect> = Vec::new();
    let plan = render.prepare(&mut resources, &mut effects);
    assert_eq!(plan.passes.len(), 1);
    let mesh_pass = &plan.passes[0];
    assert_eq!(mesh_pass.vertex_count, 3);
    assert_eq!(mesh_pass.target, PostProcessTexture::A);
    assert_eq!(mesh_pass.clear, ClearColor::White);
    assert_eq!(mesh_pass.depth_clear.map(f32::from_bits), Some(1.0));
    assert_eq!(mesh_pass.input, None);
    assert_eq!(mesh_pass.effect, None);
    assert_eq!(mesh_pass.build, None);
    assert_eq!(final_target(&resources), mesh_pass.target);
    assert_eq!(
        render.paint(&resources),
        Some(PaintPlan { source: mesh_pass.target, vertex_count: 6 })
    );
}

#[test]
fn negative_chain_reads_the_mesh_pass_and_is_what_is_shown() {
    let render = callback(ShadingModelEnum::Phong);
    let mut resources = resources();
    let mut effects = chain(&[PostEffectEnum::Negative]);
    let plan = render.prepare(&mut resources, &mut effects);
    assert_eq!(plan.passes.len(), 2);
    assert_eq!(plan.passes[0].target, PostProcessTexture::A);
    let negative = &plan.passes[1];
    assert_eq!(negative.effect, Some(PostEffectEnum::Negative));
    assert_eq!(negative.input, Some(PostProcessTexture::A));
    assert_eq!(negative.target, PostProcessTexture::B);
    assert_eq!(negative.clear, ClearColor::Transparent);
    assert_eq!(negative.depth_clear, None);
    assert_eq!(negative.vertex_count, 6);
    let pipeline = negative.build.as_ref().expect("built on first use");
    assert_eq!(pipeline.source, ActiveEffect::new(PostEffectEnum::Negative).get_source());
    assert_eq!(pipeline.target_format, TextureFormat::Bgra8Unorm);
    assert_eq!(
        render.paint(&resources),
        Some(PaintPlan { source: PostProcessTexture::B, vertex_count: 6 })
    );
}

#[test]
fn a_chain_of_n_effects_takes_n_plus_one_passes_and_n_exchanges() {
    let kinds =
        [PostEffectEnum::Negative, PostEffectEnum::ChromaticAberration, PostEffectEnum::Blur];
    for n in 0..7usize {
        let order: Vec<PostEffectEnum> = (0..n).map(|k| kinds[k % 3]).collect();
        let mut effects = chain(&order);
        let mut resources = resources();
        let plan = callback(ShadingModelEnum::Flat).prepare(&mut resources, &mut effects);
        assert_eq!(plan.passes.len(), n + 1);
        let mut exchanges: usize = 0;
        for k in 1..plan.passes.len() {
            assert_eq!(plan.passes[k].effect, Some(order[k - 1]));
            assert_eq!(plan.passes[k].input, Some(plan.passes[k - 1].target));
            assert_ne!(plan.passes[k].input, Some(plan.passes[k].target));
            if plan.passes[k].target != plan.passes[k - 1].target {
                exchanges += 1;
            }
        }
        assert_eq!(exchanges, n);
        let last = plan.passes[n].target;
        assert_eq!(final_target(&resources), last);
        assert_eq!(last != plan.passes[0].target, n % 2 == 1);
    }
}

#[test]
fn the_next_frame_starts_where_the_last_one_ended() {
    let render = callback(ShadingModelEnum::Phong);
    let mut resources = resources();
    let mut effects = chain(&[PostEffectEnum::Blur]);
    let first = render.prepare(&mut resources, &mut effects);
    assert_eq!(first.passes[0].target, PostProcessTexture::A);
    assert_eq!(final_target(&resources), PostProcessTexture::B);
    let second = render.prepare(&mut resources, &mut effects);
    assert_eq!(second.passes[0].target, PostProcessTexture::B);
    assert_eq!(second.passes[1].input, Some(PostProcessTexture::B));
    assert_eq!(second.passes[1].target, PostProcessTexture::A);
    assert_eq!(final_target(&resources), PostProcessTexture::A);
}

#[test]
fn effect_pipelines_are_built_in_the_first_frame_only() {
    let render = callback(ShadingModelEnum::Phong);
    let mut resources = resources();
    let mut effects = chain(&[PostEffectEnum::Negative, PostEffectEnum::Negative]);
    let first = render.prepare(&mut resources, &mut effects);
    assert!(first.passes[1].build.is_some());
    assert!(first.passes[2].build.is_some());
    let second = render.prepare(&mut resources, &mut effects);
    assert!(second.passes[1].build.is_none());
    assert!(second.passes[2].build.is_none());
    effects.push(ActiveEffect::new(PostEffectEnum::Blur));
    let third = render.prepare(&mut resources, &mut effects);
    assert!(third.passes[1].build.is_none());
    assert!(third.passes[2].build.is_none());
    assert!(third.passes[3].build.is_some());
}

#[test]
fn effect_pipelines_are_built_again_when_the_target_format_changes() {
    let render = callback(ShadingModelEnum::Phong);
    let mut resources = resources();
    let mut effects = chain(&[PostEffectEnum::Negative]);
    render.prepare(&mut resources, &mut effects);
    let (post, _) = post_effect_init((640, 480), TextureFormat::Rgba8UnormSrgb);
    resources.set_post_process_resources(post);
    let plan = render.prepare(&mut resources, &mut effects);
    let rebuilt = plan.passes[1].build.as_ref().expect("the format changed");
    assert_eq!(rebuilt.target_format, TextureFormat::Rgba8UnormSrgb);
}

#[test]
fn a_new_vertex_buffer_changes_the_draw() {
    let mut resources = resources();
    resources.set_vertex_buffer(36);
    assert_eq!(resources.vertex_count(), 36);
    assert_eq!(resources.shading_model(), ShadingModelEnum::Phong);
    let plan = callback(ShadingModelEnum::Phong).prepare(&mut resources, &mut Vec::new());
    assert_eq!(plan.passes[0].vertex_count, 36);
}
