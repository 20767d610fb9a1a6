use shading_pipeline::config::flat::Flat;
use shading_pipeline::config::negative::Negative;
use shading_pipeline::config::phong::Phong;
use shading_pipeline::config::{
    sliders, ActiveEffect, ActiveModel, PostEffect, PostEffectEnum, ShaderConfig, ShadingModel,
    ShadingModelEnum, WidgetInput,
};
use shading_pipeline::renderer::plan::{
    BindingPlan, ShaderStages, TextureFormat, UniformPlan, UniformRole, VertexFormat,
};

fn reals(words: &[u32]) -> Vec<f32> {
    words.iter().map(|w| f32::from_bits(*w)).collect()
}

fn native_bytes(values: &[f32]) -> Vec<u8> {
    let mut bytes: Vec<u8> = Vec::new();
    for v in values {
        bytes.extend_from_slice(&v.to_ne_bytes());
    }
    bytes
}

#[test]
fn phong_starts_with_its_default_coefficients() {
    let phong = Phong::new();
    assert_eq!(reals(&phong.coefficients()), vec![0.05, 0.4, 0.4, 4.0]);
    assert_eq!(phong.as_enum(), ShadingModelEnum::Phong);
}

#[test]
fn flat_starts_with_its_default_coefficients() {
    let flat = Flat::new();
    assert_eq!(reals(&flat.coefficients()), vec![0.05, 0.4, 0.4, 4.0]);
    assert_eq!(flat.as_enum(), ShadingModelEnum::Flat);
}

#[test]
fn parameter_block_is_the_memory_image_of_the_coefficients() {
    let phong = Phong::new();
    assert_eq!(phong.to_params().to_vec(), native_bytes(&[0.05, 0.4, 0.4, 4.0]));
    let flat = Flat::new();
    assert_eq!(flat.to_params().to_vec(), native_bytes(&[0.05, 0.4, 0.4, 4.0]));
}

#[test]
fn parameter_block_fills_the_buffer_it_is_written_to() {
    for model in [ShadingModelEnum::Phong, ShadingModelEnum::Flat] {
        let active = ActiveModel::new(model);
        let plan = active.create_uniform();
        assert_eq!(active.to_params().len() as u64, plan.size);
        assert_eq!(plan.size, 16);
    }
}

#[test]
fn parameter_uniform_is_seen_by_the_fragment_stage_only() {
    let plan = Phong::new().create_uniform();
    assert_eq!(
        plan,
        UniformPlan {
            role: UniformRole::Params,
            visibility: ShaderStages { vertex: false, fragment: true },
            min_binding_size: Some(16),
            size: 16,
        }
    );
    assert_eq!(Flat::new().create_uniform(), plan);
}

#[test]
fn widget_sets_the_coefficients_and_reports_a_release() {
    let mut phong = Phong::new();
    let values = [0.5f32.to_bits(), 0.25f32.to_bits(), 1.0f32.to_bits(), 32.0f32.to_bits()];
    let dragged = phong.build_widget(WidgetInput { values, released: [false; 4] });
    assert!(!dragged);
    assert_eq!(reals(&phong.coefficients()), vec![0.5, 0.25, 1.0, 32.0]);
    assert_eq!(phong.to_params().to_vec(), native_bytes(&[0.5, 0.25, 1.0, 32.0]));
    for k in 0..4usize {
        let mut released = [false; 4];
        released[k] = true;
        assert!(phong.build_widget(WidgetInput { values, released }));
    }
}

#[test]
fn sliders_cover_unit_strengths_and_shininess_up_to_a_hundred() {
    let s = sliders();
    let labels: Vec<&str> = s.iter().map(|p| p.label).collect();
    assert_eq!(
        labels,
        vec!["ambient strength", "diffuse strength", "specular strength", "shininess"]
    );
    let bounds: Vec<(f32, f32)> =
        s.iter().map(|p| (f32::from_bits(p.min), f32::from_bits(p.max))).collect();
    assert_eq!(bounds, vec![(0.0, 1.0), (0.0, 1.0), (0.0, 1.0), (0.0, 100.0)]);
}

#[test]
fn source_depends_on_the_variant_alone() {
    let mut phong = Phong::new();
    let before = phong.get_source();
    phong.build_widget(WidgetInput { values: [0; 4], released: [true; 4] });
    assert_eq!(phong.get_source(), before);
    assert_eq!(ActiveModel::new(ShadingModelEnum::Phong).get_source(), before);
    assert_ne!(ActiveModel::new(ShadingModelEnum::Flat).get_source(), before);
    assert_eq!(Flat::new().get_source(), ActiveModel::new(ShadingModelEnum::Flat).get_source());
}

#[test]
fn effect_names() {
    assert_eq!(PostEffectEnum::Negative.to_string(), "Negative");
    assert_eq!(PostEffectEnum::ChromaticAberration.to_string(), "ChromaticAberration");
    assert_eq!(PostEffectEnum::Blur.to_string(), "Blur");
}

#[test]
fn effect_sources_differ_by_variant() {
    let negative = ActiveEffect::new(PostEffectEnum::Negative).get_source();
    let chromatic = ActiveEffect::new(PostEffectEnum::ChromaticAberration).get_source();
    let blur = ActiveEffect::new(PostEffectEnum::Blur).get_source();
    assert_ne!(negative, chromatic);
    assert_ne!(negative, blur);
    assert_ne!(chromatic, blur);
    assert_eq!(Negative::new().get_source(), negative);
}

#[test]
fn effect_pipeline_is_built_on_first_use_and_kept() {
    let mut effect = Negative::new();
    let first = effect.get_pipeline(TextureFormat::Bgra8Unorm).expect("first use builds");
    assert_eq!(first.source, effect.get_source());
    assert_eq!(first.target_format, TextureFormat::Bgra8Unorm);
    assert_eq!(
        first.bindings,
        vec![
            BindingPlan::Texture { visibility: ShaderStages { vertex: false, fragment: true } },
            BindingPlan::Sampler { visibility: ShaderStages { vertex: false, fragment: true } },
        ]
    );
    assert_eq!(first.vertex_layout.array_stride, 16);
    let formats: Vec<VertexFormat> =
        first.vertex_layout.attributes.iter().map(|a| a.format).collect();
    assert_eq!(formats, vec![VertexFormat::Float32x2, VertexFormat::Float32x2]);
    assert!(effect.get_pipeline(TextureFormat::Bgra8Unorm).is_none());
    assert!(effect.get_pipeline(TextureFormat::Bgra8Unorm).is_none());
}

#[test]
fn effect_pipeline_is_built_again_for_another_target_format() {
    let mut effect = ActiveEffect::new(PostEffectEnum::Blur);
    assert!(effect.get_pipeline(TextureFormat::Bgra8Unorm).is_some());
    let again = effect.get_pipeline(TextureFormat::Rgba8UnormSrgb).expect("format changed");
    assert_eq!(again.target_format, TextureFormat::Rgba8UnormSrgb);
    assert!(effect.get_pipeline(TextureFormat::Rgba8UnormSrgb).is_none());
    assert!(effect.get_pipeline(TextureFormat::Bgra8Unorm).is_some());
    assert_eq!(effect.as_enum(), PostEffectEnum::Blur);
}

#[test]
fn configuration_starts_with_phong_and_no_effects() {
    let config = ShaderConfig::new();
    assert_eq!(config.active_model.as_enum(), ShadingModelEnum::Phong);
    assert!(config.active_post_effects.is_empty());
    assert_eq!(config.selected_effect, None);
}

#[test]
fn selecting_the_active_variant_changes_nothing() {
    let mut config = ShaderConfig::new();
    let values = [1.0f32.to_bits(); 4];
    config.active_model.build_widget(WidgetInput { values, released: [false; 4] });
    assert!(!config.select_model(ShadingModelEnum::Phong));
    assert_eq!(config.active_model.to_params().to_vec(), native_bytes(&[1.0; 4]));
}

#[test]
fn selecting_another_variant_replaces_the_model_by_its_defaults() {
    let mut config = ShaderConfig::new();
    let values = [1.0f32.to_bits(); 4];
    config.active_model.build_widget(WidgetInput { values, released: [false; 4] });
    assert!(config.select_model(ShadingModelEnum::Flat));
    assert_eq!(config.active_model, ActiveModel::Flat(Flat::new()));
    assert!(!config.select_model(ShadingModelEnum::Flat));
    assert!(config.select_model(ShadingModelEnum::Phong));
    assert_eq!(config.active_model, ActiveModel::Phong(Phong::new()));
}

#[test]
fn effects_are_appended_in_order_and_removed_by_position() {
    let mut config = ShaderConfig::new();
    assert!(!config.add_selected_effect());
    config.selected_effect = Some(PostEffectEnum::Negative);
    assert!(config.add_selected_effect());
    config.selected_effect = Some(PostEffectEnum::Blur);
    assert!(config.add_selected_effect());
    config.selected_effect = Some(PostEffectEnum::ChromaticAberration);
    assert!(config.add_selected_effect());
    let chain: Vec<PostEffectEnum> =
        config.active_post_effects.iter().map(|e| e.as_enum()).collect();
    assert_eq!(
        chain,
        vec![PostEffectEnum::Negative, PostEffectEnum::Blur, PostEffectEnum::ChromaticAberration]
    );
    assert_eq!(config.remove_effect(1), Some(PostEffectEnum::Blur));
    assert_eq!(config.remove_effect(2), None);
    let chain: Vec<PostEffectEnum> =
        config.active_post_effects.iter().map(|e| e.as_enum()).collect();
    assert_eq!(chain, vec![PostEffectEnum::Negative, PostEffectEnum::ChromaticAberration]);
    assert_eq!(config.selected_effect, Some(PostEffectEnum::ChromaticAberration));
}
