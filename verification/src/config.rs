//! What the user configures: the active shading model and the chain of
//! post-processing effects.

pub mod blur;
pub mod chromatic;
pub mod flat;
pub mod negative;
pub mod phong;

use vstd::prelude::*;
use crate::config::blur::{Blur, BLUR_WGSL};
use crate::config::chromatic::{ChromaticAberration, CHROMATIC_WGSL};
use crate::config::flat::{Flat, FLAT_WGSL};
use crate::config::negative::{Negative, NEGATIVE_WGSL};
use crate::config::phong::{Phong, PHONG_WGSL};
use crate::pod::{is_image, FOUR, HUNDRED, ONE, TWENTIETH, TWO_FIFTHS, ZERO};
use crate::renderer::plan::{PostPipelinePlan, ShaderStages, TextureFormat, UniformPlan, UniformRole};
use crate::renderer::post::{create_post_pipeline, is_pass_pipeline};

verus! {

/// The shading models.
#[derive(Clone, Copy, PartialEq, Eq, Structural, Debug)]
pub enum ShadingModelEnum {
    Phong,
    Flat,
}

/// The post-processing effects.
#[derive(Clone, Copy, PartialEq, Eq, Structural, Debug)]
pub enum PostEffectEnum {
    Negative,
    ChromaticAberration,
    Blur,
}

impl PostEffectEnum {
    /// The name of the effect as the user reads it.
    pub open spec fn name(self) -> Seq<char> {
        match self {
            PostEffectEnum::Negative => "Negative"@,
            PostEffectEnum::ChromaticAberration => "ChromaticAberration"@,
            PostEffectEnum::Blur => "Blur"@,
        }
    }

    /// The name of the effect.
    pub fn to_string(&self) -> (s: String)
        ensures
            s@ == self.name(),
    {
        match self {
            PostEffectEnum::Negative => "Negative".to_owned(),
            PostEffectEnum::ChromaticAberration => "ChromaticAberration".to_owned(),
            PostEffectEnum::Blur => "Blur".to_owned(),
        }
    }
}

/// The shader source of a shading model: it depends on the variant alone.
pub open spec fn shading_source(model: ShadingModelEnum) -> Seq<char> {
    match model {
        ShadingModelEnum::Phong => PHONG_WGSL@,
        ShadingModelEnum::Flat => FLAT_WGSL@,
    }
}

/// The shader source of an effect: it depends on the variant alone.
pub open spec fn effect_source(effect: PostEffectEnum) -> Seq<char> {
    match effect {
        PostEffectEnum::Negative => NEGATIVE_WGSL@,
        PostEffectEnum::ChromaticAberration => CHROMATIC_WGSL@,
        PostEffectEnum::Blur => BLUR_WGSL@,
    }
}

/// The buffer and bind group of a parameter block of `words` words: seen by
/// the fragment stage only, and bound whole.
pub open spec fn params_uniform(words: nat) -> UniformPlan {
    UniformPlan {
        role: UniformRole::Params,
        visibility: ShaderStages { vertex: false, fragment: true },
        min_binding_size: Some((4 * words) as u64),
        size: (4 * words) as u64,
    }
}

/// One slider of a shading model's widget. The bounds are binary32
/// encodings.
#[derive(Clone, Copy, PartialEq, Eq, Debug)]
pub struct SliderPlan {
    pub label: &'static str,
    pub min: u32,
    pub max: u32,
}

/// What the sliders of a widget reported this frame: the value each one now
/// shows, and whether the user let go of it.
#[derive(Clone, Copy, PartialEq, Eq, Debug)]
pub struct WidgetInput {
    pub values: [u32; 4],
    pub released: [bool; 4],
}

impl WidgetInput {
    /// The user let go of some slider.
    pub open spec fn any_released(self) -> bool {
        self.released@[0] || self.released@[1] || self.released@[2] || self.released@[3]
    }
}

/// The sliders of both shading models: three strengths between 0 and 1 and
/// a shininess between 0 and 100.
pub fn sliders() -> (s: [SliderPlan; 4])
    ensures
        s@[0].label@ == "ambient strength"@,
        s@[1].label@ == "diffuse strength"@,
        s@[2].label@ == "specular strength"@,
        s@[3].label@ == "shininess"@,
        forall|k: int| 0 <= k < 4 ==> (#[trigger] s@[k]).min == ZERO,
        forall|k: int| 0 <= k < 3 ==> (#[trigger] s@[k]).max == ONE,
        s@[3].max == HUNDRED,
{
    [
        SliderPlan { label: "ambient strength", min: ZERO, max: ONE },
        SliderPlan { label: "diffuse strength", min: ZERO, max: ONE },
        SliderPlan { label: "specular strength", min: ZERO, max: ONE },
        SliderPlan { label: "shininess", min: ZERO, max: HUNDRED },
    ]
}

/// A shading model: a shader source and the parameter block that the
/// source's uniform struct at group 2 is read from.
pub trait ShadingModel {
    /// The variant.
    spec fn tag(&self) -> ShadingModelEnum;

    /// The parameter block, as the words of binary32 encodings that the
    /// shader reads.
    spec fn params(&self) -> Seq<u32>;

    /// Takes what the sliders reported this frame. The block then holds the
    /// values they show; the pipeline must be built again when the user let
    /// go of one.
    fn build_widget(&mut self, input: WidgetInput) -> (changed: bool)
        ensures
            final(self).tag() == old(self).tag(),
            final(self).params() == input.values@,
            changed == input.any_released(),
    ;

    /// The shader source: the same for the same variant, always.
    fn get_source(&self) -> (s: String)
        ensures
            s@ == shading_source(self.tag()),
    ;

    /// The variant.
    fn as_enum(&self) -> (e: ShadingModelEnum)
        ensures
            e == self.tag(),
    ;

    /// Describes the buffer and bind group of the parameter block.
    fn create_uniform(&self) -> (plan: UniformPlan)
        ensures
            plan == params_uniform(self.params().len()),
            plan.size == 4 * self.params().len(),
    ;

    /// The parameter block as the bytes its buffer holds: they fill the
    /// buffer that `create_uniform` describes.
    fn to_params(&self) -> (bytes: &[u8])
        ensures
            is_image(bytes@, self.params()),
            bytes@.len() == params_uniform(self.params().len()).size,
    ;
}

/// A post-processing effect: a shader source and the record of the target
/// format its pipeline was last built for.
pub trait PostEffect {
    /// The variant.
    spec fn tag(&self) -> PostEffectEnum;

    /// The target format the pipeline was built for, if it was built.
    spec fn built_for(&self) -> Option<TextureFormat>;

    /// The shader source: the same for the same variant, always.
    fn get_source(&self) -> (s: String)
        ensures
            s@ == effect_source(self.tag()),
    ;

    /// Asks for the pipeline that draws into targets of `target_format`.
    /// Where one was built for that format it is still good, and nothing is
    /// returned; otherwise the description of the one to build is returned.
    /// Either way the effect then counts as built for `target_format`.
    fn get_pipeline(&mut self, target_format: TextureFormat) -> (build: Option<PostPipelinePlan>)
        ensures
            final(self).tag() == old(self).tag(),
            final(self).built_for() == Some(target_format),
            build is Some <==> old(self).built_for() != Some(target_format),
            build matches Some(plan) ==> is_pass_pipeline(
                plan,
                effect_source(old(self).tag()),
                target_format,
            ) && plan.vertex_layout.packed(),
    ;

    /// The variant.
    fn as_enum(&self) -> (e: PostEffectEnum)
        ensures
            e == self.tag(),
    ;
}

/// The pipeline bookkeeping every effect shares.
pub(crate) fn cached_pipeline(
    built_for: &mut Option<TextureFormat>,
    target_format: TextureFormat,
    source: String,
) -> (build: Option<PostPipelinePlan>)
    ensures
        *final(built_for) == Some(target_format),
        build is Some <==> *old(built_for) != Some(target_format),
        build matches Some(plan) ==> is_pass_pipeline(plan, source@, target_format)
            && plan.vertex_layout.packed(),
{
    let fresh = match *built_for {
        Some(format) => format == target_format,
        None => false,
    };
    if fresh {
        None
    } else {
        *built_for = Some(target_format);
        Some(create_post_pipeline(target_format, source))
    }
}

/// The coefficients a shading model starts with: 0.05, 0.4, 0.4 and 4.
pub open spec fn default_params() -> Seq<u32> {
    seq![TWENTIETH, TWO_FIFTHS, TWO_FIFTHS, FOUR]
}

/// The active shading model: one of the variants, with its coefficients.
#[derive(Clone, Copy, PartialEq, Eq, Debug)]
pub enum ActiveModel {
    Phong(Phong),
    Flat(Flat),
}

impl ActiveModel {
    /// The variant `model` with its default coefficients.
    pub fn new(model: ShadingModelEnum) -> (m: ActiveModel)
        ensures
            m.tag() == model,
            m.params() == default_params(),
    {
        match model {
            ShadingModelEnum::Phong => ActiveModel::Phong(Phong::new()),
            ShadingModelEnum::Flat => ActiveModel::Flat(Flat::new()),
        }
    }
}

/// The size law of the parameter block: for every variant and whatever its
/// coefficients, the block is four words, and the buffer that
/// `create_uniform` describes and `to_params` fills is sixteen bytes.
pub proof fn lemma_params_are_sixteen_bytes(model: ActiveModel)
    ensures
        model.params().len() == 4,
        params_uniform(model.params().len()).size == 16,
{
    match model {
        ActiveModel::Phong(m) => m.lemma_four_words(),
        ActiveModel::Flat(m) => m.lemma_four_words(),
    }
}

impl ShadingModel for ActiveModel {
    open spec fn tag(&self) -> ShadingModelEnum {
        match self {
            ActiveModel::Phong(_) => ShadingModelEnum::Phong,
            ActiveModel::Flat(_) => ShadingModelEnum::Flat,
        }
    }

    open spec fn params(&self) -> Seq<u32> {
        match self {
            ActiveModel::Phong(m) => m.params(),
            ActiveModel::Flat(m) => m.params(),
        }
    }

    fn build_widget(&mut self, input: WidgetInput) -> (changed: bool) {
        match self {
            ActiveModel::Phong(m) => m.build_widget(input),
            ActiveModel::Flat(m) => m.build_widget(input),
        }
    }

    fn get_source(&self) -> (s: String) {
        match self {
            ActiveModel::Phong(m) => m.get_source(),
            ActiveModel::Flat(m) => m.get_source(),
        }
    }

    fn as_enum(&self) -> (e: ShadingModelEnum) {
        match self {
            ActiveModel::Phong(m) => m.as_enum(),
            ActiveModel::Flat(m) => m.as_enum(),
        }
    }

    fn create_uniform(&self) -> (plan: UniformPlan) {
        match self {
            ActiveModel::Phong(m) => m.create_uniform(),
            ActiveModel::Flat(m) => m.create_uniform(),
        }
    }

    fn to_params(&self) -> (bytes: &[u8]) {
        match self {
            ActiveModel::Phong(m) => m.to_params(),
            ActiveModel::Flat(m) => m.to_params(),
        }
    }
}

/// One effect of the chain: one of the variants, with its pipeline record.
#[derive(Clone, Copy, PartialEq, Eq, Debug)]
pub enum ActiveEffect {
    Negative(Negative),
    ChromaticAberration(ChromaticAberration),
    Blur(Blur),
}

impl ActiveEffect {
    /// The variant `effect` with no pipeline built yet.
    pub fn new(effect: PostEffectEnum) -> (e: ActiveEffect)
        ensures
            e.tag() == effect,
            e.built_for() is None,
    {
        match effect {
            PostEffectEnum::Negative => ActiveEffect::Negative(Negative::new()),
            PostEffectEnum::ChromaticAberration => ActiveEffect::ChromaticAberration(
                ChromaticAberration::new(),
            ),
            PostEffectEnum::Blur => ActiveEffect::Blur(Blur::new()),
        }
    }
}

impl PostEffect for ActiveEffect {
    open spec fn tag(&self) -> PostEffectEnum {
        match self {
            ActiveEffect::Negative(_) => PostEffectEnum::Negative,
            ActiveEffect::ChromaticAberration(_) => PostEffectEnum::ChromaticAberration,
            ActiveEffect::Blur(_) => PostEffectEnum::Blur,
        }
    }

    open spec fn built_for(&self) -> Option<TextureFormat> {
        match self {
            ActiveEffect::Negative(e) => e.built_for(),
            ActiveEffect::ChromaticAberration(e) => e.built_for(),
            ActiveEffect::Blur(e) => e.built_for(),
        }
    }

    fn get_source(&self) -> (s: String) {
        match self {
            ActiveEffect::Negative(e) => e.get_source(),
            ActiveEffect::ChromaticAberration(e) => e.get_source(),
            ActiveEffect::Blur(e) => e.get_source(),
        }
    }

    fn get_pipeline(&mut self, target_format: TextureFormat) -> (build: Option<PostPipelinePlan>) {
        match self {
            ActiveEffect::Negative(e) => e.get_pipeline(target_format),
            ActiveEffect::ChromaticAberration(e) => e.get_pipeline(target_format),
            ActiveEffect::Blur(e) => e.get_pipeline(target_format),
        }
    }

    fn as_enum(&self) -> (e: PostEffectEnum) {
        match self {
            ActiveEffect::Negative(e) => e.as_enum(),
            ActiveEffect::ChromaticAberration(e) => e.as_enum(),
            ActiveEffect::Blur(e) => e.as_enum(),
        }
    }
}

/// The variants of a chain, in order.
pub open spec fn chain_tags(effects: Seq<ActiveEffect>) -> Seq<PostEffectEnum> {
    Seq::new(effects.len(), |i: int| effects[i].tag())
}

/// The user's configuration: the active shading model, the chain of effects
/// in the order they are applied, and the effect picked to be added next.
#[derive(PartialEq, Eq, Debug)]
pub struct ShaderConfig {
    pub active_model: ActiveModel,
    pub active_post_effects: Vec<ActiveEffect>,
    pub selected_effect: Option<PostEffectEnum>,
}

impl ShaderConfig {
    /// Phong shading with its default coefficients and an empty chain.
    pub fn new() -> (c: ShaderConfig)
        ensures
            c.active_model.tag() == ShadingModelEnum::Phong,
            c.active_model.params() == default_params(),
            c.active_post_effects@.len() == 0,
            c.selected_effect is None,
    {
        ShaderConfig {
            active_model: ActiveModel::new(ShadingModelEnum::Phong),
            active_post_effects: Vec::new(),
            selected_effect: None,
        }
    }

    /// Makes `choice` the active variant. Choosing the variant that is
    /// active changes nothing; choosing another replaces the model by the
    /// chosen variant with its default coefficients, and the pipeline must
    /// then be built again.
    pub fn select_model(&mut self, choice: ShadingModelEnum) -> (rebuild: bool)
        ensures
            rebuild == (choice != old(self).active_model.tag()),
            !rebuild ==> *final(self) == *old(self),
            rebuild ==> final(self).active_model.tag() == choice
                && final(self).active_model.params() == default_params(),
            final(self).active_post_effects == old(self).active_post_effects,
            final(self).selected_effect == old(self).selected_effect,
    {
        if self.active_model.as_enum() == choice {
            false
        } else {
            self.active_model = ActiveModel::new(choice);
            true
        }
    }

    /// Appends the picked effect, if one is picked, to the end of the chain,
    /// with no pipeline built yet.
    pub fn add_selected_effect(&mut self) -> (added: bool)
        ensures
            added == old(self).selected_effect is Some,
            final(self).active_model == old(self).active_model,
            final(self).selected_effect == old(self).selected_effect,
            !added ==> final(self).active_post_effects@ == old(self).active_post_effects@,
            added ==> {
                let chain = final(self).active_post_effects@;
                &&& chain.len() == old(self).active_post_effects@.len() + 1
                &&& chain.drop_last() == old(self).active_post_effects@
                &&& chain.last().tag() == old(self).selected_effect->Some_0
                &&& chain.last().built_for() is None
            },
    {
        match self.selected_effect {
            Some(effect) => {
                self.active_post_effects.push(ActiveEffect::new(effect));
                assert(self.active_post_effects@.drop_last() =~= old(self).active_post_effects@);
                true
            },
            None => false,
        }
    }

    /// Takes the effect at `index` out of the chain; the others keep their
    /// order. An index past the end changes nothing.
    pub fn remove_effect(&mut self, index: usize) -> (removed: Option<PostEffectEnum>)
        ensures
            final(self).active_model == old(self).active_model,
            final(self).selected_effect == old(self).selected_effect,
            index < old(self).active_post_effects@.len() ==> {
                let chain = old(self).active_post_effects@;
                &&& removed == Some(chain[index as int].tag())
                &&& final(self).active_post_effects@ == chain.remove(index as int)
            },
            index >= old(self).active_post_effects@.len() ==> {
                &&& removed is None
                &&& final(self).active_post_effects@ == old(self).active_post_effects@
            },
    {
        if index < self.active_post_effects.len() {
            let effect = self.active_post_effects.remove(index);
            Some(effect.as_enum())
        } else {
            None
        }
    }
}

} // verus!
