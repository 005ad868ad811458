//! The glow effect: bright parts of the scene bleed into their surroundings.
//!
//! While the scene is drawn, glowing surfaces are also written to an extra
//! render target, the texture `glow`. Afterwards a separable blur runs over
//! that texture: each iteration blurs `glow` vertically into a second
//! texture, `glow_back`, and then `glow_back` horizontally into `glow`. The
//! final composition samples `glow` and blends it over the image.
//!
//! Each operation of [`Glow`] is a script of [`crate::gpu`] commands, handed
//! out one [`Step`] at a time.

use crate::glium_types::default_sampler_behavior;
pub use crate::gpu::CreationError;
use crate::gpu::{
    failed_step, next_allocation, next_draw, Allocation, Color, DrawCommand, DrawError, Progress,
    Step, Texture,
};
use crate::shader::input::{
    declarations_of, declared_by, entries_of, lemma_static_uniform_types, AsUniformValue,
    Declarations, Entries, Float, HasUniforms, Sampled, StaticUniformType, TextureId, ToUniforms,
    UniformInput, UniformValue, Uniforms,
};
use glium::texture::{MipmapsOption, UncompressedFloatFormat};
use glium::uniforms::{
    MagnifySamplerFilter, MinifySamplerFilter, Sampler, SamplerBehavior, SamplerWrapFunction,
    UniformType,
};
use vstd::prelude::*;

verus! {

/// The name of the texture that the scene pass writes the glow to and that
/// holds the blurred result.
pub const GLOW_TEXTURE: u32 = 0;

/// The name of the texture that holds the half-blurred image within an
/// iteration.
pub const GLOW_TEXTURE_BACK: u32 = 1;

/// How many times the blur runs over the glow texture.
#[derive(Debug, Clone)]
pub struct Config {
    pub num_blur_passes: usize,
}

impl Default for Config {
    fn default() -> (config: Config)
        ensures
            config.num_blur_passes == 2,
    {
        Config { num_blur_passes: 2 }
    }
}

/// The uniforms of one draw of the blur program.
#[derive(Clone, Copy, Debug, PartialEq, Eq)]
pub struct BlurPassParams {
    /// Whether this draw blurs along the horizontal axis.
    pub horizontal: bool,
    /// The texture that is read, and how it is sampled.
    pub glow_texture: Sampled,
}

/// How the blur reads its input: linear filtering in both directions, and
/// samples beyond an edge take the value at the edge. The other settings are
/// those of a sampler that nothing was asked of.
pub open spec fn blur_sampling() -> SamplerBehavior {
    SamplerBehavior {
        wrap_function: (
            SamplerWrapFunction::Clamp,
            SamplerWrapFunction::Clamp,
            SamplerWrapFunction::Clamp,
        ),
        minify_filter: MinifySamplerFilter::Linear,
        magnify_filter: MagnifySamplerFilter::Linear,
        ..default_sampler_behavior()
    }
}

/// Fully transparent black.
pub open spec fn transparent_black() -> Color {
    Color { red: Float(0), green: Float(0), blue: Float(0), alpha: Float(0) }
}

/// The draw that blurs `source` into `target` along one axis.
pub open spec fn blur_draw(source: TextureId, target: TextureId, horizontal: bool) -> DrawCommand {
    DrawCommand::Blur {
        target,
        params: BlurPassParams {
            horizontal,
            glow_texture: Sampled { texture: source, behavior: blur_sampling() },
        },
    }
}

/// The state of the effect: its configuration and its two textures.
pub struct Glow {
    config: Config,
    glow_texture: Texture,
    glow_texture_back: Texture,
}

impl Glow {
    /// The parameters of one of the effect's textures at a given target
    /// size: four 32-bit float channels, no mipmaps.
    pub open spec fn spec_create_texture(id: TextureId, size: (u32, u32)) -> Texture {
        Texture {
            id,
            format: UncompressedFloatFormat::F32F32F32F32,
            mipmaps: MipmapsOption::NoMipmap,
            width: size.0,
            height: size.1,
        }
    }

    /// The number of blur iterations.
    pub closed spec fn spec_num_blur_passes(self) -> usize {
        self.config.num_blur_passes
    }

    /// The texture that holds the glow.
    pub closed spec fn spec_glow_texture(self) -> Texture {
        self.glow_texture
    }

    /// The texture that the blur uses in between.
    pub closed spec fn spec_glow_texture_back(self) -> Texture {
        self.glow_texture_back
    }

    /// The size of the render target that the effect is set up for.
    pub open spec fn spec_target_size(self) -> (u32, u32) {
        self.spec_glow_texture().spec_size()
    }

    /// Both textures have the size of the render target, and each is what
    /// [`Glow::spec_create_texture`] makes of its name and that size.
    #[verifier::type_invariant]
    pub closed spec fn wf(self) -> bool {
        &&& self.glow_texture == Self::spec_create_texture(
            TextureId(GLOW_TEXTURE),
            self.glow_texture.spec_size(),
        )
        &&& self.glow_texture_back == Self::spec_create_texture(
            TextureId(GLOW_TEXTURE_BACK),
            self.glow_texture.spec_size(),
        )
    }

    /// Whether the effect is set up for `target_size` with this number of
    /// passes: both of its textures are the ones that
    /// [`Glow::spec_create_texture`] describes for that size.
    pub open spec fn is_set_up(self, num_blur_passes: usize, target_size: (u32, u32)) -> bool {
        &&& self.wf()
        &&& self.spec_num_blur_passes() == num_blur_passes
        &&& self.spec_glow_texture() == Self::spec_create_texture(
            TextureId(GLOW_TEXTURE),
            target_size,
        )
        &&& self.spec_glow_texture_back() == Self::spec_create_texture(
            TextureId(GLOW_TEXTURE_BACK),
            target_size,
        )
    }

    /// The effect as it stands once it has been created for, or resized to,
    /// `target_size`.
    pub closed spec fn spec_new(num_blur_passes: usize, target_size: (u32, u32)) -> Glow {
        Glow {
            config: Config { num_blur_passes },
            glow_texture: Self::spec_create_texture(TextureId(GLOW_TEXTURE), target_size),
            glow_texture_back: Self::spec_create_texture(
                TextureId(GLOW_TEXTURE_BACK),
                target_size,
            ),
        }
    }

    /// What creating the effect allocates, in order: the two textures, the
    /// blur program, the screen quad.
    pub open spec fn creation_script(target_size: (u32, u32)) -> Seq<Allocation> {
        seq![
            Allocation::Texture(Self::spec_create_texture(TextureId(GLOW_TEXTURE), target_size)),
            Allocation::Texture(
                Self::spec_create_texture(TextureId(GLOW_TEXTURE_BACK), target_size),
            ),
            Allocation::BlurProgram,
            Allocation::ScreenQuad,
        ]
    }

    /// What a resize allocates, in order: both textures anew.
    pub open spec fn resize_script(target_size: (u32, u32)) -> Seq<Allocation> {
        seq![
            Allocation::Texture(Self::spec_create_texture(TextureId(GLOW_TEXTURE), target_size)),
            Allocation::Texture(
                Self::spec_create_texture(TextureId(GLOW_TEXTURE_BACK), target_size),
            ),
        ]
    }

    /// What clearing does: set up the glow texture as a render target and
    /// fill it with transparent black.
    pub open spec fn clear_script(self) -> Seq<DrawCommand> {
        seq![
            DrawCommand::FrameBuffer { target: self.spec_glow_texture().id },
            DrawCommand::Clear { target: self.spec_glow_texture().id, color: transparent_black() },
        ]
    }

    /// How a blur pass begins: with a framebuffer for each of the two
    /// textures.
    pub open spec fn blur_setup(self) -> Seq<DrawCommand> {
        seq![
            DrawCommand::FrameBuffer { target: self.spec_glow_texture().id },
            DrawCommand::FrameBuffer { target: self.spec_glow_texture_back().id },
        ]
    }

    /// The two draws of one iteration: the vertical blur of `glow` into
    /// `glow_back`, then the horizontal blur of `glow_back` into `glow`.
    pub open spec fn blur_iteration(self) -> Seq<DrawCommand> {
        seq![
            blur_draw(self.spec_glow_texture().id, self.spec_glow_texture_back().id, false),
            blur_draw(self.spec_glow_texture_back().id, self.spec_glow_texture().id, true),
        ]
    }

    /// The command at position `i` of the blur script.
    ///
    /// The first two set up the two textures as render targets. After them
    /// come the draws, two per iteration: an even draw blurs `glow`
    /// vertically into `glow_back`, the odd draw after it blurs `glow_back`
    /// horizontally into `glow`.
    pub open spec fn blur_command(self, i: int) -> DrawCommand {
        let glow = self.spec_glow_texture().id;
        let back = self.spec_glow_texture_back().id;
        if i == 0 {
            DrawCommand::FrameBuffer { target: glow }
        } else if i == 1 {
            DrawCommand::FrameBuffer { target: back }
        } else if (i - 2) % 2 == 0 {
            blur_draw(glow, back, false)
        } else {
            blur_draw(back, glow, true)
        }
    }

    /// What a blur pass does: two framebuffers, then two draws for each of
    /// the configured iterations.
    pub open spec fn blur_script(self) -> Seq<DrawCommand> {
        Seq::new(
            (2 + 2 * self.spec_num_blur_passes()) as nat,
            |i: int| self.blur_command(i),
        )
    }

    fn create_texture(id: TextureId, size: (u32, u32)) -> (texture: Texture)
        ensures
            texture == Self::spec_create_texture(id, size),
    {
        Texture {
            id,
            format: UncompressedFloatFormat::F32F32F32F32,
            mipmaps: MipmapsOption::NoMipmap,
            width: size.0,
            height: size.1,
        }
    }

    /// Creates the effect for a render target of `target_size`.
    ///
    /// Follows [`Glow::creation_script`]. When all four allocations have
    /// succeeded the effect is returned, with a copy of `config`.
    pub fn create(config: &Config, target_size: (u32, u32), progress: &Progress) -> (step: Step<
        Allocation,
        Glow,
        CreationError,
    >)
        ensures
            step == next_allocation(
                Self::creation_script(target_size),
                *progress,
                Self::spec_new(config.num_blur_passes, target_size),
            ),
            step matches Step::Finished(Ok(glow)) ==> glow.is_set_up(
                config.num_blur_passes,
                target_size,
            ),
    {
        let glow_texture = Self::create_texture(TextureId(GLOW_TEXTURE), target_size);
        let glow_texture_back = Self::create_texture(TextureId(GLOW_TEXTURE_BACK), target_size);
        let request = if progress.completed == 0 {
            Allocation::Texture(glow_texture)
        } else if progress.completed == 1 {
            Allocation::Texture(glow_texture_back)
        } else if progress.completed == 2 {
            Allocation::BlurProgram
        } else if progress.completed == 3 {
            Allocation::ScreenQuad
        } else {
            return Step::Finished(
                Ok(
                    Glow {
                        config: Config { num_blur_passes: config.num_blur_passes },
                        glow_texture,
                        glow_texture_back,
                    },
                ),
            );
        };
        if progress.failed {
            Step::Finished(Err(CreationError { failed: request }))
        } else {
            Step::Submit(request)
        }
    }

    /// Clears the glow texture to transparent black, as has to happen before
    /// the scene pass of every frame.
    ///
    /// Follows [`Glow::clear_script`].
    pub fn clear_buffers(&self, progress: &Progress) -> (step: Step<DrawCommand, (), DrawError>)
        ensures
            step == next_draw(self.clear_script(), *progress),
    {
        let target = self.glow_texture.id;
        let command = if progress.completed == 0 {
            DrawCommand::FrameBuffer { target }
        } else if progress.completed == 1 {
            DrawCommand::Clear {
                target,
                color: Color { red: Float(0), green: Float(0), blue: Float(0), alpha: Float(0) },
            }
        } else {
            return Step::Finished(Ok(()));
        };
        if progress.failed {
            Step::Finished(Err(DrawError { failed: command }))
        } else {
            Step::Submit(command)
        }
    }

    /// Blurs the glow texture, `num_blur_passes` times over.
    ///
    /// Follows [`Glow::blur_script`]. When it has finished well the blurred
    /// image is in the glow texture.
    pub fn blur_pass(&self, progress: &Progress) -> (step: Step<DrawCommand, (), DrawError>)
        ensures
            step == next_draw(self.blur_script(), *progress),
    {
        let glow_map = Sampler::new(&self.glow_texture).magnify_filter(
            MagnifySamplerFilter::Linear,
        ).minify_filter(MinifySamplerFilter::Linear).wrap_function(SamplerWrapFunction::Clamp);
        let glow_map_back = Sampler::new(&self.glow_texture_back).magnify_filter(
            MagnifySamplerFilter::Linear,
        ).minify_filter(MinifySamplerFilter::Linear).wrap_function(SamplerWrapFunction::Clamp);

        let command = if progress.completed == 0 {
            DrawCommand::FrameBuffer { target: self.glow_texture.id }
        } else if progress.completed == 1 {
            DrawCommand::FrameBuffer { target: self.glow_texture_back.id }
        } else {
            let draw: u128 = progress.completed - 2;
            if draw / 2 >= self.config.num_blur_passes as u128 {
                return Step::Finished(Ok(()));
            }
            if draw % 2 == 0 {
                DrawCommand::Blur {
                    target: self.glow_texture_back.id,
                    params: BlurPassParams {
                        horizontal: false,
                        glow_texture: Sampled { texture: glow_map.0.id, behavior: glow_map.1 },
                    },
                }
            } else {
                DrawCommand::Blur {
                    target: self.glow_texture.id,
                    params: BlurPassParams {
                        horizontal: true,
                        glow_texture: Sampled {
                            texture: glow_map_back.0.id,
                            behavior: glow_map_back.1,
                        },
                    },
                }
            }
        };
        if progress.failed {
            Step::Finished(Err(DrawError { failed: command }))
        } else {
            Step::Submit(command)
        }
    }

    /// Gives both textures the size of a render target that has changed.
    ///
    /// Follows [`Glow::resize_script`]. The effect changes only when both
    /// allocations have succeeded, and then both textures change together;
    /// until then, and after a failure, it is as it was.
    pub fn on_target_resize(&mut self, target_size: (u32, u32), progress: &Progress) -> (step: Step<
        Allocation,
        (),
        CreationError,
    >)
        ensures
            step == next_allocation(Self::resize_script(target_size), *progress, ()),
            step is Finished && step->Finished_0 is Ok ==> *final(self) == Self::spec_new(
                old(self).spec_num_blur_passes(),
                target_size,
            ),
            step is Finished && step->Finished_0 is Ok ==> final(self).is_set_up(
                old(self).spec_num_blur_passes(),
                target_size,
            ),
            !(step is Finished && step->Finished_0 is Ok) ==> *final(self) == *old(self),
    {
        let glow_texture = Self::create_texture(TextureId(GLOW_TEXTURE), target_size);
        let glow_texture_back = Self::create_texture(TextureId(GLOW_TEXTURE_BACK), target_size);
        let request = if progress.completed == 0 {
            Allocation::Texture(glow_texture)
        } else if progress.completed == 1 {
            Allocation::Texture(glow_texture_back)
        } else {
            *self = Glow {
                config: Config { num_blur_passes: self.config.num_blur_passes },
                glow_texture,
                glow_texture_back,
            };
            return Step::Finished(Ok(()));
        };
        if progress.failed {
            Step::Finished(Err(CreationError { failed: request }))
        } else {
            Step::Submit(request)
        }
    }
}

impl Glow {
    /// The number of blur iterations.
    pub fn num_blur_passes(&self) -> (passes: usize)
        ensures
            passes == self.spec_num_blur_passes(),
    {
        self.config.num_blur_passes
    }

    /// The texture that holds the glow.
    pub fn glow_texture(&self) -> (texture: Texture)
        ensures
            texture == self.spec_glow_texture(),
            texture == Self::spec_create_texture(TextureId(GLOW_TEXTURE), self.spec_target_size()),
    {
        proof {
            use_type_invariant(self);
        }
        self.glow_texture
    }

    /// The texture that the blur uses in between.
    pub fn glow_texture_back(&self) -> (texture: Texture)
        ensures
            texture == self.spec_glow_texture_back(),
            texture == Self::spec_create_texture(
                TextureId(GLOW_TEXTURE_BACK),
                self.spec_target_size(),
            ),
    {
        proof {
            use_type_invariant(self);
        }
        self.glow_texture_back
    }

    /// The size of the render target that the effect is set up for.
    pub fn target_size(&self) -> (size: (u32, u32))
        ensures
            size == self.spec_target_size(),
    {
        self.glow_texture.size()
    }

    /// The extra outputs of the scene pass: the glow texture, written
    /// through the fragment output `f_glow_color`.
    pub fn output_textures(&self) -> (outputs: Vec<(&'static str, Texture)>)
        ensures
            outputs@.len() == 1,
            outputs@[0].0@ == "f_glow_color"@,
            outputs@[0].1 == self.spec_glow_texture(),
    {
        vec![("f_glow_color", self.glow_texture)]
    }

    /// The uniforms that the effect adds to every draw of the scene pass:
    /// none.
    pub fn scene_pass_params(&self) {
    }

    /// The uniforms that the effect adds to the composition pass: the glow
    /// texture.
    pub fn composition_pass_params(&self) -> (params: CompositionPassParams<'_>)
        ensures
            params.spec_glow_texture() == self.spec_glow_texture(),
    {
        CompositionPassParams { glow_texture: &self.glow_texture }
    }
}

/// What the effect hands to the composition pass.
pub struct CompositionPassParams<'a> {
    glow_texture: &'a Texture,
}

/// The view of [`CompositionPassParams`].
#[derive(Clone, Copy, Debug)]
pub struct CompositionPassUniforms {
    glow_texture: TextureId,
}

impl<'a> CompositionPassParams<'a> {
    /// The texture that the composition samples.
    pub closed spec fn spec_glow_texture(self) -> Texture {
        *self.glow_texture
    }
}

impl CompositionPassUniforms {
    /// The name of the texture that the composition samples.
    pub closed spec fn spec_glow_texture(self) -> TextureId {
        self.glow_texture
    }
}

impl Uniforms for CompositionPassUniforms {
    open spec fn values(&self) -> Entries {
        seq![("glow_texture"@, self.spec_glow_texture().uniform_value())]
    }

    fn visit_values(&self, output: &mut Vec<(&'static str, UniformValue)>) {
        output.push(("glow_texture", self.glow_texture.as_uniform_value()));
        assert(entries_of(output@) =~= entries_of(old(output)@) + self.values());
    }
}

impl<'u, 'a> HasUniforms<'u> for CompositionPassParams<'a> {
    type Uniforms = CompositionPassUniforms;
}

impl<'a> ToUniforms for CompositionPassParams<'a> {
    open spec fn uniforms(&self) -> Entries {
        seq![("glow_texture"@, self.spec_glow_texture().id.uniform_value())]
    }

    fn to_uniforms<'u>(&'u self) -> (view: <Self as HasUniforms<'u>>::Uniforms) {
        CompositionPassUniforms { glow_texture: self.glow_texture.id }
    }
}

impl<'a> UniformInput for CompositionPassParams<'a> {
    open spec fn input_defs() -> Declarations {
        seq![("glow_texture"@, UniformType::Sampler2d)]
    }

    fn uniform_input_defs() -> (defs: Vec<(String, UniformType)>) {
        let defs = vec![("glow_texture".to_string(), <TextureId as StaticUniformType>::TYPE)];
        proof {
            lemma_static_uniform_types();
            assert(declarations_of(defs@) =~= Self::input_defs());
        }
        defs
    }

    proof fn lemma_defs_describe_uniforms(&self) {
        assert(Self::input_defs() =~= declared_by(self.uniforms()));
    }
}

impl Uniforms for BlurPassParams {
    open spec fn values(&self) -> Entries {
        seq![
            ("horizontal"@, self.horizontal.uniform_value()),
            ("glow_texture"@, self.glow_texture.uniform_value()),
        ]
    }

    fn visit_values(&self, output: &mut Vec<(&'static str, UniformValue)>) {
        output.push(("horizontal", self.horizontal.as_uniform_value()));
        output.push(("glow_texture", self.glow_texture.as_uniform_value()));
        assert(entries_of(output@) =~= entries_of(old(output)@) + self.values());
    }
}

impl<'u> HasUniforms<'u> for BlurPassParams {
    type Uniforms = BlurPassParams;
}

impl ToUniforms for BlurPassParams {
    open spec fn uniforms(&self) -> Entries {
        self.values()
    }

    fn to_uniforms<'u>(&'u self) -> (view: <Self as HasUniforms<'u>>::Uniforms) {
        *self
    }
}

impl UniformInput for BlurPassParams {
    open spec fn input_defs() -> Declarations {
        seq![("horizontal"@, UniformType::Bool), ("glow_texture"@, UniformType::Sampler2d)]
    }

    fn uniform_input_defs() -> (defs: Vec<(String, UniformType)>) {
        let defs = vec![
            ("horizontal".to_string(), <bool as StaticUniformType>::TYPE),
            ("glow_texture".to_string(), <Sampled as StaticUniformType>::TYPE),
        ];
        proof {
            lemma_static_uniform_types();
            assert(declarations_of(defs@) =~= Self::input_defs());
        }
        defs
    }

    proof fn lemma_defs_describe_uniforms(&self) {
        assert(Self::input_defs() =~= declared_by(self.uniforms()));
    }
}

impl Glow {
    /// What holds of every effect: its textures are named `GLOW_TEXTURE` and
    /// `GLOW_TEXTURE_BACK`, and both have the size of the render target.
    pub proof fn lemma_textures_match_target(self)
        requires
            self.wf(),
        ensures
            self.spec_glow_texture() == Self::spec_create_texture(
                TextureId(GLOW_TEXTURE),
                self.spec_target_size(),
            ),
            self.spec_glow_texture_back() == Self::spec_create_texture(
                TextureId(GLOW_TEXTURE_BACK),
                self.spec_target_size(),
            ),
            self.spec_glow_texture_back().spec_size() == self.spec_glow_texture().spec_size(),
    {
    }

    /// The effect that [`Glow::create`] and [`Glow::on_target_resize`] end
    /// with: it keeps the number of passes, and both of its textures have the
    /// size asked for.
    pub proof fn lemma_spec_new(num_blur_passes: usize, target_size: (u32, u32))
        ensures
            Self::spec_new(num_blur_passes, target_size).is_set_up(num_blur_passes, target_size),
            Self::spec_new(num_blur_passes, target_size).spec_target_size() == target_size,
    {
    }

    /// With no passes configured, a blur pass draws nothing: its script sets
    /// up the two framebuffers and ends there, so no texture is written to.
    pub proof fn lemma_no_passes_no_draws(self)
        requires
            self.spec_num_blur_passes() == 0,
        ensures
            self.blur_script() == self.blur_setup(),
            forall|i: int|
                0 <= i < self.blur_script().len() ==> !(#[trigger] self.blur_script()[i] is Blur)
                    && !(self.blur_script()[i] is Clear),
    {
        assert(self.blur_script() =~= self.blur_setup());
    }

    /// With `k` passes configured, a blur pass submits exactly `2k` draws.
    /// They follow the two framebuffer commands and come in pairs, one pair
    /// per iteration: first the vertical blur of `glow` into `glow_back`,
    /// then the horizontal blur of `glow_back` into `glow`.
    pub proof fn lemma_blur_draws_alternate(self)
        ensures
            self.blur_script().len() == 2 + 2 * self.spec_num_blur_passes(),
            self.blur_script().len() <= u128::MAX,
            self.blur_script().subrange(0, 2) == self.blur_setup(),
            forall|i: int|
                0 <= i < self.blur_script().len() ==> (#[trigger] self.blur_script()[i] is Blur
                    <==> i >= 2),
            forall|iteration: int|
                0 <= iteration < self.spec_num_blur_passes() ==> #[trigger] self.blur_script()[2
                    + 2 * iteration] == blur_draw(
                    self.spec_glow_texture().id,
                    self.spec_glow_texture_back().id,
                    false,
                ),
            forall|iteration: int|
                0 <= iteration < self.spec_num_blur_passes() ==> #[trigger] self.blur_script()[2
                    + 2 * iteration + 1] == blur_draw(
                    self.spec_glow_texture_back().id,
                    self.spec_glow_texture().id,
                    true,
                ),
    {
        assert(self.blur_script().subrange(0, 2) =~= self.blur_setup());
    }

    /// One more configured pass adds one iteration at the end of the script
    /// and changes nothing before it.
    pub proof fn lemma_blur_script_grows(self, longer: Glow)
        requires
            longer.spec_num_blur_passes() == self.spec_num_blur_passes() + 1,
            longer.spec_glow_texture() == self.spec_glow_texture(),
            longer.spec_glow_texture_back() == self.spec_glow_texture_back(),
        ensures
            longer.blur_script() == self.blur_script() + self.blur_iteration(),
    {
        assert(longer.blur_script() =~= self.blur_script() + self.blur_iteration());
    }

    /// A resize that has finished well, followed by a clear and a blur pass,
    /// leaves both textures at the new size, and neither the clear nor the
    /// blur pass ends in an error unless the driver reports a command of
    /// theirs as failed.
    pub proof fn lemma_frame_after_resize(
        self,
        new_size: (u32, u32),
        clear_progress: Progress,
        blur_progress: Progress,
    )
        requires
            self.wf(),
            !clear_progress.failed,
            !blur_progress.failed,
        ensures
            Self::spec_new(self.spec_num_blur_passes(), new_size).wf(),
            Self::spec_new(self.spec_num_blur_passes(), new_size).spec_glow_texture().spec_size()
                == new_size,
            Self::spec_new(
                self.spec_num_blur_passes(),
                new_size,
            ).spec_glow_texture_back().spec_size() == new_size,
            !failed_step(
                next_draw(
                    Self::spec_new(self.spec_num_blur_passes(), new_size).clear_script(),
                    clear_progress,
                ),
            ),
            !failed_step(
                next_draw(
                    Self::spec_new(self.spec_num_blur_passes(), new_size).blur_script(),
                    blur_progress,
                ),
            ),
    {
    }
}

} // verus!
