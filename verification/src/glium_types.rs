//! What the verifier is told about the plain data types of `glium` that this
//! crate shares with its driver.
//!
//! The enums and the sampler record are declared with their variants and
//! fields open, so that verified code builds and compares them like any
//! other value. The four builder methods of `Sampler` are given the
//! contracts that their bodies in `glium` show; nothing here is proved.

use glium::texture::{MipmapsOption, UncompressedFloatFormat};
use glium::uniforms::{
    DepthTextureComparison, EmptyUniforms, MagnifySamplerFilter, MinifySamplerFilter, Sampler,
    SamplerBehavior, SamplerWrapFunction, UniformType,
};
use vstd::prelude::*;

verus! {

/// `glium::uniforms::UniformType`: the types that a program can declare for
/// a uniform. An enum without fields.
#[verifier::external_type_specification]
pub struct ExUniformType(UniformType);

/// `glium::uniforms::EmptyUniforms`: the set of no uniforms. A unit struct.
#[verifier::external_type_specification]
pub struct ExEmptyUniforms(EmptyUniforms);

/// `glium::uniforms::SamplerWrapFunction`: what a sample beyond the edge of
/// a texture reads. An enum without fields.
#[verifier::external_type_specification]
pub struct ExSamplerWrapFunction(SamplerWrapFunction);

/// `glium::uniforms::MagnifySamplerFilter`: how a texture is read when it is
/// drawn larger than it is. An enum without fields.
#[verifier::external_type_specification]
pub struct ExMagnifySamplerFilter(MagnifySamplerFilter);

/// `glium::uniforms::MinifySamplerFilter`: how a texture is read when it is
/// drawn smaller than it is. An enum without fields.
#[verifier::external_type_specification]
pub struct ExMinifySamplerFilter(MinifySamplerFilter);

/// `glium::uniforms::DepthTextureComparison`: the comparison that a shadow
/// sampler makes. An enum without fields.
#[verifier::external_type_specification]
pub struct ExDepthTextureComparison(DepthTextureComparison);

/// `glium::uniforms::SamplerBehavior`: the settings of a sampler. A struct
/// of five public fields.
#[verifier::external_type_specification]
pub struct ExSamplerBehavior(SamplerBehavior);

/// `glium::uniforms::Sampler`: a reference to a texture of any type together
/// with a `SamplerBehavior`. A tuple struct of two public fields.
#[verifier::external_type_specification]
#[verifier::reject_recursive_types(T)]
pub struct ExSampler<'t, T>(Sampler<'t, T>);

/// `glium::texture::UncompressedFloatFormat`: the layouts of a texture whose
/// channels are read as floats. An enum without fields.
#[verifier::external_type_specification]
pub struct ExUncompressedFloatFormat(UncompressedFloatFormat);

/// `glium::texture::MipmapsOption`: whether a new texture gets mipmaps, and
/// how many.
#[verifier::external_type_specification]
pub struct ExMipmapsOption(MipmapsOption);

/// The behaviour that `glium` gives a sampler until it is told otherwise:
/// mirrored wrapping on all three axes, trilinear minification, linear
/// magnification, no depth comparison and no anisotropic filtering.
pub open spec fn default_sampler_behavior() -> SamplerBehavior {
    SamplerBehavior {
        wrap_function: (
            SamplerWrapFunction::Mirror,
            SamplerWrapFunction::Mirror,
            SamplerWrapFunction::Mirror,
        ),
        minify_filter: MinifySamplerFilter::LinearMipmapLinear,
        magnify_filter: MagnifySamplerFilter::Linear,
        depth_texture_comparison: None,
        max_anisotropy: 1,
    }
}

/// `Sampler::new` pairs the texture it is given with the default behaviour.
pub assume_specification<'t, T: 't>[ Sampler::<'t, T>::new ](texture: &'t T) -> (sampler: Sampler<
    't,
    T,
>)
    ensures
        sampler.0 == texture,
        sampler.1 == default_sampler_behavior(),
;

/// `Sampler::wrap_function` sets the wrap function of all three axes to the
/// one given and leaves the texture and every other setting as they were.
pub assume_specification<'t, T: 't>[ Sampler::<'t, T>::wrap_function ](
    sampler: Sampler<'t, T>,
    function: SamplerWrapFunction,
) -> (changed: Sampler<'t, T>)
    ensures
        changed.0 == sampler.0,
        changed.1 == (SamplerBehavior {
            wrap_function: (function, function, function),
            ..sampler.1
        }),
;

/// `Sampler::minify_filter` replaces the minifying filter and nothing else.
pub assume_specification<'t, T: 't>[ Sampler::<'t, T>::minify_filter ](
    sampler: Sampler<'t, T>,
    filter: MinifySamplerFilter,
) -> (changed: Sampler<'t, T>)
    ensures
        changed.0 == sampler.0,
        changed.1 == (SamplerBehavior { minify_filter: filter, ..sampler.1 }),
;

/// `Sampler::magnify_filter` replaces the magnifying filter and nothing else.
pub assume_specification<'t, T: 't>[ Sampler::<'t, T>::magnify_filter ](
    sampler: Sampler<'t, T>,
    filter: MagnifySamplerFilter,
) -> (changed: Sampler<'t, T>)
    ensures
        changed.0 == sampler.0,
        changed.1 == (SamplerBehavior { magnify_filter: filter, ..sampler.1 }),
;

} // verus!
