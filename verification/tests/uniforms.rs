use glium::uniforms::{
    EmptyUniforms, MagnifySamplerFilter, MinifySamplerFilter, SamplerBehavior,
    SamplerWrapFunction, UniformType,
};
use glow_pipeline::shader::input::{
    collect_uniforms, AsUniformValue, DeclaredUniforms, Field, Float, Sampled, StaticUniformType,
    TextureId, UniformValue, Uniforms, UniformsOption, UniformsPair, UniformsRef,
};
use glow_pipeline::shader::{ToUniforms, UniformInput};

fn camera() -> DeclaredUniforms {
    DeclaredUniforms::new(vec![
        Field::new("eye", &[Float(1), Float(2), Float(3)]),
        Field::new("wireframe", &true),
    ])
}

fn light() -> DeclaredUniforms {
    DeclaredUniforms::new(vec![Field::new("intensity", &Float(0x3f80_0000))])
}

fn fog() -> DeclaredUniforms {
    DeclaredUniforms::new(vec![
        Field::new("fog_color", &[Float(7), Float(8), Float(9), Float(10)]),
        Field::new("fog_map", &TextureId(5)),
    ])
}

fn eye() -> (&'static str, UniformValue) {
    ("eye", UniformValue::Vec3([Float(1), Float(2), Float(3)]))
}

fn wireframe() -> (&'static str, UniformValue) {
    ("wireframe", UniformValue::Bool(true))
}

fn intensity() -> (&'static str, UniformValue) {
    ("intensity", UniformValue::Float(Float(0x3f80_0000)))
}

fn fog_color() -> (&'static str, UniformValue) {
    ("fog_color", UniformValue::Vec4([Float(7), Float(8), Float(9), Float(10)]))
}

fn fog_map() -> (&'static str, UniformValue) {
    ("fog_map", UniformValue::Texture2d(TextureId(5), None))
}

fn linear_clamp() -> SamplerBehavior {
    SamplerBehavior {
        wrap_function: (
            SamplerWrapFunction::Clamp,
            SamplerWrapFunction::Clamp,
            SamplerWrapFunction::Clamp,
        ),
        minify_filter: MinifySamplerFilter::Linear,
        magnify_filter: MagnifySamplerFilter::Linear,
        depth_texture_comparison: None,
        max_anisotropy: 1,
    }
}

#[test]
fn declared_source_emits_its_fields_in_order() {
    assert_eq!(collect_uniforms(&camera()), vec![eye(), wireframe()]);
}

#[test]
fn empty_declared_source_emits_nothing() {
    assert_eq!(collect_uniforms(&DeclaredUniforms::new(Vec::new())), vec![]);
}

#[test]
fn unit_source_emits_nothing() {
    assert_eq!(collect_uniforms(&()), vec![]);
    assert_eq!(collect_uniforms(&EmptyUniforms), vec![]);
}

#[test]
fn pair_emits_left_then_right() {
    assert_eq!(
        collect_uniforms(&(camera(), light())),
        vec![eye(), wireframe(), intensity()]
    );
    assert_eq!(
        collect_uniforms(&(light(), camera())),
        vec![intensity(), eye(), wireframe()]
    );
}

#[test]
fn pair_keeps_duplicate_names_apart() {
    assert_eq!(
        collect_uniforms(&(light(), light())),
        vec![intensity(), intensity()]
    );
}

#[test]
fn nesting_does_not_change_the_order() {
    let expected = vec![eye(), wireframe(), intensity(), fog_color(), fog_map()];
    assert_eq!(collect_uniforms(&((camera(), light()), fog())), expected);
    assert_eq!(collect_uniforms(&(camera(), (light(), fog()))), expected);
}

#[test]
fn unit_is_neutral_in_a_pair() {
    assert_eq!(collect_uniforms(&((), camera())), vec![eye(), wireframe()]);
    assert_eq!(collect_uniforms(&(camera(), ())), vec![eye(), wireframe()]);
}

#[test]
fn absent_source_emits_nothing() {
    let absent: Option<DeclaredUniforms> = None;
    assert_eq!(collect_uniforms(&absent), vec![]);
}

#[test]
fn present_source_emits_the_inner_entries() {
    assert_eq!(collect_uniforms(&Some(camera())), vec![eye(), wireframe()]);
}

#[test]
fn presence_leaves_the_sibling_alone() {
    let absent: Option<DeclaredUniforms> = None;
    assert_eq!(collect_uniforms(&(absent, light())), vec![intensity()]);
    assert_eq!(
        collect_uniforms(&(Some(camera()), light())),
        vec![eye(), wireframe(), intensity()]
    );
    let absent: Option<DeclaredUniforms> = None;
    assert_eq!(collect_uniforms(&(light(), absent)), vec![intensity()]);
    assert_eq!(
        collect_uniforms(&(light(), Some(camera()))),
        vec![intensity(), eye(), wireframe()]
    );
}

#[test]
fn visiting_appends_to_what_is_there() {
    let mut visited = vec![intensity()];
    camera().to_uniforms().visit_values(&mut visited);
    assert_eq!(visited, vec![intensity(), eye(), wireframe()]);
}

#[test]
fn views_can_be_built_by_hand() {
    let camera = camera();
    let light = light();
    let pair = UniformsPair(UniformsRef(&camera), UniformsOption(Some(UniformsRef(&light))));
    let mut visited = Vec::new();
    pair.visit_values(&mut visited);
    assert_eq!(visited, vec![eye(), wireframe(), intensity()]);

    let mut by_reference = Vec::new();
    (&pair).visit_values(&mut by_reference);
    assert_eq!(by_reference, visited);

    let nothing: UniformsOption<UniformsRef<&DeclaredUniforms>> = UniformsOption(None);
    let mut visited = Vec::new();
    UniformsPair(nothing, EmptyUniforms).visit_values(&mut visited);
    assert_eq!(visited, vec![]);
}

#[test]
fn declarations_follow_the_field_list() {
    assert_eq!(
        camera().uniform_input_defs(),
        vec![
            ("eye".to_string(), UniformType::FloatVec3),
            ("wireframe".to_string(), UniformType::Bool),
        ]
    );
    assert_eq!(
        fog().uniform_input_defs(),
        vec![
            ("fog_color".to_string(), UniformType::FloatVec4),
            ("fog_map".to_string(), UniformType::Sampler2d),
        ]
    );
    assert_eq!(DeclaredUniforms::new(Vec::new()).uniform_input_defs(), vec![]);
}

#[test]
fn every_shape_has_its_declared_type() {
    assert_eq!(<bool as StaticUniformType>::TYPE, UniformType::Bool);
    assert_eq!(<Float as StaticUniformType>::TYPE, UniformType::Float);
    assert_eq!(<[Float; 2] as StaticUniformType>::TYPE, UniformType::FloatVec2);
    assert_eq!(<[Float; 3] as StaticUniformType>::TYPE, UniformType::FloatVec3);
    assert_eq!(<[Float; 4] as StaticUniformType>::TYPE, UniformType::FloatVec4);
    assert_eq!(<[[Float; 2]; 2] as StaticUniformType>::TYPE, UniformType::FloatMat2);
    assert_eq!(<[[Float; 3]; 3] as StaticUniformType>::TYPE, UniformType::FloatMat3);
    assert_eq!(<[[Float; 4]; 4] as StaticUniformType>::TYPE, UniformType::FloatMat4);
    assert_eq!(<TextureId as StaticUniformType>::TYPE, UniformType::Sampler2d);
    assert_eq!(<Sampled as StaticUniformType>::TYPE, UniformType::Sampler2d);
}

#[test]
fn every_field_type_binds_a_value_of_its_shape() {
    let one = Float(0x3f80_0000);
    let zero = Float(0);
    assert_eq!(false.as_uniform_value(), UniformValue::Bool(false));
    assert_eq!(one.as_uniform_value(), UniformValue::Float(one));
    assert_eq!([one, zero].as_uniform_value(), UniformValue::Vec2([one, zero]));
    assert_eq!([one, zero, one].as_uniform_value(), UniformValue::Vec3([one, zero, one]));
    assert_eq!(
        [one, zero, one, zero].as_uniform_value(),
        UniformValue::Vec4([one, zero, one, zero])
    );
    let mat2 = [[one, zero], [zero, one]];
    assert_eq!(mat2.as_uniform_value(), UniformValue::Mat2(mat2));
    let mat3 = [[one, zero, zero], [zero, one, zero], [zero, zero, one]];
    assert_eq!(mat3.as_uniform_value(), UniformValue::Mat3(mat3));
    let mat4 = [
        [one, zero, zero, zero],
        [zero, one, zero, zero],
        [zero, zero, one, zero],
        [zero, zero, zero, one],
    ];
    assert_eq!(mat4.as_uniform_value(), UniformValue::Mat4(mat4));
    assert_eq!(TextureId(9).as_uniform_value(), UniformValue::Texture2d(TextureId(9), None));
    let sampled = Sampled { texture: TextureId(4), behavior: linear_clamp() };
    assert_eq!(
        sampled.as_uniform_value(),
        UniformValue::Texture2d(TextureId(4), Some(linear_clamp()))
    );
}

#[test]
fn the_type_of_a_value_goes_by_its_shape() {
    let zero = Float(0);
    assert_eq!(UniformValue::Bool(true).uniform_type(), UniformType::Bool);
    assert_eq!(UniformValue::Float(zero).uniform_type(), UniformType::Float);
    assert_eq!(UniformValue::Vec2([zero; 2]).uniform_type(), UniformType::FloatVec2);
    assert_eq!(UniformValue::Vec3([zero; 3]).uniform_type(), UniformType::FloatVec3);
    assert_eq!(UniformValue::Vec4([zero; 4]).uniform_type(), UniformType::FloatVec4);
    assert_eq!(UniformValue::Mat2([[zero; 2]; 2]).uniform_type(), UniformType::FloatMat2);
    assert_eq!(UniformValue::Mat3([[zero; 3]; 3]).uniform_type(), UniformType::FloatMat3);
    assert_eq!(UniformValue::Mat4([[zero; 4]; 4]).uniform_type(), UniformType::FloatMat4);
    assert_eq!(
        UniformValue::Texture2d(TextureId(0), None).uniform_type(),
        UniformType::Sampler2d
    );
}

#[test]
fn unit_declares_nothing() {
    assert_eq!(<() as UniformInput>::uniform_input_defs(), vec![]);
}

#[test]
fn declared_types_are_the_ones_that_take_the_values() {
    let bits = Float(0x4000_0000);
    let number = f32::from_bits(bits.0);
    assert_eq!(number, 2.0);
    let bound = [
        (UniformValue::Bool(true), glium::uniforms::UniformValue::Bool(true)),
        (UniformValue::Float(bits), glium::uniforms::UniformValue::Float(number)),
        (UniformValue::Vec2([bits; 2]), glium::uniforms::UniformValue::Vec2([number; 2])),
        (UniformValue::Vec3([bits; 3]), glium::uniforms::UniformValue::Vec3([number; 3])),
        (UniformValue::Vec4([bits; 4]), glium::uniforms::UniformValue::Vec4([number; 4])),
        (UniformValue::Mat2([[bits; 2]; 2]), glium::uniforms::UniformValue::Mat2([[number; 2]; 2])),
        (UniformValue::Mat3([[bits; 3]; 3]), glium::uniforms::UniformValue::Mat3([[number; 3]; 3])),
        (UniformValue::Mat4([[bits; 4]; 4]), glium::uniforms::UniformValue::Mat4([[number; 4]; 4])),
    ];
    for (value, handed_over) in bound {
        assert!(handed_over.is_usable_with(&value.uniform_type()));
    }
}
