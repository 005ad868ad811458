//! Uniform sources and the views that hand their values to a GPU program.
//!
//! A *source* is any value whose fields must reach the GPU as named uniforms.
//! For the length of one draw call it is turned into a *view*
//! ([`ToUniforms::to_uniforms`]), and the view is visited
//! ([`Uniforms::visit_values`]): it appends one `(name, value)` entry per
//! field to the list that the draw call consumes. Sources are combined by
//! pairing them and by making them optional; the combined view emits the
//! entries of its parts, in order, and nothing else.

use glium::uniforms::{EmptyUniforms, SamplerBehavior, UniformType};
use vstd::prelude::*;

verus! {

/// A single-precision float, carried as its IEEE 754 bit pattern.
///
/// The crate moves such numbers around and never computes with them.
#[derive(Clone, Copy, Debug, PartialEq, Eq)]
pub struct Float(pub u32);

/// The name under which the driver keeps a two-dimensional texture.
#[derive(Clone, Copy, Debug, PartialEq, Eq)]
pub struct TextureId(pub u32);

/// A texture together with the way it is to be sampled.
#[derive(Clone, Copy, Debug, PartialEq, Eq)]
pub struct Sampled {
    pub texture: TextureId,
    pub behavior: SamplerBehavior,
}

/// A value bound to a uniform, tagged with its shape.
#[derive(Clone, Copy, Debug, PartialEq, Eq)]
pub enum UniformValue {
    Bool(bool),
    Float(Float),
    Vec2([Float; 2]),
    Vec3([Float; 3]),
    Vec4([Float; 4]),
    /// 2x2 column-major matrix.
    Mat2([[Float; 2]; 2]),
    /// 3x3 column-major matrix.
    Mat3([[Float; 3]; 3]),
    /// 4x4 column-major matrix.
    Mat4([[Float; 4]; 4]),
    /// A texture to sample, with the sampler settings if they differ from the
    /// driver's own.
    Texture2d(TextureId, Option<SamplerBehavior>),
}

impl UniformValue {
    /// The type that a GPU program declares for a uniform of this shape.
    pub open spec fn spec_uniform_type(self) -> UniformType {
        match self {
            UniformValue::Bool(_) => UniformType::Bool,
            UniformValue::Float(_) => UniformType::Float,
            UniformValue::Vec2(_) => UniformType::FloatVec2,
            UniformValue::Vec3(_) => UniformType::FloatVec3,
            UniformValue::Vec4(_) => UniformType::FloatVec4,
            UniformValue::Mat2(_) => UniformType::FloatMat2,
            UniformValue::Mat3(_) => UniformType::FloatMat3,
            UniformValue::Mat4(_) => UniformType::FloatMat4,
            UniformValue::Texture2d(_, _) => UniformType::Sampler2d,
        }
    }

    /// The type that a GPU program declares for a uniform of this shape.
    pub fn uniform_type(&self) -> (ty: UniformType)
        ensures
            ty == self.spec_uniform_type(),
    {
        match self {
            UniformValue::Bool(_) => UniformType::Bool,
            UniformValue::Float(_) => UniformType::Float,
            UniformValue::Vec2(_) => UniformType::FloatVec2,
            UniformValue::Vec3(_) => UniformType::FloatVec3,
            UniformValue::Vec4(_) => UniformType::FloatVec4,
            UniformValue::Mat2(_) => UniformType::FloatMat2,
            UniformValue::Mat3(_) => UniformType::FloatMat3,
            UniformValue::Mat4(_) => UniformType::FloatMat4,
            UniformValue::Texture2d(_, _) => UniformType::Sampler2d,
        }
    }
}

/// The entries that a view emits: names with their values, in visiting
/// order.
pub type Entries = Seq<(Seq<char>, UniformValue)>;

/// The entries that a list of visited names and values stands for.
pub open spec fn entries_of(visited: Seq<(&'static str, UniformValue)>) -> Entries {
    visited.map_values(|entry: (&'static str, UniformValue)| (entry.0@, entry.1))
}

/// A uniform view: a read-only projection of a source's fields, made for one
/// draw call.
pub trait Uniforms {
    /// The entries of this view, in the order in which it emits them.
    spec fn values(&self) -> Entries;

    /// Emits every entry of the view, in order, at the end of `output`.
    ///
    /// What `output` held before stays in front, unchanged.
    fn visit_values(&self, output: &mut Vec<(&'static str, UniformValue)>)
        ensures
            entries_of(final(output)@) == entries_of(old(output)@) + self.values(),
    ;
}

/// Relates a source type to the type of its view over a borrow of length
/// `'u`.
pub trait HasUniforms<'u> {
    type Uniforms: Uniforms;
}

/// A source that can be turned into its view.
pub trait ToUniforms: for<'u> HasUniforms<'u> {
    /// The entries that the view of this source emits.
    spec fn uniforms(&self) -> Entries;

    /// The view of this source, borrowed from it.
    fn to_uniforms<'u>(&'u self) -> (view: <Self as HasUniforms<'u>>::Uniforms)
        ensures
            view.values() == self.uniforms(),
    ;
}

impl Uniforms for EmptyUniforms {
    open spec fn values(&self) -> Entries {
        Seq::empty()
    }

    fn visit_values(&self, output: &mut Vec<(&'static str, UniformValue)>) {
    }
}

/// The view of two sources side by side: the left one's entries, then the
/// right one's.
pub struct UniformsPair<U1, U2>(pub U1, pub U2);

impl<U1, U2> Uniforms for UniformsPair<U1, U2> where U1: Uniforms, U2: Uniforms {
    open spec fn values(&self) -> Entries {
        self.0.values() + self.1.values()
    }

    fn visit_values(&self, output: &mut Vec<(&'static str, UniformValue)>) {
        self.0.visit_values(output);
        self.1.visit_values(output);
    }
}

impl<'b, U1, U2> Uniforms for &'b UniformsPair<U1, U2> where U1: Uniforms, U2: Uniforms {
    open spec fn values(&self) -> Entries {
        self.0.values() + self.1.values()
    }

    fn visit_values(&self, output: &mut Vec<(&'static str, UniformValue)>) {
        self.0.visit_values(output);
        self.1.visit_values(output);
    }
}

/// The view of a source that may be absent: its entries if it is there,
/// nothing if it is not.
pub struct UniformsOption<U>(pub Option<U>);

impl<U> Uniforms for UniformsOption<U> where U: Uniforms {
    open spec fn values(&self) -> Entries {
        match self.0 {
            Some(uniforms) => uniforms.values(),
            None => Seq::empty(),
        }
    }

    fn visit_values(&self, output: &mut Vec<(&'static str, UniformValue)>) {
        if let Some(uniforms) = self.0.as_ref() {
            uniforms.visit_values(output);
        }
    }
}

/// A view that is a reference to a value which is its own view.
pub struct UniformsRef<U>(pub U);

impl<'b, U> Uniforms for UniformsRef<&'b U> where U: Uniforms {
    open spec fn values(&self) -> Entries {
        self.0.values()
    }

    fn visit_values(&self, output: &mut Vec<(&'static str, UniformValue)>) {
        self.0.visit_values(output);
    }
}

impl<'u> HasUniforms<'u> for () {
    type Uniforms = EmptyUniforms;
}

impl ToUniforms for () {
    open spec fn uniforms(&self) -> Entries {
        Seq::empty()
    }

    fn to_uniforms<'u>(&'u self) -> (view: <Self as HasUniforms<'u>>::Uniforms) {
        EmptyUniforms
    }
}

impl<'u, U1, U2> HasUniforms<'u> for (U1, U2) where U1: HasUniforms<'u>, U2: HasUniforms<'u> {
    type Uniforms = UniformsPair<
        <U1 as HasUniforms<'u>>::Uniforms,
        <U2 as HasUniforms<'u>>::Uniforms,
    >;
}

impl<U1, U2> ToUniforms for (U1, U2) where U1: ToUniforms, U2: ToUniforms {
    open spec fn uniforms(&self) -> Entries {
        self.0.uniforms() + self.1.uniforms()
    }

    fn to_uniforms<'u>(&'u self) -> (view: <Self as HasUniforms<'u>>::Uniforms) {
        UniformsPair(self.0.to_uniforms(), self.1.to_uniforms())
    }
}

impl<'u, U> HasUniforms<'u> for Option<U> where U: HasUniforms<'u> {
    type Uniforms = UniformsOption<U::Uniforms>;
}

impl<U> ToUniforms for Option<U> where U: ToUniforms {
    open spec fn uniforms(&self) -> Entries {
        match self {
            Some(source) => source.uniforms(),
            None => Seq::empty(),
        }
    }

    fn to_uniforms<'u>(&'u self) -> (view: <Self as HasUniforms<'u>>::Uniforms) {
        match self {
            Some(source) => UniformsOption(Some(source.to_uniforms())),
            None => UniformsOption(None),
        }
    }
}

impl<'u> HasUniforms<'u> for EmptyUniforms {
    type Uniforms = EmptyUniforms;
}

impl ToUniforms for EmptyUniforms {
    open spec fn uniforms(&self) -> Entries {
        Seq::empty()
    }

    fn to_uniforms<'u>(&'u self) -> (view: <Self as HasUniforms<'u>>::Uniforms) {
        EmptyUniforms
    }
}

/// Maps the type of a field to the type that a GPU program declares for it.
pub trait StaticUniformType {
    const TYPE: UniformType;
}

impl StaticUniformType for bool {
    const TYPE: UniformType = UniformType::Bool;
}

impl StaticUniformType for Float {
    const TYPE: UniformType = UniformType::Float;
}

impl StaticUniformType for [Float; 2] {
    const TYPE: UniformType = UniformType::FloatVec2;
}

impl StaticUniformType for [Float; 3] {
    const TYPE: UniformType = UniformType::FloatVec3;
}

impl StaticUniformType for [Float; 4] {
    const TYPE: UniformType = UniformType::FloatVec4;
}

impl StaticUniformType for [[Float; 2]; 2] {
    const TYPE: UniformType = UniformType::FloatMat2;
}

impl StaticUniformType for [[Float; 3]; 3] {
    const TYPE: UniformType = UniformType::FloatMat3;
}

impl StaticUniformType for [[Float; 4]; 4] {
    const TYPE: UniformType = UniformType::FloatMat4;
}

impl StaticUniformType for TextureId {
    const TYPE: UniformType = UniformType::Sampler2d;
}

impl StaticUniformType for Sampled {
    const TYPE: UniformType = UniformType::Sampler2d;
}

/// The mapping from field types to declared types, entry by entry.
pub proof fn lemma_static_uniform_types()
    ensures
        <bool as StaticUniformType>::TYPE == UniformType::Bool,
        <Float as StaticUniformType>::TYPE == UniformType::Float,
        <[Float; 2] as StaticUniformType>::TYPE == UniformType::FloatVec2,
        <[Float; 3] as StaticUniformType>::TYPE == UniformType::FloatVec3,
        <[Float; 4] as StaticUniformType>::TYPE == UniformType::FloatVec4,
        <[[Float; 2]; 2] as StaticUniformType>::TYPE == UniformType::FloatMat2,
        <[[Float; 3]; 3] as StaticUniformType>::TYPE == UniformType::FloatMat3,
        <[[Float; 4]; 4] as StaticUniformType>::TYPE == UniformType::FloatMat4,
        <TextureId as StaticUniformType>::TYPE == UniformType::Sampler2d,
        <Sampled as StaticUniformType>::TYPE == UniformType::Sampler2d,
{
}

/// A field that can be bound to a uniform.
pub trait AsUniformValue: StaticUniformType + Sized {
    /// The value that this field is bound as.
    spec fn uniform_value(&self) -> UniformValue;

    /// The value that this field is bound as. Its shape is the one that the
    /// field's type declares.
    fn as_uniform_value(&self) -> (value: UniformValue)
        ensures
            value == self.uniform_value(),
            value.spec_uniform_type() == Self::TYPE,
    ;
}

impl AsUniformValue for bool {
    open spec fn uniform_value(&self) -> UniformValue {
        UniformValue::Bool(*self)
    }

    fn as_uniform_value(&self) -> (value: UniformValue) {
        UniformValue::Bool(*self)
    }
}

impl AsUniformValue for Float {
    open spec fn uniform_value(&self) -> UniformValue {
        UniformValue::Float(*self)
    }

    fn as_uniform_value(&self) -> (value: UniformValue) {
        UniformValue::Float(*self)
    }
}

impl AsUniformValue for [Float; 2] {
    open spec fn uniform_value(&self) -> UniformValue {
        UniformValue::Vec2(*self)
    }

    fn as_uniform_value(&self) -> (value: UniformValue) {
        UniformValue::Vec2(*self)
    }
}

impl AsUniformValue for [Float; 3] {
    open spec fn uniform_value(&self) -> UniformValue {
        UniformValue::Vec3(*self)
    }

    fn as_uniform_value(&self) -> (value: UniformValue) {
        UniformValue::Vec3(*self)
    }
}

impl AsUniformValue for [Float; 4] {
    open spec fn uniform_value(&self) -> UniformValue {
        UniformValue::Vec4(*self)
    }

    fn as_uniform_value(&self) -> (value: UniformValue) {
        UniformValue::Vec4(*self)
    }
}

impl AsUniformValue for [[Float; 2]; 2] {
    open spec fn uniform_value(&self) -> UniformValue {
        UniformValue::Mat2(*self)
    }

    fn as_uniform_value(&self) -> (value: UniformValue) {
        UniformValue::Mat2(*self)
    }
}

impl AsUniformValue for [[Float; 3]; 3] {
    open spec fn uniform_value(&self) -> UniformValue {
        UniformValue::Mat3(*self)
    }

    fn as_uniform_value(&self) -> (value: UniformValue) {
        UniformValue::Mat3(*self)
    }
}

impl AsUniformValue for [[Float; 4]; 4] {
    open spec fn uniform_value(&self) -> UniformValue {
        UniformValue::Mat4(*self)
    }

    fn as_uniform_value(&self) -> (value: UniformValue) {
        UniformValue::Mat4(*self)
    }
}

impl AsUniformValue for TextureId {
    open spec fn uniform_value(&self) -> UniformValue {
        UniformValue::Texture2d(*self, None)
    }

    fn as_uniform_value(&self) -> (value: UniformValue) {
        UniformValue::Texture2d(*self, None)
    }
}

impl AsUniformValue for Sampled {
    open spec fn uniform_value(&self) -> UniformValue {
        UniformValue::Texture2d(self.texture, Some(self.behavior))
    }

    fn as_uniform_value(&self) -> (value: UniformValue) {
        UniformValue::Texture2d(self.texture, Some(self.behavior))
    }
}

/// What a GPU program is expected to declare: names with their types, in
/// declaration order.
pub type Declarations = Seq<(Seq<char>, UniformType)>;

/// The declarations that a list of names and types stands for.
pub open spec fn declarations_of(defs: Seq<(String, UniformType)>) -> Declarations {
    defs.map_values(|def: (String, UniformType)| (def.0@, def.1))
}

/// The declarations that describe `entries`: for each entry, in order, its
/// name and the type that goes with the shape of its value.
pub open spec fn declared_by(entries: Entries) -> Declarations {
    entries.map_values(|entry: (Seq<char>, UniformValue)| (entry.0, entry.1.spec_uniform_type()))
}

/// A source that also tells which uniforms a GPU program must declare to
/// receive it.
pub trait UniformInput: ToUniforms {
    /// The declarations of this source type.
    spec fn input_defs() -> Declarations;

    /// The declarations of this source type: one per field, in the order in
    /// which the view emits the fields.
    fn uniform_input_defs() -> (defs: Vec<(String, UniformType)>)
        ensures
            declarations_of(defs@) == Self::input_defs(),
    ;

    /// The declarations describe what every value of the type emits: the
    /// same names in the same order, each with the type of the value's shape.
    proof fn lemma_defs_describe_uniforms(&self)
        ensures
            Self::input_defs() == declared_by(self.uniforms()),
    ;
}

/// A source that can also be handed to the GPU once per instance, as vertex
/// attributes.
pub trait InstanceInput: UniformInput {
    /// The per-instance record.
    type Vertex: ToUniforms;

    /// The per-instance record of this source. It has the fields of the
    /// source's view, with the same values.
    fn to_vertex(&self) -> (vertex: Self::Vertex)
        ensures
            vertex.uniforms() == self.uniforms(),
    ;
}

impl UniformInput for () {
    open spec fn input_defs() -> Declarations {
        Seq::empty()
    }

    fn uniform_input_defs() -> (defs: Vec<(String, UniformType)>) {
        Vec::new()
    }

    proof fn lemma_defs_describe_uniforms(&self) {
    }
}

impl<U1, U2> UniformInput for (U1, U2) where U1: UniformInput, U2: UniformInput {
    open spec fn input_defs() -> Declarations {
        U1::input_defs() + U2::input_defs()
    }

    fn uniform_input_defs() -> (defs: Vec<(String, UniformType)>) {
        let mut result = U1::uniform_input_defs();
        let mut rest = U2::uniform_input_defs();
        result.append(&mut rest);

        result
    }

    proof fn lemma_defs_describe_uniforms(&self) {
        self.0.lemma_defs_describe_uniforms();
        self.1.lemma_defs_describe_uniforms();
    }
}

/// One field of a declared source: its name and the value bound to it.
#[derive(Clone, Copy, Debug, PartialEq, Eq)]
pub struct Field {
    pub name: &'static str,
    pub value: UniformValue,
}

impl Field {
    /// Declares the field `name` with the type `T` and the given value.
    pub fn new<T: AsUniformValue>(name: &'static str, value: &T) -> (field: Field)
        ensures
            field.name@ == name@,
            field.value == value.uniform_value(),
            field.value.spec_uniform_type() == T::TYPE,
    {
        Field { name, value: value.as_uniform_value() }
    }
}

/// A source that is given as a list of fields.
///
/// The one list drives both what is bound at a draw
/// ([`Uniforms::visit_values`]) and what the GPU program is expected to
/// declare ([`DeclaredUniforms::uniform_input_defs`]), so the two cannot
/// drift apart.
#[derive(Clone, Debug, PartialEq, Eq)]
pub struct DeclaredUniforms {
    pub fields: Vec<Field>,
}

impl DeclaredUniforms {
    /// The entries of the fields, in the order in which they were written.
    pub open spec fn entries(&self) -> Entries {
        self.fields@.map_values(|field: Field| (field.name@, field.value))
    }

    /// A source with these fields.
    pub fn new(fields: Vec<Field>) -> (declared: DeclaredUniforms)
        ensures
            declared.fields == fields,
    {
        DeclaredUniforms { fields }
    }

    /// The declarations that a GPU program needs for this source: as many as
    /// there are fields, in the order of the fields, each with the field's
    /// name and the type that goes with the shape of its value.
    pub fn uniform_input_defs(&self) -> (defs: Vec<(String, UniformType)>)
        ensures
            declarations_of(defs@) == declared_by(self.entries()),
            defs@.len() == self.fields@.len(),
            forall|i: int|
                0 <= i < self.fields@.len() ==> (#[trigger] defs@[i]).0@ == self.fields@[i].name@
                    && defs@[i].1 == self.fields@[i].value.spec_uniform_type(),
    {
        let mut defs: Vec<(String, UniformType)> = Vec::new();
        let mut i: usize = 0;
        while i < self.fields.len()
            invariant
                i <= self.fields@.len(),
                defs@.len() == i,
                forall|j: int|
                    0 <= j < i ==> (#[trigger] defs@[j]).0@ == self.fields@[j].name@ && defs@[j].1
                        == self.fields@[j].value.spec_uniform_type(),
            decreases self.fields@.len() - i,
        {
            let field = &self.fields[i];
            defs.push((field.name.to_string(), field.value.uniform_type()));
            i = i + 1;
        }
        assert(declarations_of(defs@) =~= declared_by(self.entries()));
        defs
    }
}

impl Uniforms for DeclaredUniforms {
    open spec fn values(&self) -> Entries {
        self.entries()
    }

    fn visit_values(&self, output: &mut Vec<(&'static str, UniformValue)>) {
        let ghost before = output@;
        let mut i: usize = 0;
        while i < self.fields.len()
            invariant
                i <= self.fields@.len(),
                output@.len() == before.len() + i,
                forall|j: int| 0 <= j < before.len() ==> output@[j] == before[j],
                forall|j: int|
                    before.len() <= j < before.len() + i ==> (#[trigger] output@[j]).0@
                        == self.fields@[j - before.len()].name@ && output@[j].1 == self.fields@[j
                        - before.len()].value,
            decreases self.fields@.len() - i,
        {
            let field = &self.fields[i];
            output.push((field.name, field.value));
            i = i + 1;
        }
        assert(entries_of(output@) =~= entries_of(before) + self.values());
    }
}

impl<'u> HasUniforms<'u> for DeclaredUniforms {
    type Uniforms = UniformsRef<&'u DeclaredUniforms>;
}

impl ToUniforms for DeclaredUniforms {
    open spec fn uniforms(&self) -> Entries {
        self.entries()
    }

    fn to_uniforms<'u>(&'u self) -> (view: <Self as HasUniforms<'u>>::Uniforms) {
        UniformsRef(self)
    }
}

/// Visits the view of `source` and returns what it emits: the list of named
/// values that a draw call consumes.
pub fn collect_uniforms<S: ToUniforms>(source: &S) -> (visited: Vec<(&'static str, UniformValue)>)
    ensures
        entries_of(visited@) == source.uniforms(),
{
    let mut visited: Vec<(&'static str, UniformValue)> = Vec::new();
    let view = source.to_uniforms();
    view.visit_values(&mut visited);
    assert(entries_of(Seq::<(&'static str, UniformValue)>::empty()) =~= Seq::<
        (Seq<char>, UniformValue),
    >::empty());
    assert(Seq::<(Seq<char>, UniformValue)>::empty() + source.uniforms() =~= source.uniforms());
    visited
}

/// A pair of sources emits the entries of the left source and then those of
/// the right source: as many entries as the two have together, each one
/// with the name and the value that its own source gave it.
pub proof fn lemma_pair_concatenates<U1: ToUniforms, U2: ToUniforms>(pair: (U1, U2))
    ensures
        pair.uniforms() == pair.0.uniforms() + pair.1.uniforms(),
        pair.uniforms().len() == pair.0.uniforms().len() + pair.1.uniforms().len(),
        forall|i: int|
            0 <= i < pair.0.uniforms().len() ==> #[trigger] pair.uniforms()[i]
                == pair.0.uniforms()[i],
        forall|i: int|
            0 <= i < pair.1.uniforms().len() ==> #[trigger] pair.uniforms()[
                pair.0.uniforms().len() + i
            ] == pair.1.uniforms()[i],
{
}

/// Composition is associative: however three sources are nested into pairs,
/// the composite emits the entries of the first, then of the second, then of
/// the third.
pub proof fn lemma_composition_associative<U1: ToUniforms, U2: ToUniforms, U3: ToUniforms>(
    first: U1,
    second: U2,
    third: U3,
)
    ensures
        ((first, second), third).uniforms() == first.uniforms() + second.uniforms()
            + third.uniforms(),
        (first, (second, third)).uniforms() == first.uniforms() + second.uniforms()
            + third.uniforms(),
{
    assert(first.uniforms() + (second.uniforms() + third.uniforms()) =~= first.uniforms()
        + second.uniforms() + third.uniforms());
}

/// The unit source adds nothing to what it is paired with, on either side.
pub proof fn lemma_unit_is_neutral<U: ToUniforms>(source: U)
    ensures
        ((), source).uniforms() == source.uniforms(),
        (source, ()).uniforms() == source.uniforms(),
{
    assert(Seq::<(Seq<char>, UniformValue)>::empty() + source.uniforms() =~= source.uniforms());
    assert(source.uniforms() + Seq::<(Seq<char>, UniformValue)>::empty() =~= source.uniforms());
}

/// An optional source emits nothing when it is absent and exactly the
/// entries of the inner source when it is present.
pub proof fn lemma_optional_emits_inner<U: ToUniforms>(optional: Option<U>)
    ensures
        optional is None ==> optional.uniforms() == Seq::<(Seq<char>, UniformValue)>::empty(),
        optional matches Some(inner) ==> optional.uniforms() == inner.uniforms(),
{
}

/// Whether an optional source is present or absent makes no difference to
/// what the source beside it emits: in a pair, the sibling's entries stand
/// unchanged after (or before) whatever the optional source contributed.
pub proof fn lemma_optional_leaves_sibling<U: ToUniforms, S: ToUniforms>(
    optional: Option<U>,
    sibling: S,
)
    ensures
        (optional, sibling).uniforms().subrange(
            optional.uniforms().len() as int,
            (optional, sibling).uniforms().len() as int,
        ) == sibling.uniforms(),
        (sibling, optional).uniforms().subrange(0, sibling.uniforms().len() as int)
            == sibling.uniforms(),
        (None::<U>, sibling).uniforms() == sibling.uniforms(),
        (sibling, None::<U>).uniforms() == sibling.uniforms(),
{
    let empty = Seq::<(Seq<char>, UniformValue)>::empty();
    assert((optional, sibling).uniforms().subrange(
        optional.uniforms().len() as int,
        (optional, sibling).uniforms().len() as int,
    ) =~= sibling.uniforms());
    assert((sibling, optional).uniforms().subrange(0, sibling.uniforms().len() as int)
        =~= sibling.uniforms());
    assert(empty + sibling.uniforms() =~= sibling.uniforms());
    assert(sibling.uniforms() + empty =~= sibling.uniforms());
}

/// The declarations that describe a list of entries are as many as the
/// entries and stand in the same order; each has its entry's name and the type
/// that the fixed mapping gives the shape of its entry's value.
pub proof fn lemma_declarations_follow_entries(entries: Entries)
    ensures
        declared_by(entries).len() == entries.len(),
        forall|i: int|
            0 <= i < entries.len() ==> (#[trigger] declared_by(entries)[i]).0 == entries[i].0
                && declared_by(entries)[i].1 == entries[i].1.spec_uniform_type(),
{
}

} // verus!
