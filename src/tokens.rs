use vstd::prelude::*;
use crate::commands::IndexFormat;
use crate::text::{same_text, option_text_is};

verus! {

/// Pixel formats that descriptors may name.
#[derive(Clone, Copy, Debug, PartialEq, Eq, Structural)]
pub enum TextureFormat {
    Rgba8Unorm,
    Bgra8Unorm,
    Rgba16Float,
    Rgba32Float,
    Depth24Plus,
    Depth32Float,
}

/// The format named by a token; an unknown token means `rgba8unorm`.
pub open spec fn texture_format_of(s: Seq<char>) -> TextureFormat {
    if s == "rgba8unorm"@ {
        TextureFormat::Rgba8Unorm
    } else if s == "bgra8unorm"@ {
        TextureFormat::Bgra8Unorm
    } else if s == "rgba16float"@ {
        TextureFormat::Rgba16Float
    } else if s == "rgba32float"@ {
        TextureFormat::Rgba32Float
    } else if s == "depth24plus"@ {
        TextureFormat::Depth24Plus
    } else if s == "depth32float"@ {
        TextureFormat::Depth32Float
    } else {
        TextureFormat::Rgba8Unorm
    }
}

pub fn parse_texture_format(format: &str) -> (r: TextureFormat)
    ensures
        r == texture_format_of(format@),
{
    if same_text(format, "rgba8unorm") {
        TextureFormat::Rgba8Unorm
    } else if same_text(format, "bgra8unorm") {
        TextureFormat::Bgra8Unorm
    } else if same_text(format, "rgba16float") {
        TextureFormat::Rgba16Float
    } else if same_text(format, "rgba32float") {
        TextureFormat::Rgba32Float
    } else if same_text(format, "depth24plus") {
        TextureFormat::Depth24Plus
    } else if same_text(format, "depth32float") {
        TextureFormat::Depth32Float
    } else {
        TextureFormat::Rgba8Unorm
    }
}

/// How a sampler treats coordinates outside the texture.
#[derive(Clone, Copy, Debug, PartialEq, Eq, Structural)]
pub enum AddressMode {
    ClampToEdge,
    Repeat,
    MirrorRepeat,
}

/// The address mode named by an optional token; absent or unknown means clamp-to-edge.
pub open spec fn address_mode_of(s: Option<String>) -> AddressMode {
    match s {
        Some(t) => if t@ == "clamp-to-edge"@ {
            AddressMode::ClampToEdge
        } else if t@ == "repeat"@ {
            AddressMode::Repeat
        } else if t@ == "mirror-repeat"@ {
            AddressMode::MirrorRepeat
        } else {
            AddressMode::ClampToEdge
        },
        None => AddressMode::ClampToEdge,
    }
}

pub fn parse_address_mode(mode: &Option<String>) -> (r: AddressMode)
    ensures
        r == address_mode_of(*mode),
{
    if option_text_is(mode, "clamp-to-edge") {
        AddressMode::ClampToEdge
    } else if option_text_is(mode, "repeat") {
        AddressMode::Repeat
    } else if option_text_is(mode, "mirror-repeat") {
        AddressMode::MirrorRepeat
    } else {
        AddressMode::ClampToEdge
    }
}

} // verus!

verus! {

/// The index format named by a token, if it names one.
pub open spec fn index_format_of(s: Seq<char>) -> Option<IndexFormat> {
    if s == "uint16"@ {
        Some(IndexFormat::Uint16)
    } else if s == "uint32"@ {
        Some(IndexFormat::Uint32)
    } else {
        None
    }
}

/// Reads an index format token; anything but `uint16` or `uint32` is refused.
pub fn parse_index_format(format: &str) -> (r: Option<IndexFormat>)
    ensures
        r == index_format_of(format@),
{
    if same_text(format, "uint16") {
        Some(IndexFormat::Uint16)
    } else if same_text(format, "uint32") {
        Some(IndexFormat::Uint32)
    } else {
        None
    }
}

/// The index format of a token where an unknown token means `uint16`.
pub open spec fn index_format_or_default(s: Seq<char>) -> IndexFormat {
    match index_format_of(s) {
        Some(f) => f,
        None => IndexFormat::Uint16,
    }
}

pub fn parse_index_format_lenient(format: &str) -> (r: IndexFormat)
    ensures
        r == index_format_or_default(format@),
{
    match parse_index_format(format) {
        Some(f) => f,
        None => IndexFormat::Uint16,
    }
}

} // verus!

verus! {

/// Layouts of one vertex attribute.
#[derive(Clone, Copy, Debug, PartialEq, Eq, Structural)]
pub enum VertexFormat {
    Float32,
    Float32x2,
    Float32x3,
    Float32x4,
    Uint32,
    Sint32,
}

/// The attribute format named by a token; an unknown token means `float32x3`.
pub open spec fn vertex_format_of(s: Seq<char>) -> VertexFormat {
    if s == "float32"@ {
        VertexFormat::Float32
    } else if s == "float32x2"@ {
        VertexFormat::Float32x2
    } else if s == "float32x3"@ {
        VertexFormat::Float32x3
    } else if s == "float32x4"@ {
        VertexFormat::Float32x4
    } else if s == "uint32"@ {
        VertexFormat::Uint32
    } else if s == "sint32"@ {
        VertexFormat::Sint32
    } else {
        VertexFormat::Float32x3
    }
}

pub fn parse_vertex_format(token: &str) -> (r: VertexFormat)
    ensures
        r == vertex_format_of(token@),
{
    if same_text(token, "float32") {
        VertexFormat::Float32
    } else if same_text(token, "float32x2") {
        VertexFormat::Float32x2
    } else if same_text(token, "float32x3") {
        VertexFormat::Float32x3
    } else if same_text(token, "float32x4") {
        VertexFormat::Float32x4
    } else if same_text(token, "uint32") {
        VertexFormat::Uint32
    } else if same_text(token, "sint32") {
        VertexFormat::Sint32
    } else {
        VertexFormat::Float32x3
    }
}

/// Named blending presets.
#[derive(Clone, Copy, Debug, PartialEq, Eq, Structural)]
pub enum BlendMode {
    Replace,
    Alpha,
    Additive,
    Premultiplied,
}

/// The preset named by a token; an unknown token means `replace`.
pub open spec fn blend_mode_of(s: Seq<char>) -> BlendMode {
    if s == "replace"@ {
        BlendMode::Replace
    } else if s == "alpha"@ {
        BlendMode::Alpha
    } else if s == "additive"@ {
        BlendMode::Additive
    } else if s == "premultiplied"@ {
        BlendMode::Premultiplied
    } else {
        BlendMode::Replace
    }
}

pub fn parse_blend_mode(token: &str) -> (r: BlendMode)
    ensures
        r == blend_mode_of(token@),
{
    if same_text(token, "replace") {
        BlendMode::Replace
    } else if same_text(token, "alpha") {
        BlendMode::Alpha
    } else if same_text(token, "additive") {
        BlendMode::Additive
    } else if same_text(token, "premultiplied") {
        BlendMode::Premultiplied
    } else {
        BlendMode::Replace
    }
}

/// How a sampler blends neighbouring texels.
#[derive(Clone, Copy, Debug, PartialEq, Eq, Structural)]
pub enum FilterMode {
    Nearest,
    Linear,
}

/// The filter named by an optional token; absent or unknown means `nearest`.
pub open spec fn filter_mode_of(token: Option<String>) -> FilterMode {
    match token {
        Some(t) => filter_mode_of_text(t@),
        None => FilterMode::Nearest,
    }
}

pub open spec fn filter_mode_of_text(s: Seq<char>) -> FilterMode {
    if s == "linear"@ {
        FilterMode::Linear
    } else if s == "nearest"@ {
        FilterMode::Nearest
    } else {
        FilterMode::Nearest
    }
}

pub fn parse_filter_mode(token: &Option<String>) -> (r: FilterMode)
    ensures
        r == filter_mode_of(*token),
{
    if option_text_is(token, "linear") {
        FilterMode::Linear
    } else if option_text_is(token, "nearest") {
        FilterMode::Nearest
    } else {
        FilterMode::Nearest
    }
}

/// Comparisons for depth tests and comparison samplers.
#[derive(Clone, Copy, Debug, PartialEq, Eq, Structural)]
pub enum CompareFunction {
    Never,
    Less,
    Equal,
    LessEqual,
    Greater,
    NotEqual,
    GreaterEqual,
    Always,
}

/// The comparison named by an optional token, if it names one.
pub open spec fn compare_function_of(token: Option<String>) -> Option<CompareFunction> {
    match token {
        Some(t) => compare_function_of_text(t@),
        None => None,
    }
}

pub open spec fn compare_function_of_text(s: Seq<char>) -> Option<CompareFunction> {
    if s == "never"@ {
        Some(CompareFunction::Never)
    } else if s == "less"@ {
        Some(CompareFunction::Less)
    } else if s == "equal"@ {
        Some(CompareFunction::Equal)
    } else if s == "less-equal"@ {
        Some(CompareFunction::LessEqual)
    } else if s == "greater"@ {
        Some(CompareFunction::Greater)
    } else if s == "not-equal"@ {
        Some(CompareFunction::NotEqual)
    } else if s == "greater-equal"@ {
        Some(CompareFunction::GreaterEqual)
    } else if s == "always"@ {
        Some(CompareFunction::Always)
    } else {
        None
    }
}

pub fn parse_compare_function(token: &Option<String>) -> (r: Option<CompareFunction>)
    ensures
        r == compare_function_of(*token),
{
    if option_text_is(token, "never") {
        Some(CompareFunction::Never)
    } else if option_text_is(token, "less") {
        Some(CompareFunction::Less)
    } else if option_text_is(token, "equal") {
        Some(CompareFunction::Equal)
    } else if option_text_is(token, "less-equal") {
        Some(CompareFunction::LessEqual)
    } else if option_text_is(token, "greater") {
        Some(CompareFunction::Greater)
    } else if option_text_is(token, "not-equal") {
        Some(CompareFunction::NotEqual)
    } else if option_text_is(token, "greater-equal") {
        Some(CompareFunction::GreaterEqual)
    } else if option_text_is(token, "always") {
        Some(CompareFunction::Always)
    } else {
        None
    }
}

/// Factors of a blend equation.
#[derive(Clone, Copy, Debug, PartialEq, Eq, Structural)]
pub enum BlendFactor {
    Zero,
    One,
    Src,
    OneMinusSrc,
    SrcAlpha,
    OneMinusSrcAlpha,
    Dst,
    OneMinusDst,
    DstAlpha,
    OneMinusDstAlpha,
    SrcAlphaSaturated,
    Constant,
    OneMinusConstant,
}

/// The factor named by a token; an unknown token means `one`.
pub open spec fn blend_factor_of(s: Seq<char>) -> BlendFactor {
    if s == "zero"@ {
        BlendFactor::Zero
    } else if s == "one"@ {
        BlendFactor::One
    } else if s == "src"@ {
        BlendFactor::Src
    } else if s == "one-minus-src"@ {
        BlendFactor::OneMinusSrc
    } else if s == "src-alpha"@ {
        BlendFactor::SrcAlpha
    } else if s == "one-minus-src-alpha"@ {
        BlendFactor::OneMinusSrcAlpha
    } else if s == "dst"@ {
        BlendFactor::Dst
    } else if s == "one-minus-dst"@ {
        BlendFactor::OneMinusDst
    } else if s == "dst-alpha"@ {
        BlendFactor::DstAlpha
    } else if s == "one-minus-dst-alpha"@ {
        BlendFactor::OneMinusDstAlpha
    } else if s == "src-alpha-saturated"@ {
        BlendFactor::SrcAlphaSaturated
    } else if s == "constant"@ {
        BlendFactor::Constant
    } else if s == "one-minus-constant"@ {
        BlendFactor::OneMinusConstant
    } else {
        BlendFactor::One
    }
}

pub fn parse_blend_factor(token: &str) -> (r: BlendFactor)
    ensures
        r == blend_factor_of(token@),
{
    if same_text(token, "zero") {
        BlendFactor::Zero
    } else if same_text(token, "one") {
        BlendFactor::One
    } else if same_text(token, "src") {
        BlendFactor::Src
    } else if same_text(token, "one-minus-src") {
        BlendFactor::OneMinusSrc
    } else if same_text(token, "src-alpha") {
        BlendFactor::SrcAlpha
    } else if same_text(token, "one-minus-src-alpha") {
        BlendFactor::OneMinusSrcAlpha
    } else if same_text(token, "dst") {
        BlendFactor::Dst
    } else if same_text(token, "one-minus-dst") {
        BlendFactor::OneMinusDst
    } else if same_text(token, "dst-alpha") {
        BlendFactor::DstAlpha
    } else if same_text(token, "one-minus-dst-alpha") {
        BlendFactor::OneMinusDstAlpha
    } else if same_text(token, "src-alpha-saturated") {
        BlendFactor::SrcAlphaSaturated
    } else if same_text(token, "constant") {
        BlendFactor::Constant
    } else if same_text(token, "one-minus-constant") {
        BlendFactor::OneMinusConstant
    } else {
        BlendFactor::One
    }
}

/// Operations of a blend equation.
#[derive(Clone, Copy, Debug, PartialEq, Eq, Structural)]
pub enum BlendOperation {
    Add,
    Subtract,
    ReverseSubtract,
    Min,
    Max,
}

/// The operation named by a token; an unknown token means `add`.
pub open spec fn blend_operation_of(s: Seq<char>) -> BlendOperation {
    if s == "add"@ {
        BlendOperation::Add
    } else if s == "subtract"@ {
        BlendOperation::Subtract
    } else if s == "reverse-subtract"@ {
        BlendOperation::ReverseSubtract
    } else if s == "min"@ {
        BlendOperation::Min
    } else if s == "max"@ {
        BlendOperation::Max
    } else {
        BlendOperation::Add
    }
}

pub fn parse_blend_operation(token: &str) -> (r: BlendOperation)
    ensures
        r == blend_operation_of(token@),
{
    if same_text(token, "add") {
        BlendOperation::Add
    } else if same_text(token, "subtract") {
        BlendOperation::Subtract
    } else if same_text(token, "reverse-subtract") {
        BlendOperation::ReverseSubtract
    } else if same_text(token, "min") {
        BlendOperation::Min
    } else if same_text(token, "max") {
        BlendOperation::Max
    } else {
        BlendOperation::Add
    }
}

/// How vertices form primitives.
#[derive(Clone, Copy, Debug, PartialEq, Eq, Structural)]
pub enum PrimitiveTopology {
    PointList,
    LineList,
    LineStrip,
    TriangleList,
    TriangleStrip,
}

/// The topology named by an optional token; absent or unknown means `triangle-list`.
pub open spec fn topology_of(token: Option<String>) -> PrimitiveTopology {
    match token {
        Some(t) => topology_of_text(t@),
        None => PrimitiveTopology::TriangleList,
    }
}

pub open spec fn topology_of_text(s: Seq<char>) -> PrimitiveTopology {
    if s == "point-list"@ {
        PrimitiveTopology::PointList
    } else if s == "line-list"@ {
        PrimitiveTopology::LineList
    } else if s == "line-strip"@ {
        PrimitiveTopology::LineStrip
    } else if s == "triangle-strip"@ {
        PrimitiveTopology::TriangleStrip
    } else {
        PrimitiveTopology::TriangleList
    }
}

pub fn parse_topology(token: &Option<String>) -> (r: PrimitiveTopology)
    ensures
        r == topology_of(*token),
{
    if option_text_is(token, "point-list") {
        PrimitiveTopology::PointList
    } else if option_text_is(token, "line-list") {
        PrimitiveTopology::LineList
    } else if option_text_is(token, "line-strip") {
        PrimitiveTopology::LineStrip
    } else if option_text_is(token, "triangle-strip") {
        PrimitiveTopology::TriangleStrip
    } else {
        PrimitiveTopology::TriangleList
    }
}

/// Which winding order faces the viewer.
#[derive(Clone, Copy, Debug, PartialEq, Eq, Structural)]
pub enum FrontFace {
    Ccw,
    Cw,
}

/// The winding named by an optional token; absent or unknown means `ccw`.
pub open spec fn front_face_of(token: Option<String>) -> FrontFace {
    match token {
        Some(t) => front_face_of_text(t@),
        None => FrontFace::Ccw,
    }
}

pub open spec fn front_face_of_text(s: Seq<char>) -> FrontFace {
    if s == "cw"@ {
        FrontFace::Cw
    } else {
        FrontFace::Ccw
    }
}

pub fn parse_front_face(token: &Option<String>) -> (r: FrontFace)
    ensures
        r == front_face_of(*token),
{
    if option_text_is(token, "cw") {
        FrontFace::Cw
    } else {
        FrontFace::Ccw
    }
}

/// A side of a primitive.
#[derive(Clone, Copy, Debug, PartialEq, Eq, Structural)]
pub enum Face {
    Front,
    Back,
}

/// The culled side named by an optional token; `none`, absent or unknown culls nothing.
pub open spec fn cull_mode_of(token: Option<String>) -> Option<Face> {
    match token {
        Some(t) => cull_mode_of_text(t@),
        None => None,
    }
}

pub open spec fn cull_mode_of_text(s: Seq<char>) -> Option<Face> {
    if s == "front"@ {
        Some(Face::Front)
    } else if s == "back"@ {
        Some(Face::Back)
    } else {
        None
    }
}

pub fn parse_cull_mode(token: &Option<String>) -> (r: Option<Face>)
    ensures
        r == cull_mode_of(*token),
{
    if option_text_is(token, "front") {
        Some(Face::Front)
    } else if option_text_is(token, "back") {
        Some(Face::Back)
    } else {
        None
    }
}

/// Whether a vertex buffer advances per vertex or per instance.
#[derive(Clone, Copy, Debug, PartialEq, Eq, Structural)]
pub enum VertexStepMode {
    Vertex,
    Instance,
}

/// The step mode named by an optional token; absent or unknown means `vertex`.
pub open spec fn step_mode_of(token: Option<String>) -> VertexStepMode {
    match token {
        Some(t) => step_mode_of_text(t@),
        None => VertexStepMode::Vertex,
    }
}

pub open spec fn step_mode_of_text(s: Seq<char>) -> VertexStepMode {
    if s == "instance"@ {
        VertexStepMode::Instance
    } else {
        VertexStepMode::Vertex
    }
}

pub fn parse_step_mode(token: &Option<String>) -> (r: VertexStepMode)
    ensures
        r == step_mode_of(*token),
{
    if option_text_is(token, "instance") {
        VertexStepMode::Instance
    } else {
        VertexStepMode::Vertex
    }
}

/// The dimensionality of a texture.
#[derive(Clone, Copy, Debug, PartialEq, Eq, Structural)]
pub enum TextureDimension {
    D1,
    D2,
    D3,
}

/// The dimension named by an optional token; absent or unknown means `2d`.
pub open spec fn texture_dimension_of(token: Option<String>) -> TextureDimension {
    match token {
        Some(t) => texture_dimension_of_text(t@),
        None => TextureDimension::D2,
    }
}

pub open spec fn texture_dimension_of_text(s: Seq<char>) -> TextureDimension {
    if s == "1d"@ {
        TextureDimension::D1
    } else if s == "3d"@ {
        TextureDimension::D3
    } else {
        TextureDimension::D2
    }
}

pub fn parse_texture_dimension(token: &Option<String>) -> (r: TextureDimension)
    ensures
        r == texture_dimension_of(*token),
{
    if option_text_is(token, "1d") {
        TextureDimension::D1
    } else if option_text_is(token, "3d") {
        TextureDimension::D3
    } else {
        TextureDimension::D2
    }
}

/// Kinds of query sets.
#[derive(Clone, Copy, Debug, PartialEq, Eq, Structural)]
pub enum QueryType {
    Timestamp,
    Occlusion,
}

/// The query kind named by a token, if it names one.
pub open spec fn query_type_of(s: Seq<char>) -> Option<QueryType> {
    if s == "timestamp"@ {
        Some(QueryType::Timestamp)
    } else if s == "occlusion"@ {
        Some(QueryType::Occlusion)
    } else {
        None
    }
}

pub fn parse_query_type(token: &str) -> (r: Option<QueryType>)
    ensures
        r == query_type_of(token@),
{
    if same_text(token, "timestamp") {
        Some(QueryType::Timestamp)
    } else if same_text(token, "occlusion") {
        Some(QueryType::Occlusion)
    } else {
        None
    }
}

/// Access asked for when mapping a buffer.
#[derive(Clone, Copy, Debug, PartialEq, Eq, Structural)]
pub enum MapAccess {
    Read,
    Write,
}

/// The access named by a token (`READ` or `WRITE`), if it names one.
pub open spec fn map_mode_of(s: Seq<char>) -> Option<MapAccess> {
    if s == "READ"@ {
        Some(MapAccess::Read)
    } else if s == "WRITE"@ {
        Some(MapAccess::Write)
    } else {
        None
    }
}

pub fn parse_map_mode(token: &str) -> (r: Option<MapAccess>)
    ensures
        r == map_mode_of(token@),
{
    if same_text(token, "READ") {
        Some(MapAccess::Read)
    } else if same_text(token, "WRITE") {
        Some(MapAccess::Write)
    } else {
        None
    }
}

/// How a shader sees a bound buffer.
#[derive(Clone, Copy, Debug, PartialEq, Eq, Structural)]
pub enum BufferBindingType {
    Uniform,
    Storage,
    ReadOnlyStorage,
}

/// The binding type named by a token; an unknown token means `uniform`.
pub open spec fn buffer_binding_type_of(s: Seq<char>) -> BufferBindingType {
    if s == "uniform"@ {
        BufferBindingType::Uniform
    } else if s == "storage"@ {
        BufferBindingType::Storage
    } else if s == "read-only-storage"@ {
        BufferBindingType::ReadOnlyStorage
    } else {
        BufferBindingType::Uniform
    }
}

pub fn parse_buffer_binding_type(token: &str) -> (r: BufferBindingType)
    ensures
        r == buffer_binding_type_of(token@),
{
    if same_text(token, "uniform") {
        BufferBindingType::Uniform
    } else if same_text(token, "storage") {
        BufferBindingType::Storage
    } else if same_text(token, "read-only-storage") {
        BufferBindingType::ReadOnlyStorage
    } else {
        BufferBindingType::Uniform
    }
}

/// Which adapter to prefer when several are present.
#[derive(Clone, Copy, Debug, PartialEq, Eq, Structural)]
pub enum PowerPreference {
    Default,
    LowPower,
    HighPerformance,
}

/// The preference named by an optional token; absent or unknown means no preference.
pub open spec fn power_preference_of(token: Option<String>) -> PowerPreference {
    match token {
        Some(t) => power_preference_of_text(t@),
        None => PowerPreference::Default,
    }
}

pub open spec fn power_preference_of_text(s: Seq<char>) -> PowerPreference {
    if s == "low-power"@ {
        PowerPreference::LowPower
    } else if s == "high-performance"@ {
        PowerPreference::HighPerformance
    } else {
        PowerPreference::Default
    }
}

pub fn parse_power_preference(token: &Option<String>) -> (r: PowerPreference)
    ensures
        r == power_preference_of(*token),
{
    if option_text_is(token, "low-power") {
        PowerPreference::LowPower
    } else if option_text_is(token, "high-performance") {
        PowerPreference::HighPerformance
    } else {
        PowerPreference::Default
    }
}

} // verus!
