//! Descriptions of the GPU objects that the passes need: bind group layout
//! entries, samplers, pipelines and attachments. Nothing here touches a
//! device; the renderer turns each description into the object it describes.

use crate::texture::{Texture, TextureFormat};
use vstd::prelude::*;

verus! {

/// The shader stages that can see a binding.
#[derive(Clone, Copy, Debug, PartialEq, Eq)]
pub struct ShaderStages {
    pub vertex: bool,
    pub fragment: bool,
    pub compute: bool,
}

impl ShaderStages {
    pub open spec fn spec_vertex_fragment() -> ShaderStages {
        ShaderStages { vertex: true, fragment: true, compute: false }
    }

    /// The union of two sets of stages.
    pub open spec fn spec_union(self, other: ShaderStages) -> ShaderStages {
        ShaderStages {
            vertex: self.vertex || other.vertex,
            fragment: self.fragment || other.fragment,
            compute: self.compute || other.compute,
        }
    }

    pub fn vertex() -> (s: ShaderStages)
        ensures
            s == (ShaderStages { vertex: true, fragment: false, compute: false }),
    {
        ShaderStages { vertex: true, fragment: false, compute: false }
    }

    pub fn compute() -> (s: ShaderStages)
        ensures
            s == (ShaderStages { vertex: false, fragment: false, compute: true }),
    {
        ShaderStages { vertex: false, fragment: false, compute: true }
    }

    pub fn vertex_fragment() -> (s: ShaderStages)
        ensures
            s == ShaderStages::spec_vertex_fragment(),
    {
        ShaderStages { vertex: true, fragment: true, compute: false }
    }

    /// The union of two sets of stages.
    pub fn union(self, other: ShaderStages) -> (s: ShaderStages)
        ensures
            s == self.spec_union(other),
    {
        ShaderStages {
            vertex: self.vertex || other.vertex,
            fragment: self.fragment || other.fragment,
            compute: self.compute || other.compute,
        }
    }
}

#[derive(Clone, Copy, Debug, PartialEq, Eq, Hash, Structural)]
pub enum SamplerBindingType {
    Filtering,
    NonFiltering,
    Comparison,
}

#[derive(Clone, Copy, Debug, PartialEq, Eq, Hash, Structural)]
pub enum TextureViewDimension {
    D1,
    D2,
    D2Array,
    Cube,
    CubeArray,
    D3,
}

#[derive(Clone, Copy, Debug, PartialEq, Eq, Hash, Structural)]
pub enum TextureSampleType {
    Float { filterable: bool },
    Depth,
    Sint,
    Uint,
}

/// The least size of a uniform binding: that of one of the renderer's own
/// uniform structures, or a number of bytes.
#[derive(Clone, Copy, Debug, PartialEq, Eq, Hash, Structural)]
pub enum UniformSize {
    ViewUniform,
    GpuLights,
    GlobalsUniform,
    /// The record of the particle commands of one frame.
    ParticleCommands,
    Bytes(u64),
}

#[derive(Clone, Copy, Debug, PartialEq, Eq, Hash, Structural)]
pub enum BindingType {
    /// A uniform buffer.
    Buffer { has_dynamic_offset: bool, min_binding_size: UniformSize },
    Sampler(SamplerBindingType),
    Texture { sample_type: TextureSampleType, view_dimension: TextureViewDimension, multisampled: bool },
}

/// One entry of a bind group layout. No entry of this crate is an array.
#[derive(Clone, Copy, Debug, PartialEq, Eq)]
pub struct BindGroupLayoutEntry {
    pub binding: u32,
    pub visibility: ShaderStages,
    pub ty: BindingType,
}

pub open spec fn spec_sampler_layout_entry(
    binding: u32,
    ty: SamplerBindingType,
) -> BindGroupLayoutEntry {
    BindGroupLayoutEntry {
        binding,
        visibility: ShaderStages::spec_vertex_fragment(),
        ty: BindingType::Sampler(ty),
    }
}

pub open spec fn spec_texture_layout_entry(
    binding: u32,
    dim: TextureViewDimension,
    sample_type: TextureSampleType,
) -> BindGroupLayoutEntry {
    BindGroupLayoutEntry {
        binding,
        visibility: ShaderStages::spec_vertex_fragment(),
        ty: BindingType::Texture { sample_type, view_dimension: dim, multisampled: false },
    }
}

pub open spec fn spec_ftexture_layout_entry(
    binding: u32,
    dim: TextureViewDimension,
) -> BindGroupLayoutEntry {
    spec_texture_layout_entry(binding, dim, TextureSampleType::Float { filterable: true })
}

pub open spec fn spec_utexture_layout_entry(
    binding: u32,
    dim: TextureViewDimension,
) -> BindGroupLayoutEntry {
    spec_texture_layout_entry(binding, dim, TextureSampleType::Uint)
}

pub open spec fn spec_view_layout_entry(binding: u32) -> BindGroupLayoutEntry {
    BindGroupLayoutEntry {
        binding,
        visibility: ShaderStages { vertex: true, fragment: true, compute: true },
        ty: BindingType::Buffer {
            has_dynamic_offset: true,
            min_binding_size: UniformSize::ViewUniform,
        },
    }
}

pub open spec fn spec_lights_layout_entry(binding: u32) -> BindGroupLayoutEntry {
    BindGroupLayoutEntry {
        binding,
        visibility: ShaderStages::spec_vertex_fragment(),
        ty: BindingType::Buffer {
            has_dynamic_offset: true,
            min_binding_size: UniformSize::GpuLights,
        },
    }
}

pub open spec fn spec_globals_layout_entry(binding: u32) -> BindGroupLayoutEntry {
    BindGroupLayoutEntry {
        binding,
        visibility: ShaderStages::spec_vertex_fragment(),
        ty: BindingType::Buffer {
            has_dynamic_offset: false,
            min_binding_size: UniformSize::GlobalsUniform,
        },
    }
}

pub open spec fn spec_uniform_layout_entry(binding: u32, min_size: u64) -> BindGroupLayoutEntry {
    BindGroupLayoutEntry {
        binding,
        visibility: ShaderStages::spec_vertex_fragment(),
        ty: BindingType::Buffer {
            has_dynamic_offset: false,
            min_binding_size: UniformSize::Bytes(min_size),
        },
    }
}

/// A filtering sampler, visible to the vertex and fragment stages.
pub fn fsampler_layout_entry(binding: u32) -> (entry: BindGroupLayoutEntry)
    ensures
        entry == spec_sampler_layout_entry(binding, SamplerBindingType::Filtering),
{
    BindGroupLayoutEntry {
        binding,
        visibility: ShaderStages::vertex_fragment(),
        ty: BindingType::Sampler(SamplerBindingType::Filtering),
    }
}

/// A comparison sampler, visible to the vertex and fragment stages.
pub fn csampler_layout_entry(binding: u32) -> (entry: BindGroupLayoutEntry)
    ensures
        entry == spec_sampler_layout_entry(binding, SamplerBindingType::Comparison),
{
    BindGroupLayoutEntry {
        binding,
        visibility: ShaderStages::vertex_fragment(),
        ty: BindingType::Sampler(SamplerBindingType::Comparison),
    }
}

/// A non-filtering sampler, visible to the vertex and fragment stages.
pub fn nsampler_layout_entry(binding: u32) -> (entry: BindGroupLayoutEntry)
    ensures
        entry == spec_sampler_layout_entry(binding, SamplerBindingType::NonFiltering),
{
    BindGroupLayoutEntry {
        binding,
        visibility: ShaderStages::vertex_fragment(),
        ty: BindingType::Sampler(SamplerBindingType::NonFiltering),
    }
}

/// A single-sampled texture, visible to the vertex and fragment stages.
pub fn texture_layout_entry(
    binding: u32,
    dim: TextureViewDimension,
    sample_type: TextureSampleType,
) -> (entry: BindGroupLayoutEntry)
    ensures
        entry == spec_texture_layout_entry(binding, dim, sample_type),
{
    BindGroupLayoutEntry {
        binding,
        visibility: ShaderStages::vertex_fragment(),
        ty: BindingType::Texture { sample_type, view_dimension: dim, multisampled: false },
    }
}

/// A texture of filterable floats.
pub fn ftexture_layout_entry(binding: u32, dim: TextureViewDimension) -> (entry:
    BindGroupLayoutEntry)
    ensures
        entry == spec_ftexture_layout_entry(binding, dim),
{
    texture_layout_entry(binding, dim, TextureSampleType::Float { filterable: true })
}

/// A depth texture.
pub fn dtexture_layout_entry(binding: u32, dim: TextureViewDimension) -> (entry:
    BindGroupLayoutEntry)
    ensures
        entry == spec_texture_layout_entry(binding, dim, TextureSampleType::Depth),
{
    texture_layout_entry(binding, dim, TextureSampleType::Depth)
}

/// A texture of unsigned integers.
pub fn utexture_layout_entry(binding: u32, dim: TextureViewDimension) -> (entry:
    BindGroupLayoutEntry)
    ensures
        entry == spec_utexture_layout_entry(binding, dim),
{
    texture_layout_entry(binding, dim, TextureSampleType::Uint)
}

/// A texture of signed integers.
pub fn stexture_layout_entry(binding: u32, dim: TextureViewDimension) -> (entry:
    BindGroupLayoutEntry)
    ensures
        entry == spec_texture_layout_entry(binding, dim, TextureSampleType::Sint),
{
    texture_layout_entry(binding, dim, TextureSampleType::Sint)
}

/// The view uniform: visible to every stage, bound with a dynamic offset.
pub fn view_layout_entry(binding: u32) -> (entry: BindGroupLayoutEntry)
    ensures
        entry == spec_view_layout_entry(binding),
{
    BindGroupLayoutEntry {
        binding,
        visibility: ShaderStages::vertex().union(ShaderStages::vertex_fragment()).union(
            ShaderStages::compute(),
        ),
        ty: BindingType::Buffer {
            has_dynamic_offset: true,
            min_binding_size: UniformSize::ViewUniform,
        },
    }
}

/// The lights uniform: visible to the vertex and fragment stages, bound with a
/// dynamic offset.
pub fn lights_layout_entry(binding: u32) -> (entry: BindGroupLayoutEntry)
    ensures
        entry == spec_lights_layout_entry(binding),
{
    BindGroupLayoutEntry {
        binding,
        visibility: ShaderStages::vertex().union(ShaderStages::vertex_fragment()),
        ty: BindingType::Buffer {
            has_dynamic_offset: true,
            min_binding_size: UniformSize::GpuLights,
        },
    }
}

/// The globals uniform: visible to the vertex and fragment stages.
pub fn globals_layout_entry(binding: u32) -> (entry: BindGroupLayoutEntry)
    ensures
        entry == spec_globals_layout_entry(binding),
{
    BindGroupLayoutEntry {
        binding,
        visibility: ShaderStages::vertex().union(ShaderStages::vertex_fragment()),
        ty: BindingType::Buffer {
            has_dynamic_offset: false,
            min_binding_size: UniformSize::GlobalsUniform,
        },
    }
}

/// A uniform of at least `min_size` bytes, visible to the vertex and fragment
/// stages.
pub fn uniform_layout_entry(binding: u32, min_size: u64) -> (entry: BindGroupLayoutEntry)
    requires
        min_size != 0,
    ensures
        entry == spec_uniform_layout_entry(binding, min_size),
{
    BindGroupLayoutEntry {
        binding,
        visibility: ShaderStages::vertex_fragment(),
        ty: BindingType::Buffer {
            has_dynamic_offset: false,
            min_binding_size: UniformSize::Bytes(min_size),
        },
    }
}

/// A bind group layout to create: its label and its entries.
#[derive(Clone, Debug, PartialEq, Eq)]
pub struct BindGroupLayoutDescriptor {
    pub label: &'static str,
    pub entries: Vec<BindGroupLayoutEntry>,
}

/// A `BindGroupLayoutDescriptor` as a mathematical value.
pub struct BindGroupLayoutDescriptorView {
    pub label: &'static str,
    pub entries: Seq<BindGroupLayoutEntry>,
}

impl View for BindGroupLayoutDescriptor {
    type V = BindGroupLayoutDescriptorView;

    open spec fn view(&self) -> BindGroupLayoutDescriptorView {
        BindGroupLayoutDescriptorView { label: self.label, entries: self.entries@ }
    }
}

#[derive(Clone, Copy, Debug, PartialEq, Eq, Hash, Structural)]
pub enum FilterMode {
    Nearest,
    Linear,
}

/// A sampler; what is not named here is the device's default.
#[derive(Clone, Copy, Debug, PartialEq, Eq, Hash, Structural)]
pub struct SamplerDescriptor {
    pub mag_filter: FilterMode,
    pub min_filter: FilterMode,
}

/// A sampler that interpolates between texels.
pub fn linear_sampler() -> (sampler: SamplerDescriptor)
    ensures
        sampler == (SamplerDescriptor {
            mag_filter: FilterMode::Linear,
            min_filter: FilterMode::Linear,
        }),
{
    SamplerDescriptor { mag_filter: FilterMode::Linear, min_filter: FilterMode::Linear }
}

/// A sampler that takes the nearest texel.
pub fn nearest_sampler() -> (sampler: SamplerDescriptor)
    ensures
        sampler == (SamplerDescriptor {
            mag_filter: FilterMode::Nearest,
            min_filter: FilterMode::Nearest,
        }),
{
    SamplerDescriptor { mag_filter: FilterMode::Nearest, min_filter: FilterMode::Nearest }
}

/// The uniforms that passes bind.
#[derive(Clone, Copy, Debug, PartialEq, Eq, Hash, Structural)]
pub enum Uniform {
    /// The view uniform, at the offset of the view that is drawn.
    View,
    /// Time and frame count.
    Globals,
    /// The lights of the view.
    Lights,
    /// The player's command of this frame.
    UnitCommand,
    /// The particle commands of this frame.
    ParticleCommands,
    /// Age and assignment of each particle system.
    ParticleSystems,
}

/// The samplers that passes bind.
#[derive(Clone, Copy, Debug, PartialEq, Eq, Hash, Structural)]
pub enum Sampler {
    /// The sampler of the unit pipelines.
    Unit,
    /// The sampler of the post-processing pipeline.
    PostProcess,
}

/// What a bind group entry binds.
#[derive(Clone, Copy, Debug, PartialEq, Eq, Hash, Structural)]
pub enum BindingResource {
    Uniform(Uniform),
    Sampler(Sampler),
    TextureView(Texture),
}

/// The binding of the view uniform.
pub fn view_binding() -> (resource: BindingResource)
    ensures
        resource == BindingResource::Uniform(Uniform::View),
{
    BindingResource::Uniform(Uniform::View)
}

/// The binding of the globals uniform.
pub fn globals_binding() -> (resource: BindingResource)
    ensures
        resource == BindingResource::Uniform(Uniform::Globals),
{
    BindingResource::Uniform(Uniform::Globals)
}

/// The binding of the lights uniform.
pub fn lights_binding() -> (resource: BindingResource)
    ensures
        resource == BindingResource::Uniform(Uniform::Lights),
{
    BindingResource::Uniform(Uniform::Lights)
}

/// A definition handed to the shader preprocessor: an unsigned constant under
/// a name.
#[derive(Clone, Copy, Debug, PartialEq, Eq)]
pub struct ShaderDefVal {
    pub name: &'static str,
    pub value: u32,
}

/// The definition of `name` as `value`.
pub fn shader_def_uint(name: &'static str, value: u32) -> (def: ShaderDefVal)
    ensures
        def == (ShaderDefVal { name, value }),
{
    ShaderDefVal { name, value }
}

/// The bind group layouts of the frame's passes.
#[derive(Clone, Copy, Debug, PartialEq, Eq, Hash, Structural)]
pub enum BindGroupLayout {
    UnitEvaluate,
    UnitUpdate,
    LargeUnitUpdate,
    UnitDraw,
    LargeUnitDraw,
    Minimap,
    MinimapDownsample,
    ParticlesUpdate,
    ParticlesDraw,
    PostProcess,
}

/// The render pipelines of the frame's passes.
#[derive(Clone, Copy, Debug, PartialEq, Eq, Hash, Structural)]
pub enum RenderPipeline {
    UnitEvaluate,
    UnitUpdate,
    LargeUnitUpdate,
    UnitDraw,
    UnitProjectileDraw,
    LargeUnitDraw,
    MinimapUpdate,
    MinimapDownsample,
    ParticlesUpdate,
    ParticlesDraw,
    PostProcess,
}

impl RenderPipeline {
    /// Whether the pipeline runs its fragment shader over the full-screen
    /// triangle, once for every texel of its targets. The others draw
    /// geometry with the depth test on.
    pub open spec fn spec_is_fullscreen(self) -> bool {
        match self {
            RenderPipeline::UnitEvaluate
            | RenderPipeline::UnitUpdate
            | RenderPipeline::LargeUnitUpdate
            | RenderPipeline::MinimapUpdate
            | RenderPipeline::MinimapDownsample
            | RenderPipeline::ParticlesUpdate
            | RenderPipeline::PostProcess => true,
            _ => false,
        }
    }

    /// Whether the pipeline runs over the full-screen triangle.
    pub fn is_fullscreen(self) -> (fullscreen: bool)
        ensures
            fullscreen == self.spec_is_fullscreen(),
    {
        match self {
            RenderPipeline::UnitEvaluate
            | RenderPipeline::UnitUpdate
            | RenderPipeline::LargeUnitUpdate
            | RenderPipeline::MinimapUpdate
            | RenderPipeline::MinimapDownsample
            | RenderPipeline::ParticlesUpdate
            | RenderPipeline::PostProcess => true,
            _ => false,
        }
    }
}

/// Which colour channels a target lets through.
#[derive(Clone, Copy, Debug, PartialEq, Eq)]
pub struct ColorWrites {
    pub red: bool,
    pub green: bool,
    pub blue: bool,
    pub alpha: bool,
}

/// How what is drawn is combined with what is there.
#[derive(Clone, Copy, Debug, PartialEq, Eq, Hash, Structural)]
pub enum BlendState {
    Replace,
    AlphaBlending,
    PremultipliedAlphaBlending,
}

/// One colour target of a pipeline. Without a blend state what is drawn
/// replaces what is there.
#[derive(Clone, Copy, Debug, PartialEq, Eq)]
pub struct ColorTargetState {
    pub format: TextureFormat,
    pub blend: Option<BlendState>,
    pub write_mask: ColorWrites,
}

#[derive(Clone, Copy, Debug, PartialEq, Eq, Hash, Structural)]
pub enum CompareFunction {
    Never,
    Less,
    Equal,
    LessEqual,
    Greater,
    NotEqual,
    GreaterEqual,
    Always,
}

/// The depth test of a pipeline, without stencil and without bias.
#[derive(Clone, Copy, Debug, PartialEq, Eq)]
pub struct DepthStencilState {
    pub format: TextureFormat,
    pub depth_write_enabled: bool,
    pub depth_compare: CompareFunction,
}

/// A render pipeline to queue for compilation. Vertex and fragment stage come
/// from the same shader and get the same definitions.
#[derive(Clone, Debug, PartialEq, Eq)]
pub struct RenderPipelineDescriptor {
    pub label: &'static str,
    pub layout: BindGroupLayout,
    /// Path of the shader asset.
    pub shader: &'static str,
    pub shader_defs: Vec<ShaderDefVal>,
    /// Entry point of the vertex stage in `shader`; `None` for the renderer's
    /// own full-screen triangle.
    pub vertex_entry_point: Option<&'static str>,
    pub fragment_entry_point: &'static str,
    pub targets: Vec<Option<ColorTargetState>>,
    pub depth_stencil: Option<DepthStencilState>,
}

/// A `RenderPipelineDescriptor` as a mathematical value.
pub struct RenderPipelineDescriptorView {
    pub label: &'static str,
    pub layout: BindGroupLayout,
    pub shader: &'static str,
    pub shader_defs: Seq<ShaderDefVal>,
    pub vertex_entry_point: Option<&'static str>,
    pub fragment_entry_point: &'static str,
    pub targets: Seq<Option<ColorTargetState>>,
    pub depth_stencil: Option<DepthStencilState>,
}

impl View for RenderPipelineDescriptor {
    type V = RenderPipelineDescriptorView;

    open spec fn view(&self) -> RenderPipelineDescriptorView {
        RenderPipelineDescriptorView {
            label: self.label,
            layout: self.layout,
            shader: self.shader,
            shader_defs: self.shader_defs@,
            vertex_entry_point: self.vertex_entry_point,
            fragment_entry_point: self.fragment_entry_point,
            targets: self.targets@,
            depth_stencil: self.depth_stencil,
        }
    }
}

pub open spec fn spec_opaque_target(format: TextureFormat) -> Option<ColorTargetState> {
    Some(
        ColorTargetState {
            format,
            blend: None,
            write_mask: ColorWrites { red: true, green: true, blue: true, alpha: true },
        },
    )
}

pub open spec fn spec_basic_fullscreen_tri_pipeline(
    label: &'static str,
    shader: &'static str,
    layout: BindGroupLayout,
    shader_defs: Seq<ShaderDefVal>,
    targets: Seq<Option<ColorTargetState>>,
) -> RenderPipelineDescriptorView {
    RenderPipelineDescriptorView {
        label,
        layout,
        shader,
        shader_defs,
        vertex_entry_point: None,
        fragment_entry_point: "fragment",
        targets,
        depth_stencil: None,
    }
}

pub open spec fn spec_basic_opaque_pipeline(
    label: &'static str,
    shader: &'static str,
    layout: BindGroupLayout,
    shader_defs: Seq<ShaderDefVal>,
    targets: Seq<Option<ColorTargetState>>,
) -> RenderPipelineDescriptorView {
    RenderPipelineDescriptorView {
        label,
        layout,
        shader,
        shader_defs,
        vertex_entry_point: Some("vertex"),
        fragment_entry_point: "fragment",
        targets,
        depth_stencil: Some(
            DepthStencilState {
                format: TextureFormat::Core3dDepth,
                depth_write_enabled: true,
                depth_compare: CompareFunction::GreaterEqual,
            },
        ),
    }
}

/// A pipeline that runs the fragment shader `shader` once for every texel of
/// the targets, over the renderer's full-screen triangle, with no depth test.
pub fn basic_fullscreen_tri_pipeline(
    label: &'static str,
    shader: &'static str,
    layout: BindGroupLayout,
    shader_defs: Vec<ShaderDefVal>,
    targets: Vec<Option<ColorTargetState>>,
) -> (descriptor: RenderPipelineDescriptor)
    ensures
        descriptor@ == spec_basic_fullscreen_tri_pipeline(
            label,
            shader,
            layout,
            shader_defs@,
            targets@,
        ),
{
    RenderPipelineDescriptor {
        label,
        layout,
        shader,
        shader_defs,
        vertex_entry_point: None,
        fragment_entry_point: "fragment",
        targets,
        depth_stencil: None,
    }
}

/// A pipeline that draws opaque geometry with the vertex and fragment stages
/// of `shader`: depth is written, and a fragment passes where its depth is
/// greater than or equal to what the reversed depth buffer holds.
pub fn basic_opaque_pipeline(
    label: &'static str,
    shader: &'static str,
    layout: BindGroupLayout,
    shader_defs: Vec<ShaderDefVal>,
    targets: Vec<Option<ColorTargetState>>,
) -> (descriptor: RenderPipelineDescriptor)
    ensures
        descriptor@ == spec_basic_opaque_pipeline(label, shader, layout, shader_defs@, targets@),
{
    RenderPipelineDescriptor {
        label,
        layout,
        shader,
        shader_defs,
        vertex_entry_point: Some("vertex"),
        fragment_entry_point: "fragment",
        targets,
        depth_stencil: Some(
            DepthStencilState {
                format: TextureFormat::Core3dDepth,
                depth_write_enabled: true,
                depth_compare: CompareFunction::GreaterEqual,
            },
        ),
    }
}

/// A colour target of format `format` that is written in every channel and
/// never blended.
pub fn opaque_target(format: TextureFormat) -> (target: Option<ColorTargetState>)
    ensures
        target == spec_opaque_target(format),
{
    Some(
        ColorTargetState {
            format,
            blend: None,
            write_mask: ColorWrites { red: true, green: true, blue: true, alpha: true },
        },
    )
}

/// What happens to an attachment when a pass begins.
#[derive(Clone, Copy, Debug, PartialEq, Eq, Hash, Structural)]
pub enum LoadOp {
    /// It is cleared to zero in every channel.
    Clear,
    /// It keeps what it holds.
    Load,
}

#[derive(Clone, Copy, Debug, PartialEq, Eq, Hash, Structural)]
pub struct Operations {
    pub load: LoadOp,
    pub store: bool,
}

/// A colour attachment of a pass, without a resolve target.
#[derive(Clone, Copy, Debug, PartialEq, Eq, Hash, Structural)]
pub struct RenderPassColorAttachment {
    pub view: Texture,
    pub ops: Operations,
}

/// The depth attachment of a pass.
#[derive(Clone, Copy, Debug, PartialEq, Eq, Hash, Structural)]
pub struct RenderPassDepthStencilAttachment {
    pub view: Texture,
    pub depth_ops: Option<Operations>,
    pub stencil_ops: Option<Operations>,
}

pub open spec fn spec_load_color_attachment(view: Texture) -> Option<RenderPassColorAttachment> {
    Some(RenderPassColorAttachment { view, ops: Operations { load: LoadOp::Load, store: true } })
}

pub open spec fn spec_clear_color_attachment(view: Texture) -> Option<RenderPassColorAttachment> {
    Some(RenderPassColorAttachment { view, ops: Operations { load: LoadOp::Clear, store: true } })
}

pub open spec fn spec_load_depth_attachment(view: Texture) -> Option<
    RenderPassDepthStencilAttachment,
> {
    Some(
        RenderPassDepthStencilAttachment {
            view,
            depth_ops: Some(Operations { load: LoadOp::Load, store: true }),
            stencil_ops: None,
        },
    )
}

/// `view` as a colour attachment that keeps its contents and stores what is
/// drawn.
pub fn load_color_attachment(view: Texture) -> (attachment: Option<RenderPassColorAttachment>)
    ensures
        attachment == spec_load_color_attachment(view),
{
    Some(RenderPassColorAttachment { view, ops: Operations { load: LoadOp::Load, store: true } })
}

/// `view` as a colour attachment that is cleared first and stores what is
/// drawn.
pub fn clear_color_attachment(view: Texture) -> (attachment: Option<RenderPassColorAttachment>)
    ensures
        attachment == spec_clear_color_attachment(view),
{
    Some(RenderPassColorAttachment { view, ops: Operations { load: LoadOp::Clear, store: true } })
}

/// `view` as a depth attachment that keeps its contents and stores what is
/// drawn; the stencil aspect is left alone.
pub fn load_depth_attachment(view: Texture) -> (attachment: Option<
    RenderPassDepthStencilAttachment,
>)
    ensures
        attachment == spec_load_depth_attachment(view),
{
    Some(
        RenderPassDepthStencilAttachment {
            view,
            depth_ops: Some(Operations { load: LoadOp::Load, store: true }),
            stencil_ops: None,
        },
    )
}

/// What a buffer may be used for.
#[derive(Clone, Copy, Debug, PartialEq, Eq)]
pub struct BufferUsages {
    pub uniform: bool,
    pub copy_dst: bool,
}

/// A buffer to create with its contents.
#[derive(Clone, Debug, PartialEq, Eq)]
pub struct BufferInitDescriptor {
    pub label: &'static str,
    pub contents: Vec<u8>,
    pub usage: BufferUsages,
}

/// Byte `k` of `word`, counted from the least significant.
pub open spec fn spec_le_byte(word: u32, k: int) -> u8 {
    if k == 0 {
        (word % 0x100) as u8
    } else if k == 1 {
        (word / 0x100 % 0x100) as u8
    } else if k == 2 {
        (word / 0x1_0000 % 0x100) as u8
    } else {
        (word / 0x100_0000) as u8
    }
}

/// The words one after the other, each as four bytes, least significant first.
pub open spec fn spec_le_bytes(words: Seq<u32>) -> Seq<u8> {
    Seq::new(4 * words.len(), |i: int| spec_le_byte(words[i / 4], i % 4))
}

/// A uniform buffer that holds `words`, each as four bytes, least significant
/// first, and that can be copied into.
pub fn uniform_buffer(words: &Vec<u32>, label: &'static str) -> (buffer: BufferInitDescriptor)
    ensures
        buffer.label == label,
        buffer.contents@ == spec_le_bytes(words@),
        buffer.usage == (BufferUsages { uniform: true, copy_dst: true }),
{
    let mut contents: Vec<u8> = Vec::new();
    let mut i: usize = 0;
    while i < words.len()
        invariant
            i <= words.len(),
            contents.len() == 4 * i,
            forall|j: int|
                0 <= j < 4 * i ==> contents[j] == spec_le_byte(#[trigger] words[j / 4], j % 4),
        decreases words.len() - i,
    {
        let w: u32 = words[i];
        assert(w & 0xff == w % 0x100 && (w >> 8) & 0xff == w / 0x100 % 0x100 && (w >> 16) & 0xff
            == w / 0x1_0000 % 0x100 && (w >> 24) == w / 0x100_0000 && (w >> 24) < 0x100)
            by (bit_vector);
        contents.push((w & 0xff) as u8);
        contents.push(((w >> 8) & 0xff) as u8);
        contents.push(((w >> 16) & 0xff) as u8);
        contents.push((w >> 24) as u8);
        i = i + 1;
    }
    assert(contents@ =~= spec_le_bytes(words@));
    BufferInitDescriptor { label, contents, usage: BufferUsages { uniform: true, copy_dst: true } }
}

} // verus!
