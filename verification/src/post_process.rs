//! The composite that lays the minimap over the finished colour buffer.

use crate::bind_group_utils::{
    basic_fullscreen_tri_pipeline, fsampler_layout_entry, ftexture_layout_entry, globals_binding,
    globals_layout_entry, load_color_attachment, nearest_sampler, opaque_target,
    spec_basic_fullscreen_tri_pipeline, spec_ftexture_layout_entry, spec_globals_layout_entry,
    spec_load_color_attachment, spec_opaque_target, spec_sampler_layout_entry,
    spec_utexture_layout_entry, spec_view_layout_entry, utexture_layout_entry, view_binding,
    view_layout_entry, BindGroupLayout, BindGroupLayoutDescriptor, BindGroupLayoutDescriptorView,
    BindGroupLayoutEntry, BindingResource, ColorTargetState, FilterMode, RenderPipeline,
    RenderPipelineDescriptor, RenderPipelineDescriptorView, Sampler, SamplerBindingType,
    SamplerDescriptor, TextureViewDimension, Uniform,
};
use crate::frame::FrameContext;
use crate::minimap::MinimapTextures;
use crate::render_pass::{BindGroupEntry, Draw, RenderPass, RenderPassView};
use crate::texture::{Texture, TextureFormat};
use crate::units::{shader_defs, spec_shader_defs, UnitsDataTextures, FULLSCREEN_VERTICES};
use vstd::prelude::*;

verus! {

/// What the post-processing node needs from the device.
#[derive(Clone, Debug, PartialEq, Eq)]
pub struct PostProcessPipeline {
    pub layout: BindGroupLayoutDescriptor,
    pub sampler: SamplerDescriptor,
    pub pipeline: RenderPipelineDescriptor,
}

impl PostProcessPipeline {
    pub open spec fn spec_layout() -> BindGroupLayoutDescriptorView {
        BindGroupLayoutDescriptorView {
            label: "post_process_bind_group_layout",
            entries: seq![
                spec_view_layout_entry(0),
                spec_globals_layout_entry(9),
                spec_ftexture_layout_entry(101, TextureViewDimension::D2),
                spec_sampler_layout_entry(102, SamplerBindingType::Filtering),
                spec_utexture_layout_entry(103, TextureViewDimension::D2),
                spec_utexture_layout_entry(104, TextureViewDimension::D2),
                spec_utexture_layout_entry(105, TextureViewDimension::D2),
            ],
        }
    }

    pub open spec fn spec_pipeline() -> RenderPipelineDescriptorView {
        spec_basic_fullscreen_tri_pipeline(
            "post_process_pipeline",
            "shaders/post_processing.wgsl",
            BindGroupLayout::PostProcess,
            spec_shader_defs(),
            seq![spec_opaque_target(TextureFormat::Rgba16Float)],
        )
    }

    /// The layout, the sampler and the pipeline of the post-processing node.
    /// The shader is compiled with the definitions of the unit shaders.
    pub fn new() -> (pipeline: PostProcessPipeline)
        ensures
            pipeline.layout@ == PostProcessPipeline::spec_layout(),
            pipeline.sampler == (SamplerDescriptor {
                mag_filter: FilterMode::Nearest,
                min_filter: FilterMode::Nearest,
            }),
            pipeline.pipeline@ == PostProcessPipeline::spec_pipeline(),
    {
        let mut entries: Vec<BindGroupLayoutEntry> = Vec::new();
        entries.push(view_layout_entry(0));
        entries.push(globals_layout_entry(9));
        entries.push(ftexture_layout_entry(101, TextureViewDimension::D2));
        entries.push(fsampler_layout_entry(102));
        entries.push(utexture_layout_entry(103, TextureViewDimension::D2));
        entries.push(utexture_layout_entry(104, TextureViewDimension::D2));
        entries.push(utexture_layout_entry(105, TextureViewDimension::D2));
        assert(entries@ =~= PostProcessPipeline::spec_layout().entries);
        let layout = BindGroupLayoutDescriptor { label: "post_process_bind_group_layout", entries };

        let sampler = nearest_sampler();

        let mut targets: Vec<Option<ColorTargetState>> = Vec::new();
        targets.push(opaque_target(TextureFormat::Rgba16Float));
        assert(targets@ =~= seq![spec_opaque_target(TextureFormat::Rgba16Float)]);
        let pipeline = basic_fullscreen_tri_pipeline(
            "post_process_pipeline",
            "shaders/post_processing.wgsl",
            BindGroupLayout::PostProcess,
            shader_defs(),
            targets,
        );

        PostProcessPipeline { layout, sampler, pipeline }
    }
}

/// The node that composites the overlay.
#[derive(Clone, Copy, Debug, Default, PartialEq, Eq)]
pub struct PostProcessNode;

impl PostProcessNode {
    pub const NAME: &'static str = "game_post_process";

    /// Whether the node has all it needs: its pipeline compiled, the minimap
    /// and the units' state textures.
    pub open spec fn spec_can_run(context: FrameContext) -> bool {
        &&& context.pipeline_cache.spec_is_ready(RenderPipeline::PostProcess)
        &&& context.minimap_textures.is_some()
        &&& context.units_data_textures.is_some()
    }

    /// The composite reads the colour buffer, the finest and the coarsest
    /// minimap level and the large units' new state, and writes the other
    /// colour buffer of the view.
    pub open spec fn spec_pass(units: UnitsDataTextures, minimap: MinimapTextures) -> RenderPassView {
        RenderPassView {
            label: "post_process_pass",
            bind_group_label: "post_process_bind_group",
            layout: BindGroupLayout::PostProcess,
            entries: seq![
                BindGroupEntry { binding: 0, resource: BindingResource::Uniform(Uniform::View) },
                BindGroupEntry { binding: 9, resource: BindingResource::Uniform(Uniform::Globals) },
                BindGroupEntry {
                    binding: 101,
                    resource: BindingResource::TextureView(Texture::PostProcessSource),
                },
                BindGroupEntry {
                    binding: 102,
                    resource: BindingResource::Sampler(Sampler::PostProcess),
                },
                BindGroupEntry {
                    binding: 103,
                    resource: BindingResource::TextureView(minimap.minimap_tex),
                },
                BindGroupEntry {
                    binding: 104,
                    resource: BindingResource::TextureView(minimap.minimap_sm3_tex),
                },
                BindGroupEntry {
                    binding: 105,
                    resource: BindingResource::TextureView(units.large_unit_b),
                },
            ],
            color_attachments: seq![spec_load_color_attachment(Texture::PostProcessDestination)],
            depth_stencil_attachment: None,
            draws: seq![Draw { pipeline: RenderPipeline::PostProcess, vertices: 3 }],
        }
    }

    /// The one pass of the node, or none where anything is missing.
    pub open spec fn spec_run(context: FrameContext) -> Seq<RenderPassView> {
        if PostProcessNode::spec_can_run(context) {
            seq![
                PostProcessNode::spec_pass(
                    context.units_data_textures.unwrap(),
                    context.minimap_textures.unwrap(),
                ),
            ]
        } else {
            seq![]
        }
    }

    /// The pass to record for the overlay in this frame, if it can be drawn.
    pub fn run(&self, context: &FrameContext) -> (passes: Vec<RenderPass>)
        ensures
            passes.deep_view() == PostProcessNode::spec_run(*context),
    {
        let mut passes: Vec<RenderPass> = Vec::new();
        let Some(pipeline) = context.pipeline_cache.get_render_pipeline(
            RenderPipeline::PostProcess,
        ) else {
            assert(passes.deep_view() =~= PostProcessNode::spec_run(*context));
            return passes;
        };
        let resources = (&context.minimap_textures, &context.units_data_textures);
        let (Some(minimap_textures), Some(unit_data_texture)) = resources else {
            assert(passes.deep_view() =~= PostProcessNode::spec_run(*context));
            return passes;
        };
        let mut entries: Vec<BindGroupEntry> = Vec::new();
        entries.push(BindGroupEntry { binding: 0, resource: view_binding() });
        entries.push(BindGroupEntry { binding: 9, resource: globals_binding() });
        entries.push(
            BindGroupEntry {
                binding: 101,
                resource: BindingResource::TextureView(Texture::PostProcessSource),
            },
        );
        entries.push(
            BindGroupEntry { binding: 102, resource: BindingResource::Sampler(Sampler::PostProcess) },
        );
        entries.push(
            BindGroupEntry {
                binding: 103,
                resource: BindingResource::TextureView(minimap_textures.minimap_tex),
            },
        );
        entries.push(
            BindGroupEntry {
                binding: 104,
                resource: BindingResource::TextureView(minimap_textures.minimap_sm3_tex),
            },
        );
        entries.push(
            BindGroupEntry {
                binding: 105,
                resource: BindingResource::TextureView(unit_data_texture.large_unit_b),
            },
        );
        assert(entries@ =~= PostProcessNode::spec_pass(
            *unit_data_texture,
            *minimap_textures,
        ).entries);
        let mut color_attachments = Vec::new();
        color_attachments.push(load_color_attachment(Texture::PostProcessDestination));
        assert(color_attachments@ =~= seq![
            spec_load_color_attachment(Texture::PostProcessDestination),
        ]);
        let mut draws = Vec::new();
        draws.push(Draw { pipeline, vertices: FULLSCREEN_VERTICES });
        assert(draws@ =~= seq![Draw { pipeline: RenderPipeline::PostProcess, vertices: 3 }]);
        passes.push(
            RenderPass {
                label: "post_process_pass",
                bind_group_label: "post_process_bind_group",
                layout: BindGroupLayout::PostProcess,
                entries,
                color_attachments,
                depth_stencil_attachment: None,
                draws,
            },
        );
        assert(passes.deep_view() =~= PostProcessNode::spec_run(*context));
        passes
    }
}

} // verus!
