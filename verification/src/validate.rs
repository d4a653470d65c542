//! Passes held against the layouts and pipelines they are recorded with. A
//! bind group that does not fit its layout, or a pipeline whose targets are
//! not those of the pass, is a mistake in the program and not a condition of
//! the frame; it is proved here, once, that the frame's passes hold none.

use crate::bind_group_utils::{
    BindGroupLayout, BindGroupLayoutDescriptor, BindGroupLayoutEntry, BindingResource,
    BindingType, ColorTargetState, RenderPipeline, RenderPipelineDescriptor,
    RenderPipelineDescriptorView, Uniform,
};
use crate::frame::{spec_plan_frame, FrameContext};
use crate::minimap::{
    lemma_downscale_reads_writes, lemma_generate_reads_writes, MinimapNode, MinimapPipeline,
};
use crate::particles::{spec_layout_entries, ParticlesNode, ParticlesPipeline};
use crate::post_process::{PostProcessNode, PostProcessPipeline};
use crate::render_pass::{RenderPass, RenderPassView};
use crate::texture::{Texture, TextureFormat};
use crate::units::{
    lemma_unit_passes_hazard_free, spec_simulation_layout_entries, spec_unit_layout_entries,
    UnitPipeline, UnitsNode,
};
use vstd::prelude::*;

verus! {

/// Whether `resource` is of the kind that `ty` asks for: a uniform for a
/// buffer, a sampler for a sampler, a texture for a texture.
pub open spec fn spec_fits(resource: BindingResource, ty: BindingType) -> bool {
    match resource {
        BindingResource::Uniform(_) => ty is Buffer,
        BindingResource::Sampler(_) => ty is Sampler,
        BindingResource::TextureView(_) => ty is Texture,
    }
}

/// Whether `resource` is of the kind that `ty` asks for.
pub fn fits(resource: BindingResource, ty: BindingType) -> (fit: bool)
    ensures
        fit == spec_fits(resource, ty),
{
    match resource {
        BindingResource::Uniform(_) => match ty {
            BindingType::Buffer { .. } => true,
            _ => false,
        },
        BindingResource::Sampler(_) => match ty {
            BindingType::Sampler(_) => true,
            _ => false,
        },
        BindingResource::TextureView(_) => match ty {
            BindingType::Texture { .. } => true,
            _ => false,
        },
    }
}

/// The entries of each layout.
pub open spec fn spec_layout_of(layout: BindGroupLayout) -> Seq<BindGroupLayoutEntry> {
    match layout {
        BindGroupLayout::UnitEvaluate
        | BindGroupLayout::UnitUpdate
        | BindGroupLayout::LargeUnitUpdate => spec_simulation_layout_entries(),
        BindGroupLayout::UnitDraw | BindGroupLayout::LargeUnitDraw => spec_unit_layout_entries(),
        BindGroupLayout::Minimap => MinimapPipeline::spec_update_layout().entries,
        BindGroupLayout::MinimapDownsample => MinimapPipeline::spec_downscale_layout().entries,
        BindGroupLayout::ParticlesUpdate | BindGroupLayout::ParticlesDraw => spec_layout_entries(),
        BindGroupLayout::PostProcess => PostProcessPipeline::spec_layout().entries,
    }
}

/// The descriptor of each pipeline.
pub open spec fn spec_pipeline_of(pipeline: RenderPipeline) -> RenderPipelineDescriptorView {
    match pipeline {
        RenderPipeline::UnitEvaluate => UnitPipeline::spec_evaluate_pipeline(),
        RenderPipeline::UnitUpdate => UnitPipeline::spec_update_pipeline(),
        RenderPipeline::LargeUnitUpdate => UnitPipeline::spec_large_update_pipeline(),
        RenderPipeline::UnitDraw => UnitPipeline::spec_draw_pipeline(),
        RenderPipeline::UnitProjectileDraw => UnitPipeline::spec_draw_projectiles_pipeline(),
        RenderPipeline::LargeUnitDraw => UnitPipeline::spec_large_draw_pipeline(),
        RenderPipeline::MinimapUpdate => MinimapPipeline::spec_update_pipeline(),
        RenderPipeline::MinimapDownsample => MinimapPipeline::spec_minimap_downscale_pipeline(),
        RenderPipeline::ParticlesUpdate => ParticlesPipeline::spec_update_pipeline(),
        RenderPipeline::ParticlesDraw => ParticlesPipeline::spec_draw_pipeline(),
        RenderPipeline::PostProcess => PostProcessPipeline::spec_pipeline(),
    }
}

/// The format of a colour target, if there is a target.
pub open spec fn spec_target_format(target: Option<ColorTargetState>) -> Option<TextureFormat> {
    match target {
        Some(state) => Some(state.format),
        None => None,
    }
}

/// The format of the texture of an attachment, if there is an attachment
/// and the format of its texture is known.
pub open spec fn spec_attachment_format(target: Option<Texture>) -> Option<TextureFormat> {
    match target {
        Some(texture) => texture.spec_format(),
        None => None,
    }
}

impl RenderPassView {
    /// Whether the bind group of the pass fits a layout of these entries:
    /// entry for entry the same binding number, and a resource of the kind
    /// that the layout asks for.
    pub open spec fn fits_layout(self, layout: Seq<BindGroupLayoutEntry>) -> bool {
        &&& self.entries.len() == layout.len()
        &&& forall|i: int|
            0 <= i < layout.len() ==> (#[trigger] self.entries[i]).binding == layout[i].binding
                && spec_fits(self.entries[i].resource, layout[i].ty)
    }

    /// Whether the attachments of the pass are what a pipeline of this
    /// descriptor draws into: as many colour attachments as the pipeline has
    /// targets, each of the target's format, and a depth attachment of the
    /// format of the depth test exactly where the pipeline has one.
    pub open spec fn fits_pipeline(self, descriptor: RenderPipelineDescriptorView) -> bool {
        &&& self.color_attachments.len() == descriptor.targets.len()
        &&& forall|i: int|
            0 <= i < descriptor.targets.len() ==> spec_attachment_format(
                #[trigger] self.color_target(i),
            ) == spec_target_format(descriptor.targets[i]) && self.color_target(i).is_some()
        &&& match descriptor.depth_stencil {
            Some(state) => spec_attachment_format(self.depth_target()) == Some(state.format),
            None => self.depth_target().is_none(),
        }
    }

    /// Whether the pass fits its layout, each of its pipelines was made for
    /// that layout, and its attachments fit each of its pipelines.
    pub open spec fn consistent(self) -> bool {
        &&& self.fits_layout(spec_layout_of(self.layout))
        &&& forall|i: int|
            0 <= i < self.draws.len() ==> spec_pipeline_of(
                (#[trigger] self.draws[i]).pipeline,
            ).layout == self.layout && self.fits_pipeline(spec_pipeline_of(self.draws[i].pipeline))
    }
}

impl RenderPass {
    /// Whether the bind group of the pass fits `layout`.
    pub fn fits_layout(&self, layout: &BindGroupLayoutDescriptor) -> (fit: bool)
        ensures
            fit == self.deep_view().fits_layout(layout@.entries),
    {
        if self.entries.len() != layout.entries.len() {
            return false;
        }
        let mut i: usize = 0;
        while i < self.entries.len()
            invariant
                i <= self.entries.len(),
                self.entries.len() == layout.entries.len(),
                forall|j: int|
                    0 <= j < i ==> (#[trigger] self.entries[j]).binding == layout.entries[j].binding
                        && spec_fits(self.entries[j].resource, layout.entries[j].ty),
            decreases self.entries.len() - i,
        {
            if self.entries[i].binding != layout.entries[i].binding || !fits(
                self.entries[i].resource,
                layout.entries[i].ty,
            ) {
                assert(!(self.deep_view().entries[i as int].binding == layout@.entries[i as int].binding
                    && spec_fits(
                    self.deep_view().entries[i as int].resource,
                    layout@.entries[i as int].ty,
                )));
                return false;
            }
            i = i + 1;
        }
        true
    }

    /// Whether the attachments of the pass are what a pipeline of
    /// `descriptor` draws into.
    pub fn fits_pipeline(&self, descriptor: &RenderPipelineDescriptor) -> (fit: bool)
        ensures
            fit == self.deep_view().fits_pipeline(descriptor@),
    {
        if self.color_attachments.len() != descriptor.targets.len() {
            return false;
        }
        let mut i: usize = 0;
        while i < self.color_attachments.len()
            invariant
                i <= self.color_attachments.len(),
                self.color_attachments.len() == descriptor.targets.len(),
                forall|j: int|
                    0 <= j < i ==> spec_attachment_format(
                        #[trigger] self.deep_view().color_target(j),
                    ) == spec_target_format(descriptor.targets[j])
                        && self.deep_view().color_target(j).is_some(),
            decreases self.color_attachments.len() - i,
        {
            let target_format = match descriptor.targets[i] {
                Some(state) => Some(state.format),
                None => None,
            };
            let fit = match self.color_attachments[i] {
                Some(attachment) => {
                    let format = attachment.view.format();
                    match (format, target_format) {
                        (Some(a), Some(b)) => a == b,
                        (None, None) => true,
                        _ => false,
                    }
                },
                None => false,
            };
            if !fit {
                assert(!(spec_attachment_format(self.deep_view().color_target(i as int))
                    == spec_target_format(descriptor@.targets[i as int])
                    && self.deep_view().color_target(i as int).is_some()));
                return false;
            }
            i = i + 1;
        }
        match descriptor.depth_stencil {
            Some(state) => match self.depth_stencil_attachment {
                Some(attachment) => match attachment.view.format() {
                    Some(format) => format == state.format,
                    None => false,
                },
                None => false,
            },
            None => self.depth_stencil_attachment.is_none(),
        }
    }
}

/// Every pass of a frame fits the layout it is recorded with and the
/// pipelines it draws with, whichever frame it is and whatever is missing.
pub proof fn lemma_frame_is_consistent(context: FrameContext, stage: int, i: int)
    requires
        context.wf(),
        0 <= stage < 5,
        0 <= i < spec_stage(context, stage).len(),
    ensures
        spec_stage(context, stage)[i].consistent(),
{
    let pass = spec_stage(context, stage)[i];
    if stage == 0 || stage == 2 {
        assert(UnitsNode::spec_can_run(context));
        let all = UnitsNode::spec_run(context);
        let k = if stage == 0 {
            i
        } else {
            i + 3
        };
        assert(pass == all[k]);
        if stage == 0 {
            assert(pass.entries.len() == 9);
            assert(pass.fits_layout(spec_simulation_layout_entries()));
        } else {
            assert(pass.entries.len() == 11);
            assert(pass.fits_layout(spec_unit_layout_entries()));
        }
        assert(pass.consistent());
    } else if stage == 1 {
        assert(MinimapNode::spec_can_run(context));
        assert(pass.entries.len() == if i == 0 {
            2int
        } else {
            1int
        });
        assert(pass.consistent());
    } else if stage == 3 {
        assert(ParticlesNode::spec_can_run(context));
        assert(pass.entries.len() == 5);
        assert(pass.consistent());
    } else {
        assert(PostProcessNode::spec_can_run(context));
        assert(pass.entries.len() == 7);
        assert(pass.consistent());
    }
}

/// The passes of stage number `stage` of the frame: simulation, minimap,
/// draw, particles, overlay.
pub open spec fn spec_stage(context: FrameContext, stage: int) -> Seq<RenderPassView> {
    if stage == 0 {
        spec_plan_frame(context).0
    } else if stage == 1 {
        spec_plan_frame(context).1
    } else if stage == 2 {
        spec_plan_frame(context).2
    } else if stage == 3 {
        spec_plan_frame(context).3
    } else {
        spec_plan_frame(context).4
    }
}

/// The pipelines that run over the full-screen triangle are those without a
/// vertex stage of their own, and those without a depth test.
pub proof fn lemma_fullscreen_pipelines(pipeline: RenderPipeline)
    ensures
        spec_pipeline_of(pipeline).vertex_entry_point.is_none() == pipeline.spec_is_fullscreen(),
        spec_pipeline_of(pipeline).depth_stencil.is_none() == pipeline.spec_is_fullscreen(),
{
}

/// No pass of a frame draws into a texture that it binds, whichever frame
/// it is and whatever is missing.
pub proof fn lemma_frame_is_hazard_free(context: FrameContext, stage: int, i: int)
    requires
        context.wf(),
        0 <= stage < 5,
        0 <= i < spec_stage(context, stage).len(),
    ensures
        spec_stage(context, stage)[i].hazard_free(),
{
    let pass = spec_stage(context, stage)[i];
    if stage == 0 || stage == 2 {
        let k = if stage == 0 {
            i
        } else {
            i + 3
        };
        lemma_unit_passes_hazard_free(context);
        assert(pass == UnitsNode::spec_run(context)[k]);
    } else if stage == 1 {
        let units = context.units_data_textures.unwrap();
        let minimap = context.minimap_textures.unwrap();
        assert forall|texture: Texture| !(pass.reads(texture) && pass.writes(texture)) by {
            if i == 0 {
                lemma_generate_reads_writes(units, minimap, texture);
            } else {
                lemma_downscale_reads_writes(minimap, i, texture);
            }
        }
    } else if stage == 3 {
        assert forall|texture: Texture| !(pass.reads(texture) && pass.writes(texture)) by {
            if pass.reads(texture) {
                let k = choose|k: int|
                    0 <= k < pass.entries.len() && (#[trigger] pass.entries[k]).resource
                        == BindingResource::TextureView(texture);
                assert(pass.entries[0].resource == BindingResource::Uniform(Uniform::View));
                assert(pass.entries[1].resource == BindingResource::Uniform(Uniform::Globals));
                assert(pass.entries[3].resource == BindingResource::Uniform(
                    Uniform::ParticleCommands,
                ));
                assert(pass.entries[4].resource == BindingResource::Uniform(
                    Uniform::ParticleSystems,
                ));
                assert(k == 2);
            }
            if pass.writes(texture) && pass.depth_target() != Some(texture) {
                let k = choose|k: int|
                    0 <= k < pass.color_attachments.len() && #[trigger] pass.color_target(k)
                        == Some(texture);
                assert(pass.color_target(k) == Some(texture));
            }
        }
    } else {
        assert forall|texture: Texture| !(pass.reads(texture) && pass.writes(texture)) by {
            if pass.reads(texture) {
                let k = choose|k: int|
                    0 <= k < pass.entries.len() && (#[trigger] pass.entries[k]).resource
                        == BindingResource::TextureView(texture);
                assert(pass.entries[0].resource == BindingResource::Uniform(Uniform::View));
                assert(pass.entries[1].resource == BindingResource::Uniform(Uniform::Globals));
                assert(pass.entries[3].resource is Sampler);
                assert(k == 2 || k == 4 || k == 5 || k == 6);
            }
            if pass.writes(texture) {
                let k = choose|k: int|
                    0 <= k < pass.color_attachments.len() && #[trigger] pass.color_target(k)
                        == Some(texture);
                assert(pass.color_target(k) == Some(texture));
            }
        }
    }
}

} // verus!
