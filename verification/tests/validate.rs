use unit_sim::bind_group_utils::{
    BindingResource, BindingType, RenderPipeline, RenderPipelineDescriptor, Sampler,
    SamplerBindingType, TextureSampleType, TextureViewDimension, Uniform, UniformSize,
};
use unit_sim::frame::{plan_frame, FrameContext, PipelineCache};
use unit_sim::minimap::{self, MinimapPipeline};
use unit_sim::particles::{self, ParticlesPipeline};
use unit_sim::post_process::PostProcessPipeline;
use unit_sim::texture::{Texture, TextureFormat};
use unit_sim::units::{self, load_unit_texture, UnitCommand, UnitPipeline};
use unit_sim::validate::fits;

fn full_context(frame: u32) -> FrameContext {
    let mut pipeline_cache = PipelineCache::new();
    for pipeline in [
        RenderPipeline::UnitEvaluate,
        RenderPipeline::UnitUpdate,
        RenderPipeline::LargeUnitUpdate,
        RenderPipeline::UnitDraw,
        RenderPipeline::UnitProjectileDraw,
        RenderPipeline::LargeUnitDraw,
        RenderPipeline::MinimapUpdate,
        RenderPipeline::MinimapDownsample,
        RenderPipeline::ParticlesUpdate,
        RenderPipeline::ParticlesDraw,
        RenderPipeline::PostProcess,
    ] {
        pipeline_cache.insert(pipeline);
    }
    FrameContext {
        pipeline_cache,
        unit_command: UnitCommand::default(),
        delta_time: 0,
        units_data_textures: Some(units::prepare_textures(frame)),
        minimap_textures: Some(minimap::prepare_textures()),
        particles_data_textures: Some(particles::prepare_textures(frame)),
        unit_texture: Some(load_unit_texture()),
        deferred: true,
        deferred_lighting_pass_id: true,
    }
}

fn descriptor(pipeline: RenderPipeline) -> RenderPipelineDescriptor {
    let units = UnitPipeline::new();
    let minimap = MinimapPipeline::new();
    let particles = ParticlesPipeline::new();
    match pipeline {
        RenderPipeline::UnitEvaluate => units.evaluate_pipeline,
        RenderPipeline::UnitUpdate => units.update_pipeline,
        RenderPipeline::LargeUnitUpdate => units.large_update_pipeline,
        RenderPipeline::UnitDraw => units.draw_pipeline,
        RenderPipeline::UnitProjectileDraw => units.draw_projectiles_pipeline,
        RenderPipeline::LargeUnitDraw => units.large_draw_pipeline,
        RenderPipeline::MinimapUpdate => minimap.update_pipeline,
        RenderPipeline::MinimapDownsample => minimap.minimap_downscale_pipeline,
        RenderPipeline::ParticlesUpdate => particles.update_pipeline,
        RenderPipeline::ParticlesDraw => particles.draw_pipeline,
        RenderPipeline::PostProcess => PostProcessPipeline::new().pipeline,
    }
}

#[test]
fn resources_fit_their_kind_of_binding() {
    let buffer =
        BindingType::Buffer { has_dynamic_offset: false, min_binding_size: UniformSize::Bytes(16) };
    let sampler = BindingType::Sampler(SamplerBindingType::Filtering);
    let texture = BindingType::Texture {
        sample_type: TextureSampleType::Uint,
        view_dimension: TextureViewDimension::D2,
        multisampled: false,
    };
    let uniform = BindingResource::Uniform(Uniform::Globals);
    let a_sampler = BindingResource::Sampler(Sampler::Unit);
    let view = BindingResource::TextureView(Texture::UnitDataA);
    assert!(fits(uniform, buffer) && !fits(uniform, sampler) && !fits(uniform, texture));
    assert!(!fits(a_sampler, buffer) && fits(a_sampler, sampler) && !fits(a_sampler, texture));
    assert!(!fits(view, buffer) && !fits(view, sampler) && fits(view, texture));
}

#[test]
fn texture_formats() {
    assert_eq!(Texture::UnitDataA.format(), Some(TextureFormat::Rgba32Uint));
    assert_eq!(Texture::UnitAttackMapB.format(), Some(TextureFormat::Rgba8Uint));
    assert_eq!(Texture::LargeUnitDataB.format(), Some(TextureFormat::Rgba32Uint));
    assert_eq!(Texture::MinimapSm2Data.format(), Some(TextureFormat::Rgba8Uint));
    assert_eq!(Texture::ParticlesDataA.format(), Some(TextureFormat::Rgba32Float));
    assert_eq!(Texture::Deferred.format(), Some(TextureFormat::DeferredPrepass));
    assert_eq!(
        Texture::DeferredLightingPassId.format(),
        Some(TextureFormat::DeferredLightingPassId)
    );
    assert_eq!(Texture::Depth.format(), Some(TextureFormat::Core3dDepth));
    assert_eq!(Texture::PostProcessSource.format(), Some(TextureFormat::Rgba16Float));
    assert_eq!(Texture::PostProcessDestination.format(), Some(TextureFormat::Rgba16Float));
    assert_eq!(Texture::SmallGoose.format(), None);
    assert_eq!(Texture::BigGoose.format(), None);
}

#[test]
fn every_pass_fits_its_layout_and_its_pipelines() {
    let units = UnitPipeline::new();
    let minimap = MinimapPipeline::new();
    let particles_layout = ParticlesPipeline::new().update_layout;
    let post_process_layout = PostProcessPipeline::new().layout;
    for frame in 0..4u32 {
        let plan = plan_frame(&full_context(frame));
        assert_eq!(plan.minimap.len(), 4);
        let stages = [
            (&plan.simulation[..], &units.simulation_layout),
            (&plan.minimap[..1], &minimap.update_layout),
            (&plan.minimap[1..], &minimap.downscale_layout),
            (&plan.draw[..], &units.layout),
            (&plan.particles[..], &particles_layout),
            (&plan.post_process[..], &post_process_layout),
        ];
        for (passes, layout) in stages {
            assert!(!passes.is_empty());
            for pass in passes.iter() {
                assert!(pass.fits_layout(layout), "{}", pass.label);
                for draw in &pass.draws {
                    assert!(pass.fits_pipeline(&descriptor(draw.pipeline)), "{}", pass.label);
                }
            }
        }
    }
}

#[test]
fn a_pass_does_not_fit_another_layout() {
    let plan = plan_frame(&full_context(0));
    let units = UnitPipeline::new();
    let minimap = MinimapPipeline::new();
    let post_process_layout = PostProcessPipeline::new().layout;
    assert!(!plan.simulation[0].fits_layout(&minimap.update_layout));
    assert!(!plan.simulation[0].fits_layout(&units.layout));
    assert!(!plan.draw[0].fits_layout(&units.simulation_layout));
    assert!(!plan.minimap[0].fits_layout(&units.layout));
    assert!(!plan.minimap[0].fits_layout(&minimap.downscale_layout));
    assert!(!plan.minimap[1].fits_layout(&minimap.update_layout));
    assert!(!plan.post_process[0].fits_layout(&units.layout));
    // as many entries, with the same numbers up to the last, but of other kinds
    let mut shuffled = post_process_layout;
    shuffled.entries.swap(2, 3);
    assert!(!plan.post_process[0].fits_layout(&shuffled));
}

#[test]
fn a_pass_does_not_fit_another_pipeline() {
    let plan = plan_frame(&full_context(0));
    let evaluate = &plan.simulation[0];
    let update = &plan.simulation[1];
    let draw = &plan.draw[0];
    // two targets against one
    assert!(!evaluate.fits_pipeline(&descriptor(RenderPipeline::UnitUpdate)));
    assert!(!update.fits_pipeline(&descriptor(RenderPipeline::UnitEvaluate)));
    // one target of another format
    assert!(!update.fits_pipeline(&descriptor(RenderPipeline::MinimapUpdate)));
    // a depth test without a depth attachment, and the reverse
    assert!(!evaluate.fits_pipeline(&descriptor(RenderPipeline::UnitDraw)));
    assert!(!draw.fits_pipeline(&descriptor(RenderPipeline::UnitEvaluate)));
    // the draw pipelines are interchangeable as far as attachments go
    assert!(draw.fits_pipeline(&descriptor(RenderPipeline::LargeUnitDraw)));
    assert!(draw.fits_pipeline(&descriptor(RenderPipeline::ParticlesDraw)));
}
