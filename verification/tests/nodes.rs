use unit_sim::bind_group_utils::{
    load_color_attachment, load_depth_attachment, BindGroupLayout, BindingResource,
    RenderPipeline, Sampler, Uniform,
};
use unit_sim::frame::{plan_frame, prepare_frame, FrameContext, PipelineCache};
use unit_sim::graph::{
    minimap_edges, particles_edges, post_process_edges, units_edges, GraphNode, UNITS_DRAW_NAME,
};
use unit_sim::minimap::{self, MinimapNode};
use unit_sim::particles::{self, ParticlesNode};
use unit_sim::post_process::PostProcessNode;
use unit_sim::render_pass::{BindGroupEntry, Draw, RenderPass};
use unit_sim::texture::Texture;
use unit_sim::units::{self, load_unit_texture, UnitCommand, UnitsNode};

const UNIT_PIPELINES: [RenderPipeline; 6] = [
    RenderPipeline::UnitEvaluate,
    RenderPipeline::UnitUpdate,
    RenderPipeline::LargeUnitUpdate,
    RenderPipeline::UnitDraw,
    RenderPipeline::UnitProjectileDraw,
    RenderPipeline::LargeUnitDraw,
];

const OTHER_PIPELINES: [RenderPipeline; 5] = [
    RenderPipeline::MinimapUpdate,
    RenderPipeline::MinimapDownsample,
    RenderPipeline::ParticlesUpdate,
    RenderPipeline::ParticlesDraw,
    RenderPipeline::PostProcess,
];

fn cache_without(missing: &[RenderPipeline]) -> PipelineCache {
    let mut cache = PipelineCache::new();
    for pipeline in UNIT_PIPELINES.iter().chain(OTHER_PIPELINES.iter()) {
        if !missing.contains(pipeline) {
            cache.insert(*pipeline);
        }
    }
    cache
}

fn context(frame: u32) -> FrameContext {
    FrameContext {
        pipeline_cache: cache_without(&[]),
        unit_command: UnitCommand::default(),
        delta_time: 0.016f32.to_bits(),
        units_data_textures: Some(units::prepare_textures(frame)),
        minimap_textures: Some(minimap::prepare_textures()),
        particles_data_textures: Some(particles::prepare_textures(frame)),
        unit_texture: Some(load_unit_texture()),
        deferred: true,
        deferred_lighting_pass_id: true,
    }
}

fn texture(t: Texture) -> BindingResource {
    BindingResource::TextureView(t)
}

fn simulation_entries(state: Texture, attack: Texture, large: Texture) -> Vec<BindGroupEntry> {
    vec![
        BindGroupEntry { binding: 101, resource: texture(state) },
        BindGroupEntry { binding: 102, resource: BindingResource::Uniform(Uniform::UnitCommand) },
        BindGroupEntry { binding: 103, resource: texture(attack) },
        BindGroupEntry { binding: 104, resource: texture(Texture::SmallGoose) },
        BindGroupEntry { binding: 105, resource: BindingResource::Sampler(Sampler::Unit) },
        BindGroupEntry { binding: 106, resource: texture(large) },
        BindGroupEntry { binding: 107, resource: texture(Texture::BigGoose) },
        BindGroupEntry { binding: 108, resource: texture(Texture::MinimapSmData) },
        BindGroupEntry { binding: 109, resource: texture(Texture::MinimapSm3Data) },
    ]
}

fn unit_entries(state: Texture, attack: Texture, large: Texture) -> Vec<BindGroupEntry> {
    let mut entries = vec![
        BindGroupEntry { binding: 0, resource: BindingResource::Uniform(Uniform::View) },
        BindGroupEntry { binding: 9, resource: BindingResource::Uniform(Uniform::Globals) },
    ];
    entries.extend(simulation_entries(state, attack, large));
    entries
}

fn read_textures(pass: &RenderPass) -> Vec<Texture> {
    pass.entries
        .iter()
        .filter_map(|e| match e.resource {
            BindingResource::TextureView(t) => Some(t),
            _ => None,
        })
        .collect()
}

fn written_textures(pass: &RenderPass) -> Vec<Texture> {
    let mut written: Vec<Texture> =
        pass.color_attachments.iter().filter_map(|a| a.map(|a| a.view)).collect();
    if let Some(depth) = pass.depth_stencil_attachment {
        written.push(depth.view);
    }
    written
}

fn bound_at(pass: &RenderPass, binding: u32) -> BindingResource {
    pass.entries.iter().find(|e| e.binding == binding).unwrap().resource
}

#[test]
fn unit_node_on_an_even_frame() {
    let passes = UnitsNode.run(&context(0));
    assert_eq!(passes.len(), 5);

    let evaluate = &passes[0];
    assert_eq!(evaluate.label, "Units Evaluate");
    assert_eq!(evaluate.bind_group_label, "unit_evaluate_bind_group");
    assert_eq!(evaluate.layout, BindGroupLayout::UnitEvaluate);
    assert_eq!(
        evaluate.entries,
        simulation_entries(Texture::UnitDataA, Texture::UnitAttackMapB, Texture::LargeUnitDataA)
    );
    assert_eq!(
        evaluate.color_attachments,
        vec![
            load_color_attachment(Texture::UnitDataB),
            load_color_attachment(Texture::UnitAttackMapA)
        ]
    );
    assert_eq!(evaluate.depth_stencil_attachment, None);
    assert_eq!(evaluate.draws, vec![Draw { pipeline: RenderPipeline::UnitEvaluate, vertices: 3 }]);

    let update = &passes[1];
    assert_eq!(update.label, "Units Update");
    assert_eq!(update.bind_group_label, "unit_update_bind_group");
    assert_eq!(update.layout, BindGroupLayout::UnitUpdate);
    assert_eq!(
        update.entries,
        simulation_entries(Texture::UnitDataB, Texture::UnitAttackMapA, Texture::LargeUnitDataA)
    );
    assert_eq!(update.color_attachments, vec![load_color_attachment(Texture::UnitDataA)]);
    assert_eq!(update.depth_stencil_attachment, None);
    assert_eq!(update.draws, vec![Draw { pipeline: RenderPipeline::UnitUpdate, vertices: 3 }]);

    let large_update = &passes[2];
    assert_eq!(large_update.label, "Large Units Update");
    assert_eq!(large_update.bind_group_label, "unit_update_bind_group");
    assert_eq!(large_update.layout, BindGroupLayout::LargeUnitUpdate);
    assert_eq!(
        large_update.entries,
        simulation_entries(Texture::UnitDataA, Texture::UnitAttackMapA, Texture::LargeUnitDataA)
    );
    assert_eq!(large_update.color_attachments, vec![load_color_attachment(Texture::LargeUnitDataB)]);
    assert_eq!(large_update.depth_stencil_attachment, None);
    assert_eq!(
        large_update.draws,
        vec![Draw { pipeline: RenderPipeline::LargeUnitUpdate, vertices: 3 }]
    );

    let draw = &passes[3];
    assert_eq!(draw.label, "Units Draw");
    assert_eq!(draw.bind_group_label, "unit_draw_bind_group");
    assert_eq!(draw.layout, BindGroupLayout::UnitDraw);
    assert_eq!(
        draw.entries,
        unit_entries(Texture::UnitDataA, Texture::UnitAttackMapA, Texture::LargeUnitDataB)
    );
    assert_eq!(
        draw.color_attachments,
        vec![
            load_color_attachment(Texture::Deferred),
            load_color_attachment(Texture::DeferredLightingPassId)
        ]
    );
    assert_eq!(draw.depth_stencil_attachment, load_depth_attachment(Texture::Depth));
    assert_eq!(
        draw.draws,
        vec![
            Draw { pipeline: RenderPipeline::UnitDraw, vertices: 512 * 512 * 6 },
            Draw { pipeline: RenderPipeline::UnitProjectileDraw, vertices: 512 * 512 * 6 },
        ]
    );

    let large_draw = &passes[4];
    assert_eq!(large_draw.label, "Units Draw");
    assert_eq!(large_draw.bind_group_label, "large_unit_draw_bind_group");
    assert_eq!(large_draw.layout, BindGroupLayout::LargeUnitDraw);
    assert_eq!(large_draw.entries, draw.entries);
    assert_eq!(large_draw.color_attachments, draw.color_attachments);
    assert_eq!(large_draw.depth_stencil_attachment, load_depth_attachment(Texture::Depth));
    assert_eq!(
        large_draw.draws,
        vec![Draw { pipeline: RenderPipeline::LargeUnitDraw, vertices: 67 * 2 * 6 }]
    );
}

#[test]
fn draw_counts() {
    assert_eq!(units::UNITS_DRAW_VERTICES, 1_572_864);
    assert_eq!(units::LARGE_UNITS_DRAW_VERTICES, 804);
    assert_eq!(units::FULLSCREEN_VERTICES, 3);
    assert_eq!(particles::PARTICLES_DRAW_VERTICES, 196_608);
}

#[test]
fn unit_node_on_an_odd_frame() {
    let passes = UnitsNode.run(&context(7));
    assert_eq!(passes.len(), 5);
    assert_eq!(
        passes[0].entries,
        simulation_entries(Texture::UnitDataA, Texture::UnitAttackMapA, Texture::LargeUnitDataB)
    );
    assert_eq!(
        written_textures(&passes[0]),
        vec![Texture::UnitDataB, Texture::UnitAttackMapB]
    );
    assert_eq!(
        passes[1].entries,
        simulation_entries(Texture::UnitDataB, Texture::UnitAttackMapB, Texture::LargeUnitDataB)
    );
    assert_eq!(written_textures(&passes[1]), vec![Texture::UnitDataA]);
    assert_eq!(
        passes[2].entries,
        simulation_entries(Texture::UnitDataA, Texture::UnitAttackMapB, Texture::LargeUnitDataB)
    );
    assert_eq!(written_textures(&passes[2]), vec![Texture::LargeUnitDataA]);
    assert_eq!(
        passes[3].entries,
        unit_entries(Texture::UnitDataA, Texture::UnitAttackMapB, Texture::LargeUnitDataA)
    );
    assert_eq!(passes[4].entries, passes[3].entries);
}

#[test]
fn no_pass_reads_what_it_writes() {
    for frame in 0..6u32 {
        for pass in plan_frame(&context(frame)).into_passes() {
            let read = read_textures(&pass);
            for written in written_textures(&pass) {
                assert!(!read.contains(&written), "frame {frame}, {}", pass.label);
            }
        }
    }
}

#[test]
fn each_frame_reads_what_the_frame_before_wrote() {
    let mut frame: u32 = 0;
    let mut before = UnitsNode.run(&context(frame));
    let mut particles_before = ParticlesNode.run(&context(frame));
    for _ in 0..8 {
        frame += 1;
        let after = UnitsNode.run(&context(frame));
        // state: evaluation reads what the last update wrote
        assert_eq!(bound_at(&after[0], 101), texture(written_textures(&before[1])[0]));
        // state within the frame: the update reads what evaluation wrote
        assert_eq!(bound_at(&after[1], 101), texture(written_textures(&after[0])[0]));
        // attack map: evaluation reads what the last evaluation wrote
        assert_eq!(bound_at(&after[0], 103), texture(written_textures(&before[0])[1]));
        assert_ne!(bound_at(&after[0], 103), texture(written_textures(&after[0])[1]));
        // large units
        assert_eq!(bound_at(&after[2], 106), texture(written_textures(&before[2])[0]));
        assert_ne!(bound_at(&after[2], 106), texture(written_textures(&after[2])[0]));
        // particles
        let particles_after = ParticlesNode.run(&context(frame));
        assert_eq!(
            bound_at(&particles_after[0], 101),
            texture(written_textures(&particles_before[0])[0])
        );
        assert_ne!(
            bound_at(&particles_after[0], 101),
            texture(written_textures(&particles_after[0])[0])
        );
        before = after;
        particles_before = particles_after;
    }
}

#[test]
fn evaluation_is_the_same_pass_two_frames_on() {
    assert_eq!(UnitsNode.run(&context(4)), UnitsNode.run(&context(6)));
    assert_eq!(UnitsNode.run(&context(5)), UnitsNode.run(&context(99)));
    assert_ne!(UnitsNode.run(&context(4)), UnitsNode.run(&context(5)));
}

#[test]
fn a_missing_unit_pipeline_stops_the_whole_node() {
    for missing in UNIT_PIPELINES {
        let mut context = context(0);
        context.pipeline_cache = cache_without(&[missing]);
        assert!(UnitsNode.run(&context).is_empty(), "{missing:?}");
        let plan = plan_frame(&context);
        assert!(plan.simulation.is_empty());
        assert!(plan.draw.is_empty());
        // the other nodes are not held up
        assert_eq!(plan.minimap.len(), 4);
        assert_eq!(plan.particles.len(), 2);
        assert_eq!(plan.post_process.len(), 1);
    }
}

#[test]
fn nothing_compiled_nothing_recorded() {
    let mut context = context(3);
    context.pipeline_cache = PipelineCache::new();
    assert!(UnitsNode.run(&context).is_empty());
    assert!(MinimapNode.run(&context).is_empty());
    assert!(ParticlesNode.run(&context).is_empty());
    assert!(PostProcessNode.run(&context).is_empty());
    assert!(plan_frame(&context).into_passes().is_empty());
}

#[test]
fn a_missing_texture_stops_the_unit_node() {
    let mut c = context(0);
    c.units_data_textures = None;
    assert!(UnitsNode.run(&c).is_empty());
    let mut c = context(0);
    c.minimap_textures = None;
    assert!(UnitsNode.run(&c).is_empty());
    let mut c = context(0);
    c.unit_texture = None;
    assert!(UnitsNode.run(&c).is_empty());
    let mut c = context(0);
    c.deferred = false;
    assert!(UnitsNode.run(&c).is_empty());
    let mut c = context(0);
    c.deferred_lighting_pass_id = false;
    assert!(UnitsNode.run(&c).is_empty());
    let mut c = context(0);
    c.particles_data_textures = None;
    assert_eq!(UnitsNode.run(&c).len(), 5);
}

#[test]
fn pipeline_cache_lookup() {
    let mut cache = PipelineCache::new();
    assert_eq!(cache.get_render_pipeline(RenderPipeline::UnitDraw), None);
    cache.insert(RenderPipeline::UnitDraw);
    assert_eq!(cache.get_render_pipeline(RenderPipeline::UnitDraw), Some(RenderPipeline::UnitDraw));
    assert_eq!(cache.get_render_pipeline(RenderPipeline::UnitUpdate), None);
    cache.insert(RenderPipeline::UnitDraw);
    cache.insert(RenderPipeline::PostProcess);
    assert_eq!(
        cache.get_render_pipeline(RenderPipeline::PostProcess),
        Some(RenderPipeline::PostProcess)
    );
    assert_eq!(cache.get_render_pipeline(RenderPipeline::UnitDraw), Some(RenderPipeline::UnitDraw));
}

#[test]
fn command_uniform_carries_the_frame_time() {
    let mut c = context(0);
    c.unit_command.dest = units::UVec2 { x: 50, y: 80 };
    c.unit_command.command = 1;
    c.unit_command.delta_time = 123;
    c.delta_time = 0.25f32.to_bits();
    let buffer = UnitsNode.command_uniform(&c);
    assert_eq!(buffer.label, "Unit Command Uniform");
    assert!(buffer.usage.uniform && buffer.usage.copy_dst);
    assert_eq!(buffer.contents.len(), 48);
    let words: Vec<u32> = buffer
        .contents
        .chunks(4)
        .map(|b| u32::from_le_bytes([b[0], b[1], b[2], b[3]]))
        .collect();
    assert_eq!(words, vec![0, 0, 0, 0, 50, 80, 1, 0.25f32.to_bits(), 0, 0, 0, 0]);
}

#[test]
fn minimap_chain() {
    let passes = MinimapNode.run(&context(0));
    assert_eq!(passes.len(), 4);

    let generate = &passes[0];
    assert_eq!(generate.label, "generate_minimap_pass");
    assert_eq!(generate.bind_group_label, "minimap_bind_group");
    assert_eq!(generate.layout, BindGroupLayout::Minimap);
    assert_eq!(
        generate.entries,
        vec![
            BindGroupEntry { binding: 101, resource: texture(Texture::UnitDataA) },
            BindGroupEntry { binding: 103, resource: texture(Texture::UnitAttackMapA) },
        ]
    );
    assert_eq!(generate.color_attachments, vec![load_color_attachment(Texture::MinimapData)]);
    assert_eq!(generate.depth_stencil_attachment, None);
    assert_eq!(generate.draws, vec![Draw { pipeline: RenderPipeline::MinimapUpdate, vertices: 3 }]);

    let sources = [Texture::MinimapData, Texture::MinimapSmData, Texture::MinimapSm2Data];
    let targets = [Texture::MinimapSmData, Texture::MinimapSm2Data, Texture::MinimapSm3Data];
    for (i, pass) in passes[1..].iter().enumerate() {
        assert_eq!(pass.label, "downscale_minimap_pass");
        assert_eq!(pass.bind_group_label, "minimap_bind_group");
        assert_eq!(pass.layout, BindGroupLayout::MinimapDownsample);
        assert_eq!(pass.entries, vec![BindGroupEntry { binding: 101, resource: texture(sources[i]) }]);
        assert_eq!(pass.color_attachments, vec![load_color_attachment(targets[i])]);
        assert_eq!(pass.depth_stencil_attachment, None);
        assert_eq!(
            pass.draws,
            vec![Draw { pipeline: RenderPipeline::MinimapDownsample, vertices: 3 }]
        );
    }
}

#[test]
fn the_minimap_is_made_from_the_state_that_the_update_left() {
    for frame in 0..4u32 {
        let c = context(frame);
        let units = UnitsNode.run(&c);
        let minimap = MinimapNode.run(&c);
        let update = &units[1];
        let evaluate = &units[0];
        assert_eq!(bound_at(&minimap[0], 101), texture(written_textures(update)[0]));
        assert_ne!(bound_at(&minimap[0], 101), texture(written_textures(evaluate)[0]));
        // and from the attack map that this frame's evaluation wrote
        assert_eq!(bound_at(&minimap[0], 103), texture(written_textures(evaluate)[1]));
    }
}

#[test]
fn each_minimap_level_comes_from_the_one_before() {
    for frame in [0u32, 1] {
        let passes = MinimapNode.run(&context(frame));
        for level in 1..4 {
            assert_eq!(read_textures(&passes[level]), written_textures(&passes[level - 1]));
        }
    }
}

#[test]
fn minimap_chain_does_not_depend_on_the_frame_but_for_the_attack_map() {
    let even = MinimapNode.run(&context(0));
    let odd = MinimapNode.run(&context(1));
    assert_eq!(MinimapNode.run(&context(2)), even);
    assert_eq!(even[1..], odd[1..]);
    assert_eq!(bound_at(&even[0], 101), bound_at(&odd[0], 101));
    assert_eq!(written_textures(&even[0]), written_textures(&odd[0]));
    assert_eq!(bound_at(&even[0], 103), texture(Texture::UnitAttackMapA));
    assert_eq!(bound_at(&odd[0], 103), texture(Texture::UnitAttackMapB));
}

#[test]
fn simulation_and_minimap_bind_no_uniform_of_the_frame() {
    let plan = plan_frame(&context(0));
    for pass in plan.simulation.iter().chain(plan.minimap.iter()) {
        assert!(!pass.binds_view(), "{}", pass.label);
        for entry in &pass.entries {
            assert_ne!(entry.resource, BindingResource::Uniform(Uniform::View));
            assert_ne!(entry.resource, BindingResource::Uniform(Uniform::Globals));
        }
    }
    for pass in plan.minimap.iter() {
        assert!(read_textures(pass).len() == pass.entries.len());
    }
    for pass in plan.draw.iter().chain(plan.particles.iter()).chain(plan.post_process.iter()) {
        assert!(pass.binds_view(), "{}", pass.label);
    }
}

#[test]
fn minimap_is_all_or_nothing() {
    for missing in [RenderPipeline::MinimapUpdate, RenderPipeline::MinimapDownsample] {
        let mut c = context(0);
        c.pipeline_cache = cache_without(&[missing]);
        assert!(MinimapNode.run(&c).is_empty());
    }
    let mut c = context(0);
    c.units_data_textures = None;
    assert!(MinimapNode.run(&c).is_empty());
    let mut c = context(0);
    c.minimap_textures = None;
    assert!(MinimapNode.run(&c).is_empty());
    // the minimap does not wait for the units' pipelines
    let mut c = context(0);
    c.pipeline_cache = cache_without(&UNIT_PIPELINES);
    assert_eq!(MinimapNode.run(&c).len(), 4);
}

#[test]
fn particle_passes() {
    let passes = ParticlesNode.run(&context(0));
    assert_eq!(passes.len(), 2);
    let entries = |state: Texture| {
        vec![
            BindGroupEntry { binding: 0, resource: BindingResource::Uniform(Uniform::View) },
            BindGroupEntry { binding: 9, resource: BindingResource::Uniform(Uniform::Globals) },
            BindGroupEntry { binding: 101, resource: texture(state) },
            BindGroupEntry {
                binding: 102,
                resource: BindingResource::Uniform(Uniform::ParticleCommands),
            },
            BindGroupEntry {
                binding: 103,
                resource: BindingResource::Uniform(Uniform::ParticleSystems),
            },
        ]
    };
    let update = &passes[0];
    assert_eq!(update.label, "particles_pass");
    assert_eq!(update.bind_group_label, "particles_bind_group");
    assert_eq!(update.layout, BindGroupLayout::ParticlesUpdate);
    assert_eq!(update.entries, entries(Texture::ParticlesDataB));
    assert_eq!(
        update.color_attachments,
        vec![unit_sim::bind_group_utils::clear_color_attachment(Texture::ParticlesDataA)]
    );
    assert_eq!(update.depth_stencil_attachment, None);
    assert_eq!(update.draws, vec![Draw { pipeline: RenderPipeline::ParticlesUpdate, vertices: 3 }]);

    let draw = &passes[1];
    assert_eq!(draw.label, "particles_pass");
    assert_eq!(draw.layout, BindGroupLayout::ParticlesDraw);
    assert_eq!(draw.entries, entries(Texture::ParticlesDataA));
    assert_eq!(
        draw.color_attachments,
        vec![
            load_color_attachment(Texture::Deferred),
            load_color_attachment(Texture::DeferredLightingPassId)
        ]
    );
    assert_eq!(draw.depth_stencil_attachment, load_depth_attachment(Texture::Depth));
    assert_eq!(
        draw.draws,
        vec![Draw { pipeline: RenderPipeline::ParticlesDraw, vertices: 256 * 128 * 6 }]
    );

    let odd = ParticlesNode.run(&context(1));
    assert_eq!(odd[0].entries, entries(Texture::ParticlesDataA));
    assert_eq!(written_textures(&odd[0]), vec![Texture::ParticlesDataB]);
    assert_eq!(odd[1].entries, entries(Texture::ParticlesDataB));
}

#[test]
fn particles_are_all_or_nothing() {
    for missing in [RenderPipeline::ParticlesUpdate, RenderPipeline::ParticlesDraw] {
        let mut c = context(0);
        c.pipeline_cache = cache_without(&[missing]);
        assert!(ParticlesNode.run(&c).is_empty());
    }
    let mut c = context(0);
    c.particles_data_textures = None;
    assert!(ParticlesNode.run(&c).is_empty());
    let mut c = context(0);
    c.deferred = false;
    assert!(ParticlesNode.run(&c).is_empty());
    let mut c = context(0);
    c.deferred_lighting_pass_id = false;
    assert!(ParticlesNode.run(&c).is_empty());
}

#[test]
fn post_process_pass() {
    let passes = PostProcessNode.run(&context(0));
    assert_eq!(passes.len(), 1);
    let pass = &passes[0];
    assert_eq!(pass.label, "post_process_pass");
    assert_eq!(pass.bind_group_label, "post_process_bind_group");
    assert_eq!(pass.layout, BindGroupLayout::PostProcess);
    assert_eq!(
        pass.entries,
        vec![
            BindGroupEntry { binding: 0, resource: BindingResource::Uniform(Uniform::View) },
            BindGroupEntry { binding: 9, resource: BindingResource::Uniform(Uniform::Globals) },
            BindGroupEntry { binding: 101, resource: texture(Texture::PostProcessSource) },
            BindGroupEntry {
                binding: 102,
                resource: BindingResource::Sampler(Sampler::PostProcess)
            },
            BindGroupEntry { binding: 103, resource: texture(Texture::MinimapData) },
            BindGroupEntry { binding: 104, resource: texture(Texture::MinimapSm3Data) },
            BindGroupEntry { binding: 105, resource: texture(Texture::LargeUnitDataB) },
        ]
    );
    assert_eq!(
        pass.color_attachments,
        vec![load_color_attachment(Texture::PostProcessDestination)]
    );
    assert_eq!(pass.depth_stencil_attachment, None);
    assert_eq!(pass.draws, vec![Draw { pipeline: RenderPipeline::PostProcess, vertices: 3 }]);

    // on an odd frame the large units' new state is in the other texture
    let odd = PostProcessNode.run(&context(1));
    assert_eq!(bound_at(&odd[0], 105), texture(Texture::LargeUnitDataA));
}

#[test]
fn post_process_needs_its_pipeline_and_textures() {
    let mut c = context(0);
    c.pipeline_cache = cache_without(&[RenderPipeline::PostProcess]);
    assert!(PostProcessNode.run(&c).is_empty());
    let mut c = context(0);
    c.minimap_textures = None;
    assert!(PostProcessNode.run(&c).is_empty());
    let mut c = context(0);
    c.units_data_textures = None;
    assert!(PostProcessNode.run(&c).is_empty());
}

#[test]
fn stages_run_in_order() {
    let c = context(0);
    let plan = plan_frame(&c);
    let units = UnitsNode.run(&c);
    assert_eq!(plan.simulation, units[0..3].to_vec());
    assert_eq!(plan.minimap, MinimapNode.run(&c));
    assert_eq!(plan.draw, units[3..5].to_vec());
    assert_eq!(plan.particles, ParticlesNode.run(&c));
    assert_eq!(plan.post_process, PostProcessNode.run(&c));
    let labels: Vec<&str> = plan.into_passes().iter().map(|p| p.label).collect();
    assert_eq!(
        labels,
        vec![
            "Units Evaluate",
            "Units Update",
            "Large Units Update",
            "generate_minimap_pass",
            "downscale_minimap_pass",
            "downscale_minimap_pass",
            "downscale_minimap_pass",
            "Units Draw",
            "Units Draw",
            "particles_pass",
            "particles_pass",
            "post_process_pass",
        ]
    );
}

#[test]
fn node_names() {
    assert_eq!(UnitsNode::NAME, "units_pass");
    assert_eq!(MinimapNode::NAME, "minimap_pass");
    assert_eq!(ParticlesNode::NAME, "deferred_particles_pass");
    assert_eq!(PostProcessNode::NAME, "game_post_process");
}

#[test]
fn graph_edges() {
    assert_eq!(
        units_edges(),
        vec![
            GraphNode::DeferredPrepass,
            GraphNode::Units,
            GraphNode::UnitsDraw,
            GraphNode::CopyDeferredLightingId
        ]
    );
    assert_eq!(
        minimap_edges(),
        vec![GraphNode::Units, GraphNode::Minimap, GraphNode::UnitsDraw, GraphNode::StartMainPass]
    );
    assert_eq!(
        particles_edges(),
        vec![
            GraphNode::DeferredPrepass,
            GraphNode::UnitsDraw,
            GraphNode::Particles,
            GraphNode::CopyDeferredLightingId
        ]
    );
    assert_eq!(
        post_process_edges(),
        vec![GraphNode::MainPass2d, GraphNode::PostProcess, GraphNode::Tonemapping]
    );
    assert_eq!(GraphNode::Units.name(), Some("units_pass"));
    assert_eq!(GraphNode::Minimap.name(), Some("minimap_pass"));
    assert_eq!(GraphNode::UnitsDraw.name(), Some("units_draw_pass"));
    assert_eq!(UNITS_DRAW_NAME, "units_draw_pass");
    assert_eq!(GraphNode::Particles.name(), Some("deferred_particles_pass"));
    assert_eq!(GraphNode::PostProcess.name(), Some("game_post_process"));
    for node in [
        GraphNode::DeferredPrepass,
        GraphNode::CopyDeferredLightingId,
        GraphNode::StartMainPass,
        GraphNode::MainPass2d,
        GraphNode::Tonemapping,
    ] {
        assert_eq!(node.name(), None);
    }
}

#[test]
fn a_texture_that_could_not_be_had_skips_the_simulation() {
    let everything = [
        Texture::UnitDataA,
        Texture::UnitDataB,
        Texture::UnitAttackMapA,
        Texture::UnitAttackMapB,
        Texture::LargeUnitDataA,
        Texture::LargeUnitDataB,
        Texture::MinimapData,
        Texture::MinimapSmData,
        Texture::MinimapSm2Data,
        Texture::MinimapSm3Data,
        Texture::ParticlesDataA,
        Texture::ParticlesDataB,
        Texture::Deferred,
        Texture::DeferredLightingPassId,
        Texture::Depth,
        Texture::SmallGoose,
        Texture::BigGoose,
    ];
    let frame = |acquired: &Vec<Texture>| {
        prepare_frame(
            cache_without(&[]),
            UnitCommand::default(),
            0,
            Some(units::prepare_textures(0)),
            Some(minimap::prepare_textures()),
            Some(particles::prepare_textures(0)),
            acquired,
        )
    };
    let full = plan_frame(&frame(&everything.to_vec()));
    assert_eq!(full.simulation.len(), 3);
    assert_eq!(full.minimap.len(), 4);
    assert_eq!(full.draw.len(), 2);
    assert_eq!(full.particles.len(), 2);
    assert_eq!(full.post_process.len(), 1);
    assert_eq!(full, plan_frame(&context(0)));

    for missing in &everything[..6] {
        let acquired: Vec<Texture> =
            everything.iter().copied().filter(|t| t != missing).collect();
        let plan = plan_frame(&frame(&acquired));
        assert!(plan.simulation.is_empty(), "{missing:?}");
        assert!(plan.minimap.is_empty(), "{missing:?}");
        assert!(plan.draw.is_empty(), "{missing:?}");
        assert!(plan.post_process.is_empty(), "{missing:?}");
        // the particles do not need the units
        assert_eq!(plan.particles, full.particles);
    }

    // without a minimap level the units are skipped too, as they read the minimap
    let acquired: Vec<Texture> =
        everything.iter().copied().filter(|t| *t != Texture::MinimapSm2Data).collect();
    let plan = plan_frame(&frame(&acquired));
    assert!(plan.simulation.is_empty() && plan.minimap.is_empty() && plan.draw.is_empty());
    assert_eq!(plan.particles, full.particles);

    // without the G-buffer nothing is drawn into it, and the minimap is still built
    let acquired: Vec<Texture> =
        everything.iter().copied().filter(|t| *t != Texture::Deferred).collect();
    let plan = plan_frame(&frame(&acquired));
    assert!(plan.simulation.is_empty() && plan.draw.is_empty() && plan.particles.is_empty());
    assert_eq!(plan.minimap, full.minimap);
}
