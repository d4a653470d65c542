//! The particles: a double-buffered state texture, updated by one pass and
//! drawn by another.

use crate::bind_group_utils::{
    basic_fullscreen_tri_pipeline, basic_opaque_pipeline, ftexture_layout_entry, globals_binding,
    globals_layout_entry, load_color_attachment, load_depth_attachment, opaque_target,
    spec_basic_fullscreen_tri_pipeline, spec_basic_opaque_pipeline, spec_clear_color_attachment,
    spec_ftexture_layout_entry, spec_globals_layout_entry, spec_load_color_attachment,
    spec_load_depth_attachment, spec_opaque_target, spec_view_layout_entry, clear_color_attachment,
    view_binding, view_layout_entry, BindGroupLayout, BindGroupLayoutDescriptor,
    BindGroupLayoutDescriptorView, BindGroupLayoutEntry, BindingResource, BindingType,
    ColorTargetState, RenderPipeline, RenderPipelineDescriptor, RenderPipelineDescriptorView,
    ShaderDefVal, ShaderStages, TextureViewDimension, Uniform, UniformSize,
};
use crate::float_bits::{gt, spec_gt, spec_is_nan};
use crate::frame::FrameContext;
use crate::render_pass::{BindGroupEntry, Draw, RenderPass, RenderPassView};
use crate::texture::{
    is_acquired, Texture, TextureFormat, PARTICLES_DATA_FORMAT, PARTICLES_PASS_HEIGHT,
    PARTICLES_PASS_WIDTH,
};
use crate::units::FULLSCREEN_VERTICES;
use vstd::prelude::*;

verus! {

/// The two state textures of the particles, named by what the update pass of
/// one frame does with them.
#[derive(Clone, Copy, Debug, PartialEq, Eq, Hash, Structural)]
pub struct ParticlesDataTextures {
    pub read: Texture,
    pub write: Texture,
}

impl ParticlesDataTextures {
    /// The names in frame number `frame_count`: they swap with its parity.
    pub open spec fn spec_for_frame(frame_count: u32) -> ParticlesDataTextures {
        if frame_count % 2 == 0 {
            ParticlesDataTextures { write: Texture::ParticlesDataA, read: Texture::ParticlesDataB }
        } else {
            ParticlesDataTextures { write: Texture::ParticlesDataB, read: Texture::ParticlesDataA }
        }
    }

    /// The names are those of some frame.
    pub open spec fn wf(self) -> bool {
        self == ParticlesDataTextures::spec_for_frame(0) || self
            == ParticlesDataTextures::spec_for_frame(1)
    }
}

/// The particle textures to ask the texture cache for, named as frame number
/// `frame_count` uses them.
pub fn prepare_textures(frame_count: u32) -> (textures: ParticlesDataTextures)
    ensures
        textures == ParticlesDataTextures::spec_for_frame(frame_count),
        textures.wf(),
{
    let particles_data_a = Texture::ParticlesDataA;
    let particles_data_b = Texture::ParticlesDataB;
    if frame_count % 2 == 0 {
        ParticlesDataTextures { write: particles_data_a, read: particles_data_b }
    } else {
        ParticlesDataTextures { write: particles_data_b, read: particles_data_a }
    }
}

/// The names as the nodes of the frame get them: both if each of the
/// textures could be had, and none if one of them could not. With `None` the
/// particles are left out for this frame.
pub fn publish_textures(textures: ParticlesDataTextures, acquired: &Vec<Texture>) -> (published:
    Option<ParticlesDataTextures>)
    ensures
        published == if acquired@.contains(textures.read) && acquired@.contains(textures.write) {
            Some(textures)
        } else {
            None
        },
{
    if is_acquired(acquired, textures.read) && is_acquired(acquired, textures.write) {
        Some(textures)
    } else {
        None
    }
}

/// Vertices of the draw that covers the particles' texture: two triangles
/// for each texel.
pub const PARTICLES_DRAW_VERTICES: u32 = PARTICLES_PASS_WIDTH * PARTICLES_PASS_HEIGHT * 6;

/// A uniform as large as the particle commands, visible to the vertex and
/// fragment stages.
pub open spec fn spec_commands_layout_entry(binding: u32) -> BindGroupLayoutEntry {
    BindGroupLayoutEntry {
        binding,
        visibility: ShaderStages::spec_vertex_fragment(),
        ty: BindingType::Buffer {
            has_dynamic_offset: false,
            min_binding_size: UniformSize::ParticleCommands,
        },
    }
}

fn commands_layout_entry(binding: u32) -> (entry: BindGroupLayoutEntry)
    ensures
        entry == spec_commands_layout_entry(binding),
{
    BindGroupLayoutEntry {
        binding,
        visibility: ShaderStages::vertex_fragment(),
        ty: BindingType::Buffer {
            has_dynamic_offset: false,
            min_binding_size: UniformSize::ParticleCommands,
        },
    }
}

/// The entries that both particle layouts have.
pub open spec fn spec_layout_entries() -> Seq<BindGroupLayoutEntry> {
    seq![
        spec_view_layout_entry(0),
        spec_globals_layout_entry(9),
        spec_ftexture_layout_entry(101, TextureViewDimension::D2),
        spec_commands_layout_entry(102),
        spec_commands_layout_entry(103),
    ]
}

fn layout_entries() -> (entries: Vec<BindGroupLayoutEntry>)
    ensures
        entries@ == spec_layout_entries(),
{
    let mut entries: Vec<BindGroupLayoutEntry> = Vec::new();
    entries.push(view_layout_entry(0));
    entries.push(globals_layout_entry(9));
    entries.push(ftexture_layout_entry(101, TextureViewDimension::D2));
    entries.push(commands_layout_entry(102));
    entries.push(commands_layout_entry(103));
    assert(entries@ =~= spec_layout_entries());
    entries
}

/// What the particle node needs from the device: two bind group layouts and
/// two pipelines.
#[derive(Clone, Debug, PartialEq, Eq)]
pub struct ParticlesPipeline {
    pub update_layout: BindGroupLayoutDescriptor,
    pub draw_layout: BindGroupLayoutDescriptor,
    pub update_pipeline: RenderPipelineDescriptor,
    pub draw_pipeline: RenderPipelineDescriptor,
}

impl ParticlesPipeline {
    pub open spec fn spec_update_pipeline() -> RenderPipelineDescriptorView {
        spec_basic_fullscreen_tri_pipeline(
            "particles_update_pipeline",
            "shaders/particles_update.wgsl",
            BindGroupLayout::ParticlesUpdate,
            seq![],
            seq![spec_opaque_target(TextureFormat::Rgba32Float)],
        )
    }

    pub open spec fn spec_draw_pipeline() -> RenderPipelineDescriptorView {
        spec_basic_opaque_pipeline(
            "particles_draw_pipeline",
            "shaders/particles_material.wgsl",
            BindGroupLayout::ParticlesDraw,
            seq![],
            seq![
                spec_opaque_target(TextureFormat::DeferredPrepass),
                spec_opaque_target(TextureFormat::DeferredLightingPassId),
            ],
        )
    }

    /// The layouts and pipelines of the particle node. The update runs over
    /// the full-screen triangle; the draw writes both targets of the deferred
    /// G-buffer with the depth test on. Neither shader gets definitions.
    pub fn new() -> (pipeline: ParticlesPipeline)
        ensures
            pipeline.update_layout@ == (BindGroupLayoutDescriptorView {
                label: "particles_update_bind_group_layout",
                entries: spec_layout_entries(),
            }),
            pipeline.draw_layout@ == (BindGroupLayoutDescriptorView {
                label: "particles_draw_bind_group_layout",
                entries: spec_layout_entries(),
            }),
            pipeline.update_pipeline@ == ParticlesPipeline::spec_update_pipeline(),
            pipeline.draw_pipeline@ == ParticlesPipeline::spec_draw_pipeline(),
    {
        let update_layout = BindGroupLayoutDescriptor {
            label: "particles_update_bind_group_layout",
            entries: layout_entries(),
        };
        let draw_layout = BindGroupLayoutDescriptor {
            label: "particles_draw_bind_group_layout",
            entries: layout_entries(),
        };

        let mut update_targets: Vec<Option<ColorTargetState>> = Vec::new();
        update_targets.push(opaque_target(PARTICLES_DATA_FORMAT));
        assert(update_targets@ =~= seq![spec_opaque_target(TextureFormat::Rgba32Float)]);
        let update_defs: Vec<ShaderDefVal> = Vec::new();
        assert(update_defs@ =~= seq![]);
        let update_pipeline = basic_fullscreen_tri_pipeline(
            "particles_update_pipeline",
            "shaders/particles_update.wgsl",
            BindGroupLayout::ParticlesUpdate,
            update_defs,
            update_targets,
        );

        let mut draw_targets: Vec<Option<ColorTargetState>> = Vec::new();
        draw_targets.push(opaque_target(TextureFormat::DeferredPrepass));
        draw_targets.push(opaque_target(TextureFormat::DeferredLightingPassId));
        assert(draw_targets@ =~= seq![
            spec_opaque_target(TextureFormat::DeferredPrepass),
            spec_opaque_target(TextureFormat::DeferredLightingPassId),
        ]);
        let draw_defs: Vec<ShaderDefVal> = Vec::new();
        assert(draw_defs@ =~= seq![]);
        let draw_pipeline = basic_opaque_pipeline(
            "particles_draw_pipeline",
            "shaders/particles_material.wgsl",
            BindGroupLayout::ParticlesDraw,
            draw_defs,
            draw_targets,
        );

        ParticlesPipeline { update_layout, draw_layout, update_pipeline, draw_pipeline }
    }
}

/// The bind group of a particle pass: the uniforms and the state that the
/// pass reads.
pub open spec fn spec_particles_entries(state: Texture) -> Seq<BindGroupEntry> {
    seq![
        BindGroupEntry { binding: 0, resource: BindingResource::Uniform(Uniform::View) },
        BindGroupEntry { binding: 9, resource: BindingResource::Uniform(Uniform::Globals) },
        BindGroupEntry { binding: 101, resource: BindingResource::TextureView(state) },
        BindGroupEntry {
            binding: 102,
            resource: BindingResource::Uniform(Uniform::ParticleCommands),
        },
        BindGroupEntry {
            binding: 103,
            resource: BindingResource::Uniform(Uniform::ParticleSystems),
        },
    ]
}

fn particles_entries(state: Texture) -> (entries: Vec<BindGroupEntry>)
    ensures
        entries@ == spec_particles_entries(state),
{
    let mut entries: Vec<BindGroupEntry> = Vec::new();
    entries.push(BindGroupEntry { binding: 0, resource: view_binding() });
    entries.push(BindGroupEntry { binding: 9, resource: globals_binding() });
    entries.push(BindGroupEntry { binding: 101, resource: BindingResource::TextureView(state) });
    entries.push(
        BindGroupEntry {
            binding: 102,
            resource: BindingResource::Uniform(Uniform::ParticleCommands),
        },
    );
    entries.push(
        BindGroupEntry { binding: 103, resource: BindingResource::Uniform(Uniform::ParticleSystems) },
    );
    assert(entries@ =~= spec_particles_entries(state));
    entries
}

/// The node that updates and draws the particles.
#[derive(Clone, Copy, Debug, Default, PartialEq, Eq)]
pub struct ParticlesNode;

impl ParticlesNode {
    pub const NAME: &'static str = "deferred_particles_pass";

    /// Whether the node has all it needs: both pipelines compiled, the state
    /// textures and both targets of the G-buffer.
    pub open spec fn spec_can_run(context: FrameContext) -> bool {
        &&& context.pipeline_cache.spec_is_ready(RenderPipeline::ParticlesUpdate)
        &&& context.pipeline_cache.spec_is_ready(RenderPipeline::ParticlesDraw)
        &&& context.particles_data_textures.is_some()
        &&& context.deferred
        &&& context.deferred_lighting_pass_id
    }

    /// The update reads the state that the last frame wrote and writes this
    /// frame's, which is cleared first.
    pub open spec fn spec_update_pass(textures: ParticlesDataTextures) -> RenderPassView {
        RenderPassView {
            label: "particles_pass",
            bind_group_label: "particles_bind_group",
            layout: BindGroupLayout::ParticlesUpdate,
            entries: spec_particles_entries(textures.read),
            color_attachments: seq![spec_clear_color_attachment(textures.write)],
            depth_stencil_attachment: None,
            draws: seq![Draw { pipeline: RenderPipeline::ParticlesUpdate, vertices: 3 }],
        }
    }

    /// The particles are drawn from this frame's state into the deferred
    /// G-buffer.
    pub open spec fn spec_draw_pass(textures: ParticlesDataTextures) -> RenderPassView {
        RenderPassView {
            label: "particles_pass",
            bind_group_label: "particles_bind_group",
            layout: BindGroupLayout::ParticlesDraw,
            entries: spec_particles_entries(textures.write),
            color_attachments: seq![
                spec_load_color_attachment(Texture::Deferred),
                spec_load_color_attachment(Texture::DeferredLightingPassId),
            ],
            depth_stencil_attachment: spec_load_depth_attachment(Texture::Depth),
            draws: seq![Draw { pipeline: RenderPipeline::ParticlesDraw, vertices: 196608 }],
        }
    }

    /// The passes of the node in the order in which they run, or none where
    /// anything is missing.
    pub open spec fn spec_run(context: FrameContext) -> Seq<RenderPassView> {
        if ParticlesNode::spec_can_run(context) {
            let textures = context.particles_data_textures.unwrap();
            seq![ParticlesNode::spec_update_pass(textures), ParticlesNode::spec_draw_pass(textures)]
        } else {
            seq![]
        }
    }

    /// The passes to record for the particles in this frame: both or none.
    pub fn run(&self, context: &FrameContext) -> (passes: Vec<RenderPass>)
        ensures
            passes.deep_view() == ParticlesNode::spec_run(*context),
    {
        let mut passes: Vec<RenderPass> = Vec::new();
        let pipeline_cache = &context.pipeline_cache;
        let pipelines = (
            pipeline_cache.get_render_pipeline(RenderPipeline::ParticlesUpdate),
            pipeline_cache.get_render_pipeline(RenderPipeline::ParticlesDraw),
        );
        let (Some(update), Some(draw)) = pipelines else {
            assert(passes.deep_view() =~= ParticlesNode::spec_run(*context));
            return passes;
        };
        let Some(particles_data_texture) = &context.particles_data_textures else {
            assert(passes.deep_view() =~= ParticlesNode::spec_run(*context));
            return passes;
        };
        if !context.deferred || !context.deferred_lighting_pass_id {
            assert(passes.deep_view() =~= ParticlesNode::spec_run(*context));
            return passes;
        }
        // ---------------------------------------
        // Particles Update
        // ---------------------------------------
        {
            let mut color_attachments = Vec::new();
            color_attachments.push(clear_color_attachment(particles_data_texture.write));
            assert(color_attachments@ =~= seq![
                spec_clear_color_attachment(particles_data_texture.write),
            ]);
            let mut draws = Vec::new();
            draws.push(Draw { pipeline: update, vertices: FULLSCREEN_VERTICES });
            assert(draws@ =~= seq![Draw { pipeline: RenderPipeline::ParticlesUpdate, vertices: 3 }]);
            passes.push(
                RenderPass {
                    label: "particles_pass",
                    bind_group_label: "particles_bind_group",
                    layout: BindGroupLayout::ParticlesUpdate,
                    entries: particles_entries(particles_data_texture.read),
                    color_attachments,
                    depth_stencil_attachment: None,
                    draws,
                },
            );
        }
        // ---------------------------------------
        // Particles Draw
        // ---------------------------------------
        {
            let mut color_attachments = Vec::new();
            color_attachments.push(load_color_attachment(Texture::Deferred));
            color_attachments.push(load_color_attachment(Texture::DeferredLightingPassId));
            assert(color_attachments@ =~= seq![
                spec_load_color_attachment(Texture::Deferred),
                spec_load_color_attachment(Texture::DeferredLightingPassId),
            ]);
            let mut draws = Vec::new();
            draws.push(Draw { pipeline: draw, vertices: PARTICLES_DRAW_VERTICES });
            assert(draws@ =~= seq![
                Draw { pipeline: RenderPipeline::ParticlesDraw, vertices: 196608 },
            ]);
            passes.push(
                RenderPass {
                    label: "particles_pass",
                    bind_group_label: "particles_bind_group",
                    layout: BindGroupLayout::ParticlesDraw,
                    entries: particles_entries(particles_data_texture.write),
                    color_attachments,
                    depth_stencil_attachment: load_depth_attachment(Texture::Depth),
                    draws,
                },
            );
        }
        assert(passes.deep_view() =~= ParticlesNode::spec_run(*context));
        passes
    }
}

/// How many particle commands one frame can take.
pub const PARTICLE_COMMANDS: usize = 12;

/// How many particle systems there are.
pub const PARTICLE_SYSTEMS: usize = 128;

/// The assignment of a system that got no command in this frame.
pub const UNASSIGNED: u32 = u32::MAX;

/// One particle system as the shaders see it.
#[derive(Clone, Copy, Debug, PartialEq, Eq, Hash, Structural)]
pub struct ParticleSystem {
    /// Seconds since the system got its last command, as the bits of a
    /// single-precision float.
    pub age: u32,
    /// The slot of the command that the system got in this frame, or
    /// `UNASSIGNED`.
    pub command_assignment: u32,
}

/// Whether `oldest` is the system that the next command goes to: the first
/// of those whose age is the greatest, if any age is above zero, and the
/// first of all if none is.
pub open spec fn spec_is_oldest(systems: Seq<ParticleSystem>, oldest: int) -> bool {
    &&& 0 <= oldest < systems.len()
    &&& if exists|j: int| 0 <= j < systems.len() && spec_gt(#[trigger] systems[j].age, 0) {
        &&& spec_gt(systems[oldest].age, 0)
        &&& forall|j: int|
            0 <= j < systems.len() ==> !spec_gt(#[trigger] systems[j].age, systems[oldest].age)
        &&& forall|j: int|
            0 <= j < oldest && !spec_is_nan(#[trigger] systems[j].age) ==> spec_gt(
                systems[oldest].age,
                systems[j].age,
            )
    } else {
        oldest == 0
    }
}

/// The system that the next command goes to.
pub open spec fn spec_oldest(systems: Seq<ParticleSystem>) -> int {
    choose|oldest: int| spec_is_oldest(systems, oldest)
}

/// There is one such system and no other.
pub proof fn lemma_oldest_is_unique(systems: Seq<ParticleSystem>, first: int, second: int)
    requires
        spec_is_oldest(systems, first),
        spec_is_oldest(systems, second),
    ensures
        first == second,
{
    if first < second {
        assert(spec_gt(systems[second].age, systems[first].age));
        assert(!spec_gt(systems[second].age, systems[first].age));
    }
    if second < first {
        assert(spec_gt(systems[first].age, systems[second].age));
        assert(!spec_gt(systems[first].age, systems[second].age));
    }
}

/// The system that the next command goes to: the oldest, and of several of
/// the same age the first.
pub fn oldest_system(systems: &Vec<ParticleSystem>) -> (oldest: usize)
    requires
        systems.len() > 0,
    ensures
        spec_is_oldest(systems@, oldest as int),
        oldest == spec_oldest(systems@),
{
    let mut oldest: usize = 0;
    let mut oldest_time: u32 = 0;
    let ghost mut found = false;
    let mut i: usize = 0;
    while i < systems.len()
        invariant
            i <= systems.len(),
            systems.len() > 0,
            oldest < systems.len(),
            found == exists|j: int| 0 <= j < i && spec_gt(#[trigger] systems[j].age, 0),
            !found ==> oldest == 0 && oldest_time == 0,
            found ==> oldest < i && oldest_time == systems[oldest as int].age && spec_gt(
                oldest_time,
                0,
            ),
            found ==> forall|j: int| 0 <= j < i ==> !spec_gt(#[trigger] systems[j].age, oldest_time),
            found ==> forall|j: int|
                0 <= j < oldest && !spec_is_nan(#[trigger] systems[j].age) ==> spec_gt(
                    oldest_time,
                    systems[j].age,
                ),
        decreases systems.len() - i,
    {
        if gt(systems[i].age, oldest_time) {
            proof {
                assert forall|j: int| 0 <= j < i && !spec_is_nan(
                    #[trigger] systems[j].age,
                ) implies spec_gt(systems[i as int].age, systems[j].age) by {
                    if found {
                        assert(!spec_gt(systems[j].age, oldest_time));
                    } else {
                        assert(!spec_gt(systems[j].age, 0));
                    }
                }
                found = true;
            }
            oldest = i;
            oldest_time = systems[i].age;
        }
        i = i + 1;
    }
    proof {
        let chosen = spec_oldest(systems@);
        assert(spec_is_oldest(systems@, oldest as int));
        lemma_oldest_is_unique(systems@, oldest as int, chosen);
    }
    oldest
}

/// The systems after `commands` new commands have been handed out: every
/// system is unassigned first; then the commands go out one by one, each to
/// the system that is the oldest at that moment, which takes the number of
/// the command and starts its age again at zero.
pub open spec fn spec_queue_particle_commands(
    systems: Seq<ParticleSystem>,
    commands: nat,
) -> Seq<ParticleSystem>
    decreases commands,
{
    if commands == 0 {
        Seq::new(
            systems.len(),
            |i: int| ParticleSystem { age: systems[i].age, command_assignment: u32::MAX },
        )
    } else {
        let before = spec_queue_particle_commands(systems, (commands - 1) as nat);
        before.update(
            spec_oldest(before),
            ParticleSystem { age: 0, command_assignment: (commands - 1) as u32 },
        )
    }
}

/// Hands this frame's new commands to the particle systems. Of
/// `new_commands` commands the first `PARTICLE_COMMANDS` are taken; the
/// result says how many that is. The ages are those after this frame's time
/// has been added.
pub fn queue_particle_commands(systems: &mut Vec<ParticleSystem>, new_commands: usize) -> (taken:
    usize)
    requires
        old(systems).len() > 0,
    ensures
        taken == if new_commands < 12 {
            new_commands
        } else {
            12
        },
        final(systems)@ == spec_queue_particle_commands(old(systems)@, taken as nat),
{
    let mut i: usize = 0;
    while i < systems.len()
        invariant
            i <= systems.len(),
            systems.len() == old(systems).len(),
            forall|j: int|
                0 <= j < i ==> systems[j] == (ParticleSystem {
                    age: old(systems)[j].age,
                    command_assignment: u32::MAX,
                }),
            forall|j: int| i <= j < systems.len() ==> systems[j] == old(systems)[j],
        decreases systems.len() - i,
    {
        // Reset command indices from last frame
        let system = ParticleSystem { age: systems[i].age, command_assignment: UNASSIGNED };
        systems.set(i, system);
        i = i + 1;
    }
    assert(systems@ =~= spec_queue_particle_commands(old(systems)@, 0));
    let taken = if new_commands < PARTICLE_COMMANDS {
        new_commands
    } else {
        PARTICLE_COMMANDS
    };
    let mut command_n: usize = 0;
    while command_n < taken
        invariant
            command_n <= taken <= 12,
            systems.len() == old(systems).len(),
            systems.len() > 0,
            systems@ == spec_queue_particle_commands(old(systems)@, command_n as nat),
        decreases taken - command_n,
    {
        let oldest = oldest_system(systems);
        // Reset age and assign new command
        let assigned: u32 = command_n as u32;
        systems.set(oldest, ParticleSystem { age: 0, command_assignment: assigned });
        command_n = command_n + 1;
    }
    taken
}

} // verus!
