//! The frame as a whole: what its nodes find when they run, the passes that
//! they record, stage by stage, and what holds from one frame to the next.

use crate::bind_group_utils::{BindingResource, RenderPipeline};
use crate::minimap::{self, MinimapNode, MinimapTextures};
use crate::particles::{self, ParticlesDataTextures, ParticlesNode};
use crate::post_process::PostProcessNode;
use crate::render_pass::{spec_run_passes, RenderPass, RenderPassView};
use crate::texture::{is_acquired, Texture};
use crate::units::{self, load_unit_texture, UnitCommand, UnitTexture, UnitsDataTextures, UnitsNode};
use vstd::prelude::*;

verus! {

/// The pipelines that have been compiled so far. Pipelines compile in the
/// background; until one is here, the passes that need it cannot run.
#[derive(Clone, Debug, PartialEq, Eq)]
pub struct PipelineCache {
    pub ready: Vec<RenderPipeline>,
}

impl PipelineCache {
    /// Whether `id` has been compiled.
    pub open spec fn spec_is_ready(&self, id: RenderPipeline) -> bool {
        self.ready@.contains(id)
    }

    /// A cache in which nothing has been compiled yet.
    pub fn new() -> (cache: PipelineCache)
        ensures
            forall|id: RenderPipeline| !cache.spec_is_ready(id),
    {
        PipelineCache { ready: Vec::new() }
    }

    /// Records that `id` has been compiled.
    pub fn insert(&mut self, id: RenderPipeline)
        ensures
            forall|other: RenderPipeline|
                final(self).spec_is_ready(other) == (other == id || old(self).spec_is_ready(
                    other,
                )),
    {
        self.ready.push(id);
        proof {
            let before = old(self).ready@;
            let after = self.ready@;
            assert(after == before.push(id));
            assert forall|other: RenderPipeline|
                after.contains(other) == (other == id || before.contains(other)) by {
                if other == id {
                    assert(after[before.len() as int] == id);
                } else if before.contains(other) {
                    let i = choose|i: int| 0 <= i < before.len() && before[i] == other;
                    assert(after[i] == other);
                } else if after.contains(other) {
                    let i = choose|i: int| 0 <= i < after.len() && after[i] == other;
                    assert(before[i] == other);
                }
            }
        }
    }

    /// The pipeline `id`, once it has been compiled; `None` until then.
    pub fn get_render_pipeline(&self, id: RenderPipeline) -> (pipeline: Option<RenderPipeline>)
        ensures
            pipeline == if self.spec_is_ready(id) {
                Some(id)
            } else {
                None
            },
    {
        let mut i: usize = 0;
        while i < self.ready.len()
            invariant
                i <= self.ready.len(),
                forall|j: int| 0 <= j < i ==> self.ready[j] != id,
            decreases self.ready.len() - i,
        {
            if self.ready[i] == id {
                return Some(id);
            }
            i = i + 1;
        }
        None
    }
}

/// What the nodes of one frame find: the pipelines compiled so far, the
/// player's command, and the textures that are there. A texture that could
/// not be had is `None` or `false`.
#[derive(Clone, Debug, PartialEq, Eq)]
pub struct FrameContext {
    pub pipeline_cache: PipelineCache,
    /// The command as input handling left it.
    pub unit_command: UnitCommand,
    /// Seconds since the last frame, as the bits of a single-precision float.
    pub delta_time: u32,
    pub units_data_textures: Option<UnitsDataTextures>,
    pub minimap_textures: Option<MinimapTextures>,
    pub particles_data_textures: Option<ParticlesDataTextures>,
    /// The sprite sheets, once both are loaded.
    pub unit_texture: Option<UnitTexture>,
    /// Whether the view has a deferred G-buffer.
    pub deferred: bool,
    /// Whether the view has a lighting-technique-id buffer.
    pub deferred_lighting_pass_id: bool,
}

impl FrameContext {
    /// The textures are under the names that some frame gives them.
    pub open spec fn wf(self) -> bool {
        &&& self.units_data_textures matches Some(textures) ==> textures.wf()
        &&& self.minimap_textures matches Some(textures) ==> textures.wf()
        &&& self.particles_data_textures matches Some(textures) ==> textures.wf()
        &&& self.unit_texture matches Some(sprites) ==> sprites.wf()
    }
}

/// What the nodes of a frame find, given what the frame could get hold of:
/// `acquired` lists the textures that are there, those of the view and the
/// loaded sprite sheets among them; `units`, `minimap` and `particles` are
/// the names that were prepared for the view, if it takes part in each. A set
/// of names is handed on only if every texture of it was acquired.
pub open spec fn spec_prepare_frame(
    pipeline_cache: PipelineCache,
    unit_command: UnitCommand,
    delta_time: u32,
    units: Option<UnitsDataTextures>,
    minimap: Option<MinimapTextures>,
    particles: Option<ParticlesDataTextures>,
    acquired: Seq<Texture>,
) -> FrameContext {
    FrameContext {
        pipeline_cache,
        unit_command,
        delta_time,
        units_data_textures: if units.is_some() && units.unwrap().spec_acquired(acquired) {
            units
        } else {
            None
        },
        minimap_textures: if minimap.is_some() && minimap.unwrap().spec_acquired(acquired) {
            minimap
        } else {
            None
        },
        particles_data_textures: if particles.is_some() && acquired.contains(
            particles.unwrap().read,
        ) && acquired.contains(particles.unwrap().write) {
            particles
        } else {
            None
        },
        unit_texture: if acquired.contains(Texture::SmallGoose) && acquired.contains(
            Texture::BigGoose,
        ) {
            Some(UnitTexture { small_goose: Texture::SmallGoose, big_goose: Texture::BigGoose })
        } else {
            None
        },
        deferred: acquired.contains(Texture::Deferred),
        deferred_lighting_pass_id: acquired.contains(Texture::DeferredLightingPassId),
    }
}

/// What the nodes of a frame find, given what the frame could get hold of.
/// What could not be had is left out here, and the nodes that need it record
/// nothing; no node is handed a name without its texture.
pub fn prepare_frame(
    pipeline_cache: PipelineCache,
    unit_command: UnitCommand,
    delta_time: u32,
    units: Option<UnitsDataTextures>,
    minimap: Option<MinimapTextures>,
    particles: Option<ParticlesDataTextures>,
    acquired: &Vec<Texture>,
) -> (context: FrameContext)
    ensures
        context == spec_prepare_frame(
            pipeline_cache,
            unit_command,
            delta_time,
            units,
            minimap,
            particles,
            acquired@,
        ),
{
    FrameContext {
        pipeline_cache,
        unit_command,
        delta_time,
        units_data_textures: match units {
            Some(textures) => units::publish_textures(textures, acquired),
            None => None,
        },
        minimap_textures: match minimap {
            Some(textures) => minimap::publish_textures(textures, acquired),
            None => None,
        },
        particles_data_textures: match particles {
            Some(textures) => particles::publish_textures(textures, acquired),
            None => None,
        },
        unit_texture: units::publish_unit_texture(load_unit_texture(), acquired),
        deferred: is_acquired(acquired, Texture::Deferred),
        deferred_lighting_pass_id: is_acquired(acquired, Texture::DeferredLightingPassId),
    }
}

/// A texture that could not be had stops the simulation, and nothing else
/// fails. If one of the six unit textures is not among those acquired, the
/// frame has no names for the units' textures, and no pass that reads or
/// writes the units' state is recorded: not the unit node's, not the
/// minimap's, not the overlay's. Whether the particles run does not depend on
/// it.
pub proof fn lemma_missing_texture_skips_the_simulation(
    pipeline_cache: PipelineCache,
    unit_command: UnitCommand,
    delta_time: u32,
    units: UnitsDataTextures,
    minimap: Option<MinimapTextures>,
    particles: Option<ParticlesDataTextures>,
    acquired: Seq<Texture>,
)
    requires
        !units.spec_acquired(acquired),
    ensures
        ({
            let context = spec_prepare_frame(
                pipeline_cache,
                unit_command,
                delta_time,
                Some(units),
                minimap,
                particles,
                acquired,
            );
            let without = spec_prepare_frame(
                pipeline_cache,
                unit_command,
                delta_time,
                None,
                minimap,
                particles,
                acquired,
            );
            &&& context.units_data_textures.is_none()
            &&& UnitsNode::spec_run(context).len() == 0
            &&& MinimapNode::spec_run(context).len() == 0
            &&& PostProcessNode::spec_run(context).len() == 0
            &&& ParticlesNode::spec_run(context) == ParticlesNode::spec_run(without)
        }),
{
}

/// The number of the frame after frame `frame_count`. The count wraps round.
pub open spec fn spec_next_frame(frame_count: u32) -> u32 {
    if frame_count == u32::MAX {
        0
    } else {
        (frame_count + 1) as u32
    }
}

/// The number of the frame after frame `frame_count`.
pub fn next_frame(frame_count: u32) -> (next: u32)
    ensures
        next == spec_next_frame(frame_count),
{
    frame_count.wrapping_add(1)
}

/// The passes of one frame, stage by stage. The stages run in the order of
/// the fields; within a stage the passes run in the order of the list.
#[derive(Clone, Debug, PartialEq, Eq)]
pub struct FramePlan {
    /// Evaluation, update and update of the large units.
    pub simulation: Vec<RenderPass>,
    /// The four levels of the minimap.
    pub minimap: Vec<RenderPass>,
    /// Units, projectiles and large units into the G-buffer.
    pub draw: Vec<RenderPass>,
    /// Update and draw of the particles.
    pub particles: Vec<RenderPass>,
    /// The overlay.
    pub post_process: Vec<RenderPass>,
}

impl FramePlan {
    /// All passes of the frame in the order in which they run.
    pub open spec fn spec_passes(self) -> Seq<RenderPassView> {
        self.simulation.deep_view() + self.minimap.deep_view() + self.draw.deep_view()
            + self.particles.deep_view() + self.post_process.deep_view()
    }

    /// All passes of the frame in the order in which they run.
    pub fn into_passes(self) -> (passes: Vec<RenderPass>)
        ensures
            passes.deep_view() == self.spec_passes(),
    {
        let FramePlan { simulation, minimap, draw, particles, post_process } = self;
        let mut passes = simulation;
        let mut minimap = minimap;
        let mut draw = draw;
        let mut particles = particles;
        let mut post_process = post_process;
        passes.append(&mut minimap);
        passes.append(&mut draw);
        passes.append(&mut particles);
        passes.append(&mut post_process);
        assert(passes.deep_view() =~= self.spec_passes());
        passes
    }
}

/// The stages of the frame that `context` describes. The unit node's passes
/// are parted after the third: the minimap is built from the state that the
/// simulation leaves, before anything is drawn.
pub open spec fn spec_plan_frame(
    context: FrameContext,
) -> (
    Seq<RenderPassView>,
    Seq<RenderPassView>,
    Seq<RenderPassView>,
    Seq<RenderPassView>,
    Seq<RenderPassView>,
) {
    let units = UnitsNode::spec_run(context);
    (
        if units.len() == 5 {
            units.subrange(0, 3)
        } else {
            units
        },
        MinimapNode::spec_run(context),
        if units.len() == 5 {
            units.subrange(3, 5)
        } else {
            seq![]
        },
        ParticlesNode::spec_run(context),
        PostProcessNode::spec_run(context),
    )
}

/// The passes of the frame that `context` describes, stage by stage. A node
/// that lacks something contributes no pass; the others are not held up.
pub fn plan_frame(context: &FrameContext) -> (plan: FramePlan)
    ensures
        plan.simulation.deep_view() == spec_plan_frame(*context).0,
        plan.minimap.deep_view() == spec_plan_frame(*context).1,
        plan.draw.deep_view() == spec_plan_frame(*context).2,
        plan.particles.deep_view() == spec_plan_frame(*context).3,
        plan.post_process.deep_view() == spec_plan_frame(*context).4,
{
    let mut simulation = UnitsNode.run(context);
    let draw = if simulation.len() == 5 {
        simulation.split_off(3)
    } else {
        Vec::new()
    };
    assert(simulation.deep_view() =~= spec_plan_frame(*context).0);
    assert(draw.deep_view() =~= spec_plan_frame(*context).2);
    FramePlan {
        simulation,
        minimap: MinimapNode.run(context),
        draw,
        particles: ParticlesNode.run(context),
        post_process: PostProcessNode.run(context),
    }
}

/// The first stage of a frame's plan is the simulation, and the third the
/// drawing of the units.
pub proof fn lemma_plan_parts_the_unit_node(context: FrameContext)
    requires
        UnitsNode::spec_can_run(context),
    ensures
        spec_plan_frame(context).0 == UnitsNode::spec_simulation(
            context.units_data_textures.unwrap(),
            context.unit_texture.unwrap(),
            context.minimap_textures.unwrap(),
        ),
        spec_plan_frame(context).2 == seq![
            UnitsNode::spec_draw_pass(
                context.units_data_textures.unwrap(),
                context.unit_texture.unwrap(),
                context.minimap_textures.unwrap(),
            ),
            UnitsNode::spec_large_draw_pass(
                context.units_data_textures.unwrap(),
                context.unit_texture.unwrap(),
                context.minimap_textures.unwrap(),
            ),
        ],
{
    let textures = context.units_data_textures.unwrap();
    let sprites = context.unit_texture.unwrap();
    let minimap = context.minimap_textures.unwrap();
    assert(spec_plan_frame(context).0 =~= UnitsNode::spec_simulation(textures, sprites, minimap));
    assert(spec_plan_frame(context).2 =~= seq![
        UnitsNode::spec_draw_pass(textures, sprites, minimap),
        UnitsNode::spec_large_draw_pass(textures, sprites, minimap),
    ]);
}

/// What a frame reads of a double-buffered texture is what the frame before
/// wrote, and no pass reads the texture that it writes. In words, for a
/// frame and the frame after it:
/// evaluation reads the state from the texture into which the update of the
/// frame before drew, and the update reads it from the texture into which
/// evaluation of the same frame drew; evaluation reads the attack map that
/// evaluation of the frame before drew; the large units' update reads the
/// state that the large units' update of the frame before drew; the
/// particles' update reads the state that the particles' update of the frame
/// before drew. In each of these passes the texture read and the texture
/// drawn into differ.
pub proof fn lemma_parity_invariant(
    frame_count: u32,
    sprites: UnitTexture,
    minimap: MinimapTextures,
)
    ensures
        ({
            let before = UnitsDataTextures::spec_for_frame(frame_count);
            let after = UnitsDataTextures::spec_for_frame(spec_next_frame(frame_count));
            let evaluate_before = UnitsNode::spec_evaluate_pass(before, sprites, minimap);
            let update_before = UnitsNode::spec_update_pass(before, sprites, minimap);
            let large_before = UnitsNode::spec_large_update_pass(before, sprites, minimap);
            let evaluate_after = UnitsNode::spec_evaluate_pass(after, sprites, minimap);
            let update_after = UnitsNode::spec_update_pass(after, sprites, minimap);
            let large_after = UnitsNode::spec_large_update_pass(after, sprites, minimap);
            // the units' state
            &&& Some(evaluate_after.entries[0].resource) == spec_view_of(
                update_before.color_target(0),
            )
            &&& Some(update_after.entries[0].resource) == spec_view_of(
                evaluate_after.color_target(0),
            )
            &&& Some(evaluate_after.entries[0].resource) != spec_view_of(
                evaluate_after.color_target(0),
            )
            &&& Some(update_after.entries[0].resource) != spec_view_of(
                update_after.color_target(0),
            )
            // the attack map
            &&& Some(evaluate_after.entries[2].resource) == spec_view_of(
                evaluate_before.color_target(1),
            )
            &&& Some(evaluate_after.entries[2].resource) != spec_view_of(
                evaluate_after.color_target(1),
            )
            // the large units' state
            &&& Some(large_after.entries[5].resource) == spec_view_of(
                large_before.color_target(0),
            )
            &&& Some(large_after.entries[5].resource) != spec_view_of(
                large_after.color_target(0),
            )
        }),
        ({
            let before = ParticlesDataTextures::spec_for_frame(frame_count);
            let after = ParticlesDataTextures::spec_for_frame(spec_next_frame(frame_count));
            let update_before = ParticlesNode::spec_update_pass(before);
            let update_after = ParticlesNode::spec_update_pass(after);
            &&& Some(update_after.entries[2].resource) == spec_view_of(
                update_before.color_target(0),
            )
            &&& Some(update_after.entries[2].resource) != spec_view_of(
                update_after.color_target(0),
            )
        }),
{
}

/// A target as the resource under which a pass would bind it.
pub open spec fn spec_view_of(target: Option<Texture>) -> Option<BindingResource> {
    match target {
        Some(texture) => Some(BindingResource::TextureView(texture)),
        None => None,
    }
}

/// While one of the unit node's pipelines is still being compiled, the node
/// records no pass: nothing is drawn, and every resource holds after the
/// node what it held before, whatever the shaders would compute.
pub proof fn lemma_graceful_degradation<C>(
    shader: spec_fn(Seq<RenderPipeline>, int, Seq<Option<C>>) -> C,
    context: FrameContext,
    missing: RenderPipeline,
    contents: Map<BindingResource, C>,
)
    requires
        missing == RenderPipeline::UnitEvaluate || missing == RenderPipeline::UnitUpdate || missing
            == RenderPipeline::LargeUnitUpdate || missing == RenderPipeline::UnitDraw || missing
            == RenderPipeline::UnitProjectileDraw || missing == RenderPipeline::LargeUnitDraw,
        !context.pipeline_cache.spec_is_ready(missing),
    ensures
        UnitsNode::spec_run(context).len() == 0,
        spec_plan_frame(context).0.len() == 0,
        spec_plan_frame(context).2.len() == 0,
        spec_run_passes(shader, UnitsNode::spec_run(context), contents) == contents,
{
}

} // verus!
