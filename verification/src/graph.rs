//! The order of the nodes in the render graph. The graph runs a node after
//! every node that an edge leads to it from; the edges below leave it one
//! order for the nodes of this crate, which is the order of the stages of a
//! frame.

use crate::minimap::MinimapNode;
use crate::particles::ParticlesNode;
use crate::post_process::PostProcessNode;
use crate::units::UnitsNode;
use vstd::prelude::*;

verus! {

/// The nodes that the edges of this crate speak of: its own, and those of
/// the renderer between which they stand.
#[derive(Clone, Copy, Debug, PartialEq, Eq, Hash, Structural)]
pub enum GraphNode {
    /// The renderer's deferred prepass, which fills the G-buffer.
    DeferredPrepass,
    /// Evaluation, update and update of the large units.
    Units,
    /// The four levels of the minimap.
    Minimap,
    /// Units, projectiles and large units into the G-buffer.
    UnitsDraw,
    /// Update and draw of the particles.
    Particles,
    /// The renderer's copy of the lighting-technique ids, after which the
    /// G-buffer is lit.
    CopyDeferredLightingId,
    /// The beginning of the renderer's main pass.
    StartMainPass,
    /// The main pass of the 2d camera, which draws after the 3d camera.
    MainPass2d,
    /// The overlay.
    PostProcess,
    /// The renderer's tonemapping of the 2d camera.
    Tonemapping,
}

/// The name of the node that draws the units.
pub const UNITS_DRAW_NAME: &'static str = "units_draw_pass";

impl GraphNode {
    /// The place of the node in a frame.
    pub open spec fn spec_rank(self) -> int {
        match self {
            GraphNode::DeferredPrepass => 0,
            GraphNode::Units => 1,
            GraphNode::Minimap => 2,
            GraphNode::UnitsDraw => 3,
            GraphNode::Particles => 4,
            GraphNode::CopyDeferredLightingId => 5,
            GraphNode::StartMainPass => 6,
            GraphNode::MainPass2d => 7,
            GraphNode::PostProcess => 8,
            GraphNode::Tonemapping => 9,
        }
    }

    /// The name under which this crate adds the node to the graph; `None` for
    /// a node of the renderer, which has its name from there.
    pub open spec fn spec_name(self) -> Option<&'static str> {
        match self {
            GraphNode::Units => Some("units_pass"),
            GraphNode::Minimap => Some("minimap_pass"),
            GraphNode::UnitsDraw => Some("units_draw_pass"),
            GraphNode::Particles => Some("deferred_particles_pass"),
            GraphNode::PostProcess => Some("game_post_process"),
            _ => None,
        }
    }

    /// The name under which this crate adds the node to the graph.
    pub fn name(self) -> (name: Option<&'static str>)
        ensures
            name == self.spec_name(),
    {
        match self {
            GraphNode::Units => Some(UnitsNode::NAME),
            GraphNode::Minimap => Some(MinimapNode::NAME),
            GraphNode::UnitsDraw => Some(UNITS_DRAW_NAME),
            GraphNode::Particles => Some(ParticlesNode::NAME),
            GraphNode::PostProcess => Some(PostProcessNode::NAME),
            _ => None,
        }
    }
}

/// Whether each node of `chain` comes later in the frame than the one before
/// it.
pub open spec fn spec_in_frame_order(chain: Seq<GraphNode>) -> bool {
    forall|i: int, j: int|
        0 <= i < j < chain.len() ==> (#[trigger] chain[i]).spec_rank() < (
        #[trigger] chain[j]).spec_rank()
}

/// The chains of edges, one for each plugin: units, minimap, particles and
/// overlay.
pub open spec fn spec_edges(plugin: int) -> Seq<GraphNode> {
    if plugin == 0 {
        seq![
            GraphNode::DeferredPrepass,
            GraphNode::Units,
            GraphNode::UnitsDraw,
            GraphNode::CopyDeferredLightingId,
        ]
    } else if plugin == 1 {
        seq![GraphNode::Units, GraphNode::Minimap, GraphNode::UnitsDraw, GraphNode::StartMainPass]
    } else if plugin == 2 {
        seq![
            GraphNode::DeferredPrepass,
            GraphNode::UnitsDraw,
            GraphNode::Particles,
            GraphNode::CopyDeferredLightingId,
        ]
    } else {
        seq![GraphNode::MainPass2d, GraphNode::PostProcess, GraphNode::Tonemapping]
    }
}

/// The edges of the unit nodes: the simulation after the G-buffer is filled,
/// the drawing after the simulation and before the G-buffer is lit.
pub fn units_edges() -> (chain: Vec<GraphNode>)
    ensures
        chain@ == spec_edges(0),
{
    let mut chain = Vec::new();
    chain.push(GraphNode::DeferredPrepass);
    chain.push(GraphNode::Units);
    chain.push(GraphNode::UnitsDraw);
    chain.push(GraphNode::CopyDeferredLightingId);
    assert(chain@ =~= spec_edges(0));
    chain
}

/// The edges of the minimap node: between simulation and drawing of the
/// units.
pub fn minimap_edges() -> (chain: Vec<GraphNode>)
    ensures
        chain@ == spec_edges(1),
{
    let mut chain = Vec::new();
    chain.push(GraphNode::Units);
    chain.push(GraphNode::Minimap);
    chain.push(GraphNode::UnitsDraw);
    chain.push(GraphNode::StartMainPass);
    assert(chain@ =~= spec_edges(1));
    chain
}

/// The edges of the particle node: after the units are drawn and before the
/// G-buffer is lit.
pub fn particles_edges() -> (chain: Vec<GraphNode>)
    ensures
        chain@ == spec_edges(2),
{
    let mut chain = Vec::new();
    chain.push(GraphNode::DeferredPrepass);
    chain.push(GraphNode::UnitsDraw);
    chain.push(GraphNode::Particles);
    chain.push(GraphNode::CopyDeferredLightingId);
    assert(chain@ =~= spec_edges(2));
    chain
}

/// The edges of the overlay node: after the main pass of the 2d camera and
/// before its tonemapping.
pub fn post_process_edges() -> (chain: Vec<GraphNode>)
    ensures
        chain@ == spec_edges(3),
{
    let mut chain = Vec::new();
    chain.push(GraphNode::MainPass2d);
    chain.push(GraphNode::PostProcess);
    chain.push(GraphNode::Tonemapping);
    assert(chain@ =~= spec_edges(3));
    chain
}

/// The node that records stage number `stage` of a frame's plan: simulation,
/// minimap, draw, particles, overlay.
pub open spec fn spec_node_of_stage(stage: int) -> GraphNode {
    if stage == 0 {
        GraphNode::Units
    } else if stage == 1 {
        GraphNode::Minimap
    } else if stage == 2 {
        GraphNode::UnitsDraw
    } else if stage == 3 {
        GraphNode::Particles
    } else {
        GraphNode::PostProcess
    }
}

/// The edges fix the order of the frame. Every chain of edges runs in the
/// order of the frame, so the edges contradict neither each other nor the
/// renderer's own order; and between the nodes of two successive stages of
/// the plan there is a path of edges, so the graph cannot run them in any
/// other order than the plan's.
pub proof fn lemma_edges_fix_the_frame_order()
    ensures
        forall|plugin: int| 0 <= plugin < 4 ==> spec_in_frame_order(#[trigger] spec_edges(plugin)),
        // simulation, then minimap, then draw
        spec_edges(1)[0] == spec_node_of_stage(0),
        spec_edges(1)[1] == spec_node_of_stage(1),
        spec_edges(1)[2] == spec_node_of_stage(2),
        // draw, then particles
        spec_edges(2)[1] == spec_node_of_stage(2),
        spec_edges(2)[2] == spec_node_of_stage(3),
        // particles, then the lighting of the G-buffer, which the renderer
        // finishes before the 2d camera draws, then the overlay
        spec_edges(2)[3] == GraphNode::CopyDeferredLightingId,
        GraphNode::CopyDeferredLightingId.spec_rank() < GraphNode::MainPass2d.spec_rank(),
        spec_edges(3)[0] == GraphNode::MainPass2d,
        spec_edges(3)[1] == spec_node_of_stage(4),
        forall|first: int, second: int|
            0 <= first < second < 5 ==> (#[trigger] spec_node_of_stage(first)).spec_rank() < (
            #[trigger] spec_node_of_stage(second)).spec_rank(),
{
    assert forall|plugin: int| 0 <= plugin < 4 implies spec_in_frame_order(
        #[trigger] spec_edges(plugin),
    ) by {
        let chain = spec_edges(plugin);
        assert forall|i: int, j: int| 0 <= i < j < chain.len() implies (
        #[trigger] chain[i]).spec_rank() < (#[trigger] chain[j]).spec_rank() by {
            assert(chain.len() <= 4);
        }
    }
}

} // verus!
