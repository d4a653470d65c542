//! The minimap: an overhead image of the units, encoded at a quarter of the
//! unit grid and reduced three times more.

use crate::bind_group_utils::{
    basic_fullscreen_tri_pipeline, load_color_attachment, opaque_target, shader_def_uint,
    spec_basic_fullscreen_tri_pipeline, spec_load_color_attachment, spec_opaque_target,
    spec_utexture_layout_entry, utexture_layout_entry, BindGroupLayout,
    BindGroupLayoutDescriptor, BindGroupLayoutDescriptorView, BindGroupLayoutEntry,
    BindingResource, ColorTargetState, RenderPipeline, RenderPipelineDescriptor,
    RenderPipelineDescriptorView, ShaderDefVal, TextureViewDimension,
};
use crate::frame::FrameContext;
use crate::render_pass::{
    lemma_run_is_pure, lemma_run_keeps, lemma_run_passes_push, spec_run_passes, BindGroupEntry,
    Draw, RenderPass, RenderPassView,
};
use crate::texture::{
    is_acquired, Texture, TextureFormat, ATTACK_RADIUS, MINIMAP_DATA_FORMAT, MINIMAP_SCALE,
};
use crate::units::{UnitsDataTextures, FULLSCREEN_VERTICES};
use vstd::prelude::*;

verus! {

/// The four levels of the minimap, finest first.
#[derive(Clone, Copy, Debug, PartialEq, Eq, Hash, Structural)]
pub struct MinimapTextures {
    pub minimap_tex: Texture,
    pub minimap_sm_tex: Texture,
    pub minimap_sm2_tex: Texture,
    pub minimap_sm3_tex: Texture,
}

impl MinimapTextures {
    /// The levels as every frame has them.
    pub open spec fn spec_new() -> MinimapTextures {
        MinimapTextures {
            minimap_tex: Texture::MinimapData,
            minimap_sm_tex: Texture::MinimapSmData,
            minimap_sm2_tex: Texture::MinimapSm2Data,
            minimap_sm3_tex: Texture::MinimapSm3Data,
        }
    }

    /// Level `level` of the chain, `0` being the finest.
    pub open spec fn spec_level(self, level: int) -> Texture {
        if level == 0 {
            self.minimap_tex
        } else if level == 1 {
            self.minimap_sm_tex
        } else if level == 2 {
            self.minimap_sm2_tex
        } else {
            self.minimap_sm3_tex
        }
    }

    pub open spec fn wf(self) -> bool {
        self == MinimapTextures::spec_new()
    }

    /// Whether all four levels are among `acquired`.
    pub open spec fn spec_acquired(self, acquired: Seq<Texture>) -> bool {
        &&& acquired.contains(self.minimap_tex)
        &&& acquired.contains(self.minimap_sm_tex)
        &&& acquired.contains(self.minimap_sm2_tex)
        &&& acquired.contains(self.minimap_sm3_tex)
    }
}

/// The minimap textures to ask the texture cache for. They are the same in
/// every frame: the chain is built anew from the units' state each time.
pub fn prepare_textures() -> (textures: MinimapTextures)
    ensures
        textures == MinimapTextures::spec_new(),
{
    MinimapTextures {
        minimap_tex: Texture::MinimapData,
        minimap_sm_tex: Texture::MinimapSmData,
        minimap_sm2_tex: Texture::MinimapSm2Data,
        minimap_sm3_tex: Texture::MinimapSm3Data,
    }
}

/// The levels as the nodes of the frame get them: all four if each of them
/// could be had, and none if one could not. With `None` no pass that needs
/// the minimap is recorded in this frame.
pub fn publish_textures(textures: MinimapTextures, acquired: &Vec<Texture>) -> (published: Option<
    MinimapTextures,
>)
    ensures
        published == if textures.spec_acquired(acquired@) {
            Some(textures)
        } else {
            None
        },
{
    if is_acquired(acquired, textures.minimap_tex) && is_acquired(acquired, textures.minimap_sm_tex)
        && is_acquired(acquired, textures.minimap_sm2_tex) && is_acquired(
        acquired,
        textures.minimap_sm3_tex,
    ) {
        Some(textures)
    } else {
        None
    }
}

/// The definitions that the minimap shaders are compiled with.
pub open spec fn spec_shader_defs() -> Seq<ShaderDefVal> {
    seq![
        ShaderDefVal { name: "ATTACK_RADIUS", value: 5 },
        ShaderDefVal { name: "MINIMAP_SCALE", value: 4 },
    ]
}

/// The definitions that the minimap shaders are compiled with.
pub fn shader_defs() -> (defs: Vec<ShaderDefVal>)
    ensures
        defs@ == spec_shader_defs(),
{
    let mut defs: Vec<ShaderDefVal> = Vec::new();
    defs.push(shader_def_uint("ATTACK_RADIUS", ATTACK_RADIUS));
    defs.push(shader_def_uint("MINIMAP_SCALE", MINIMAP_SCALE));
    assert(defs@ =~= spec_shader_defs());
    defs
}

fn minimap_target() -> (targets: Vec<Option<ColorTargetState>>)
    ensures
        targets@ == seq![spec_opaque_target(TextureFormat::Rgba8Uint)],
{
    let mut targets: Vec<Option<ColorTargetState>> = Vec::new();
    targets.push(opaque_target(MINIMAP_DATA_FORMAT));
    assert(targets@ =~= seq![spec_opaque_target(TextureFormat::Rgba8Uint)]);
    targets
}

/// What the minimap node needs from the device: two bind group layouts and
/// two pipelines, one that encodes the units and one that reduces a level.
#[derive(Clone, Debug, PartialEq, Eq)]
pub struct MinimapPipeline {
    /// The layout of the pass that encodes the units: their state and the
    /// attack map.
    pub update_layout: BindGroupLayoutDescriptor,
    /// The layout of a pass that reduces a level: the level before it.
    pub downscale_layout: BindGroupLayoutDescriptor,
    pub update_pipeline: RenderPipelineDescriptor,
    pub minimap_downscale_pipeline: RenderPipelineDescriptor,
}

impl MinimapPipeline {
    pub open spec fn spec_update_layout() -> BindGroupLayoutDescriptorView {
        BindGroupLayoutDescriptorView {
            label: "unit_update_bind_group_layout",
            entries: seq![
                spec_utexture_layout_entry(101, TextureViewDimension::D2),
                spec_utexture_layout_entry(103, TextureViewDimension::D2),
            ],
        }
    }

    pub open spec fn spec_downscale_layout() -> BindGroupLayoutDescriptorView {
        BindGroupLayoutDescriptorView {
            label: "minimap_downscale_bind_group_layout",
            entries: seq![spec_utexture_layout_entry(101, TextureViewDimension::D2)],
        }
    }

    pub open spec fn spec_update_pipeline() -> RenderPipelineDescriptorView {
        spec_basic_fullscreen_tri_pipeline(
            "minimap_update_pipeline",
            "shaders/minimap_update.wgsl",
            BindGroupLayout::Minimap,
            spec_shader_defs(),
            seq![spec_opaque_target(TextureFormat::Rgba8Uint)],
        )
    }

    pub open spec fn spec_minimap_downscale_pipeline() -> RenderPipelineDescriptorView {
        spec_basic_fullscreen_tri_pipeline(
            "minimap_downsample_pipeline",
            "shaders/minimap_downsample.wgsl",
            BindGroupLayout::MinimapDownsample,
            spec_shader_defs(),
            seq![spec_opaque_target(TextureFormat::Rgba8Uint)],
        )
    }

    /// The layouts and the two pipelines of the minimap node. No layout has a
    /// uniform: the minimap is made from textures alone.
    pub fn new() -> (pipeline: MinimapPipeline)
        ensures
            pipeline.update_layout@ == MinimapPipeline::spec_update_layout(),
            pipeline.downscale_layout@ == MinimapPipeline::spec_downscale_layout(),
            pipeline.update_pipeline@ == MinimapPipeline::spec_update_pipeline(),
            pipeline.minimap_downscale_pipeline@
                == MinimapPipeline::spec_minimap_downscale_pipeline(),
    {
        let mut entries: Vec<BindGroupLayoutEntry> = Vec::new();
        entries.push(utexture_layout_entry(101, TextureViewDimension::D2));
        entries.push(utexture_layout_entry(103, TextureViewDimension::D2));
        assert(entries@ =~= MinimapPipeline::spec_update_layout().entries);
        let update_layout = BindGroupLayoutDescriptor {
            label: "unit_update_bind_group_layout",
            entries,
        };

        let mut entries: Vec<BindGroupLayoutEntry> = Vec::new();
        entries.push(utexture_layout_entry(101, TextureViewDimension::D2));
        assert(entries@ =~= MinimapPipeline::spec_downscale_layout().entries);
        let downscale_layout = BindGroupLayoutDescriptor {
            label: "minimap_downscale_bind_group_layout",
            entries,
        };

        let update_pipeline = basic_fullscreen_tri_pipeline(
            "minimap_update_pipeline",
            "shaders/minimap_update.wgsl",
            BindGroupLayout::Minimap,
            shader_defs(),
            minimap_target(),
        );

        let minimap_downscale_pipeline = basic_fullscreen_tri_pipeline(
            "minimap_downsample_pipeline",
            "shaders/minimap_downsample.wgsl",
            BindGroupLayout::MinimapDownsample,
            shader_defs(),
            minimap_target(),
        );

        MinimapPipeline {
            update_layout,
            downscale_layout,
            update_pipeline,
            minimap_downscale_pipeline,
        }
    }
}

/// The node that builds the minimap chain.
#[derive(Clone, Copy, Debug, Default, PartialEq, Eq)]
pub struct MinimapNode;

impl MinimapNode {
    pub const NAME: &'static str = "minimap_pass";

    /// Whether the node has all it needs: both pipelines compiled, the units'
    /// state textures and the four levels.
    pub open spec fn spec_can_run(context: FrameContext) -> bool {
        &&& context.pipeline_cache.spec_is_ready(RenderPipeline::MinimapUpdate)
        &&& context.pipeline_cache.spec_is_ready(RenderPipeline::MinimapDownsample)
        &&& context.units_data_textures.is_some()
        &&& context.minimap_textures.is_some()
    }

    /// The pass that encodes the state that the update left, which is the
    /// state of the frame, and this frame's attack map into the finest level.
    /// It binds these two textures and nothing else.
    pub open spec fn spec_generate_pass(
        units: UnitsDataTextures,
        minimap: MinimapTextures,
    ) -> RenderPassView {
        RenderPassView {
            label: "generate_minimap_pass",
            bind_group_label: "minimap_bind_group",
            layout: BindGroupLayout::Minimap,
            entries: seq![
                BindGroupEntry { binding: 101, resource: BindingResource::TextureView(units.a) },
                BindGroupEntry {
                    binding: 103,
                    resource: BindingResource::TextureView(units.attack_a),
                },
            ],
            color_attachments: seq![spec_load_color_attachment(minimap.minimap_tex)],
            depth_stencil_attachment: None,
            draws: seq![Draw { pipeline: RenderPipeline::MinimapUpdate, vertices: 3 }],
        }
    }

    /// The pass that reduces level `level - 1` into level `level`, for `level`
    /// from 1 to 3. It binds the level before it and nothing else.
    pub open spec fn spec_downscale_pass(minimap: MinimapTextures, level: int) -> RenderPassView {
        RenderPassView {
            label: "downscale_minimap_pass",
            bind_group_label: "minimap_bind_group",
            layout: BindGroupLayout::MinimapDownsample,
            entries: seq![
                BindGroupEntry {
                    binding: 101,
                    resource: BindingResource::TextureView(minimap.spec_level(level - 1)),
                },
            ],
            color_attachments: seq![spec_load_color_attachment(minimap.spec_level(level))],
            depth_stencil_attachment: None,
            draws: seq![Draw { pipeline: RenderPipeline::MinimapDownsample, vertices: 3 }],
        }
    }

    /// The passes of the node in the order in which they run: the finest
    /// level first, then each coarser level from the one before it. Where
    /// anything is missing there is no pass at all.
    pub open spec fn spec_run(context: FrameContext) -> Seq<RenderPassView> {
        if MinimapNode::spec_can_run(context) {
            let units = context.units_data_textures.unwrap();
            let minimap = context.minimap_textures.unwrap();
            seq![
                MinimapNode::spec_generate_pass(units, minimap),
                MinimapNode::spec_downscale_pass(minimap, 1),
                MinimapNode::spec_downscale_pass(minimap, 2),
                MinimapNode::spec_downscale_pass(minimap, 3),
            ]
        } else {
            seq![]
        }
    }

    /// The passes to record for the minimap in this frame. Either all four
    /// levels are built or none is touched.
    pub fn run(&self, context: &FrameContext) -> (passes: Vec<RenderPass>)
        ensures
            passes.deep_view() == MinimapNode::spec_run(*context),
    {
        let mut passes: Vec<RenderPass> = Vec::new();
        let pipeline_cache = &context.pipeline_cache;
        let pipelines = (
            pipeline_cache.get_render_pipeline(RenderPipeline::MinimapUpdate),
            pipeline_cache.get_render_pipeline(RenderPipeline::MinimapDownsample),
        );
        let (Some(update), Some(downscale)) = pipelines else {
            assert(passes.deep_view() =~= MinimapNode::spec_run(*context));
            return passes;
        };
        let resources = (&context.units_data_textures, &context.minimap_textures);
        let (Some(unit_data_texture), Some(minimap_textures)) = resources else {
            assert(passes.deep_view() =~= MinimapNode::spec_run(*context));
            return passes;
        };
        // ---------------------------------------
        // Generate Minimap Texture
        // ---------------------------------------
        {
            let mut entries: Vec<BindGroupEntry> = Vec::new();
            entries.push(
                BindGroupEntry {
                    binding: 101,
                    resource: BindingResource::TextureView(unit_data_texture.a),
                },
            );
            entries.push(
                BindGroupEntry {
                    binding: 103,
                    resource: BindingResource::TextureView(unit_data_texture.attack_a),
                },
            );
            assert(entries@ =~= MinimapNode::spec_generate_pass(
                *unit_data_texture,
                *minimap_textures,
            ).entries);
            let mut color_attachments = Vec::new();
            color_attachments.push(load_color_attachment(minimap_textures.minimap_tex));
            assert(color_attachments@ =~= seq![
                spec_load_color_attachment(minimap_textures.minimap_tex),
            ]);
            let mut draws = Vec::new();
            draws.push(Draw { pipeline: update, vertices: FULLSCREEN_VERTICES });
            assert(draws@ =~= seq![Draw { pipeline: RenderPipeline::MinimapUpdate, vertices: 3 }]);
            passes.push(
                RenderPass {
                    label: "generate_minimap_pass",
                    bind_group_label: "minimap_bind_group",
                    layout: BindGroupLayout::Minimap,
                    entries,
                    color_attachments,
                    depth_stencil_attachment: None,
                    draws,
                },
            );
        }
        // ---------------------------------------
        // Downscale Minimap Texture
        // ---------------------------------------
        passes.push(
            downscale_pass(
                downscale,
                minimap_textures,
                1,
                minimap_textures.minimap_tex,
                minimap_textures.minimap_sm_tex,
            ),
        );
        // ---------------------------------------
        // Downscale 2 Minimap Texture
        // ---------------------------------------
        passes.push(
            downscale_pass(
                downscale,
                minimap_textures,
                2,
                minimap_textures.minimap_sm_tex,
                minimap_textures.minimap_sm2_tex,
            ),
        );
        // ---------------------------------------
        // Downscale 3 Minimap Texture
        // ---------------------------------------
        passes.push(
            downscale_pass(
                downscale,
                minimap_textures,
                3,
                minimap_textures.minimap_sm2_tex,
                minimap_textures.minimap_sm3_tex,
            ),
        );
        assert(passes.deep_view() =~= MinimapNode::spec_run(*context));
        passes
    }
}

fn downscale_pass(
    pipeline: RenderPipeline,
    minimap: &MinimapTextures,
    level: u8,
    source: Texture,
    target: Texture,
) -> (pass: RenderPass)
    requires
        pipeline == RenderPipeline::MinimapDownsample,
        1 <= level <= 3,
        source == minimap.spec_level(level - 1),
        target == minimap.spec_level(level as int),
    ensures
        pass.deep_view() == MinimapNode::spec_downscale_pass(*minimap, level as int),
{
    let mut entries: Vec<BindGroupEntry> = Vec::new();
    entries.push(BindGroupEntry { binding: 101, resource: BindingResource::TextureView(source) });
    assert(entries@ =~= MinimapNode::spec_downscale_pass(*minimap, level as int).entries);
    let mut color_attachments = Vec::new();
    color_attachments.push(load_color_attachment(target));
    assert(color_attachments@ =~= seq![spec_load_color_attachment(target)]);
    let mut draws = Vec::new();
    draws.push(Draw { pipeline, vertices: FULLSCREEN_VERTICES });
    assert(draws@ =~= seq![Draw { pipeline: RenderPipeline::MinimapDownsample, vertices: 3 }]);
    RenderPass {
        label: "downscale_minimap_pass",
        bind_group_label: "minimap_bind_group",
        layout: BindGroupLayout::MinimapDownsample,
        entries,
        color_attachments,
        depth_stencil_attachment: None,
        draws,
    }
}

/// Each level is the one before it reduced by `MINIMAP_SCALE` in width and
/// height, and the finest is the units' grid reduced so.
pub proof fn lemma_levels_shrink(level: int)
    requires
        0 <= level <= 3,
    ensures
        ({
            let minimap = MinimapTextures::spec_new();
            let size = minimap.spec_level(level).spec_descriptor().unwrap().size;
            let finer = if level == 0 {
                Texture::UnitDataA.spec_descriptor().unwrap().size
            } else {
                minimap.spec_level(level - 1).spec_descriptor().unwrap().size
            };
            &&& size.width * MINIMAP_SCALE == finer.width
            &&& size.height * MINIMAP_SCALE == finer.height
        }),
{
}

/// The pass of the finest level binds the units' final state and the attack
/// map, and draws into the finest level.
pub proof fn lemma_generate_reads_writes(
    units: UnitsDataTextures,
    minimap: MinimapTextures,
    texture: Texture,
)
    ensures
        MinimapNode::spec_generate_pass(units, minimap).reads(texture) <==> texture == units.a
            || texture == units.attack_a,
        MinimapNode::spec_generate_pass(units, minimap).writes(texture) <==> texture
            == minimap.minimap_tex,
{
    let pass = MinimapNode::spec_generate_pass(units, minimap);
    assert(pass.entries[0].resource == BindingResource::TextureView(units.a));
    assert(pass.entries[1].resource == BindingResource::TextureView(units.attack_a));
    assert(pass.color_target(0) == Some(minimap.minimap_tex));
    if pass.writes(texture) {
        let k = choose|k: int|
            0 <= k < pass.color_attachments.len() && #[trigger] pass.color_target(k) == Some(
                texture,
            );
        assert(pass.color_target(k) == Some(texture));
    }
}

/// The pass of a coarser level binds the level before it and no other
/// texture, and draws into its own level.
pub proof fn lemma_downscale_reads_writes(minimap: MinimapTextures, level: int, texture: Texture)
    ensures
        MinimapNode::spec_downscale_pass(minimap, level).reads(texture) <==> texture
            == minimap.spec_level(level - 1),
        MinimapNode::spec_downscale_pass(minimap, level).writes(texture) <==> texture
            == minimap.spec_level(level),
{
    let pass = MinimapNode::spec_downscale_pass(minimap, level);
    assert(pass.entries[0].resource == BindingResource::TextureView(minimap.spec_level(level - 1)));
    assert(pass.color_target(0) == Some(minimap.spec_level(level)));
    if pass.writes(texture) {
        let k = choose|k: int|
            0 <= k < pass.color_attachments.len() && #[trigger] pass.color_target(k) == Some(
                texture,
            );
        assert(pass.color_target(k) == Some(texture));
    }
}

/// The chain is linear: the pass of each level but the finest reads the
/// level before it and nothing else, and draws into its own.
pub proof fn lemma_chain_is_linear(level: int, other: int)
    requires
        1 <= level <= 3,
        0 <= other <= 3,
    ensures
        ({
            let minimap = MinimapTextures::spec_new();
            let pass = MinimapNode::spec_downscale_pass(minimap, level);
            &&& pass.entries.len() == 1
            &&& pass.reads(minimap.spec_level(other)) <==> other == level - 1
            &&& pass.writes(minimap.spec_level(other)) <==> other == level
            &&& pass.hazard_free()
        }),
{
    let minimap = MinimapTextures::spec_new();
    let pass = MinimapNode::spec_downscale_pass(minimap, level);
    lemma_downscale_reads_writes(minimap, level, minimap.spec_level(other));
    assert forall|texture: Texture| !(pass.reads(texture) && pass.writes(texture)) by {
        lemma_downscale_reads_writes(minimap, level, texture);
    }
}

/// What the pass of a coarser level leaves in its level depends on what the
/// level before it holds, and on nothing else.
proof fn lemma_downscale_is_pure<C>(
    shader: spec_fn(Seq<RenderPipeline>, int, Seq<Option<C>>) -> C,
    level: int,
    first: Map<BindingResource, C>,
    second: Map<BindingResource, C>,
)
    requires
        1 <= level <= 3,
        first[BindingResource::TextureView(MinimapTextures::spec_new().spec_level(level - 1))]
            == second[BindingResource::TextureView(
            MinimapTextures::spec_new().spec_level(level - 1),
        )],
    ensures
        ({
            let minimap = MinimapTextures::spec_new();
            let pass = MinimapNode::spec_downscale_pass(minimap, level);
            &&& pass.run(shader, first)[BindingResource::TextureView(minimap.spec_level(level))]
                == pass.run(shader, second)[BindingResource::TextureView(
                minimap.spec_level(level),
            )]
            &&& forall|other: int|
                0 <= other < level ==> pass.run(shader, first)[BindingResource::TextureView(
                    #[trigger] minimap.spec_level(other),
                )] == first[BindingResource::TextureView(minimap.spec_level(other))] && pass.run(
                    shader,
                    second,
                )[BindingResource::TextureView(minimap.spec_level(other))]
                    == second[BindingResource::TextureView(minimap.spec_level(other))]
        }),
{
    let minimap = MinimapTextures::spec_new();
    let pass = MinimapNode::spec_downscale_pass(minimap, level);
    let targets = seq![minimap.spec_level(level)];
    assert(pass.targets() =~= Seq::new(targets.len(), |i: int| Some(targets[i])));
    assert(pass.covers_targets());
    assert(pass.inputs(first) =~= pass.inputs(second));
    lemma_run_is_pure(shader, pass, targets, first, pass, targets, second);
    assert(targets[0] == minimap.spec_level(level));
    assert forall|other: int| 0 <= other < level implies pass.run(
        shader,
        first,
    )[BindingResource::TextureView(#[trigger] minimap.spec_level(other))]
        == first[BindingResource::TextureView(minimap.spec_level(other))] && pass.run(
        shader,
        second,
    )[BindingResource::TextureView(minimap.spec_level(other))]
        == second[BindingResource::TextureView(minimap.spec_level(other))] by {
        lemma_downscale_reads_writes(minimap, level, minimap.spec_level(other));
        lemma_run_keeps(
            pass,
            shader,
            first,
            BindingResource::TextureView(minimap.spec_level(other)),
        );
        lemma_run_keeps(
            pass,
            shader,
            second,
            BindingResource::TextureView(minimap.spec_level(other)),
        );
    }
}

/// The chain is a function of the units' state. Take any two frames, of
/// either parity, and let the units' state as the update left it and this
/// frame's attack map, under the names that each frame gives them, hold the
/// same in both. Then each of the four levels holds the same after the chain
/// has run in the one frame as in the other, whatever the shaders compute.
/// Nothing of the frame reaches the chain but these two textures: no pass of
/// it binds a uniform, so neither the number of the frame nor the time can
/// show in a level.
pub proof fn lemma_minimap_chain_is_deterministic<C>(
    shader: spec_fn(Seq<RenderPipeline>, int, Seq<Option<C>>) -> C,
    first_frame: u32,
    second_frame: u32,
    first_context: FrameContext,
    second_context: FrameContext,
    first: Map<BindingResource, C>,
    second: Map<BindingResource, C>,
    level: int,
)
    requires
        MinimapNode::spec_can_run(first_context),
        MinimapNode::spec_can_run(second_context),
        first_context.units_data_textures == Some(UnitsDataTextures::spec_for_frame(first_frame)),
        second_context.units_data_textures == Some(
            UnitsDataTextures::spec_for_frame(second_frame),
        ),
        first_context.minimap_textures == Some(MinimapTextures::spec_new()),
        second_context.minimap_textures == Some(MinimapTextures::spec_new()),
        first[BindingResource::TextureView(UnitsDataTextures::spec_for_frame(first_frame).a)]
            == second[BindingResource::TextureView(
            UnitsDataTextures::spec_for_frame(second_frame).a,
        )],
        first[BindingResource::TextureView(
            UnitsDataTextures::spec_for_frame(first_frame).attack_a,
        )] == second[BindingResource::TextureView(
            UnitsDataTextures::spec_for_frame(second_frame).attack_a,
        )],
        0 <= level <= 3,
    ensures
        spec_run_passes(
            shader,
            MinimapNode::spec_run(first_context),
            first,
        )[BindingResource::TextureView(MinimapTextures::spec_new().spec_level(level))]
            == spec_run_passes(
            shader,
            MinimapNode::spec_run(second_context),
            second,
        )[BindingResource::TextureView(MinimapTextures::spec_new().spec_level(level))],
{
    let t1 = UnitsDataTextures::spec_for_frame(first_frame);
    let t2 = UnitsDataTextures::spec_for_frame(second_frame);
    let m = MinimapTextures::spec_new();
    let g1 = MinimapNode::spec_generate_pass(t1, m);
    let g2 = MinimapNode::spec_generate_pass(t2, m);

    // the finest level
    let targets = seq![m.minimap_tex];
    assert(g1.targets() =~= Seq::new(targets.len(), |i: int| Some(targets[i])));
    assert(g2.targets() =~= Seq::new(targets.len(), |i: int| Some(targets[i])));
    assert(g1.pipelines() =~= g2.pipelines());
    assert(g1.covers_targets());
    assert(g2.covers_targets());
    assert(g1.inputs(first) =~= g2.inputs(second));
    lemma_run_is_pure(shader, g1, targets, first, g2, targets, second);
    assert(targets[0] == m.spec_level(0));
    let f0 = g1.run(shader, first);
    let s0 = g2.run(shader, second);

    // the three coarser levels
    lemma_downscale_is_pure(shader, 1, f0, s0);
    let f1 = MinimapNode::spec_downscale_pass(m, 1).run(shader, f0);
    let s1 = MinimapNode::spec_downscale_pass(m, 1).run(shader, s0);
    assert(f1[BindingResource::TextureView(m.spec_level(0))] == s1[BindingResource::TextureView(
        m.spec_level(0),
    )]);
    lemma_downscale_is_pure(shader, 2, f1, s1);
    let f2 = MinimapNode::spec_downscale_pass(m, 2).run(shader, f1);
    let s2 = MinimapNode::spec_downscale_pass(m, 2).run(shader, s1);
    assert(f2[BindingResource::TextureView(m.spec_level(0))] == s2[BindingResource::TextureView(
        m.spec_level(0),
    )]);
    assert(f2[BindingResource::TextureView(m.spec_level(1))] == s2[BindingResource::TextureView(
        m.spec_level(1),
    )]);
    lemma_downscale_is_pure(shader, 3, f2, s2);
    let f3 = MinimapNode::spec_downscale_pass(m, 3).run(shader, f2);
    let s3 = MinimapNode::spec_downscale_pass(m, 3).run(shader, s2);
    assert(f3[BindingResource::TextureView(m.spec_level(0))] == s3[BindingResource::TextureView(
        m.spec_level(0),
    )]);
    assert(f3[BindingResource::TextureView(m.spec_level(1))] == s3[BindingResource::TextureView(
        m.spec_level(1),
    )]);
    assert(f3[BindingResource::TextureView(m.spec_level(2))] == s3[BindingResource::TextureView(
        m.spec_level(2),
    )]);

    lemma_chain_unfolds(shader, first_context, first);
    lemma_chain_unfolds(shader, second_context, second);
}

/// Running the node is running its four passes one after the other.
proof fn lemma_chain_unfolds<C>(
    shader: spec_fn(Seq<RenderPipeline>, int, Seq<Option<C>>) -> C,
    context: FrameContext,
    contents: Map<BindingResource, C>,
)
    requires
        MinimapNode::spec_can_run(context),
    ensures
        ({
            let units = context.units_data_textures.unwrap();
            let minimap = context.minimap_textures.unwrap();
            spec_run_passes(shader, MinimapNode::spec_run(context), contents)
                == MinimapNode::spec_downscale_pass(minimap, 3).run(
                shader,
                MinimapNode::spec_downscale_pass(minimap, 2).run(
                    shader,
                    MinimapNode::spec_downscale_pass(minimap, 1).run(
                        shader,
                        MinimapNode::spec_generate_pass(units, minimap).run(shader, contents),
                    ),
                ),
            )
        }),
{
    let units = context.units_data_textures.unwrap();
    let minimap = context.minimap_textures.unwrap();
    let p0 = MinimapNode::spec_generate_pass(units, minimap);
    let p1 = MinimapNode::spec_downscale_pass(minimap, 1);
    let p2 = MinimapNode::spec_downscale_pass(minimap, 2);
    let p3 = MinimapNode::spec_downscale_pass(minimap, 3);
    let none = Seq::<RenderPassView>::empty();
    assert(MinimapNode::spec_run(context) =~= none.push(p0).push(p1).push(p2).push(p3));
    lemma_run_passes_push(shader, none, p0, contents);
    lemma_run_passes_push(shader, none.push(p0), p1, contents);
    lemma_run_passes_push(shader, none.push(p0).push(p1), p2, contents);
    lemma_run_passes_push(shader, none.push(p0).push(p1).push(p2), p3, contents);
}

} // verus!
