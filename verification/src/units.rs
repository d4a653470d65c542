//! The unit simulation: the player's command, the double-buffered state
//! textures, the pipelines and the passes of the unit node.

use crate::bind_group_utils::{
    basic_fullscreen_tri_pipeline, basic_opaque_pipeline, fsampler_layout_entry,
    ftexture_layout_entry, globals_binding, globals_layout_entry, load_color_attachment,
    load_depth_attachment, nearest_sampler, opaque_target, shader_def_uint,
    spec_basic_fullscreen_tri_pipeline, spec_basic_opaque_pipeline, spec_ftexture_layout_entry,
    spec_globals_layout_entry, spec_load_color_attachment, spec_load_depth_attachment,
    spec_opaque_target, spec_sampler_layout_entry, spec_uniform_layout_entry,
    spec_utexture_layout_entry, spec_view_layout_entry, uniform_buffer, uniform_layout_entry,
    utexture_layout_entry, view_binding, view_layout_entry, BindGroupLayout,
    BindGroupLayoutDescriptor, BindGroupLayoutDescriptorView, BindGroupLayoutEntry,
    BindingResource, BufferInitDescriptor, BufferUsages, ColorTargetState, FilterMode,
    RenderPipeline, RenderPipelineDescriptor, RenderPipelineDescriptorView, Sampler,
    SamplerBindingType, SamplerDescriptor, ShaderDefVal, TextureViewDimension, Uniform,
    spec_le_bytes,
};
use crate::frame::FrameContext;
use crate::minimap::MinimapTextures;
use crate::render_pass::{
    lemma_run_is_pure, lemma_run_keeps_the_rest, lemma_run_passes_push, spec_run_passes,
    BindGroupEntry, Draw, RenderPass, RenderPassView,
};
use crate::texture::{
    is_acquired, Texture, TextureFormat, ATTACK_RADIUS, LARGE_UNITS_DATA_FORMAT, LARGE_UNITS_DATA_WIDTH,
    LARGE_UNITS_TEXTURE_HEIGHT, LARGE_UNITS_TEXTURE_WIDTH, MINIMAP_SCALE, UNITS_ATTACK_FORMAT,
    UNITS_DATA_FORMAT, UNITS_DATA_HEIGHT, UNITS_DATA_WIDTH,
};
use vstd::prelude::*;

verus! {

/// Two unsigned coordinates.
#[derive(Clone, Copy, Debug, PartialEq, Eq, Hash, Structural)]
pub struct UVec2 {
    pub x: u32,
    pub y: u32,
}

/// Four unsigned coordinates.
#[derive(Clone, Copy, Debug, PartialEq, Eq, Hash, Structural)]
pub struct UVec4 {
    pub x: u32,
    pub y: u32,
    pub z: u32,
    pub w: u32,
}

/// The command code of a move order.
pub const COMMAND_MOVE: u32 = 1;

/// What the player asks of the units in one frame. The record is reset when a
/// frame begins, filled by input handling, and read by the passes.
#[derive(Clone, Copy, Debug, PartialEq, Eq, Hash, Structural)]
pub struct UnitCommand {
    /// Corners of the selected region on the ground.
    pub select_region: UVec4,
    /// Where the units are sent.
    pub dest: UVec2,
    /// `0` for no command, `COMMAND_MOVE` for a move order.
    pub command: u32,
    /// Seconds since the last frame, as the bits of a single-precision float.
    pub delta_time: u32,
    /// The group that hotkeys selected.
    pub unit_group: u32,
    pub upgrade_movment_rate: bool,
    pub upgrade_attack_rate: bool,
    pub upgrade_spawn_rate: bool,
}

impl UnitCommand {
    /// Size in bytes of the record as a uniform: the twelve words of
    /// `to_words`.
    pub const SIZE: u64 = 48;

    /// The record that holds no command.
    pub open spec fn spec_default() -> UnitCommand {
        UnitCommand {
            select_region: UVec4 { x: 0, y: 0, z: 0, w: 0 },
            dest: UVec2 { x: 0, y: 0 },
            command: 0,
            delta_time: 0,
            unit_group: 0,
            upgrade_movment_rate: false,
            upgrade_attack_rate: false,
            upgrade_spawn_rate: false,
        }
    }

    /// The record as the shaders see it: twelve words, the selected region
    /// first, then destination, command code, frame time, unit group, and one
    /// word per upgrade that is `1` where the upgrade is asked for. The layout
    /// is this crate's own: the record is written out here, word by word, and
    /// goes through no serializer. A shader that reads the record declares it
    /// as these twelve 32-bit words in this order.
    pub open spec fn spec_to_words(self) -> Seq<u32> {
        seq![
            self.select_region.x,
            self.select_region.y,
            self.select_region.z,
            self.select_region.w,
            self.dest.x,
            self.dest.y,
            self.command,
            self.delta_time,
            self.unit_group,
            if self.upgrade_movment_rate { 1u32 } else { 0u32 },
            if self.upgrade_attack_rate { 1u32 } else { 0u32 },
            if self.upgrade_spawn_rate { 1u32 } else { 0u32 },
        ]
    }

    /// The record as the shaders see it.
    pub fn to_words(&self) -> (words: Vec<u32>)
        ensures
            words@ == self.spec_to_words(),
            4 * words.len() == UnitCommand::SIZE,
    {
        let mut words: Vec<u32> = Vec::new();
        words.push(self.select_region.x);
        words.push(self.select_region.y);
        words.push(self.select_region.z);
        words.push(self.select_region.w);
        words.push(self.dest.x);
        words.push(self.dest.y);
        words.push(self.command);
        words.push(self.delta_time);
        words.push(self.unit_group);
        words.push(if self.upgrade_movment_rate { 1 } else { 0 });
        words.push(if self.upgrade_attack_rate { 1 } else { 0 });
        words.push(if self.upgrade_spawn_rate { 1 } else { 0 });
        assert(words@ =~= self.spec_to_words());
        words
    }

    /// Asks for faster units; the rest of the record stays.
    pub fn upgrade_movment_rate(&mut self)
        ensures
            *final(self) == (UnitCommand { upgrade_movment_rate: true, ..*old(self) }),
    {
        self.upgrade_movment_rate = true;
    }

    /// Asks for faster attacks; the rest of the record stays.
    pub fn upgrade_attack_rate(&mut self)
        ensures
            *final(self) == (UnitCommand { upgrade_attack_rate: true, ..*old(self) }),
    {
        self.upgrade_attack_rate = true;
    }

    /// Asks for faster spawning; the rest of the record stays.
    pub fn upgrade_spawn_rate(&mut self)
        ensures
            *final(self) == (UnitCommand { upgrade_spawn_rate: true, ..*old(self) }),
    {
        self.upgrade_spawn_rate = true;
    }
}

impl Default for UnitCommand {
    fn default() -> (command: UnitCommand)
        ensures
            command == UnitCommand::spec_default(),
    {
        UnitCommand {
            select_region: UVec4 { x: 0, y: 0, z: 0, w: 0 },
            dest: UVec2 { x: 0, y: 0 },
            command: 0,
            delta_time: 0,
            unit_group: 0,
            upgrade_movment_rate: false,
            upgrade_attack_rate: false,
            upgrade_spawn_rate: false,
        }
    }
}

/// Resets the record, whatever it held. Runs when a frame begins, before
/// input is read.
pub fn clear_unit_command(unit_command: &mut UnitCommand)
    ensures
        *final(unit_command) == UnitCommand::spec_default(),
{
    *unit_command = UnitCommand::default();
}

/// The sprite sheets of the units.
#[derive(Clone, Copy, Debug, PartialEq, Eq, Hash, Structural)]
pub struct UnitTexture {
    pub small_goose: Texture,
    pub big_goose: Texture,
}

/// The sprite sheets to load.
pub fn load_unit_texture() -> (sprites: UnitTexture)
    ensures
        sprites == (UnitTexture { small_goose: Texture::SmallGoose, big_goose: Texture::BigGoose }),
{
    UnitTexture { small_goose: Texture::SmallGoose, big_goose: Texture::BigGoose }
}

/// The state textures of the units under the names by which the passes of one
/// frame know them. What a pass reads and what it writes are never the same
/// texture.
#[derive(Clone, Copy, Debug, PartialEq, Eq, Hash, Structural)]
pub struct UnitsDataTextures {
    /// State of the small units as the frame finds it and as it leaves it.
    pub a: Texture,
    /// State of the small units between evaluation and update.
    pub b: Texture,
    /// Attack map that this frame writes.
    pub attack_a: Texture,
    /// Attack map that the frame before wrote.
    pub attack_b: Texture,
    /// State of the large units as the frame finds it.
    pub large_unit_a: Texture,
    /// State of the large units as the frame leaves it.
    pub large_unit_b: Texture,
}

impl UnitsDataTextures {
    /// The names in frame number `frame_count`. The small units' two textures
    /// swap roles between the passes of a frame; attack maps and large units
    /// swap with the parity of the frame.
    pub open spec fn spec_for_frame(frame_count: u32) -> UnitsDataTextures {
        if frame_count % 2 == 0 {
            UnitsDataTextures {
                a: Texture::UnitDataA,
                b: Texture::UnitDataB,
                attack_a: Texture::UnitAttackMapA,
                attack_b: Texture::UnitAttackMapB,
                large_unit_a: Texture::LargeUnitDataA,
                large_unit_b: Texture::LargeUnitDataB,
            }
        } else {
            UnitsDataTextures {
                a: Texture::UnitDataA,
                b: Texture::UnitDataB,
                attack_a: Texture::UnitAttackMapB,
                attack_b: Texture::UnitAttackMapA,
                large_unit_a: Texture::LargeUnitDataB,
                large_unit_b: Texture::LargeUnitDataA,
            }
        }
    }

    /// The names are those of some frame.
    pub open spec fn wf(self) -> bool {
        self == UnitsDataTextures::spec_for_frame(0) || self == UnitsDataTextures::spec_for_frame(
            1,
        )
    }
}

/// The unit textures to ask the texture cache for, named as frame number
/// `frame_count` uses them.
pub fn prepare_textures(frame_count: u32) -> (textures: UnitsDataTextures)
    ensures
        textures == UnitsDataTextures::spec_for_frame(frame_count),
        textures.wf(),
{
    let unit_data_texture_a = Texture::UnitDataA;
    let unit_data_texture_b = Texture::UnitDataB;
    let unit_attack_texture_a = Texture::UnitAttackMapA;
    let unit_attack_texture_b = Texture::UnitAttackMapB;
    let large_unit_data_texture_a = Texture::LargeUnitDataA;
    let large_unit_data_texture_b = Texture::LargeUnitDataB;
    if frame_count % 2 == 0 {
        UnitsDataTextures {
            a: unit_data_texture_a,
            b: unit_data_texture_b,
            attack_a: unit_attack_texture_a,
            attack_b: unit_attack_texture_b,
            large_unit_a: large_unit_data_texture_a,
            large_unit_b: large_unit_data_texture_b,
        }
    } else {
        UnitsDataTextures {
            a: unit_data_texture_a,
            b: unit_data_texture_b,
            attack_a: unit_attack_texture_b,
            attack_b: unit_attack_texture_a,
            large_unit_a: large_unit_data_texture_b,
            large_unit_b: large_unit_data_texture_a,
        }
    }
}

impl UnitsDataTextures {
    /// Whether all six textures are among `acquired`.
    pub open spec fn spec_acquired(self, acquired: Seq<Texture>) -> bool {
        &&& acquired.contains(self.a)
        &&& acquired.contains(self.b)
        &&& acquired.contains(self.attack_a)
        &&& acquired.contains(self.attack_b)
        &&& acquired.contains(self.large_unit_a)
        &&& acquired.contains(self.large_unit_b)
    }
}

/// The names as the nodes of the frame get them: all six if each of the
/// textures could be had, and none if one of them could not. With `None` the
/// simulation is left out for this frame, and with it every pass that reads
/// the units' state; nothing fails, and the next frame tries again.
pub fn publish_textures(textures: UnitsDataTextures, acquired: &Vec<Texture>) -> (published:
    Option<UnitsDataTextures>)
    ensures
        published == if textures.spec_acquired(acquired@) {
            Some(textures)
        } else {
            None
        },
{
    if is_acquired(acquired, textures.a) && is_acquired(acquired, textures.b) && is_acquired(
        acquired,
        textures.attack_a,
    ) && is_acquired(acquired, textures.attack_b) && is_acquired(acquired, textures.large_unit_a)
        && is_acquired(acquired, textures.large_unit_b) {
        Some(textures)
    } else {
        None
    }
}

/// The sprite sheets as the nodes of the frame get them: both once both are
/// loaded, and none before.
pub fn publish_unit_texture(sprites: UnitTexture, acquired: &Vec<Texture>) -> (published: Option<
    UnitTexture,
>)
    ensures
        published == if acquired@.contains(sprites.small_goose) && acquired@.contains(
            sprites.big_goose,
        ) {
            Some(sprites)
        } else {
            None
        },
{
    if is_acquired(acquired, sprites.small_goose) && is_acquired(acquired, sprites.big_goose) {
        Some(sprites)
    } else {
        None
    }
}

/// The definitions that every unit shader is compiled with: the dimensions of
/// the grids, so that shaders and layout agree on them.
pub open spec fn spec_shader_defs() -> Seq<ShaderDefVal> {
    seq![
        ShaderDefVal { name: "MINIMAP_SCALE", value: 4 },
        ShaderDefVal { name: "UNITS_DATA_WIDTH", value: 512 },
        ShaderDefVal { name: "UNITS_DATA_HEIGHT", value: 512 },
        ShaderDefVal { name: "LARGE_UNITS_DATA_WIDTH", value: 65 },
        ShaderDefVal { name: "LARGE_UNITS_TEXTURE_WIDTH", value: 67 },
        ShaderDefVal { name: "LARGE_UNITS_TEXTURE_HEIGHT", value: 2 },
        ShaderDefVal { name: "ATTACK_RADIUS", value: 5 },
    ]
}

/// The definitions that every unit shader is compiled with.
pub fn shader_defs() -> (defs: Vec<ShaderDefVal>)
    ensures
        defs@ == spec_shader_defs(),
{
    let mut defs: Vec<ShaderDefVal> = Vec::new();
    defs.push(shader_def_uint("MINIMAP_SCALE", MINIMAP_SCALE));
    defs.push(shader_def_uint("UNITS_DATA_WIDTH", UNITS_DATA_WIDTH));
    defs.push(shader_def_uint("UNITS_DATA_HEIGHT", UNITS_DATA_HEIGHT));
    defs.push(shader_def_uint("LARGE_UNITS_DATA_WIDTH", LARGE_UNITS_DATA_WIDTH));
    defs.push(shader_def_uint("LARGE_UNITS_TEXTURE_WIDTH", LARGE_UNITS_TEXTURE_WIDTH));
    defs.push(shader_def_uint("LARGE_UNITS_TEXTURE_HEIGHT", LARGE_UNITS_TEXTURE_HEIGHT));
    defs.push(shader_def_uint("ATTACK_RADIUS", ATTACK_RADIUS));
    assert(defs@ =~= spec_shader_defs());
    defs
}

/// The entries of the bind group layout of the simulation pipelines: the
/// command, the state textures, the sprite sheets with their sampler and the
/// two coarse minimap levels. The view and the globals are not among them:
/// the simulation is a function of the state and the command.
pub open spec fn spec_simulation_layout_entries() -> Seq<BindGroupLayoutEntry> {
    seq![
        spec_utexture_layout_entry(101, TextureViewDimension::D2),
        spec_uniform_layout_entry(102, UnitCommand::SIZE),
        spec_utexture_layout_entry(103, TextureViewDimension::D2),
        spec_ftexture_layout_entry(104, TextureViewDimension::D2Array),
        spec_sampler_layout_entry(105, SamplerBindingType::Filtering),
        spec_utexture_layout_entry(106, TextureViewDimension::D2),
        spec_ftexture_layout_entry(107, TextureViewDimension::D2Array),
        spec_utexture_layout_entry(108, TextureViewDimension::D2),
        spec_utexture_layout_entry(109, TextureViewDimension::D2),
    ]
}

/// The entries of the bind group layout of the draw pipelines: the view and
/// globals uniforms, and the entries of the simulation.
pub open spec fn spec_unit_layout_entries() -> Seq<BindGroupLayoutEntry> {
    seq![
        spec_view_layout_entry(0),
        spec_globals_layout_entry(9),
        spec_utexture_layout_entry(101, TextureViewDimension::D2),
        spec_uniform_layout_entry(102, UnitCommand::SIZE),
        spec_utexture_layout_entry(103, TextureViewDimension::D2),
        spec_ftexture_layout_entry(104, TextureViewDimension::D2Array),
        spec_sampler_layout_entry(105, SamplerBindingType::Filtering),
        spec_utexture_layout_entry(106, TextureViewDimension::D2),
        spec_ftexture_layout_entry(107, TextureViewDimension::D2Array),
        spec_utexture_layout_entry(108, TextureViewDimension::D2),
        spec_utexture_layout_entry(109, TextureViewDimension::D2),
    ]
}

/// The two targets of the deferred G-buffer.
pub open spec fn spec_deferred_targets() -> Seq<Option<ColorTargetState>> {
    seq![
        spec_opaque_target(TextureFormat::DeferredPrepass),
        spec_opaque_target(TextureFormat::DeferredLightingPassId),
    ]
}

fn deferred_targets() -> (targets: Vec<Option<ColorTargetState>>)
    ensures
        targets@ == spec_deferred_targets(),
{
    let mut targets: Vec<Option<ColorTargetState>> = Vec::new();
    targets.push(opaque_target(TextureFormat::DeferredPrepass));
    targets.push(opaque_target(TextureFormat::DeferredLightingPassId));
    assert(targets@ =~= spec_deferred_targets());
    targets
}

fn single_target(format: TextureFormat) -> (targets: Vec<Option<ColorTargetState>>)
    ensures
        targets@ == seq![spec_opaque_target(format)],
{
    let mut targets: Vec<Option<ColorTargetState>> = Vec::new();
    targets.push(opaque_target(format));
    assert(targets@ =~= seq![spec_opaque_target(format)]);
    targets
}

/// What the unit node needs from the device: a sampler, two bind group
/// layouts and six pipelines.
#[derive(Clone, Debug, PartialEq, Eq)]
pub struct UnitPipeline {
    pub sampler: SamplerDescriptor,
    /// The layout of the three simulation passes.
    pub simulation_layout: BindGroupLayoutDescriptor,
    /// The layout of the two draw passes.
    pub layout: BindGroupLayoutDescriptor,
    pub evaluate_pipeline: RenderPipelineDescriptor,
    pub update_pipeline: RenderPipelineDescriptor,
    pub large_update_pipeline: RenderPipelineDescriptor,
    pub draw_pipeline: RenderPipelineDescriptor,
    pub draw_projectiles_pipeline: RenderPipelineDescriptor,
    pub large_draw_pipeline: RenderPipelineDescriptor,
}

impl UnitPipeline {
    pub open spec fn spec_simulation_layout() -> BindGroupLayoutDescriptorView {
        BindGroupLayoutDescriptorView {
            label: "unit_simulation_bind_group_layout",
            entries: spec_simulation_layout_entries(),
        }
    }

    pub open spec fn spec_layout() -> BindGroupLayoutDescriptorView {
        BindGroupLayoutDescriptorView {
            label: "unit_bind_group_layout",
            entries: spec_unit_layout_entries(),
        }
    }

    pub open spec fn spec_evaluate_pipeline() -> RenderPipelineDescriptorView {
        spec_basic_fullscreen_tri_pipeline(
            "unit_evaluate_pipeline",
            "shaders/unit_evaluate.wgsl",
            BindGroupLayout::UnitEvaluate,
            spec_shader_defs(),
            seq![
                spec_opaque_target(TextureFormat::Rgba32Uint),
                spec_opaque_target(TextureFormat::Rgba8Uint),
            ],
        )
    }

    pub open spec fn spec_update_pipeline() -> RenderPipelineDescriptorView {
        spec_basic_fullscreen_tri_pipeline(
            "unit_update_pipeline",
            "shaders/unit_update.wgsl",
            BindGroupLayout::UnitUpdate,
            spec_shader_defs(),
            seq![spec_opaque_target(TextureFormat::Rgba32Uint)],
        )
    }

    pub open spec fn spec_large_update_pipeline() -> RenderPipelineDescriptorView {
        spec_basic_fullscreen_tri_pipeline(
            "large_unit_update_pipeline",
            "shaders/large_unit_update.wgsl",
            BindGroupLayout::LargeUnitUpdate,
            spec_shader_defs(),
            seq![spec_opaque_target(TextureFormat::Rgba32Uint)],
        )
    }

    pub open spec fn spec_draw_pipeline() -> RenderPipelineDescriptorView {
        spec_basic_opaque_pipeline(
            "unit_draw_pipeline",
            "shaders/unit_material.wgsl",
            BindGroupLayout::UnitDraw,
            spec_shader_defs(),
            spec_deferred_targets(),
        )
    }

    pub open spec fn spec_draw_projectiles_pipeline() -> RenderPipelineDescriptorView {
        spec_basic_opaque_pipeline(
            "unit_projectile_draw_pipeline",
            "shaders/unit_projectile_material.wgsl",
            BindGroupLayout::UnitDraw,
            spec_shader_defs(),
            spec_deferred_targets(),
        )
    }

    pub open spec fn spec_large_draw_pipeline() -> RenderPipelineDescriptorView {
        spec_basic_opaque_pipeline(
            "large_unit_draw_pipeline",
            "shaders/large_unit_material.wgsl",
            BindGroupLayout::LargeUnitDraw,
            spec_shader_defs(),
            spec_deferred_targets(),
        )
    }

    /// The sampler, the layouts and the pipelines of the unit node. The
    /// simulation passes run over the full-screen triangle and write the state
    /// formats; the draw passes write both targets of the deferred G-buffer
    /// with the depth test on.
    pub fn new() -> (pipeline: UnitPipeline)
        ensures
            pipeline.sampler == (SamplerDescriptor {
                mag_filter: FilterMode::Nearest,
                min_filter: FilterMode::Nearest,
            }),
            pipeline.simulation_layout@ == UnitPipeline::spec_simulation_layout(),
            pipeline.layout@ == UnitPipeline::spec_layout(),
            pipeline.evaluate_pipeline@ == UnitPipeline::spec_evaluate_pipeline(),
            pipeline.update_pipeline@ == UnitPipeline::spec_update_pipeline(),
            pipeline.large_update_pipeline@ == UnitPipeline::spec_large_update_pipeline(),
            pipeline.draw_pipeline@ == UnitPipeline::spec_draw_pipeline(),
            pipeline.draw_projectiles_pipeline@ == UnitPipeline::spec_draw_projectiles_pipeline(),
            pipeline.large_draw_pipeline@ == UnitPipeline::spec_large_draw_pipeline(),
    {
        let mut entries: Vec<BindGroupLayoutEntry> = Vec::new();
        entries.push(view_layout_entry(0));
        entries.push(globals_layout_entry(9));
        entries.push(utexture_layout_entry(101, TextureViewDimension::D2));
        entries.push(uniform_layout_entry(102, UnitCommand::SIZE));
        entries.push(utexture_layout_entry(103, TextureViewDimension::D2));
        entries.push(ftexture_layout_entry(104, TextureViewDimension::D2Array));
        entries.push(fsampler_layout_entry(105));
        entries.push(utexture_layout_entry(106, TextureViewDimension::D2));
        entries.push(ftexture_layout_entry(107, TextureViewDimension::D2Array));
        entries.push(utexture_layout_entry(108, TextureViewDimension::D2));
        entries.push(utexture_layout_entry(109, TextureViewDimension::D2));
        assert(entries@ =~= spec_unit_layout_entries());
        let layout = BindGroupLayoutDescriptor { label: "unit_bind_group_layout", entries };

        let mut entries: Vec<BindGroupLayoutEntry> = Vec::new();
        entries.push(utexture_layout_entry(101, TextureViewDimension::D2));
        entries.push(uniform_layout_entry(102, UnitCommand::SIZE));
        entries.push(utexture_layout_entry(103, TextureViewDimension::D2));
        entries.push(ftexture_layout_entry(104, TextureViewDimension::D2Array));
        entries.push(fsampler_layout_entry(105));
        entries.push(utexture_layout_entry(106, TextureViewDimension::D2));
        entries.push(ftexture_layout_entry(107, TextureViewDimension::D2Array));
        entries.push(utexture_layout_entry(108, TextureViewDimension::D2));
        entries.push(utexture_layout_entry(109, TextureViewDimension::D2));
        assert(entries@ =~= spec_simulation_layout_entries());
        let simulation_layout = BindGroupLayoutDescriptor {
            label: "unit_simulation_bind_group_layout",
            entries,
        };

        let sampler = nearest_sampler();

        let mut evaluate_targets: Vec<Option<ColorTargetState>> = Vec::new();
        evaluate_targets.push(opaque_target(UNITS_DATA_FORMAT));
        evaluate_targets.push(opaque_target(UNITS_ATTACK_FORMAT));
        assert(evaluate_targets@ =~= seq![
            spec_opaque_target(TextureFormat::Rgba32Uint),
            spec_opaque_target(TextureFormat::Rgba8Uint),
        ]);
        let evaluate_pipeline = basic_fullscreen_tri_pipeline(
            "unit_evaluate_pipeline",
            "shaders/unit_evaluate.wgsl",
            BindGroupLayout::UnitEvaluate,
            shader_defs(),
            evaluate_targets,
        );

        let update_pipeline = basic_fullscreen_tri_pipeline(
            "unit_update_pipeline",
            "shaders/unit_update.wgsl",
            BindGroupLayout::UnitUpdate,
            shader_defs(),
            single_target(UNITS_DATA_FORMAT),
        );

        let large_update_pipeline = basic_fullscreen_tri_pipeline(
            "large_unit_update_pipeline",
            "shaders/large_unit_update.wgsl",
            BindGroupLayout::LargeUnitUpdate,
            shader_defs(),
            single_target(LARGE_UNITS_DATA_FORMAT),
        );

        let draw_pipeline = basic_opaque_pipeline(
            "unit_draw_pipeline",
            "shaders/unit_material.wgsl",
            BindGroupLayout::UnitDraw,
            shader_defs(),
            deferred_targets(),
        );

        let draw_projectiles_pipeline = basic_opaque_pipeline(
            "unit_projectile_draw_pipeline",
            "shaders/unit_projectile_material.wgsl",
            BindGroupLayout::UnitDraw,
            shader_defs(),
            deferred_targets(),
        );

        let large_draw_pipeline = basic_opaque_pipeline(
            "large_unit_draw_pipeline",
            "shaders/large_unit_material.wgsl",
            BindGroupLayout::LargeUnitDraw,
            shader_defs(),
            deferred_targets(),
        );

        UnitPipeline {
            sampler,
            simulation_layout,
            layout,
            evaluate_pipeline,
            update_pipeline,
            large_update_pipeline,
            draw_pipeline,
            draw_projectiles_pipeline,
            large_draw_pipeline,
        }
    }
}

/// Vertices of the draw that covers the small units' grid: two triangles for
/// each texel.
pub const UNITS_DRAW_VERTICES: u32 = UNITS_DATA_WIDTH * UNITS_DATA_HEIGHT * 6;

/// Vertices of the draw that covers the large units' texture: two triangles
/// for each texel.
pub const LARGE_UNITS_DRAW_VERTICES: u32 = LARGE_UNITS_TEXTURE_WIDTH * LARGE_UNITS_TEXTURE_HEIGHT
    * 6;

/// Vertices of the triangle that covers the whole target.
pub const FULLSCREEN_VERTICES: u32 = 3;

/// The bind group of a simulation pass: the command, the sprite sheets with
/// their sampler, the two coarse minimap levels, and the three state
/// textures that the pass reads. Of the frame a simulation pass sees the
/// command and nothing else: it binds neither the view nor the globals, so
/// neither the camera nor the number of the frame can reach it.
pub open spec fn spec_simulation_entries(
    unit_data: Texture,
    attack: Texture,
    large_unit: Texture,
    sprites: UnitTexture,
    minimap: MinimapTextures,
) -> Seq<BindGroupEntry> {
    seq![
        BindGroupEntry { binding: 101, resource: BindingResource::TextureView(unit_data) },
        BindGroupEntry { binding: 102, resource: BindingResource::Uniform(Uniform::UnitCommand) },
        BindGroupEntry { binding: 103, resource: BindingResource::TextureView(attack) },
        BindGroupEntry {
            binding: 104,
            resource: BindingResource::TextureView(sprites.small_goose),
        },
        BindGroupEntry { binding: 105, resource: BindingResource::Sampler(Sampler::Unit) },
        BindGroupEntry { binding: 106, resource: BindingResource::TextureView(large_unit) },
        BindGroupEntry { binding: 107, resource: BindingResource::TextureView(sprites.big_goose) },
        BindGroupEntry {
            binding: 108,
            resource: BindingResource::TextureView(minimap.minimap_sm_tex),
        },
        BindGroupEntry {
            binding: 109,
            resource: BindingResource::TextureView(minimap.minimap_sm3_tex),
        },
    ]
}

/// The bind group of a draw pass: the view and globals uniforms, and what a
/// simulation pass binds.
pub open spec fn spec_unit_entries(
    unit_data: Texture,
    attack: Texture,
    large_unit: Texture,
    sprites: UnitTexture,
    minimap: MinimapTextures,
) -> Seq<BindGroupEntry> {
    seq![
        BindGroupEntry { binding: 0, resource: BindingResource::Uniform(Uniform::View) },
        BindGroupEntry { binding: 9, resource: BindingResource::Uniform(Uniform::Globals) },
        BindGroupEntry { binding: 101, resource: BindingResource::TextureView(unit_data) },
        BindGroupEntry { binding: 102, resource: BindingResource::Uniform(Uniform::UnitCommand) },
        BindGroupEntry { binding: 103, resource: BindingResource::TextureView(attack) },
        BindGroupEntry {
            binding: 104,
            resource: BindingResource::TextureView(sprites.small_goose),
        },
        BindGroupEntry { binding: 105, resource: BindingResource::Sampler(Sampler::Unit) },
        BindGroupEntry { binding: 106, resource: BindingResource::TextureView(large_unit) },
        BindGroupEntry { binding: 107, resource: BindingResource::TextureView(sprites.big_goose) },
        BindGroupEntry {
            binding: 108,
            resource: BindingResource::TextureView(minimap.minimap_sm_tex),
        },
        BindGroupEntry {
            binding: 109,
            resource: BindingResource::TextureView(minimap.minimap_sm3_tex),
        },
    ]
}

fn simulation_entries(
    unit_data: Texture,
    attack: Texture,
    large_unit: Texture,
    sprites: &UnitTexture,
    minimap: &MinimapTextures,
) -> (entries: Vec<BindGroupEntry>)
    ensures
        entries@ == spec_simulation_entries(unit_data, attack, large_unit, *sprites, *minimap),
{
    let mut entries: Vec<BindGroupEntry> = Vec::new();
    entries.push(BindGroupEntry { binding: 101, resource: BindingResource::TextureView(unit_data) });
    entries.push(
        BindGroupEntry { binding: 102, resource: BindingResource::Uniform(Uniform::UnitCommand) },
    );
    entries.push(BindGroupEntry { binding: 103, resource: BindingResource::TextureView(attack) });
    entries.push(
        BindGroupEntry {
            binding: 104,
            resource: BindingResource::TextureView(sprites.small_goose),
        },
    );
    entries.push(BindGroupEntry { binding: 105, resource: BindingResource::Sampler(Sampler::Unit) });
    entries.push(
        BindGroupEntry { binding: 106, resource: BindingResource::TextureView(large_unit) },
    );
    entries.push(
        BindGroupEntry { binding: 107, resource: BindingResource::TextureView(sprites.big_goose) },
    );
    entries.push(
        BindGroupEntry {
            binding: 108,
            resource: BindingResource::TextureView(minimap.minimap_sm_tex),
        },
    );
    entries.push(
        BindGroupEntry {
            binding: 109,
            resource: BindingResource::TextureView(minimap.minimap_sm3_tex),
        },
    );
    assert(entries@ =~= spec_simulation_entries(
        unit_data,
        attack,
        large_unit,
        *sprites,
        *minimap,
    ));
    entries
}

fn unit_entries(
    unit_data: Texture,
    attack: Texture,
    large_unit: Texture,
    sprites: &UnitTexture,
    minimap: &MinimapTextures,
) -> (entries: Vec<BindGroupEntry>)
    ensures
        entries@ == spec_unit_entries(unit_data, attack, large_unit, *sprites, *minimap),
{
    let mut entries: Vec<BindGroupEntry> = Vec::new();
    entries.push(BindGroupEntry { binding: 0, resource: view_binding() });
    entries.push(BindGroupEntry { binding: 9, resource: globals_binding() });
    entries.push(BindGroupEntry { binding: 101, resource: BindingResource::TextureView(unit_data) });
    entries.push(
        BindGroupEntry { binding: 102, resource: BindingResource::Uniform(Uniform::UnitCommand) },
    );
    entries.push(BindGroupEntry { binding: 103, resource: BindingResource::TextureView(attack) });
    entries.push(
        BindGroupEntry {
            binding: 104,
            resource: BindingResource::TextureView(sprites.small_goose),
        },
    );
    entries.push(BindGroupEntry { binding: 105, resource: BindingResource::Sampler(Sampler::Unit) });
    entries.push(
        BindGroupEntry { binding: 106, resource: BindingResource::TextureView(large_unit) },
    );
    entries.push(
        BindGroupEntry { binding: 107, resource: BindingResource::TextureView(sprites.big_goose) },
    );
    entries.push(
        BindGroupEntry {
            binding: 108,
            resource: BindingResource::TextureView(minimap.minimap_sm_tex),
        },
    );
    entries.push(
        BindGroupEntry {
            binding: 109,
            resource: BindingResource::TextureView(minimap.minimap_sm3_tex),
        },
    );
    assert(entries@ =~= spec_unit_entries(unit_data, attack, large_unit, *sprites, *minimap));
    entries
}

/// The node that simulates and draws the units.
#[derive(Clone, Copy, Debug, Default, PartialEq, Eq)]
pub struct UnitsNode;

impl UnitsNode {
    pub const NAME: &'static str = "units_pass";

    /// Evaluation reads the state as the last frame left it, together with
    /// the attack map of that frame, the command, the sprite sheets and the
    /// coarse minimap levels, and writes the evaluated state and a new attack
    /// map.
    pub open spec fn spec_evaluate_pass(
        textures: UnitsDataTextures,
        sprites: UnitTexture,
        minimap: MinimapTextures,
    ) -> RenderPassView {
        RenderPassView {
            label: "Units Evaluate",
            bind_group_label: "unit_evaluate_bind_group",
            layout: BindGroupLayout::UnitEvaluate,
            entries: spec_simulation_entries(
                textures.a,
                textures.attack_b,
                textures.large_unit_a,
                sprites,
                minimap,
            ),
            color_attachments: seq![
                spec_load_color_attachment(textures.b),
                spec_load_color_attachment(textures.attack_a),
            ],
            depth_stencil_attachment: None,
            draws: seq![Draw { pipeline: RenderPipeline::UnitEvaluate, vertices: 3 }],
        }
    }

    /// The update reads what evaluation wrote and writes the state that the
    /// rest of the frame, and the next frame, go by.
    pub open spec fn spec_update_pass(
        textures: UnitsDataTextures,
        sprites: UnitTexture,
        minimap: MinimapTextures,
    ) -> RenderPassView {
        RenderPassView {
            label: "Units Update",
            bind_group_label: "unit_update_bind_group",
            layout: BindGroupLayout::UnitUpdate,
            entries: spec_simulation_entries(
                textures.b,
                textures.attack_a,
                textures.large_unit_a,
                sprites,
                minimap,
            ),
            color_attachments: seq![spec_load_color_attachment(textures.a)],
            depth_stencil_attachment: None,
            draws: seq![Draw { pipeline: RenderPipeline::UnitUpdate, vertices: 3 }],
        }
    }

    /// The large units' update reads the small units' new state and the large
    /// units' old one, and writes the large units' new state.
    pub open spec fn spec_large_update_pass(
        textures: UnitsDataTextures,
        sprites: UnitTexture,
        minimap: MinimapTextures,
    ) -> RenderPassView {
        RenderPassView {
            label: "Large Units Update",
            bind_group_label: "unit_update_bind_group",
            layout: BindGroupLayout::LargeUnitUpdate,
            entries: spec_simulation_entries(
                textures.a,
                textures.attack_a,
                textures.large_unit_a,
                sprites,
                minimap,
            ),
            color_attachments: seq![spec_load_color_attachment(textures.large_unit_b)],
            depth_stencil_attachment: None,
            draws: seq![Draw { pipeline: RenderPipeline::LargeUnitUpdate, vertices: 3 }],
        }
    }

    /// Units and projectiles are drawn into the deferred G-buffer, six
    /// vertices for every texel of the grid, however many units are alive.
    pub open spec fn spec_draw_pass(
        textures: UnitsDataTextures,
        sprites: UnitTexture,
        minimap: MinimapTextures,
    ) -> RenderPassView {
        RenderPassView {
            label: "Units Draw",
            bind_group_label: "unit_draw_bind_group",
            layout: BindGroupLayout::UnitDraw,
            entries: spec_unit_entries(
                textures.a,
                textures.attack_a,
                textures.large_unit_b,
                sprites,
                minimap,
            ),
            color_attachments: seq![
                spec_load_color_attachment(Texture::Deferred),
                spec_load_color_attachment(Texture::DeferredLightingPassId),
            ],
            depth_stencil_attachment: spec_load_depth_attachment(Texture::Depth),
            draws: seq![
                Draw { pipeline: RenderPipeline::UnitDraw, vertices: 1572864 },
                Draw { pipeline: RenderPipeline::UnitProjectileDraw, vertices: 1572864 },
            ],
        }
    }

    /// The large units are drawn into the deferred G-buffer, six vertices for
    /// every texel of their texture.
    pub open spec fn spec_large_draw_pass(
        textures: UnitsDataTextures,
        sprites: UnitTexture,
        minimap: MinimapTextures,
    ) -> RenderPassView {
        RenderPassView {
            label: "Units Draw",
            bind_group_label: "large_unit_draw_bind_group",
            layout: BindGroupLayout::LargeUnitDraw,
            entries: spec_unit_entries(
                textures.a,
                textures.attack_a,
                textures.large_unit_b,
                sprites,
                minimap,
            ),
            color_attachments: seq![
                spec_load_color_attachment(Texture::Deferred),
                spec_load_color_attachment(Texture::DeferredLightingPassId),
            ],
            depth_stencil_attachment: spec_load_depth_attachment(Texture::Depth),
            draws: seq![Draw { pipeline: RenderPipeline::LargeUnitDraw, vertices: 804 }],
        }
    }

    /// The three passes of the simulation in the order in which they run.
    pub open spec fn spec_simulation(
        textures: UnitsDataTextures,
        sprites: UnitTexture,
        minimap: MinimapTextures,
    ) -> Seq<RenderPassView> {
        seq![
            UnitsNode::spec_evaluate_pass(textures, sprites, minimap),
            UnitsNode::spec_update_pass(textures, sprites, minimap),
            UnitsNode::spec_large_update_pass(textures, sprites, minimap),
        ]
    }

    /// Whether the node has all it needs: its six pipelines compiled, the
    /// state textures, the minimap, the sprite sheets and both targets of the
    /// G-buffer.
    pub open spec fn spec_can_run(context: FrameContext) -> bool {
        &&& context.pipeline_cache.spec_is_ready(RenderPipeline::UnitEvaluate)
        &&& context.pipeline_cache.spec_is_ready(RenderPipeline::UnitUpdate)
        &&& context.pipeline_cache.spec_is_ready(RenderPipeline::LargeUnitUpdate)
        &&& context.pipeline_cache.spec_is_ready(RenderPipeline::UnitDraw)
        &&& context.pipeline_cache.spec_is_ready(RenderPipeline::UnitProjectileDraw)
        &&& context.pipeline_cache.spec_is_ready(RenderPipeline::LargeUnitDraw)
        &&& context.units_data_textures.is_some()
        &&& context.minimap_textures.is_some()
        &&& context.unit_texture.is_some()
        &&& context.deferred
        &&& context.deferred_lighting_pass_id
    }

    /// The passes of the node in the order in which they run: evaluation,
    /// update, update of the large units, then the two draw passes. Where
    /// anything is missing there is no pass at all.
    pub open spec fn spec_run(context: FrameContext) -> Seq<RenderPassView> {
        if UnitsNode::spec_can_run(context) {
            let textures = context.units_data_textures.unwrap();
            let sprites = context.unit_texture.unwrap();
            let minimap = context.minimap_textures.unwrap();
            seq![
                UnitsNode::spec_evaluate_pass(textures, sprites, minimap),
                UnitsNode::spec_update_pass(textures, sprites, minimap),
                UnitsNode::spec_large_update_pass(textures, sprites, minimap),
                UnitsNode::spec_draw_pass(textures, sprites, minimap),
                UnitsNode::spec_large_draw_pass(textures, sprites, minimap),
            ]
        } else {
            seq![]
        }
    }

    /// The command that the passes of this frame see: the player's command
    /// with the frame time filled in.
    pub open spec fn spec_command(context: FrameContext) -> UnitCommand {
        UnitCommand { delta_time: context.delta_time, ..context.unit_command }
    }

    /// The uniform buffer that holds this frame's command.
    pub fn command_uniform(&self, context: &FrameContext) -> (buffer: BufferInitDescriptor)
        ensures
            buffer.label == "Unit Command Uniform",
            buffer.contents@ == spec_le_bytes(UnitsNode::spec_command(*context).spec_to_words()),
            buffer.usage == (BufferUsages { uniform: true, copy_dst: true }),
    {
        let mut unit_command = context.unit_command;
        unit_command.delta_time = context.delta_time;
        let words = unit_command.to_words();
        uniform_buffer(&words, "Unit Command Uniform")
    }

    /// The passes to record for the units in this frame. If a pipeline has
    /// not been compiled yet or a texture is missing, nothing is recorded:
    /// the state textures keep what they hold, and the next frame tries
    /// again.
    pub fn run(&self, context: &FrameContext) -> (passes: Vec<RenderPass>)
        ensures
            passes.deep_view() == UnitsNode::spec_run(*context),
    {
        let mut passes: Vec<RenderPass> = Vec::new();
        let pipeline_cache = &context.pipeline_cache;
        let pipelines = (
            pipeline_cache.get_render_pipeline(RenderPipeline::UnitEvaluate),
            pipeline_cache.get_render_pipeline(RenderPipeline::UnitUpdate),
            pipeline_cache.get_render_pipeline(RenderPipeline::LargeUnitUpdate),
            pipeline_cache.get_render_pipeline(RenderPipeline::UnitDraw),
            pipeline_cache.get_render_pipeline(RenderPipeline::UnitProjectileDraw),
            pipeline_cache.get_render_pipeline(RenderPipeline::LargeUnitDraw),
        );
        let (
            Some(evaluate),
            Some(update),
            Some(large_update),
            Some(draw),
            Some(draw_projectiles),
            Some(large_draw),
        ) = pipelines else {
            assert(passes.deep_view() =~= UnitsNode::spec_run(*context));
            return passes;
        };
        let resources = (
            &context.units_data_textures,
            &context.minimap_textures,
            &context.unit_texture,
        );
        let (Some(textures), Some(minimap), Some(sprites)) = resources else {
            assert(passes.deep_view() =~= UnitsNode::spec_run(*context));
            return passes;
        };
        if !context.deferred || !context.deferred_lighting_pass_id {
            assert(passes.deep_view() =~= UnitsNode::spec_run(*context));
            return passes;
        }
        // ---------------------------------------
        // Units Evaluate
        // ---------------------------------------
        {
            let mut color_attachments = Vec::new();
            color_attachments.push(load_color_attachment(textures.b));
            color_attachments.push(load_color_attachment(textures.attack_a));
            assert(color_attachments@ =~= seq![
                spec_load_color_attachment(textures.b),
                spec_load_color_attachment(textures.attack_a),
            ]);
            let mut draws = Vec::new();
            draws.push(Draw { pipeline: evaluate, vertices: FULLSCREEN_VERTICES });
            passes.push(
                RenderPass {
                    label: "Units Evaluate",
                    bind_group_label: "unit_evaluate_bind_group",
                    layout: BindGroupLayout::UnitEvaluate,
                    entries: simulation_entries(
                        textures.a,
                        textures.attack_b,
                        textures.large_unit_a,
                        sprites,
                        minimap,
                    ),
                    color_attachments,
                    depth_stencil_attachment: None,
                    draws,
                },
            );
        }
        assert(passes[0].deep_view() =~= UnitsNode::spec_evaluate_pass(
            *textures,
            *sprites,
            *minimap,
        ));
        // ---------------------------------------
        // Units Update
        // ---------------------------------------
        {
            let mut color_attachments = Vec::new();
            color_attachments.push(load_color_attachment(textures.a));
            let mut draws = Vec::new();
            draws.push(Draw { pipeline: update, vertices: FULLSCREEN_VERTICES });
            passes.push(
                RenderPass {
                    label: "Units Update",
                    bind_group_label: "unit_update_bind_group",
                    layout: BindGroupLayout::UnitUpdate,
                    entries: simulation_entries(
                        textures.b,
                        textures.attack_a,
                        textures.large_unit_a,
                        sprites,
                        minimap,
                    ),
                    color_attachments,
                    depth_stencil_attachment: None,
                    draws,
                },
            );
        }
        assert(passes[1].deep_view() =~= UnitsNode::spec_update_pass(
            *textures,
            *sprites,
            *minimap,
        ));
        // ---------------------------------------
        // Large Units Update
        // ---------------------------------------
        {
            let mut color_attachments = Vec::new();
            color_attachments.push(load_color_attachment(textures.large_unit_b));
            let mut draws = Vec::new();
            draws.push(Draw { pipeline: large_update, vertices: FULLSCREEN_VERTICES });
            passes.push(
                RenderPass {
                    label: "Large Units Update",
                    bind_group_label: "unit_update_bind_group",
                    layout: BindGroupLayout::LargeUnitUpdate,
                    entries: simulation_entries(
                        textures.a,
                        textures.attack_a,
                        textures.large_unit_a,
                        sprites,
                        minimap,
                    ),
                    color_attachments,
                    depth_stencil_attachment: None,
                    draws,
                },
            );
        }
        assert(passes[2].deep_view() =~= UnitsNode::spec_large_update_pass(
            *textures,
            *sprites,
            *minimap,
        ));
        // ---------------------------------------
        // Units Draw
        // ---------------------------------------
        {
            let mut color_attachments = Vec::new();
            color_attachments.push(load_color_attachment(Texture::Deferred));
            color_attachments.push(load_color_attachment(Texture::DeferredLightingPassId));
            assert(color_attachments@ =~= seq![
                spec_load_color_attachment(Texture::Deferred),
                spec_load_color_attachment(Texture::DeferredLightingPassId),
            ]);
            let mut draws = Vec::new();
            draws.push(Draw { pipeline: draw, vertices: UNITS_DRAW_VERTICES });
            draws.push(Draw { pipeline: draw_projectiles, vertices: UNITS_DRAW_VERTICES });
            assert(draws@ =~= seq![
                Draw { pipeline: RenderPipeline::UnitDraw, vertices: 1572864 },
                Draw { pipeline: RenderPipeline::UnitProjectileDraw, vertices: 1572864 },
            ]);
            passes.push(
                RenderPass {
                    label: "Units Draw",
                    bind_group_label: "unit_draw_bind_group",
                    layout: BindGroupLayout::UnitDraw,
                    entries: unit_entries(
                        textures.a,
                        textures.attack_a,
                        textures.large_unit_b,
                        sprites,
                        minimap,
                    ),
                    color_attachments,
                    depth_stencil_attachment: load_depth_attachment(Texture::Depth),
                    draws,
                },
            );
        }
        assert(passes[3].deep_view() =~= UnitsNode::spec_draw_pass(*textures, *sprites, *minimap));
        // ---------------------------------------
        // Large Units Draw
        // ---------------------------------------
        {
            let mut color_attachments = Vec::new();
            color_attachments.push(load_color_attachment(Texture::Deferred));
            color_attachments.push(load_color_attachment(Texture::DeferredLightingPassId));
            assert(color_attachments@ =~= seq![
                spec_load_color_attachment(Texture::Deferred),
                spec_load_color_attachment(Texture::DeferredLightingPassId),
            ]);
            let mut draws = Vec::new();
            draws.push(Draw { pipeline: large_draw, vertices: LARGE_UNITS_DRAW_VERTICES });
            passes.push(
                RenderPass {
                    label: "Units Draw",
                    bind_group_label: "large_unit_draw_bind_group",
                    layout: BindGroupLayout::LargeUnitDraw,
                    entries: unit_entries(
                        textures.a,
                        textures.attack_a,
                        textures.large_unit_b,
                        sprites,
                        minimap,
                    ),
                    color_attachments,
                    depth_stencil_attachment: load_depth_attachment(Texture::Depth),
                    draws,
                },
            );
        }
        assert(passes[4].deep_view() =~= UnitsNode::spec_large_draw_pass(
            *textures,
            *sprites,
            *minimap,
        ));
        assert(passes.deep_view() =~= UnitsNode::spec_run(*context));
        passes
    }
}

impl UnitTexture {
    /// The sprite sheets are the two textures that are loaded as such.
    pub open spec fn wf(self) -> bool {
        self.small_goose == Texture::SmallGoose && self.big_goose == Texture::BigGoose
    }
}

/// The textures bound by a simulation pass are the three state textures it
/// is given, the sprite sheets and the two coarse minimap levels.
pub proof fn lemma_simulation_entries_read(
    pass: RenderPassView,
    unit_data: Texture,
    attack: Texture,
    large_unit: Texture,
    sprites: UnitTexture,
    minimap: MinimapTextures,
    texture: Texture,
)
    requires
        pass.entries == spec_simulation_entries(unit_data, attack, large_unit, sprites, minimap),
    ensures
        pass.reads(texture) <==> texture == unit_data || texture == attack || texture == large_unit
            || texture == sprites.small_goose || texture == sprites.big_goose || texture
            == minimap.minimap_sm_tex || texture == minimap.minimap_sm3_tex,
{
    let entries = pass.entries;
    assert(entries.len() == 9);
    assert(entries[0].resource == BindingResource::TextureView(unit_data));
    assert(entries[2].resource == BindingResource::TextureView(attack));
    assert(entries[3].resource == BindingResource::TextureView(sprites.small_goose));
    assert(entries[5].resource == BindingResource::TextureView(large_unit));
    assert(entries[6].resource == BindingResource::TextureView(sprites.big_goose));
    assert(entries[7].resource == BindingResource::TextureView(minimap.minimap_sm_tex));
    assert(entries[8].resource == BindingResource::TextureView(minimap.minimap_sm3_tex));
    if pass.reads(texture) {
        let i = choose|i: int|
            0 <= i < entries.len() && (#[trigger] entries[i]).resource
                == BindingResource::TextureView(texture);
        assert(entries[i].resource == BindingResource::TextureView(texture));
        assert(entries[1].resource == BindingResource::Uniform(Uniform::UnitCommand));
        assert(entries[4].resource == BindingResource::Sampler(Sampler::Unit));
    }
}

/// The textures bound by a draw pass are the three state textures it is
/// given, the sprite sheets and the two coarse minimap levels.
pub proof fn lemma_unit_entries_read(
    pass: RenderPassView,
    unit_data: Texture,
    attack: Texture,
    large_unit: Texture,
    sprites: UnitTexture,
    minimap: MinimapTextures,
    texture: Texture,
)
    requires
        pass.entries == spec_unit_entries(unit_data, attack, large_unit, sprites, minimap),
    ensures
        pass.reads(texture) <==> texture == unit_data || texture == attack || texture == large_unit
            || texture == sprites.small_goose || texture == sprites.big_goose || texture
            == minimap.minimap_sm_tex || texture == minimap.minimap_sm3_tex,
{
    let entries = pass.entries;
    assert(entries.len() == 11);
    assert(entries[2].resource == BindingResource::TextureView(unit_data));
    assert(entries[4].resource == BindingResource::TextureView(attack));
    assert(entries[5].resource == BindingResource::TextureView(sprites.small_goose));
    assert(entries[7].resource == BindingResource::TextureView(large_unit));
    assert(entries[8].resource == BindingResource::TextureView(sprites.big_goose));
    assert(entries[9].resource == BindingResource::TextureView(minimap.minimap_sm_tex));
    assert(entries[10].resource == BindingResource::TextureView(minimap.minimap_sm3_tex));
    if pass.reads(texture) {
        let i = choose|i: int|
            0 <= i < entries.len() && (#[trigger] entries[i]).resource
                == BindingResource::TextureView(texture);
        assert(entries[i].resource == BindingResource::TextureView(texture));
        assert(entries[0].resource == BindingResource::Uniform(Uniform::View));
        assert(entries[1].resource == BindingResource::Uniform(Uniform::Globals));
        assert(entries[3].resource == BindingResource::Uniform(Uniform::UnitCommand));
        assert(entries[6].resource == BindingResource::Sampler(Sampler::Unit));
    }
}

/// No pass of the unit node draws into a texture that it binds.
pub proof fn lemma_unit_passes_hazard_free(context: FrameContext)
    requires
        UnitsNode::spec_can_run(context),
        context.units_data_textures.unwrap().wf(),
        context.minimap_textures.unwrap().wf(),
        context.unit_texture.unwrap().wf(),
    ensures
        forall|i: int|
            0 <= i < UnitsNode::spec_run(context).len() ==> (#[trigger] UnitsNode::spec_run(
                context,
            )[i]).hazard_free(),
{
    let textures = context.units_data_textures.unwrap();
    let sprites = context.unit_texture.unwrap();
    let minimap = context.minimap_textures.unwrap();
    let passes = UnitsNode::spec_run(context);
    assert forall|i: int| 0 <= i < passes.len() implies (#[trigger] passes[i]).hazard_free() by {
        let pass = passes[i];
        assert forall|texture: Texture| !(pass.reads(texture) && pass.writes(texture)) by {
            if i == 0 {
                lemma_simulation_entries_read(
                    pass,
                    textures.a,
                    textures.attack_b,
                    textures.large_unit_a,
                    sprites,
                    minimap,
                    texture,
                );
            } else if i == 1 {
                lemma_simulation_entries_read(
                    pass,
                    textures.b,
                    textures.attack_a,
                    textures.large_unit_a,
                    sprites,
                    minimap,
                    texture,
                );
            } else if i == 2 {
                lemma_simulation_entries_read(
                    pass,
                    textures.a,
                    textures.attack_a,
                    textures.large_unit_a,
                    sprites,
                    minimap,
                    texture,
                );
            } else {
                lemma_unit_entries_read(
                    pass,
                    textures.a,
                    textures.attack_a,
                    textures.large_unit_b,
                    sprites,
                    minimap,
                    texture,
                );
            }
            if pass.writes(texture) {
                if pass.depth_target() != Some(texture) {
                    let k = choose|k: int|
                        0 <= k < pass.color_attachments.len() && #[trigger] pass.color_target(k)
                            == Some(texture);
                    assert(pass.color_target(k) == Some(texture));
                }
            }
        }
    }
}

/// Evaluation is a function of the state and the command. Take any two
/// frames, of either parity, and let what evaluation binds hold the same in
/// both: the units' state, the attack map of the frame before and the large
/// units' state under the names that each frame gives them, the command with
/// the frame time in it, the sprite sheets, and the two coarse minimap
/// levels. Then evaluation leaves the same evaluated state and
/// the same attack map in both frames, under the names of each. Nothing else
/// enters: not the number of the frame, which evaluation does not bind, not
/// how long a slot has been dead, and not which of the two physical textures
/// holds the state.
pub proof fn lemma_evaluate_is_pure<C>(
    shader: spec_fn(Seq<RenderPipeline>, int, Seq<Option<C>>) -> C,
    first_frame: u32,
    second_frame: u32,
    sprites: UnitTexture,
    minimap: MinimapTextures,
    first: Map<BindingResource, C>,
    second: Map<BindingResource, C>,
)
    requires
        ({
            let t1 = UnitsDataTextures::spec_for_frame(first_frame);
            let t2 = UnitsDataTextures::spec_for_frame(second_frame);
            &&& first[BindingResource::TextureView(t1.a)] == second[BindingResource::TextureView(
                t2.a,
            )]
            &&& first[BindingResource::TextureView(t1.attack_b)]
                == second[BindingResource::TextureView(t2.attack_b)]
            &&& first[BindingResource::TextureView(t1.large_unit_a)]
                == second[BindingResource::TextureView(t2.large_unit_a)]
        }),
        forall|resource: BindingResource|
            resource == BindingResource::Uniform(Uniform::UnitCommand) || resource
                == BindingResource::TextureView(sprites.small_goose) || resource
                == BindingResource::TextureView(sprites.big_goose) || resource
                == BindingResource::TextureView(minimap.minimap_sm_tex) || resource
                == BindingResource::TextureView(minimap.minimap_sm3_tex) ==> first[resource]
                == second[resource],
    ensures
        ({
            let t1 = UnitsDataTextures::spec_for_frame(first_frame);
            let t2 = UnitsDataTextures::spec_for_frame(second_frame);
            let after_first = UnitsNode::spec_evaluate_pass(t1, sprites, minimap).run(shader, first);
            let after_second = UnitsNode::spec_evaluate_pass(t2, sprites, minimap).run(
                shader,
                second,
            );
            &&& after_first[BindingResource::TextureView(t1.b)]
                == after_second[BindingResource::TextureView(t2.b)]
            &&& after_first[BindingResource::TextureView(t1.attack_a)]
                == after_second[BindingResource::TextureView(t2.attack_a)]
        }),
{
    let t1 = UnitsDataTextures::spec_for_frame(first_frame);
    let t2 = UnitsDataTextures::spec_for_frame(second_frame);
    let p1 = UnitsNode::spec_evaluate_pass(t1, sprites, minimap);
    let p2 = UnitsNode::spec_evaluate_pass(t2, sprites, minimap);
    let targets1 = seq![t1.b, t1.attack_a];
    let targets2 = seq![t2.b, t2.attack_a];
    assert(p1.targets() =~= Seq::new(targets1.len(), |i: int| Some(targets1[i])));
    assert(p2.targets() =~= Seq::new(targets2.len(), |i: int| Some(targets2[i])));
    assert(p1.pipelines() =~= p2.pipelines());
    assert(p1.covers_targets());
    assert(p2.covers_targets());
    assert(p1.inputs(first) =~= p2.inputs(second));
    lemma_run_is_pure(shader, p1, targets1, first, p2, targets2, second);
    assert(targets1[0] == t1.b && targets1[1] == t1.attack_a);
}

/// The simulation is a function of the state and the command. Take any two
/// frames, of either parity, and let the units' state, the attack map of the
/// frame before and the large units' state, under the names that each frame
/// gives them, the command, the sprite sheets and the two coarse minimap
/// levels hold the same in both. Then, after evaluation, update and update of
/// the large units have run, the units' state, the new attack map and the
/// large units' new state hold the same in both frames, under the names of
/// each, whatever the shaders compute and whatever else the frames differ
/// in.
pub proof fn lemma_simulation_is_pure<C>(
    shader: spec_fn(Seq<RenderPipeline>, int, Seq<Option<C>>) -> C,
    first_frame: u32,
    second_frame: u32,
    first: Map<BindingResource, C>,
    second: Map<BindingResource, C>,
)
    requires
        ({
            let t1 = UnitsDataTextures::spec_for_frame(first_frame);
            let t2 = UnitsDataTextures::spec_for_frame(second_frame);
            &&& first[BindingResource::TextureView(t1.a)] == second[BindingResource::TextureView(
                t2.a,
            )]
            &&& first[BindingResource::TextureView(t1.attack_b)]
                == second[BindingResource::TextureView(t2.attack_b)]
            &&& first[BindingResource::TextureView(t1.large_unit_a)]
                == second[BindingResource::TextureView(t2.large_unit_a)]
        }),
        first[BindingResource::Uniform(Uniform::UnitCommand)] == second[BindingResource::Uniform(
            Uniform::UnitCommand,
        )],
        first[BindingResource::TextureView(Texture::SmallGoose)]
            == second[BindingResource::TextureView(Texture::SmallGoose)],
        first[BindingResource::TextureView(Texture::BigGoose)]
            == second[BindingResource::TextureView(Texture::BigGoose)],
        first[BindingResource::TextureView(Texture::MinimapSmData)]
            == second[BindingResource::TextureView(Texture::MinimapSmData)],
        first[BindingResource::TextureView(Texture::MinimapSm3Data)]
            == second[BindingResource::TextureView(Texture::MinimapSm3Data)],
    ensures
        ({
            let t1 = UnitsDataTextures::spec_for_frame(first_frame);
            let t2 = UnitsDataTextures::spec_for_frame(second_frame);
            let sprites = UnitTexture {
                small_goose: Texture::SmallGoose,
                big_goose: Texture::BigGoose,
            };
            let minimap = MinimapTextures::spec_new();
            let after_first = spec_run_passes(
                shader,
                UnitsNode::spec_simulation(t1, sprites, minimap),
                first,
            );
            let after_second = spec_run_passes(
                shader,
                UnitsNode::spec_simulation(t2, sprites, minimap),
                second,
            );
            &&& after_first[BindingResource::TextureView(t1.a)]
                == after_second[BindingResource::TextureView(t2.a)]
            &&& after_first[BindingResource::TextureView(t1.attack_a)]
                == after_second[BindingResource::TextureView(t2.attack_a)]
            &&& after_first[BindingResource::TextureView(t1.large_unit_b)]
                == after_second[BindingResource::TextureView(t2.large_unit_b)]
        }),
{
    let t1 = UnitsDataTextures::spec_for_frame(first_frame);
    let t2 = UnitsDataTextures::spec_for_frame(second_frame);
    let sprites = UnitTexture { small_goose: Texture::SmallGoose, big_goose: Texture::BigGoose };
    let minimap = MinimapTextures::spec_new();
    let none = Seq::<RenderPassView>::empty();

    // evaluation
    let e1 = UnitsNode::spec_evaluate_pass(t1, sprites, minimap);
    let e2 = UnitsNode::spec_evaluate_pass(t2, sprites, minimap);
    let et1 = seq![t1.b, t1.attack_a];
    let et2 = seq![t2.b, t2.attack_a];
    assert(e1.targets() =~= Seq::new(et1.len(), |i: int| Some(et1[i])));
    assert(e2.targets() =~= Seq::new(et2.len(), |i: int| Some(et2[i])));
    assert(e1.pipelines() =~= e2.pipelines());
    assert(e1.covers_targets() && e2.covers_targets());
    assert(e1.inputs(first) =~= e2.inputs(second));
    lemma_run_is_pure(shader, e1, et1, first, e2, et2, second);
    assert(et1[0] == t1.b && et1[1] == t1.attack_a);
    lemma_run_keeps_the_rest(e1, et1, shader, first);
    lemma_run_keeps_the_rest(e2, et2, shader, second);
    let f1 = e1.run(shader, first);
    let s1 = e2.run(shader, second);
    assert forall|texture: Texture| texture != t1.b && texture != t1.attack_a implies !et1.contains(
        texture,
    ) by {
        if et1.contains(texture) {
            let k = choose|k: int| 0 <= k < et1.len() && et1[k] == texture;
            assert(et1[k] == texture);
        }
    }
    assert forall|texture: Texture| texture != t2.b && texture != t2.attack_a implies !et2.contains(
        texture,
    ) by {
        if et2.contains(texture) {
            let k = choose|k: int| 0 <= k < et2.len() && et2[k] == texture;
            assert(et2[k] == texture);
        }
    }
    assert(f1[BindingResource::TextureView(t1.large_unit_a)] == s1[BindingResource::TextureView(
        t2.large_unit_a,
    )]);
    assert(f1[BindingResource::Uniform(Uniform::UnitCommand)] == s1[BindingResource::Uniform(
        Uniform::UnitCommand,
    )]);
    assert(f1[BindingResource::TextureView(Texture::SmallGoose)]
        == s1[BindingResource::TextureView(Texture::SmallGoose)]);
    assert(f1[BindingResource::TextureView(Texture::BigGoose)] == s1[BindingResource::TextureView(
        Texture::BigGoose,
    )]);
    assert(f1[BindingResource::TextureView(Texture::MinimapSmData)]
        == s1[BindingResource::TextureView(Texture::MinimapSmData)]);
    assert(f1[BindingResource::TextureView(Texture::MinimapSm3Data)]
        == s1[BindingResource::TextureView(Texture::MinimapSm3Data)]);

    // update
    let u1 = UnitsNode::spec_update_pass(t1, sprites, minimap);
    let u2 = UnitsNode::spec_update_pass(t2, sprites, minimap);
    let ut1 = seq![t1.a];
    let ut2 = seq![t2.a];
    assert(u1.targets() =~= Seq::new(ut1.len(), |i: int| Some(ut1[i])));
    assert(u2.targets() =~= Seq::new(ut2.len(), |i: int| Some(ut2[i])));
    assert(u1.pipelines() =~= u2.pipelines());
    assert(u1.covers_targets() && u2.covers_targets());
    assert(u1.inputs(f1) =~= u2.inputs(s1));
    lemma_run_is_pure(shader, u1, ut1, f1, u2, ut2, s1);
    assert(ut1[0] == t1.a);
    lemma_run_keeps_the_rest(u1, ut1, shader, f1);
    lemma_run_keeps_the_rest(u2, ut2, shader, s1);
    let f2 = u1.run(shader, f1);
    let s2 = u2.run(shader, s1);
    assert forall|texture: Texture| texture != Texture::UnitDataA implies !ut1.contains(texture)
        && !ut2.contains(texture) by {
        if ut1.contains(texture) {
            let k = choose|k: int| 0 <= k < ut1.len() && ut1[k] == texture;
            assert(ut1[k] == texture);
        }
        if ut2.contains(texture) {
            let k = choose|k: int| 0 <= k < ut2.len() && ut2[k] == texture;
            assert(ut2[k] == texture);
        }
    }
    assert(f2[BindingResource::TextureView(t1.attack_a)] == s2[BindingResource::TextureView(
        t2.attack_a,
    )]);
    assert(f2[BindingResource::TextureView(t1.large_unit_a)] == s2[BindingResource::TextureView(
        t2.large_unit_a,
    )]);
    assert(f2[BindingResource::Uniform(Uniform::UnitCommand)] == s2[BindingResource::Uniform(
        Uniform::UnitCommand,
    )]);
    assert(f2[BindingResource::TextureView(Texture::SmallGoose)]
        == s2[BindingResource::TextureView(Texture::SmallGoose)]);
    assert(f2[BindingResource::TextureView(Texture::BigGoose)] == s2[BindingResource::TextureView(
        Texture::BigGoose,
    )]);
    assert(f2[BindingResource::TextureView(Texture::MinimapSmData)]
        == s2[BindingResource::TextureView(Texture::MinimapSmData)]);
    assert(f2[BindingResource::TextureView(Texture::MinimapSm3Data)]
        == s2[BindingResource::TextureView(Texture::MinimapSm3Data)]);

    // update of the large units
    let l1 = UnitsNode::spec_large_update_pass(t1, sprites, minimap);
    let l2 = UnitsNode::spec_large_update_pass(t2, sprites, minimap);
    let lt1 = seq![t1.large_unit_b];
    let lt2 = seq![t2.large_unit_b];
    assert(l1.targets() =~= Seq::new(lt1.len(), |i: int| Some(lt1[i])));
    assert(l2.targets() =~= Seq::new(lt2.len(), |i: int| Some(lt2[i])));
    assert(l1.pipelines() =~= l2.pipelines());
    assert(l1.covers_targets() && l2.covers_targets());
    assert(l1.inputs(f2) =~= l2.inputs(s2));
    lemma_run_is_pure(shader, l1, lt1, f2, l2, lt2, s2);
    assert(lt1[0] == t1.large_unit_b);
    lemma_run_keeps_the_rest(l1, lt1, shader, f2);
    lemma_run_keeps_the_rest(l2, lt2, shader, s2);
    let f3 = l1.run(shader, f2);
    let s3 = l2.run(shader, s2);
    assert forall|texture: Texture|
        texture != Texture::LargeUnitDataA && texture != Texture::LargeUnitDataB implies
        !lt1.contains(texture) && !lt2.contains(texture) by {
        if lt1.contains(texture) {
            let k = choose|k: int| 0 <= k < lt1.len() && lt1[k] == texture;
            assert(lt1[k] == texture);
        }
        if lt2.contains(texture) {
            let k = choose|k: int| 0 <= k < lt2.len() && lt2[k] == texture;
            assert(lt2[k] == texture);
        }
    }
    assert(f3[BindingResource::TextureView(t1.a)] == s3[BindingResource::TextureView(t2.a)]);
    assert(f3[BindingResource::TextureView(t1.attack_a)] == s3[BindingResource::TextureView(
        t2.attack_a,
    )]);

    // the three in a row
    assert(UnitsNode::spec_simulation(t1, sprites, minimap) =~= none.push(e1).push(u1).push(l1));
    assert(UnitsNode::spec_simulation(t2, sprites, minimap) =~= none.push(e2).push(u2).push(l2));
    lemma_run_passes_push(shader, none, e1, first);
    lemma_run_passes_push(shader, none.push(e1), u1, first);
    lemma_run_passes_push(shader, none.push(e1).push(u1), l1, first);
    lemma_run_passes_push(shader, none, e2, second);
    lemma_run_passes_push(shader, none.push(e2), u2, second);
    lemma_run_passes_push(shader, none.push(e2).push(u2), l2, second);
}

} // verus!
