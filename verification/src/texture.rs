//! The textures that the passes of a frame read and write, named one by one.

use vstd::prelude::*;

verus! {

/// Width of the small units' grid. One texel is one slot for a unit; the
/// grid does not grow.
pub const UNITS_DATA_WIDTH: u32 = 512;

/// Height of the small units' grid.
pub const UNITS_DATA_HEIGHT: u32 = 512;

/// Width of the large units' texture: their slots, and two texels more.
pub const LARGE_UNITS_TEXTURE_WIDTH: u32 = 67;

/// Slots for large units in one row of their texture.
pub const LARGE_UNITS_DATA_WIDTH: u32 = 65;

/// Rows of the large units' texture.
pub const LARGE_UNITS_TEXTURE_HEIGHT: u32 = 2;

/// How far an attack reaches, in texels of the attack map.
pub const ATTACK_RADIUS: u32 = 5;

/// The factor by which each minimap level is smaller than what it is made
/// from.
pub const MINIMAP_SCALE: u32 = 4;

/// Width of the particles' state texture.
pub const PARTICLES_PASS_WIDTH: u32 = 256;

/// Height of the particles' state texture.
pub const PARTICLES_PASS_HEIGHT: u32 = 128;

/// Texel formats. The last three stand for formats that the deferred renderer
/// fixes; the renderer's own constants give their concrete layout.
#[derive(Clone, Copy, Debug, PartialEq, Eq, Hash, Structural)]
pub enum TextureFormat {
    Rgba8Uint,
    Rgba16Float,
    Rgba32Uint,
    Rgba32Float,
    DeferredPrepass,
    DeferredLightingPassId,
    Core3dDepth,
}

/// Format of the small units' state.
pub const UNITS_DATA_FORMAT: TextureFormat = TextureFormat::Rgba32Uint;

/// Format of the attack maps.
pub const UNITS_ATTACK_FORMAT: TextureFormat = TextureFormat::Rgba8Uint;

/// Format of the large units' state.
pub const LARGE_UNITS_DATA_FORMAT: TextureFormat = TextureFormat::Rgba32Uint;

/// Format of the minimap levels.
pub const MINIMAP_DATA_FORMAT: TextureFormat = TextureFormat::Rgba8Uint;

/// Format of the particles' state.
pub const PARTICLES_DATA_FORMAT: TextureFormat = TextureFormat::Rgba32Float;

/// One physical texture. The first twelve are allocated by this crate through
/// the texture cache, which keys them by label, format and size; the others
/// belong to the view or to the asset system.
#[derive(Clone, Copy, Debug, PartialEq, Eq, Hash, Structural)]
pub enum Texture {
    UnitDataA,
    UnitDataB,
    UnitAttackMapA,
    UnitAttackMapB,
    LargeUnitDataA,
    LargeUnitDataB,
    MinimapData,
    MinimapSmData,
    MinimapSm2Data,
    MinimapSm3Data,
    ParticlesDataA,
    ParticlesDataB,
    /// The deferred G-buffer of the view.
    Deferred,
    /// The lighting-technique-id buffer of the view.
    DeferredLightingPassId,
    /// The depth buffer of the view.
    Depth,
    /// The colour buffer that post-processing reads.
    PostProcessSource,
    /// The colour buffer that post-processing writes.
    PostProcessDestination,
    /// Sprite sheet of the small units.
    SmallGoose,
    /// Sprite sheet of the large units.
    BigGoose,
}

/// Width, height and layer count of a texture.
#[derive(Clone, Copy, Debug, PartialEq, Eq)]
pub struct Extent3d {
    pub width: u32,
    pub height: u32,
    pub depth_or_array_layers: u32,
}

/// What a texture may be used for.
#[derive(Clone, Copy, Debug, PartialEq, Eq)]
pub struct TextureUsages {
    pub render_attachment: bool,
    pub texture_binding: bool,
    pub copy_dst: bool,
}

/// What the texture cache is asked for: a two-dimensional texture with this
/// label, size and format.
#[derive(Clone, Copy, Debug, PartialEq, Eq)]
pub struct TextureDescriptor {
    pub label: &'static str,
    pub size: Extent3d,
    pub mip_level_count: u32,
    pub sample_count: u32,
    pub format: TextureFormat,
    pub usage: TextureUsages,
}

/// A single-layer, single-sample texture that can be rendered to, bound and
/// copied into.
pub open spec fn spec_data_texture(
    label: &'static str,
    width: u32,
    height: u32,
    format: TextureFormat,
) -> TextureDescriptor {
    TextureDescriptor {
        label,
        size: Extent3d { width, height, depth_or_array_layers: 1 },
        mip_level_count: 1,
        sample_count: 1,
        format,
        usage: TextureUsages { render_attachment: true, texture_binding: true, copy_dst: true },
    }
}

fn data_texture(label: &'static str, width: u32, height: u32, format: TextureFormat) -> (d:
    TextureDescriptor)
    ensures
        d == spec_data_texture(label, width, height, format),
{
    TextureDescriptor {
        label,
        size: Extent3d { width, height, depth_or_array_layers: 1 },
        mip_level_count: 1,
        sample_count: 1,
        format,
        usage: TextureUsages { render_attachment: true, texture_binding: true, copy_dst: true },
    }
}

impl Texture {
    /// Whether this crate allocates the texture through the texture cache.
    pub open spec fn spec_is_cached(self) -> bool {
        match self {
            Texture::UnitDataA
            | Texture::UnitDataB
            | Texture::UnitAttackMapA
            | Texture::UnitAttackMapB
            | Texture::LargeUnitDataA
            | Texture::LargeUnitDataB
            | Texture::MinimapData
            | Texture::MinimapSmData
            | Texture::MinimapSm2Data
            | Texture::MinimapSm3Data
            | Texture::ParticlesDataA
            | Texture::ParticlesDataB => true,
            _ => false,
        }
    }

    /// The descriptor by which the texture cache knows a cached texture.
    pub open spec fn spec_descriptor(self) -> Option<TextureDescriptor> {
        match self {
            Texture::UnitDataA => Some(
                spec_data_texture("unit_data_a", 512, 512, TextureFormat::Rgba32Uint),
            ),
            Texture::UnitDataB => Some(
                spec_data_texture("unit_data_b", 512, 512, TextureFormat::Rgba32Uint),
            ),
            Texture::UnitAttackMapA => Some(
                spec_data_texture("unit_attack_map_a", 512, 512, TextureFormat::Rgba8Uint),
            ),
            Texture::UnitAttackMapB => Some(
                spec_data_texture("unit_attack_map_b", 512, 512, TextureFormat::Rgba8Uint),
            ),
            Texture::LargeUnitDataA => Some(
                spec_data_texture("large_unit_data_a", 67, 2, TextureFormat::Rgba32Uint),
            ),
            Texture::LargeUnitDataB => Some(
                spec_data_texture("large_unit_data_b", 67, 2, TextureFormat::Rgba32Uint),
            ),
            Texture::MinimapData => Some(
                spec_data_texture("minimap_data_texture", 128, 128, TextureFormat::Rgba8Uint),
            ),
            Texture::MinimapSmData => Some(
                spec_data_texture("minimap_sm_data_texture", 32, 32, TextureFormat::Rgba8Uint),
            ),
            Texture::MinimapSm2Data => Some(
                spec_data_texture("minimap_sm2_data_texture", 8, 8, TextureFormat::Rgba8Uint),
            ),
            Texture::MinimapSm3Data => Some(
                spec_data_texture("minimap_sm3_data_texture", 2, 2, TextureFormat::Rgba8Uint),
            ),
            Texture::ParticlesDataA => Some(
                spec_data_texture("particles_data_a", 256, 128, TextureFormat::Rgba32Float),
            ),
            Texture::ParticlesDataB => Some(
                spec_data_texture("particles_data_b", 256, 128, TextureFormat::Rgba32Float),
            ),
            _ => None,
        }
    }

    /// The format of the texture, where this crate knows it: that of its
    /// descriptor for a cached texture, that which the deferred renderer fixes
    /// for the textures of the view, whose colour buffers are high dynamic
    /// range. The format of a sprite sheet is that of its file.
    pub open spec fn spec_format(self) -> Option<TextureFormat> {
        match self {
            Texture::Deferred => Some(TextureFormat::DeferredPrepass),
            Texture::DeferredLightingPassId => Some(TextureFormat::DeferredLightingPassId),
            Texture::Depth => Some(TextureFormat::Core3dDepth),
            Texture::PostProcessSource | Texture::PostProcessDestination => Some(
                TextureFormat::Rgba16Float,
            ),
            Texture::SmallGoose | Texture::BigGoose => None,
            _ => Some(self.spec_descriptor().unwrap().format),
        }
    }

    /// The format of the texture, where this crate knows it.
    pub fn format(self) -> (format: Option<TextureFormat>)
        ensures
            format == self.spec_format(),
    {
        match self {
            Texture::Deferred => Some(TextureFormat::DeferredPrepass),
            Texture::DeferredLightingPassId => Some(TextureFormat::DeferredLightingPassId),
            Texture::Depth => Some(TextureFormat::Core3dDepth),
            Texture::PostProcessSource | Texture::PostProcessDestination => Some(
                TextureFormat::Rgba16Float,
            ),
            Texture::SmallGoose | Texture::BigGoose => None,
            _ => match self.descriptor() {
                Some(descriptor) => Some(descriptor.format),
                None => None,
            },
        }
    }

    /// Whether this crate allocates the texture through the texture cache.
    pub fn is_cached(self) -> (cached: bool)
        ensures
            cached == self.spec_is_cached(),
    {
        match self {
            Texture::UnitDataA
            | Texture::UnitDataB
            | Texture::UnitAttackMapA
            | Texture::UnitAttackMapB
            | Texture::LargeUnitDataA
            | Texture::LargeUnitDataB
            | Texture::MinimapData
            | Texture::MinimapSmData
            | Texture::MinimapSm2Data
            | Texture::MinimapSm3Data
            | Texture::ParticlesDataA
            | Texture::ParticlesDataB => true,
            _ => false,
        }
    }

    /// The descriptor to hand to the texture cache, for a cached texture; `None`
    /// for a texture that somebody else owns.
    pub fn descriptor(self) -> (d: Option<TextureDescriptor>)
        ensures
            d == self.spec_descriptor(),
            d.is_some() == self.spec_is_cached(),
    {
        let level0: u32 = UNITS_DATA_WIDTH / MINIMAP_SCALE;
        let level1: u32 = level0 / MINIMAP_SCALE;
        let level2: u32 = level1 / MINIMAP_SCALE;
        let level3: u32 = level2 / MINIMAP_SCALE;
        match self {
            Texture::UnitDataA => Some(
                data_texture("unit_data_a", UNITS_DATA_WIDTH, UNITS_DATA_HEIGHT, UNITS_DATA_FORMAT),
            ),
            Texture::UnitDataB => Some(
                data_texture("unit_data_b", UNITS_DATA_WIDTH, UNITS_DATA_HEIGHT, UNITS_DATA_FORMAT),
            ),
            Texture::UnitAttackMapA => Some(
                data_texture(
                    "unit_attack_map_a",
                    UNITS_DATA_WIDTH,
                    UNITS_DATA_HEIGHT,
                    UNITS_ATTACK_FORMAT,
                ),
            ),
            Texture::UnitAttackMapB => Some(
                data_texture(
                    "unit_attack_map_b",
                    UNITS_DATA_WIDTH,
                    UNITS_DATA_HEIGHT,
                    UNITS_ATTACK_FORMAT,
                ),
            ),
            Texture::LargeUnitDataA => Some(
                data_texture(
                    "large_unit_data_a",
                    LARGE_UNITS_TEXTURE_WIDTH,
                    LARGE_UNITS_TEXTURE_HEIGHT,
                    LARGE_UNITS_DATA_FORMAT,
                ),
            ),
            Texture::LargeUnitDataB => Some(
                data_texture(
                    "large_unit_data_b",
                    LARGE_UNITS_TEXTURE_WIDTH,
                    LARGE_UNITS_TEXTURE_HEIGHT,
                    LARGE_UNITS_DATA_FORMAT,
                ),
            ),
            Texture::MinimapData => Some(
                data_texture("minimap_data_texture", level0, level0, MINIMAP_DATA_FORMAT),
            ),
            Texture::MinimapSmData => Some(
                data_texture("minimap_sm_data_texture", level1, level1, MINIMAP_DATA_FORMAT),
            ),
            Texture::MinimapSm2Data => Some(
                data_texture("minimap_sm2_data_texture", level2, level2, MINIMAP_DATA_FORMAT),
            ),
            Texture::MinimapSm3Data => Some(
                data_texture("minimap_sm3_data_texture", level3, level3, MINIMAP_DATA_FORMAT),
            ),
            Texture::ParticlesDataA => Some(
                data_texture(
                    "particles_data_a",
                    PARTICLES_PASS_WIDTH,
                    PARTICLES_PASS_HEIGHT,
                    PARTICLES_DATA_FORMAT,
                ),
            ),
            Texture::ParticlesDataB => Some(
                data_texture(
                    "particles_data_b",
                    PARTICLES_PASS_WIDTH,
                    PARTICLES_PASS_HEIGHT,
                    PARTICLES_DATA_FORMAT,
                ),
            ),
            _ => None,
        }
    }
}

/// The texture cache hands out one allocation per key, so two cached textures
/// are the same allocation only if their labels agree. No two of them do.
pub proof fn lemma_cached_labels_distinct(a: Texture, b: Texture)
    requires
        a.spec_is_cached(),
        b.spec_is_cached(),
        a != b,
    ensures
        a.spec_descriptor().unwrap().label@ != b.spec_descriptor().unwrap().label@,
{
    reveal_strlit("unit_data_a");
    reveal_strlit("unit_data_b");
    reveal_strlit("unit_attack_map_a");
    reveal_strlit("unit_attack_map_b");
    reveal_strlit("large_unit_data_a");
    reveal_strlit("large_unit_data_b");
    reveal_strlit("minimap_data_texture");
    reveal_strlit("minimap_sm_data_texture");
    reveal_strlit("minimap_sm2_data_texture");
    reveal_strlit("minimap_sm3_data_texture");
    reveal_strlit("particles_data_a");
    reveal_strlit("particles_data_b");
    let la = a.spec_descriptor().unwrap().label@;
    let lb = b.spec_descriptor().unwrap().label@;
    if la.len() == lb.len() {
        if la.len() == 11 {
            assert(la[10] != lb[10]);
        } else if la.len() == 16 {
            assert(la[15] != lb[15]);
        } else if la.len() == 24 {
            assert(la[10] != lb[10]);
        } else {
            assert(la.len() == 17);
            assert(la[0] != lb[0] || la[16] != lb[16]);
        }
    }
}

/// Whether `texture` is among `acquired`, the textures that a frame has.
pub fn is_acquired(acquired: &Vec<Texture>, texture: Texture) -> (found: bool)
    ensures
        found == acquired@.contains(texture),
{
    let mut i: usize = 0;
    while i < acquired.len()
        invariant
            i <= acquired.len(),
            forall|j: int| 0 <= j < i ==> acquired[j] != texture,
        decreases acquired.len() - i,
    {
        if acquired[i] == texture {
            return true;
        }
        i = i + 1;
    }
    false
}

} // verus!
