use unit_sim::frame::{next_frame, prepare_frame, PipelineCache};
use unit_sim::minimap;
use unit_sim::particles;
use unit_sim::texture::{is_acquired, Texture, TextureFormat};
use unit_sim::units::{self, load_unit_texture, prepare_textures, UnitCommand};

const CACHED: [Texture; 12] = [
    Texture::UnitDataA,
    Texture::UnitDataB,
    Texture::UnitAttackMapA,
    Texture::UnitAttackMapB,
    Texture::LargeUnitDataA,
    Texture::LargeUnitDataB,
    Texture::MinimapData,
    Texture::MinimapSmData,
    Texture::MinimapSm2Data,
    Texture::MinimapSm3Data,
    Texture::ParticlesDataA,
    Texture::ParticlesDataB,
];

#[test]
fn unit_textures_swap_with_parity() {
    let even = prepare_textures(0);
    let odd = prepare_textures(1);
    assert_eq!(even.a, Texture::UnitDataA);
    assert_eq!(even.b, Texture::UnitDataB);
    assert_eq!(even.attack_a, Texture::UnitAttackMapA);
    assert_eq!(even.attack_b, Texture::UnitAttackMapB);
    assert_eq!(even.large_unit_a, Texture::LargeUnitDataA);
    assert_eq!(even.large_unit_b, Texture::LargeUnitDataB);
    assert_eq!(odd.a, Texture::UnitDataA);
    assert_eq!(odd.b, Texture::UnitDataB);
    assert_eq!(odd.attack_a, Texture::UnitAttackMapB);
    assert_eq!(odd.attack_b, Texture::UnitAttackMapA);
    assert_eq!(odd.large_unit_a, Texture::LargeUnitDataB);
    assert_eq!(odd.large_unit_b, Texture::LargeUnitDataA);
}

#[test]
fn parity_holds_over_many_frames() {
    let mut frame: u32 = u32::MAX - 40;
    for _ in 0..100 {
        let next = next_frame(frame);
        let now = prepare_textures(frame);
        let then = prepare_textures(next);
        // what the next frame reads is what this frame wrote
        assert_eq!(then.attack_b, now.attack_a);
        assert_eq!(then.large_unit_a, now.large_unit_b);
        assert_eq!(then.a, now.a);
        // what a pass reads is not what it writes
        assert_ne!(now.a, now.b);
        assert_ne!(now.attack_a, now.attack_b);
        assert_ne!(now.large_unit_a, now.large_unit_b);
        let p_now = particles::prepare_textures(frame);
        let p_then = particles::prepare_textures(next);
        assert_eq!(p_then.read, p_now.write);
        assert_ne!(p_now.read, p_now.write);
        frame = next;
    }
}

#[test]
fn frame_count_wraps() {
    assert_eq!(next_frame(0), 1);
    assert_eq!(next_frame(41), 42);
    assert_eq!(next_frame(u32::MAX), 0);
    // the wrap keeps the alternation
    assert_eq!(prepare_textures(u32::MAX), prepare_textures(1));
    assert_eq!(prepare_textures(next_frame(u32::MAX)), prepare_textures(0));
}

#[test]
fn particle_textures_swap_with_parity() {
    let even = particles::prepare_textures(10);
    assert_eq!(even.write, Texture::ParticlesDataA);
    assert_eq!(even.read, Texture::ParticlesDataB);
    let odd = particles::prepare_textures(11);
    assert_eq!(odd.write, Texture::ParticlesDataB);
    assert_eq!(odd.read, Texture::ParticlesDataA);
}

#[test]
fn minimap_textures_are_the_same_every_frame() {
    let textures = minimap::prepare_textures();
    assert_eq!(textures.minimap_tex, Texture::MinimapData);
    assert_eq!(textures.minimap_sm_tex, Texture::MinimapSmData);
    assert_eq!(textures.minimap_sm2_tex, Texture::MinimapSm2Data);
    assert_eq!(textures.minimap_sm3_tex, Texture::MinimapSm3Data);
}

#[test]
fn unit_data_descriptor() {
    let d = Texture::UnitDataA.descriptor().unwrap();
    assert_eq!(d.label, "unit_data_a");
    assert_eq!(d.size.width, 512);
    assert_eq!(d.size.height, 512);
    assert_eq!(d.size.depth_or_array_layers, 1);
    assert_eq!(d.mip_level_count, 1);
    assert_eq!(d.sample_count, 1);
    assert_eq!(d.format, TextureFormat::Rgba32Uint);
    assert!(d.usage.render_attachment && d.usage.texture_binding && d.usage.copy_dst);
    assert_eq!(Texture::UnitDataB.descriptor().unwrap().label, "unit_data_b");
}

#[test]
fn attack_map_descriptor() {
    let d = Texture::UnitAttackMapB.descriptor().unwrap();
    assert_eq!(d.label, "unit_attack_map_b");
    assert_eq!((d.size.width, d.size.height), (512, 512));
    assert_eq!(d.format, TextureFormat::Rgba8Uint);
    assert_eq!(Texture::UnitAttackMapA.descriptor().unwrap().label, "unit_attack_map_a");
}

#[test]
fn large_unit_descriptor() {
    let d = Texture::LargeUnitDataA.descriptor().unwrap();
    assert_eq!(d.label, "large_unit_data_a");
    assert_eq!((d.size.width, d.size.height), (67, 2));
    assert_eq!(d.format, TextureFormat::Rgba32Uint);
    assert_eq!(Texture::LargeUnitDataB.descriptor().unwrap().label, "large_unit_data_b");
}

#[test]
fn minimap_levels_shrink_by_four() {
    let sizes: Vec<(&str, u32, u32)> = [
        Texture::MinimapData,
        Texture::MinimapSmData,
        Texture::MinimapSm2Data,
        Texture::MinimapSm3Data,
    ]
    .iter()
    .map(|t| {
        let d = t.descriptor().unwrap();
        assert_eq!(d.format, TextureFormat::Rgba8Uint);
        (d.label, d.size.width, d.size.height)
    })
    .collect();
    assert_eq!(
        sizes,
        vec![
            ("minimap_data_texture", 128, 128),
            ("minimap_sm_data_texture", 32, 32),
            ("minimap_sm2_data_texture", 8, 8),
            ("minimap_sm3_data_texture", 2, 2),
        ]
    );
}

#[test]
fn particles_descriptor() {
    let d = Texture::ParticlesDataA.descriptor().unwrap();
    assert_eq!(d.label, "particles_data_a");
    assert_eq!((d.size.width, d.size.height), (256, 128));
    assert_eq!(d.format, TextureFormat::Rgba32Float);
    assert_eq!(Texture::ParticlesDataB.descriptor().unwrap().label, "particles_data_b");
}

#[test]
fn textures_of_the_view_have_no_descriptor() {
    for texture in [
        Texture::Deferred,
        Texture::DeferredLightingPassId,
        Texture::Depth,
        Texture::PostProcessSource,
        Texture::PostProcessDestination,
        Texture::SmallGoose,
        Texture::BigGoose,
    ] {
        assert!(!texture.is_cached());
        assert_eq!(texture.descriptor(), None);
    }
}

#[test]
fn cached_textures_have_distinct_labels() {
    for (i, a) in CACHED.iter().enumerate() {
        assert!(a.is_cached());
        for b in &CACHED[i + 1..] {
            assert_ne!(a.descriptor().unwrap().label, b.descriptor().unwrap().label);
        }
    }
}

const UNIT_TEXTURES: [Texture; 6] = [
    Texture::UnitDataA,
    Texture::UnitDataB,
    Texture::UnitAttackMapA,
    Texture::UnitAttackMapB,
    Texture::LargeUnitDataA,
    Texture::LargeUnitDataB,
];

#[test]
fn acquired_textures_are_found() {
    let acquired = vec![Texture::Depth, Texture::UnitDataB, Texture::Depth];
    assert!(is_acquired(&acquired, Texture::Depth));
    assert!(is_acquired(&acquired, Texture::UnitDataB));
    assert!(!is_acquired(&acquired, Texture::UnitDataA));
    assert!(!is_acquired(&Vec::new(), Texture::Depth));
}

#[test]
fn unit_textures_are_published_only_when_all_six_were_acquired() {
    for frame in [0u32, 1] {
        let names = prepare_textures(frame);
        assert_eq!(units::publish_textures(names, &UNIT_TEXTURES.to_vec()), Some(names));
        assert_eq!(units::publish_textures(names, &CACHED.to_vec()), Some(names));
        for missing in UNIT_TEXTURES {
            let acquired: Vec<Texture> =
                CACHED.iter().copied().filter(|t| *t != missing).collect();
            assert_eq!(units::publish_textures(names, &acquired), None, "{missing:?}");
        }
        assert_eq!(units::publish_textures(names, &Vec::new()), None);
    }
}

#[test]
fn minimap_textures_are_published_only_when_all_four_were_acquired() {
    let names = minimap::prepare_textures();
    assert_eq!(minimap::publish_textures(names, &CACHED.to_vec()), Some(names));
    for missing in [
        Texture::MinimapData,
        Texture::MinimapSmData,
        Texture::MinimapSm2Data,
        Texture::MinimapSm3Data,
    ] {
        let acquired: Vec<Texture> = CACHED.iter().copied().filter(|t| *t != missing).collect();
        assert_eq!(minimap::publish_textures(names, &acquired), None, "{missing:?}");
    }
}

#[test]
fn particle_textures_are_published_only_when_both_were_acquired() {
    let names = particles::prepare_textures(3);
    assert_eq!(particles::publish_textures(names, &CACHED.to_vec()), Some(names));
    assert_eq!(particles::publish_textures(names, &vec![Texture::ParticlesDataA]), None);
    assert_eq!(particles::publish_textures(names, &vec![Texture::ParticlesDataB]), None);
}

#[test]
fn sprites_are_published_once_both_are_loaded() {
    let sprites = load_unit_texture();
    let both = vec![Texture::BigGoose, Texture::SmallGoose];
    assert_eq!(units::publish_unit_texture(sprites, &both), Some(sprites));
    assert_eq!(units::publish_unit_texture(sprites, &vec![Texture::SmallGoose]), None);
    assert_eq!(units::publish_unit_texture(sprites, &vec![Texture::BigGoose]), None);
}

#[test]
fn a_frame_gets_only_what_was_acquired() {
    let mut acquired = CACHED.to_vec();
    acquired.extend([Texture::Deferred, Texture::SmallGoose, Texture::BigGoose]);
    let command = UnitCommand { command: 1, ..UnitCommand::default() };
    let context = prepare_frame(
        PipelineCache::new(),
        command,
        77,
        Some(prepare_textures(1)),
        Some(minimap::prepare_textures()),
        None,
        &acquired,
    );
    assert_eq!(context.unit_command, command);
    assert_eq!(context.delta_time, 77);
    assert_eq!(context.units_data_textures, Some(prepare_textures(1)));
    assert_eq!(context.minimap_textures, Some(minimap::prepare_textures()));
    assert_eq!(context.particles_data_textures, None);
    assert_eq!(context.unit_texture, Some(load_unit_texture()));
    assert!(context.deferred);
    assert!(!context.deferred_lighting_pass_id);

    // one unit texture short: no names for the units, the rest as before
    let short: Vec<Texture> =
        acquired.iter().copied().filter(|t| *t != Texture::UnitAttackMapB).collect();
    let context = prepare_frame(
        PipelineCache::new(),
        command,
        77,
        Some(prepare_textures(1)),
        Some(minimap::prepare_textures()),
        Some(particles::prepare_textures(1)),
        &short,
    );
    assert_eq!(context.units_data_textures, None);
    assert_eq!(context.minimap_textures, Some(minimap::prepare_textures()));
    assert_eq!(context.particles_data_textures, Some(particles::prepare_textures(1)));
}
