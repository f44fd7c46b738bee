use prism::pipeline::area_light_pass::AreaLightPass;
use prism::pipeline::bloom_pass::{compute_level_sizes, BloomPass};
use prism::pipeline::cloud_pass::{cloud_timing_slots, CloudPass};
use prism::pipeline::cull_pass::CullPass;
use prism::pipeline::dag_traverse_pass::DagTraversePass;
use prism::pipeline::forward_character::{flatten_vertices, ForwardCharacterPass};
use prism::pipeline::gpu::{
    groups_for, Attachment, Binding, Buffer, Command, Draw, Layout, Load, Pipeline, Resource,
    Sampler, TexView, TextureFormat,
};
use prism::pipeline::gtao_pass::GtaoPass;
use prism::pipeline::hw_raster_pass::{DispatchLists, HwRasterPass, VisibilityBuffer};
use prism::pipeline::hzb_pass::HzbPass;
use prism::pipeline::ibl_pass::{prefilter_command, EnvironmentKey, IblPass};
use prism::pipeline::layouts::{layout_entries, pipeline_layouts, target_of};
use prism::pipeline::motion_blur_pass::MotionBlurPass;
use prism::pipeline::noise_textures::{weather_texel_offset, wrap_cell, NoiseTextures};
use prism::pipeline::redwood_animation_pass::{
    AnimatedRedwood, AnimatedRedwoodLevelRange, AnimationInputs, RedwoodAnimationPass,
};
use prism::pipeline::shadow_pass::ShadowPass;
use prism::pipeline::sky_lut_pass::{AtmosphereKey, SkyLutPass};
use prism::pipeline::ssao_pass::SsaoPass;
use prism::pipeline::ssgi_pass::SsgiPass;
use prism::pipeline::ssr_pass::SsrPass;
use prism::pipeline::sun_shaft_pass::{sun_on_screen, SunShaftPass};
use prism::pipeline::sw_raster_pass::SwRasterPass;
use prism::pipeline::taa_pass::TaaPass;
use prism::pipeline::upload::words_at;
use prism::pipeline::volumetric_fog_pass::VolumetricFogPass;
use prism::dag_merge::merge_meshlet_dags;
use prism::meshlet::{MeshletBounds, MeshletDag, MeshletGroup};
use prism::scalar::{Mat4, Scalar, Vec4};
use prism::scene::bounds::Vec3;
use prism::scene::{AreaLight, CloudResolution, Vec2, Vertex, WindSettings};

fn s(value: f32) -> Scalar {
    Scalar::from_bits(value.to_bits())
}

fn v(x: f32, y: f32, z: f32) -> Vec3 {
    Vec3::new(s(x), s(y), s(z))
}

fn bytes_of(words: &[u32]) -> Vec<u8> {
    words.iter().flat_map(|w| w.to_ne_bytes()).collect()
}

fn dispatched(command: &Command) -> (Pipeline, u32, u32, u32) {
    match command {
        Command::Dispatch { pipeline, x, y, z, .. } => (*pipeline, *x, *y, *z),
        _ => panic!("a dispatch is expected"),
    }
}

fn bindings(command: &Command, group: usize) -> Vec<Binding> {
    match command {
        Command::Dispatch { groups, .. } => groups[group].bindings.clone(),
        Command::DispatchIndirect { groups, .. } => groups[group].bindings.clone(),
        Command::Render { groups, .. } => groups[group].bindings.clone(),
        _ => panic!("a command with resources is expected"),
    }
}

fn view_at(command: &Command, slot: usize) -> TexView {
    match bindings(command, 0)[slot].resource {
        Resource::View(view) => view,
        _ => panic!("a view is expected"),
    }
}

fn slice_at(command: &Command, slot: usize) -> (Buffer, u64, u64) {
    match bindings(command, 0)[slot].resource {
        Resource::Slice { buffer, offset, size } => (buffer, offset, size),
        _ => panic!("a slice is expected"),
    }
}

fn color(command: &Command) -> Attachment {
    match command {
        Command::Render { color: Some(a), .. } => *a,
        _ => panic!("a colour target is expected"),
    }
}

#[test]
fn groups_round_up() {
    assert_eq!(groups_for(0, 8), 0);
    assert_eq!(groups_for(1, 8), 1);
    assert_eq!(groups_for(8, 8), 1);
    assert_eq!(groups_for(9, 8), 2);
    assert_eq!(groups_for(u32::MAX, 1), u32::MAX);
    assert_eq!(groups_for(u32::MAX, 64), 67_108_864);
}

#[test]
fn uploads_hold_words_in_the_order_of_the_machine() {
    let upload = words_at(Buffer::GroupQueue, 12, &[0x0102_0304, 5]);
    assert_eq!(upload.offset, 12);
    assert_eq!(upload.bytes, bytes_of(&[0x0102_0304, 5]));
    let empty = words_at(Buffer::GroupQueue, 0, &[]);
    assert!(empty.bytes.is_empty());
}

#[test]
fn bloom_halves_five_levels_and_goes_back_up() {
    assert_eq!(
        compute_level_sizes(1920, 1080),
        vec![(960, 540), (480, 270), (240, 135), (120, 67), (60, 33)]
    );
    assert_eq!(compute_level_sizes(1, 0), vec![(1, 1); 5]);
    let bloom = BloomPass::new(1920, 1080);
    let commands = bloom.execute(TexView::SceneColor, TexView::SceneColor);
    assert_eq!(commands.len(), 10);
    assert_eq!(dispatched(&commands[0]), (Pipeline::BloomThreshold, 120, 68, 1));
    assert_eq!(dispatched(&commands[4]).0, Pipeline::BloomDownsample);
    assert_eq!(view_at(&commands[5], 1), TexView::BloomLevel(4));
    assert_eq!(view_at(&commands[8], 3), TexView::BloomAlt(0));
    assert_eq!(color(&commands[9]), Attachment { view: TexView::SceneColor, load: Load::Keep });
    assert_eq!(bloom.textures().len(), 10);
    let writes = bloom.uniform_writes(1920, 1080);
    assert_eq!(writes.len(), 9);
    assert_eq!((writes[0].full_width, writes[0].full_height), (1920, 1080));
}

#[test]
fn clouds_swap_their_history() {
    let mut clouds = CloudPass::new(1920, 1080);
    assert_eq!((clouds.quarter_w, clouds.quarter_h, clouds.resolution_divisor), (480, 270, 4));
    clouds.set_resolution(CloudResolution::Half);
    clouds.resize(1920, 1080);
    assert_eq!((clouds.quarter_w, clouds.quarter_h, clouds.resolution_divisor), (960, 540, 2));
    clouds.set_resolution(CloudResolution::Quarter);
    clouds.resize(1920, 1080);
    assert_eq!((clouds.quarter_w, clouds.quarter_h), (480, 270));
    let inputs = clouds.write_uniforms(s(2.0));
    assert!(inputs.first_frame);
    let mut record = |clouds: &mut CloudPass| {
        clouds.encode(
            TexView::SceneColor,
            TexView::VisibilityDepth,
            Mat4::identity(),
            TexView::SkyView,
            Sampler::SkyLut,
        )
    };
    let first = record(&mut clouds);
    let second = record(&mut clouds);
    assert_eq!(dispatched(&first[0]), (Pipeline::CloudMarch, 60, 34, 1));
    assert_eq!(view_at(&first[1], 3), view_at(&second[1], 2));
    assert_eq!(clouds.frame_index, 2);
    assert!(!clouds.write_uniforms(s(3.0)).first_frame);
    assert_eq!(CloudPass::timestamps(None), vec![None, None, None]);
}

#[test]
fn cloud_timing_needs_all_three_slots() {
    assert!(cloud_timing_slots(Some((0, 1)), Some((2, 3)), None).is_none());
    let slots = cloud_timing_slots(Some((0, 1)), Some((2, 3)), Some((4, 5)));
    assert_eq!(slots.map(|t| t.composite), Some((4, 5)));
}

#[test]
fn anti_aliasing_shows_what_it_wrote() {
    let mut taa = TaaPass::new(640, 480);
    assert_eq!(taa.jitter_index(), 1);
    assert!(taa.uniform_inputs().first_frame);
    let jitter = Vec2 { x: s(0.25), y: s(-0.25) };
    let first = taa.encode(TexView::VisibilityDepth, TexView::SceneColor, Mat4::identity(), jitter);
    assert_eq!(view_at(&first[1], 5), taa.output_view());
    let shown = taa.output_view();
    let second = taa.encode(TexView::VisibilityDepth, TexView::SceneColor, Mat4::identity(), jitter);
    assert_eq!(view_at(&second[1], 3), shown);
    assert_ne!(taa.output_view(), shown);
    assert_eq!(taa.jitter_index(), 3);
    assert!(!taa.uniform_inputs().first_frame);
    taa.resize(10, 10);
    assert_eq!(taa.jitter_index(), 1);
}

#[test]
fn jitter_repeats_after_sixteen_frames() {
    let mut taa = TaaPass::new(8, 8);
    let none = Vec2 { x: s(0.0), y: s(0.0) };
    for _ in 0..16 {
        taa.encode(TexView::VisibilityDepth, TexView::SceneColor, Mat4::identity(), none);
    }
    assert_eq!(taa.jitter_index(), 1);
}

#[test]
fn screen_effects_cover_the_screen() {
    let depth = TexView::VisibilityDepth;
    let normal = TexView::MaterialNormal;
    let ssao = SsaoPass::new(1921, 1080).execute(normal, depth);
    assert_eq!(dispatched(&ssao[0]), (Pipeline::SsaoSample, 241, 135, 1));
    assert_eq!(view_at(&ssao[1], 3), TexView::SsaoRaw);
    assert_eq!(SsaoPass::new(1, 1).ao_view(), TexView::SsaoBlurred);
    let ssgi = SsgiPass::new(64, 64).execute(normal, depth, TexView::SceneColor);
    assert_eq!(ssgi.len(), 3);
    assert_eq!(color(&ssgi[2]).load, Load::Keep);
    let gtao = GtaoPass::new(64, 64);
    assert_eq!(gtao.execute(normal, depth).len(), 2);
    assert_ne!(gtao.ao_view(), gtao.bent_normal_view());
    let ssr = SsrPass::new(64, 64).execute(normal, depth, TexView::SceneColor, TexView::HzbFull);
    assert_eq!(dispatched(&ssr[0]).0, Pipeline::SsrTrace);
    let mut blur = MotionBlurPass::new(1920, 1080);
    let commands = blur.encode(TexView::TaaMotion, TexView::SceneColor);
    assert_eq!(commands.len(), 2);
    assert_eq!(blur.output_view(), TexView::MotionBlurred);
    blur.resize(20, 20);
    assert_eq!(blur.textures().len(), 2);
}

#[test]
fn fog_alternates_its_volumes() {
    let mut fog = VolumetricFogPass::new();
    assert!(!fog.uniform_inputs().temporal);
    let first = fog.encode(TexView::VisibilityDepthFloat, TexView::SceneColor, Mat4::identity());
    assert_eq!(first.len(), 3);
    assert_eq!(dispatched(&first[0]).0, Pipeline::FogInject);
    assert!(fog.uniform_inputs().temporal);
    assert_eq!(fog.uniform_inputs().frame_index, 1);
    assert_eq!(VolumetricFogPass::textures().len(), 3);
    assert_eq!(VolumetricFogPass::textures()[0].layers, 128);
}

#[test]
fn shafts_are_drawn_at_half_size() {
    let mut shafts = SunShaftPass::new_for_size(1921, 0);
    assert_eq!((shafts.shaft_width, shafts.shaft_height), (960, 1));
    shafts.resize(800, 600);
    assert_eq!(shafts.texture().width, 400);
    let commands = shafts.encode(TexView::VisibilityDepth, TexView::SceneColor);
    assert_eq!(color(&commands[0]), Attachment { view: TexView::SunShaft, load: Load::Clear });
    assert_eq!(color(&commands[1]), Attachment { view: TexView::SceneColor, load: Load::Keep });
}

#[test]
fn the_sun_is_on_screen_a_little_past_its_edge() {
    assert!(sun_on_screen(s(1.0), s(1.3), s(-1.3)));
    assert!(!sun_on_screen(s(1.0), s(1.31), s(0.0)));
    assert!(!sun_on_screen(s(1.0), s(0.0), s(-1.31)));
    assert!(!sun_on_screen(s(0.0), s(0.0), s(0.0)));
    assert!(!sun_on_screen(s(-1.0), s(0.0), s(0.0)));
    assert!(!sun_on_screen(s(f32::NAN), s(0.0), s(0.0)));
}

fn sky(x: f32) -> AtmosphereKey {
    AtmosphereKey {
        sun_direction: v(x, 1.0, 0.0),
        rayleigh_strength: s(1.0),
        mie_strength: s(1.0),
        mie_anisotropy: s(0.8),
    }
}

#[test]
fn sky_tables_are_renewed_where_something_changes() {
    let mut pass = SkyLutPass::new();
    let commands = pass.generate_if_dirty();
    assert_eq!(commands.len(), 3);
    assert_eq!(dispatched(&commands[0]), (Pipeline::SkyTransmittance, 32, 8, 1));
    assert_eq!(dispatched(&commands[1]), (Pipeline::SkyMultiscatter, 4, 4, 1));
    assert_eq!(dispatched(&commands[2]), (Pipeline::SkyView, 24, 14, 1));
    assert_eq!(view_at(&commands[1], 1), TexView::SkyTransmittance);
    assert!(pass.generate_if_dirty().is_empty());
    pass.update(sky(0.0));
    assert_eq!(pass.generate_if_dirty().len(), 3);
    pass.update(sky(-0.0));
    assert!(pass.generate_if_dirty().is_empty());
    pass.update(sky(0.5));
    assert_eq!(pass.generate_if_dirty().len(), 3);
    pass.update(sky(f32::NAN));
    pass.generate_if_dirty();
    pass.update(sky(f32::NAN));
    assert_eq!(pass.generate_if_dirty().len(), 3);
    assert!(SkyLutPass::lut_sampler().repeat_u);
}

#[test]
fn sky_tables_are_made_once_for_many_changes() {
    let mut pass = SkyLutPass::new();
    // Changes before the first making, and changes that are taken back, are made up for at once.
    pass.update(sky(0.25));
    pass.update(sky(0.5));
    assert_eq!(pass.generate_if_dirty().len(), 3);
    pass.update(sky(0.25));
    pass.update(sky(0.5));
    pass.update(sky(0.5));
    assert_eq!(pass.generate_if_dirty().len(), 3);
    for _ in 0..3 {
        pass.update(sky(0.5));
        assert!(pass.generate_if_dirty().is_empty());
        assert!(pass.generate_if_dirty().is_empty());
    }
    assert_eq!(pass.cached, sky(0.5));
}

#[test]
fn environment_is_rendered_face_by_face() {
    let key = EnvironmentKey {
        sun_direction: v(0.0, 1.0, 0.0),
        sun_strength: s(1.0),
        rayleigh_strength: s(1.0),
        mie_strength: s(1.0),
        mie_anisotropy: s(0.8),
    };
    let mut ibl = IblPass::new();
    assert_eq!(ibl.ensure_brdf_lut().len(), 1);
    assert!(ibl.ensure_brdf_lut().is_empty());
    assert!(ibl.is_dirty(key));
    let faces = ibl.update_cubemap(key);
    assert_eq!(faces.len(), 42);
    assert_eq!((faces[0].face_size, faces[6].face_size, faces[41].face_size), (128, 64, 2));
    assert_eq!((faces[41].mip_level, faces[41].face, faces[41].max_mip), (6, 5, 6));
    let first = prefilter_command(faces[0], TexView::SkyView, Sampler::SkyLut);
    assert_eq!(dispatched(&first), (Pipeline::SkyToCubemap, 16, 16, 1));
    let later = prefilter_command(faces[7], TexView::SkyView, Sampler::SkyLut);
    assert_eq!(dispatched(&later), (Pipeline::PrefilterMip, 8, 8, 1));
    assert_eq!(view_at(&later, 5), TexView::EnvFace { mip: 1, face: 1 });
    assert_eq!(faces[7].uniform_offset(), 1792);
    assert_eq!(slice_at(&first, 0), (Buffer::PrefilterUniforms, 0, 112));
    assert_eq!(slice_at(&later, 0), (Buffer::PrefilterUniforms, 1792, 112));
    let last = prefilter_command(faces[41], TexView::SkyView, Sampler::SkyLut);
    assert_eq!(slice_at(&last, 0), (Buffer::PrefilterUniforms, 10496, 112));
    assert_eq!(IblPass::uniforms().size, 10752);
    assert!(!ibl.is_dirty(key));
    assert!(ibl.update_cubemap(key).is_empty());
    assert_eq!(IblPass::textures()[1].mip_levels, 7);
}

#[test]
fn noise_is_made_once() {
    let mut noise = NoiseTextures::new();
    let commands = noise.ensure_generated();
    assert_eq!(dispatched(&commands[0]), (Pipeline::NoiseShape, 32, 32, 32));
    assert_eq!(dispatched(&commands[1]), (Pipeline::NoiseDetail, 8, 8, 8));
    assert!(noise.ensure_generated().is_empty());
    assert_eq!(weather_texel_offset(3, 2), 4108);
    assert_eq!(weather_texel_offset(511, 511), 1_048_572);
    assert_eq!((wrap_cell(5, 4), wrap_cell(-1, 4), wrap_cell(-4, 4)), (1, 3, 0));
}

#[test]
fn pyramid_has_a_level_for_each_halving() {
    let mut hzb = HzbPass::new();
    assert!(hzb.encode(TexView::VisibilityDepth, 64, 64).is_empty());
    assert!(hzb.texture().is_none());
    for (w, h, levels) in [(1920, 1080, 10), (1, 1, 1), (0, 0, 1), (2, 1, 1), (1024, 3, 10)] {
        hzb.resize(w, h);
        assert_eq!(hzb.mip_count, levels);
        let float = ((w.max(h) as f32).log2().floor() as u32).max(1);
        assert_eq!(hzb.mip_count, float);
    }
    hzb.resize(1920, 1080);
    let commands = hzb.encode(TexView::VisibilityDepth, 1920, 1080);
    assert_eq!(commands.len(), 10);
    assert_eq!(dispatched(&commands[0]), (Pipeline::HzbDepthCopy, 240, 135, 1));
    assert_eq!(dispatched(&commands[1]), (Pipeline::HzbBuild, 120, 68, 1));
    assert_eq!(dispatched(&commands[9]), (Pipeline::HzbBuild, 1, 1, 1));
    assert_eq!(view_at(&commands[9], 0), TexView::Hzb(8));
    assert_eq!(hzb.texture().map(|t| t.mip_levels), Some(10));
}

fn leaf(error: f32) -> MeshletGroup {
    MeshletGroup {
        meshlet_start: 0,
        meshlet_count: 1,
        child_start: 0,
        child_count: 0,
        error: s(error),
        bounds: MeshletBounds {
            center: v(0.0, 0.0, 0.0),
            radius: s(1.0),
            cone_axis: v(0.0, 1.0, 0.0),
            cone_cutoff: s(1.0),
        },
        level: 0,
    }
}

fn flat_dag(groups: usize) -> MeshletDag {
    let mut dag = merge_meshlet_dags(&[]);
    dag.groups = (0..groups).map(|_| leaf(0.0)).collect();
    dag
}

#[test]
fn cut_is_queued_as_far_as_it_fits() {
    let cull = CullPass::new();
    let none = cull.cpu_dag_cut_adaptive(&flat_dag(0), &[], s(1.0));
    assert_eq!((none.count, none.uploads.len()), (0, 1));
    assert_eq!(none.uploads[0].bytes, bytes_of(&[0]));
    let two = cull.cpu_dag_cut_adaptive(&flat_dag(2), &[s(0.0), s(0.0)], s(1.0));
    assert_eq!(two.count, 2);
    assert_eq!(two.uploads[0].bytes, bytes_of(&[1, 0]));
    assert_eq!(two.uploads[1].bytes, bytes_of(&[2]));
    let errors = vec![s(0.0); 16390];
    let many = cull.cpu_dag_cut_adaptive(&flat_dag(16390), &errors, s(1.0));
    assert_eq!(many.count, 16384);
    assert_eq!(many.uploads[0].bytes.len(), 65536);
}

#[test]
fn culling_binds_nothing_for_reading_and_writing_at_once() {
    let cull = CullPass::new();
    let raster = HwRasterPass::new();
    let commands = cull.encode_phase2(
        raster.create_frame_bind_group(),
        cull.create_cull_bind_group(),
        cull.create_phase2_dispatch_bind_group(TexView::HzbFull),
        65,
    );
    assert_eq!(dispatched(&commands[0]), (Pipeline::MeshletCullPhase2, 2, 1, 1));
    let group = bindings(&commands[0], 2);
    assert_eq!(group[4].resource, Resource::Buffer(Buffer::Phase2Queue));
    assert_eq!(group[7].resource, Resource::Buffer(Buffer::Phase2ScratchList));
    for i in 0..group.len() {
        for k in 0..i {
            assert_ne!(group[i].resource, group[k].resource);
        }
    }
    let idle = cull.encode_phase2(
        raster.create_frame_bind_group(),
        cull.create_cull_bind_group(),
        cull.create_phase2_dispatch_bind_group(TexView::HzbFull),
        0,
    );
    assert!(idle.is_empty());
    let indirect = cull.encode_indirect(
        raster.create_frame_bind_group(),
        cull.create_cull_bind_group(),
        cull.create_dispatch_bind_group_gpu_driven(
            TexView::HzbFull,
            Buffer::DagOutputQueue,
            Buffer::DagOutputCount,
        ),
        Buffer::DagIndirectArgs,
    );
    assert_eq!(bindings(&indirect, 2)[5].resource, Resource::Buffer(Buffer::DagOutputCount));
}

#[test]
fn traversal_starts_from_the_roots() {
    let mut pass = DagTraversePass::new();
    assert!(pass.encode().is_empty());
    let idle = pass.seed_work_queue();
    assert_eq!(idle[1].buffer, Buffer::DagIndirectArgs);
    assert_eq!(idle[1].bytes, bytes_of(&[0, 1, 1]));
    pass.sync_roots(&flat_dag(130));
    assert_eq!(pass.traverse_workgroups, 3);
    let uploads = pass.seed_work_queue();
    assert_eq!(uploads[0].bytes.len(), 520);
    assert_eq!(uploads[1].bytes, bytes_of(&[0, 130, 0, 0]));
    assert_eq!(uploads[2].bytes, bytes_of(&[0]));
    let commands = pass.encode();
    assert_eq!(dispatched(&commands[0]), (Pipeline::DagTraverse, 3, 1, 1));
    assert_eq!(dispatched(&commands[1]), (Pipeline::DagPrepareIndirect, 1, 1, 1));
    pass.sync_roots(&flat_dag(20000));
    assert_eq!(pass.traverse_workgroups, 256);
    assert_eq!(pass.seed_work_queue()[1].bytes, bytes_of(&[0, 16384, 0, 0]));
}

#[test]
fn rasterizers_draw_what_is_listed() {
    let lists = DispatchLists::new(65536);
    assert_eq!(lists.buffers()[0].size, 262_144);
    assert_eq!(lists.initial_draw_args().bytes, bytes_of(&[372, 0, 0, 0]));
    let clear = lists.clear();
    assert_eq!(clear.len(), 3);
    assert!(matches!(clear[0], Command::Clear { buffer: Buffer::HwDispatchCount }));
    assert!(matches!(clear[1], Command::Clear { buffer: Buffer::SwDispatchCount }));
    assert!(matches!(
        clear[2],
        Command::Copy {
            from: Buffer::HwDispatchCount,
            from_offset: 0,
            to: Buffer::HwIndirectDraw,
            to_offset: 4,
            size: 4,
        }
    ));
    assert!(matches!(
        lists.prepare_indirect(),
        Command::Copy {
            from: Buffer::HwDispatchCount,
            from_offset: 0,
            to: Buffer::HwIndirectDraw,
            to_offset: 4,
            size: 4,
        }
    ));
    let vis = VisibilityBuffer::new(1920, 1080);
    assert_eq!(vis.storage_buffer().map(|b| b.size), Some(8_294_400));
    assert!(VisibilityBuffer::new(u32::MAX, u32::MAX).storage_buffer().is_none());
    assert_eq!(vis.textures()[1].format, TextureFormat::Depth32Float);
    let raster = HwRasterPass::new();
    let fill = raster.encode(
        raster.create_frame_bind_group(),
        raster.create_mesh_bind_group(),
        raster.create_dispatch_bind_group(),
    );
    assert_eq!(color(&fill), Attachment { view: TexView::VisibilityId, load: Load::Clear });
    let again = raster.encode_phase2(
        raster.create_frame_bind_group(),
        raster.create_mesh_bind_group(),
        raster.create_dispatch_bind_group(),
    );
    assert_eq!(color(&again).load, Load::Keep);
    let sw = SwRasterPass::new();
    let none = sw.encode(
        raster.create_frame_bind_group(),
        raster.create_mesh_bind_group(),
        sw.create_dispatch_bind_group(),
        0,
    );
    assert_eq!(dispatched(&none), (Pipeline::SwRaster, 1, 1, 1));
}

#[test]
fn cascades_are_drawn_one_after_the_other() {
    assert_eq!(ShadowPass::new(256).dyn_alignment, 256);
    assert_eq!(ShadowPass::new(64).dyn_alignment, 64);
    assert_eq!(ShadowPass::new(48).dyn_alignment, 96);
    assert_eq!(ShadowPass::new(1).dyn_alignment, 64);
    let pass = ShadowPass::new(256);
    assert_eq!(pass.uniform_desc().size, 1024);
    let uploads = pass.write_uniforms(&[Mat4::identity(); 4]);
    assert_eq!(uploads[3].offset, 768);
    assert_eq!(uploads[3].bytes.len(), 64);
    let commands = pass.encode(5, &[4, 0]);
    assert_eq!(commands.len(), 4);
    match &commands[2] {
        Command::Render { offset, depth, draws, color: None, .. } => {
            assert_eq!(*offset, 512);
            assert_eq!(
                *depth,
                Some(Attachment { view: TexView::ShadowCascade(2), load: Load::Clear })
            );
            assert_eq!(*draws, vec![Draw::ShadowMesh(4), Draw::ShadowMesh(0)]);
        }
        _ => panic!("a cascade has depth alone"),
    }
}

#[test]
fn character_is_drawn_over_the_scene() {
    let pass = ForwardCharacterPass::new();
    let scene = pass.create_scene_bind_group(Buffer::LightingUniforms);
    let command = pass.encode(scene, TexView::SceneColor, TexView::VisibilityDepth);
    assert_eq!(color(&command).load, Load::Keep);
    assert_eq!(pass.write_model(Mat4::identity()).bytes.len(), 64);
    let vertex = Vertex {
        position: v(1.0, 2.0, 3.0),
        normal: v(4.0, 5.0, 6.0),
        material: 0,
        feature_id: 0,
        uv: Vec2 { x: s(0.0), y: s(0.0) },
        ao: s(1.0),
        semantic_channels: 0,
    };
    let words: Vec<f32> =
        flatten_vertices(&[vertex, vertex]).iter().map(|w| f32::from_bits(*w)).collect();
    assert_eq!(words, vec![1.0, 2.0, 3.0, 4.0, 5.0, 6.0, 1.0, 2.0, 3.0, 4.0, 5.0, 6.0]);
}

#[test]
fn trees_bend_level_by_level() {
    let pass = RedwoodAnimationPass::new();
    let tree = AnimatedRedwood {
        level_ranges: vec![
            AnimatedRedwoodLevelRange { start: 0, count: 1 },
            AnimatedRedwoodLevelRange { start: 1, count: 100 },
        ],
        rest_vertex_count: 1000,
        shadow_vertex_count: 0,
    };
    let inputs = |dt: f32| AnimationInputs {
        time: s(5.0),
        dt: s(dt),
        wind_direction: Vec2 { x: s(1.0), y: s(0.0) },
        wind: WindSettings::default(),
        style: Vec4::new(s(1.0), s(2.0), s(3.0), s(4.0)),
    };
    assert!(pass.encode(&tree, &inputs(0.0)).is_none());
    assert!(pass.encode(&tree, &inputs(-1.0)).is_none());
    let frame = pass.encode(&tree, &inputs(0.5)).expect("time advances");
    assert_eq!(frame.len(), 4);
    assert_eq!(dispatched(&frame[0].command), (Pipeline::RedwoodSimulate, 1, 1, 1));
    assert_eq!(dispatched(&frame[1].command), (Pipeline::RedwoodSimulate, 2, 1, 1));
    assert_eq!(dispatched(&frame[2].command), (Pipeline::RedwoodDeform, 16, 1, 1));
    assert_eq!(dispatched(&frame[3].command), (Pipeline::RedwoodDeform, 1, 1, 1));
    assert_eq!(frame[0].upload.bytes[0..16], bytes_of(&[0, 1, 101, 1000]));
    assert_eq!(frame[1].upload.bytes[0..16], bytes_of(&[1, 100, 101, 1000]));
    assert_eq!(frame[2].upload.bytes[0..16], bytes_of(&[0, 101, 101, 1000]));
    assert_eq!(frame[3].upload.bytes[0..16], bytes_of(&[0, 101, 101, 0]));
    for step in &frame {
        assert_eq!((step.upload.buffer, step.upload.offset), (Buffer::RedwoodUniforms, 0));
        assert_eq!(step.upload.bytes.len(), 80);
    }
    let bare = AnimatedRedwood {
        level_ranges: vec![],
        rest_vertex_count: 1,
        shadow_vertex_count: 1,
    };
    assert!(pass.encode(&bare, &inputs(0.5)).is_none());
}

#[test]
fn area_lights_are_listed_up_to_sixteen() {
    let mut pass = AreaLightPass::new();
    let ball = AreaLight::Sphere {
        position: v(1.0, 2.0, 3.0),
        radius: s(0.5),
        color: v(1.0, 1.0, 1.0),
        intensity: s(2.0),
    };
    let tube = AreaLight::Tube {
        start: v(4.0, 5.0, 6.0),
        end: v(7.0, 8.0, 9.0),
        radius: s(0.25),
        color: v(1.0, 1.0, 1.0),
        intensity: s(2.0),
    };
    let upload = pass.update_lights(&[ball, tube], &[v(2.0, 2.0, 2.0), v(3.0, 3.0, 3.0)]);
    assert_eq!(pass.light_count, 2);
    assert_eq!(upload.bytes.len(), 1040);
    let words: Vec<f32> = upload
        .bytes
        .chunks_exact(4)
        .map(|b| f32::from_ne_bytes([b[0], b[1], b[2], b[3]]))
        .collect();
    assert_eq!(words[0..4], [2.0, 0.0, 0.0, 0.0]);
    assert_eq!(words[4..12], [1.0, 2.0, 3.0, 0.5, 2.0, 2.0, 2.0, 0.0]);
    assert_eq!(words[20..32], [4.0, 5.0, 6.0, 0.25, 3.0, 3.0, 3.0, 1.0, 7.0, 8.0, 9.0, 0.0]);
    assert!(words[36..].iter().all(|w| *w == 0.0));
    let many = vec![ball; 20];
    pass.update_lights(&many, &vec![v(0.0, 0.0, 0.0); 20]);
    assert_eq!(pass.light_count, 16);
}

#[test]
fn layouts_match_their_pipelines() {
    assert_eq!(
        pipeline_layouts(Pipeline::MeshletCull),
        vec![Layout::Frame, Layout::CullData, Layout::CullDispatch]
    );
    assert_eq!(layout_entries(Layout::CullDispatch).len(), 9);
    assert_eq!(layout_entries(Layout::ArtDirection).len(), 2);
    assert_eq!(target_of(Pipeline::HwVisibility), Some(TextureFormat::R32Uint));
    assert_eq!(target_of(Pipeline::Shadow), None);
}
