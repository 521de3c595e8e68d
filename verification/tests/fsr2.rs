use fsr2::{
    camera_jitter_offset, jitter_phase_count, translate_texture, Barriers, Coords2, Fsr2Context,
    Fsr2Error, Fsr2Exposure, Fsr2InitializationFlags, Fsr2QualityMode, Fsr2ReactiveMask,
    Fsr2RenderParameters, Fsr2Texture, Mat4, Rat, Resolution, ResourceState, FORMAT_UNDEFINED,
};

fn context_4k() -> Fsr2Context {
    Fsr2Context::new(
        Resolution::new(1920, 1080),
        Resolution::new(3840, 2160),
        Fsr2InitializationFlags { bits: 0 },
    )
}

fn texture(image: u64) -> Fsr2Texture {
    Fsr2Texture { image, view: image + 1000, width: 1920, height: 1080, format: 37 }
}

fn basic_parameters() -> Fsr2RenderParameters {
    Fsr2RenderParameters {
        color: texture(1),
        depth: texture(2),
        motion_vectors: texture(3),
        motion_vector_scale: None,
        exposure: Fsr2Exposure::AutoExposure,
        reactive_mask: Fsr2ReactiveMask::NoMask,
        transparency_and_composition_mask: None,
        output: texture(4),
        input_resolution: Resolution::new(1920, 1080),
        sharpness: Rat::new(1, 2),
        frame_delta_time_ms: 16,
        reset: false,
        camera_near: Rat::new(1, 10),
        camera_far: None,
        camera_fov_angle_vertical: Rat::new(1, 1),
        jitter_offset: Coords2::new(Rat::new(0, 1), Rat::new(0, 1)),
    }
}

#[test]
fn suggested_resolution_quality_scenario() {
    let ctx = context_4k();
    let r = ctx.get_suggested_input_resolution(Fsr2QualityMode::Quality);
    assert_eq!(r, Resolution::new(2560, 1440));
}

#[test]
fn suggested_resolution_all_tiers() {
    let ctx = context_4k();
    let q = ctx.get_suggested_input_resolution(Fsr2QualityMode::Quality);
    let b = ctx.get_suggested_input_resolution(Fsr2QualityMode::Balanced);
    let p = ctx.get_suggested_input_resolution(Fsr2QualityMode::Performance);
    let u = ctx.get_suggested_input_resolution(Fsr2QualityMode::UltraPerformance);
    assert_eq!(b, Resolution::new(2258, 1270));
    assert_eq!(p, Resolution::new(1920, 1080));
    assert_eq!(u, Resolution::new(1280, 720));
    for r in [q, b, p, u] {
        assert!(r.width <= 3840 && r.height <= 2160);
    }
    assert!(q.width > b.width && b.width > p.width && p.width > u.width);
    assert!(q.height > b.height && b.height > p.height && p.height > u.height);
}

#[test]
fn suggested_resolution_small_target_ties() {
    // Below the strict-monotonicity floor, truncation can tie two tiers.
    let ctx = Fsr2Context::new(
        Resolution::new(10, 10),
        Resolution::new(10, 10),
        Fsr2InitializationFlags { bits: 0 },
    );
    let b = ctx.get_suggested_input_resolution(Fsr2QualityMode::Balanced);
    let p = ctx.get_suggested_input_resolution(Fsr2QualityMode::Performance);
    assert_eq!(b, Resolution::new(5, 5));
    assert_eq!(p, Resolution::new(5, 5));
}

#[test]
fn suggested_resolution_small_strict_components() {
    // 9 and 11 are the two small component values where no tiers tie.
    let ctx = Fsr2Context::new(
        Resolution::new(11, 9),
        Resolution::new(11, 9),
        Fsr2InitializationFlags { bits: 0 },
    );
    let q = ctx.get_suggested_input_resolution(Fsr2QualityMode::Quality);
    let b = ctx.get_suggested_input_resolution(Fsr2QualityMode::Balanced);
    let p = ctx.get_suggested_input_resolution(Fsr2QualityMode::Performance);
    let u = ctx.get_suggested_input_resolution(Fsr2QualityMode::UltraPerformance);
    assert_eq!(q, Resolution::new(7, 6));
    assert_eq!(b, Resolution::new(6, 5));
    assert_eq!(p, Resolution::new(5, 4));
    assert_eq!(u, Resolution::new(3, 3));
}

#[test]
fn phase_count_half_input() {
    assert_eq!(jitter_phase_count(1920, 3840), 32);
    assert_eq!(jitter_phase_count(3840, 3840), 8);
    assert_eq!(jitter_phase_count(1280, 3840), 72);
}

#[test]
fn jitter_offset_first_frame() {
    let ctx = context_4k();
    let off = ctx.get_camera_jitter_offset(Resolution::new(1920, 1080), 0);
    // Frame 0 maps to sequence index 1: x = 1/2 - 1/2 = 0, y = 1/3 - 1/2 = -1/6.
    assert_eq!(off.x.num, 0);
    assert!(off.y.eq_value(&Rat::new(-1, 6)));
}

#[test]
fn jitter_offset_second_frame() {
    let ctx = context_4k();
    let off = ctx.get_camera_jitter_offset(Resolution::new(1920, 1080), 1);
    // Sequence index 2: x = 1/4 - 1/2 = -1/4, y = 2/3 - 1/2 = 1/6.
    assert!(off.x.eq_value(&Rat::new(-1, 4)));
    assert!(off.y.eq_value(&Rat::new(1, 6)));
}

#[test]
fn jitter_offset_periodic() {
    let ctx = context_4k();
    let res = Resolution::new(1920, 1080);
    // The phase count for 1920 -> 3840 is 32.
    for frame in [0, 5, 17] {
        let a = ctx.get_camera_jitter_offset(res, frame);
        let b = ctx.get_camera_jitter_offset(res, frame + 32);
        assert_eq!(a, b);
    }
}

#[test]
fn jitter_offset_negative_frame() {
    let ctx = context_4k();
    let res = Resolution::new(1920, 1080);
    let a = ctx.get_camera_jitter_offset(res, -1);
    let b = ctx.get_camera_jitter_offset(res, 31);
    assert_eq!(a, b);
    let c = ctx.get_camera_jitter_offset(res, -32);
    let d = ctx.get_camera_jitter_offset(res, 0);
    assert_eq!(c, d);
}

#[test]
fn jitter_offset_free_function_matches_method() {
    let ctx = context_4k();
    let a = ctx.get_camera_jitter_offset(Resolution::new(1920, 1080), 7);
    let b = camera_jitter_offset(1920, 3840, 7);
    assert_eq!(a, b);
}

#[test]
fn jitter_projection_identity_is_pure_translation() {
    let ctx = context_4k();
    let mut m = Mat4::identity();
    let off = ctx.jitter_camera_projection_matrix(&mut m, Resolution::new(1920, 1080), 0);
    // The returned offset is the raw pixel-space jitter.
    assert_eq!(off.x.num, 0);
    assert!(off.y.eq_value(&Rat::new(-1, 6)));
    // Last column: x = 2*0/1920 = 0, y = -2*(-1/6)/1080 = 1/3240, z and w untouched.
    assert!(m.w_axis.x.eq_value(&Rat::new(0, 1)));
    assert!(m.w_axis.y.eq_value(&Rat::new(1, 3240)));
    assert!(m.w_axis.z.eq_value(&Rat::new(0, 1)));
    assert!(m.w_axis.w.eq_value(&Rat::new(1, 1)));
    // The other columns still hold the identity's values.
    assert!(m.x_axis.x.eq_value(&Rat::new(1, 1)));
    assert!(m.x_axis.y.eq_value(&Rat::new(0, 1)));
    assert!(m.y_axis.y.eq_value(&Rat::new(1, 1)));
    assert!(m.y_axis.x.eq_value(&Rat::new(0, 1)));
    assert!(m.z_axis.z.eq_value(&Rat::new(1, 1)));
    assert!(m.z_axis.x.eq_value(&Rat::new(0, 1)));
    assert!(m.z_axis.y.eq_value(&Rat::new(0, 1)));
}

#[test]
fn barriers_deduplicate_same_handle() {
    let mut barriers = Barriers::new();
    barriers.add(7);
    barriers.add(7);
    let pre = barriers.cmd_start();
    assert_eq!(pre, vec![7]);
    let post = barriers.cmd_end();
    assert_eq!(post, vec![7]);
}

#[test]
fn barriers_keep_registration_order() {
    let mut barriers = Barriers::new();
    barriers.add(1);
    barriers.add(2);
    barriers.add(1);
    barriers.add(3);
    let pre = barriers.cmd_start();
    assert_eq!(pre, vec![1, 2, 3]);
}

#[test]
fn translate_absent_yields_null_sentinel() {
    let mut barriers = Barriers::new();
    let r = translate_texture(None, &mut barriers);
    assert_eq!(r.image, 0);
    assert_eq!(r.view, 0);
    assert_eq!(r.width, 1);
    assert_eq!(r.height, 1);
    assert_eq!(r.format, FORMAT_UNDEFINED);
    assert_eq!(r.state, ResourceState::ComputeRead);
    // Nothing was registered with the tracker.
    let pre = barriers.cmd_start();
    assert!(pre.is_empty());
}

#[test]
fn translate_present_copies_fields_and_registers() {
    let mut barriers = Barriers::new();
    let t = Fsr2Texture { image: 11, view: 12, width: 640, height: 480, format: 44 };
    let r = translate_texture(Some(t), &mut barriers);
    assert_eq!(r.image, 11);
    assert_eq!(r.view, 12);
    assert_eq!(r.width, 640);
    assert_eq!(r.height, 480);
    assert_eq!(r.format, 44);
    assert_eq!(r.state, ResourceState::ComputeRead);
    let pre = barriers.cmd_start();
    assert_eq!(pre, vec![11]);
}

#[test]
fn render_auto_mask_is_unsupported() {
    let mut ctx = context_4k();
    let mut parameters = basic_parameters();
    parameters.reactive_mask = Fsr2ReactiveMask::AutoMask {
        color_opaque_only: texture(8),
        color_opaque_and_transparent: texture(9),
        scale: Rat::new(1, 1),
        threshold: Rat::new(1, 2),
        binary_value: Rat::new(1, 1),
        flags: 0,
    };
    let res = ctx.render(parameters);
    assert_eq!(res.unwrap_err(), Fsr2Error::UnimplementedFeature);
}

#[test]
fn render_basic_plan() {
    let mut ctx = context_4k();
    let plan = ctx.render(basic_parameters()).unwrap();
    let d = plan.dispatch;
    assert_eq!(d.color.image, 1);
    assert_eq!(d.depth.image, 2);
    assert_eq!(d.motion_vectors.image, 3);
    assert_eq!(d.output.image, 4);
    // Absent optional inputs become the null sentinel.
    for null in [d.exposure, d.reactive, d.transparency_and_composition] {
        assert_eq!(null.image, 0);
        assert_eq!((null.width, null.height), (1, 1));
        assert_eq!(null.format, FORMAT_UNDEFINED);
    }
    // Defaults and scalars.
    assert_eq!(d.motion_vector_scale, Coords2::new(Rat::new(1, 1), Rat::new(1, 1)));
    assert_eq!(d.render_size, Resolution::new(1920, 1080));
    assert!(d.enable_sharpening);
    assert_eq!(d.sharpness, Rat::new(1, 2));
    assert_eq!(d.frame_time_delta_ms, 16);
    assert_eq!(d.pre_exposure, Rat::new(0, 1));
    assert!(!d.reset);
    assert_eq!(d.camera_near, Rat::new(1, 10));
    assert_eq!(d.camera_far, Rat::new(0, 1));
    assert_eq!(d.camera_fov_angle_vertical, Rat::new(1, 1));
    // One barrier per touched image, in translation order, both sides.
    assert_eq!(plan.pre_dispatch_images, vec![1, 2, 3, 4]);
    assert_eq!(plan.post_dispatch_images, vec![1, 2, 3, 4]);
}

#[test]
fn render_shared_image_emits_one_barrier() {
    let mut ctx = context_4k();
    let mut parameters = basic_parameters();
    let shared = Fsr2Texture { image: 42, view: 43, width: 1920, height: 1080, format: 37 };
    parameters.color = shared;
    parameters.depth = shared;
    parameters.motion_vectors = shared;
    parameters.output = shared;
    let plan = ctx.render(parameters).unwrap();
    assert_eq!(plan.pre_dispatch_images, vec![42]);
    assert_eq!(plan.post_dispatch_images, vec![42]);
}

#[test]
fn render_sharpness_clamped_and_disabled() {
    let mut ctx = context_4k();

    let mut over = basic_parameters();
    over.sharpness = Rat::new(3, 2);
    let plan = ctx.render(over).unwrap();
    assert!(plan.dispatch.enable_sharpening);
    assert_eq!(plan.dispatch.sharpness, Rat::new(1, 1));

    let mut under = basic_parameters();
    under.sharpness = Rat::new(-1, 2);
    let plan = ctx.render(under).unwrap();
    assert!(!plan.dispatch.enable_sharpening);
    assert_eq!(plan.dispatch.sharpness, Rat::new(0, 1));

    let mut zero = basic_parameters();
    zero.sharpness = Rat::new(0, 1);
    let plan = ctx.render(zero).unwrap();
    assert!(!plan.dispatch.enable_sharpening);
}

#[test]
fn render_manual_exposure_and_masks() {
    let mut ctx = context_4k();
    let mut parameters = basic_parameters();
    let exposure = texture(20);
    let mask = texture(21);
    let transparency = texture(22);
    parameters.exposure =
        Fsr2Exposure::ManualExposure { pre_exposure: Rat::new(1, 4), exposure };
    parameters.reactive_mask = Fsr2ReactiveMask::ManualMask(mask);
    parameters.transparency_and_composition_mask = Some(transparency);
    let plan = ctx.render(parameters).unwrap();
    let d = plan.dispatch;
    assert_eq!(d.exposure.image, 20);
    assert_eq!(d.reactive.image, 21);
    assert_eq!(d.transparency_and_composition.image, 22);
    assert_eq!(d.pre_exposure, Rat::new(1, 4));
    // The reactive mask is resolved first, then the fixed translation order.
    assert_eq!(plan.pre_dispatch_images, vec![21, 1, 2, 3, 20, 22, 4]);
}

#[test]
fn resolution_change_without_recreation_is_a_no_op() {
    let mut ctx = context_4k();
    ctx.set_new_upscale_resolution_if_changed(Resolution::new(3840, 2160));
    assert_eq!(ctx.upscaled_resolution(), Resolution::new(3840, 2160));
    assert_eq!(ctx.max_input_resolution(), Resolution::new(1920, 1080));
    assert_eq!(ctx.initialization_flags().bits, 0);
}

#[test]
fn rational_value_equality_and_clamp() {
    assert!(Rat::new(1, 2).eq_value(&Rat::new(2, 4)));
    assert!(!Rat::new(1, 2).eq_value(&Rat::new(1, 3)));
    assert!(Rat::new(-3, 6).eq_value(&Rat::new(-1, 2)));
    assert_eq!(Rat::new(3, 2).clamp01(), Rat::new(1, 1));
    assert_eq!(Rat::new(-1, 5).clamp01(), Rat::new(0, 1));
    assert_eq!(Rat::new(2, 5).clamp01(), Rat::new(2, 5));
    assert!(Rat::new(1, 8).is_positive());
    assert!(!Rat::new(0, 1).is_positive());
    assert!(!Rat::new(-1, 8).is_positive());
}

#[test]
fn error_variants_are_distinct() {
    assert_ne!(Fsr2Error::UnsupportedFormat, Fsr2Error::UnimplementedFeature);
    assert_ne!(Fsr2Error::Initialization(1), Fsr2Error::Initialization(2));
    assert_ne!(Fsr2Error::Dispatch(3), Fsr2Error::Initialization(3));
    assert!(matches!(Fsr2Error::Dispatch(-5), Fsr2Error::Dispatch(-5)));
}
