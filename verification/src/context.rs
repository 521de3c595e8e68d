use vstd::prelude::*;
use vstd::arithmetic::div_mod::{
    lemma_fundamental_div_mod, lemma_mod_bound, lemma_mod_pos_bound,
};
use crate::barrier::{spec_nodup, spec_register, Barriers};
use crate::dims::{Coords2, Resolution};
use crate::error::Fsr2Error;
use crate::jitter::{
    camera_jitter_offset, lemma_halton_bounds, spec_halton, spec_jitter_coord, spec_ndc_offset_x,
    spec_ndc_offset_y, spec_phase_count, JITTER_PHASE_LIMIT,
};
use crate::matrix::{
    left_mul_translation_xy, spec_identity, spec_rat_one, spec_rat_zero, spec_translate_applied,
    Mat4, MAT_ENTRY_BOUND,
};
use crate::rational::{frac_eq, lemma_mul_bounds, spec_clamp01, Rat};
use crate::resource::{
    spec_descriptor_of, spec_null_descriptor, translate_texture, Fsr2Texture, ResourceDescriptor,
};

verus! {

/// The quality tiers the upscaler offers, each standing for a fixed
/// upscaling ratio between input and target resolution.
#[derive(Clone, Copy, Debug, PartialEq, Eq, Structural)]
pub enum Fsr2QualityMode {
    Quality,
    Balanced,
    Performance,
    UltraPerformance,
}

/// Ten times the upscaling ratio of a quality tier: 1.5, 1.7, 2.0 and
/// 3.0, kept exact as integers.
pub open spec fn spec_scale_factor_x10(mode: Fsr2QualityMode) -> int {
    match mode {
        Fsr2QualityMode::Quality => 15,
        Fsr2QualityMode::Balanced => 17,
        Fsr2QualityMode::Performance => 20,
        Fsr2QualityMode::UltraPerformance => 30,
    }
}

/// One component of the suggested input resolution: the target component
/// divided by the tier's scale factor, truncated to a whole pixel count.
pub open spec fn spec_suggested_extent(target: int, scale_x10: int) -> int {
    (target * 10) / scale_x10
}

/// Context-creation flags. Their individual meanings are defined by the
/// backend SDK; this layer carries them opaquely.
#[derive(Clone, Copy, Debug, PartialEq, Eq, Structural)]
pub struct Fsr2InitializationFlags {
    pub bits: u32,
}

/// How the upscaler obtains exposure for the frame: either it derives
/// exposure itself, or the caller supplies an exposure texture together
/// with a pre-exposure scalar.
#[derive(Clone, Copy, Debug, PartialEq, Eq, Structural)]
pub enum Fsr2Exposure {
    AutoExposure,
    ManualExposure { pre_exposure: Rat, exposure: Fsr2Texture },
}

/// The reactive-mask input for the frame: none, a caller-supplied mask
/// texture, or a request to auto-generate one from the opaque-only and
/// opaque-plus-transparent color buffers.
#[derive(Clone, Copy, Debug, PartialEq, Eq, Structural)]
pub enum Fsr2ReactiveMask {
    NoMask,
    ManualMask(Fsr2Texture),
    AutoMask {
        color_opaque_only: Fsr2Texture,
        color_opaque_and_transparent: Fsr2Texture,
        scale: Rat,
        threshold: Rat,
        binary_value: Rat,
        flags: u32,
    },
}

/// Everything the caller supplies for one frame's dispatch. Nothing here
/// is stored beyond the call that consumes it.
#[derive(Clone, Copy, Debug, PartialEq, Eq, Structural)]
pub struct Fsr2RenderParameters {
    pub color: Fsr2Texture,
    pub depth: Fsr2Texture,
    pub motion_vectors: Fsr2Texture,
    pub motion_vector_scale: Option<Coords2>,
    pub exposure: Fsr2Exposure,
    pub reactive_mask: Fsr2ReactiveMask,
    pub transparency_and_composition_mask: Option<Fsr2Texture>,
    pub output: Fsr2Texture,
    pub input_resolution: Resolution,
    pub sharpness: Rat,
    pub frame_delta_time_ms: u64,
    pub reset: bool,
    pub camera_near: Rat,
    pub camera_far: Option<Rat>,
    pub camera_fov_angle_vertical: Rat,
    pub jitter_offset: Coords2,
}

impl Fsr2RenderParameters {
    /// Validity of the frame parameters: every rational has a positive
    /// denominator.
    pub open spec fn wf(self) -> bool {
        &&& self.sharpness.wf()
        &&& self.camera_near.wf()
        &&& self.camera_fov_angle_vertical.wf()
        &&& self.jitter_offset.wf()
        &&& match self.motion_vector_scale {
            Some(s) => s.wf(),
            None => true,
        }
        &&& match self.camera_far {
            Some(f) => f.wf(),
            None => true,
        }
        &&& match self.exposure {
            Fsr2Exposure::AutoExposure => true,
            Fsr2Exposure::ManualExposure { pre_exposure, .. } => pre_exposure.wf(),
        }
        &&& match self.reactive_mask {
            Fsr2ReactiveMask::AutoMask { scale, threshold, binary_value, .. } => scale.wf()
                && threshold.wf() && binary_value.wf(),
            _ => true,
        }
    }
}

/// The fully assembled description of one upscaler dispatch, ready for
/// the layer that records it natively.
#[derive(Clone, Copy, Debug, PartialEq, Eq, Structural)]
pub struct Fsr2DispatchDescription {
    pub color: ResourceDescriptor,
    pub depth: ResourceDescriptor,
    pub motion_vectors: ResourceDescriptor,
    pub exposure: ResourceDescriptor,
    pub reactive: ResourceDescriptor,
    pub transparency_and_composition: ResourceDescriptor,
    pub output: ResourceDescriptor,
    pub jitter_offset: Coords2,
    pub motion_vector_scale: Coords2,
    pub render_size: Resolution,
    pub enable_sharpening: bool,
    pub sharpness: Rat,
    pub frame_time_delta_ms: u64,
    pub pre_exposure: Rat,
    pub reset: bool,
    pub camera_near: Rat,
    pub camera_far: Rat,
    pub camera_fov_angle_vertical: Rat,
}

/// Everything `render` decides for one frame: the dispatch description
/// and the two batched barrier sets to record around the dispatch, in
/// order: the pre-dispatch set, then the native dispatch, then the
/// post-dispatch set, then the command buffer is closed.
#[derive(Debug)]
pub struct Fsr2FramePlan {
    pub dispatch: Fsr2DispatchDescription,
    pub pre_dispatch_images: Vec<u64>,
    pub post_dispatch_images: Vec<u64>,
}

/// The exposure mode resolved into its parts: the optional exposure
/// texture and the pre-exposure scalar (zero under automatic exposure).
pub open spec fn spec_resolved_exposure(e: Fsr2Exposure) -> (Option<Fsr2Texture>, Rat) {
    match e {
        Fsr2Exposure::AutoExposure => (None, Rat { num: 0, den: 1 }),
        Fsr2Exposure::ManualExposure { pre_exposure, exposure } => (Some(exposure), pre_exposure),
    }
}

/// The reactive-mask mode resolved into the optional mask texture; only
/// meaningful when auto-generation is not requested.
pub open spec fn spec_reactive_texture(m: Fsr2ReactiveMask) -> Option<Fsr2Texture>
    recommends
        !(m is AutoMask),
{
    match m {
        Fsr2ReactiveMask::NoMask => None,
        Fsr2ReactiveMask::ManualMask(t) => Some(t),
        Fsr2ReactiveMask::AutoMask { .. } => None,
    }
}

/// The descriptor of an optional texture: the texture's descriptor when
/// present, the null-resource sentinel when absent.
pub open spec fn spec_opt_descriptor(t: Option<Fsr2Texture>) -> ResourceDescriptor {
    match t {
        Some(t) => spec_descriptor_of(t),
        None => spec_null_descriptor(),
    }
}

/// Register an optional texture's image: absent textures register
/// nothing.
pub open spec fn spec_register_opt(s: Seq<u64>, t: Option<Fsr2Texture>) -> Seq<u64> {
    match t {
        Some(t) => spec_register(s, t.image),
        None => s,
    }
}

/// The set of native images one frame's dispatch touches, in
/// registration order and without duplicates: the reactive mask first
/// (it is resolved before the others), then color, depth, motion
/// vectors, exposure, the transparency mask, and the output.
pub open spec fn spec_touched_images(p: Fsr2RenderParameters) -> Seq<u64> {
    let s0 = spec_register_opt(Seq::<u64>::empty(), spec_reactive_texture(p.reactive_mask));
    let s1 = spec_register(s0, p.color.image);
    let s2 = spec_register(s1, p.depth.image);
    let s3 = spec_register(s2, p.motion_vectors.image);
    let s4 = spec_register_opt(s3, spec_resolved_exposure(p.exposure).0);
    let s5 = spec_register_opt(s4, p.transparency_and_composition_mask);
    spec_register(s5, p.output.image)
}

/// The plan a successful `render` call returns, pinned down field by
/// field as a function of the frame parameters.
pub open spec fn spec_plan_correct(p: Fsr2RenderParameters, plan: Fsr2FramePlan) -> bool {
    let d = plan.dispatch;
    &&& d.color == spec_descriptor_of(p.color)
    &&& d.depth == spec_descriptor_of(p.depth)
    &&& d.motion_vectors == spec_descriptor_of(p.motion_vectors)
    &&& d.exposure == spec_opt_descriptor(spec_resolved_exposure(p.exposure).0)
    &&& d.pre_exposure == spec_resolved_exposure(p.exposure).1
    &&& d.reactive == spec_opt_descriptor(spec_reactive_texture(p.reactive_mask))
    &&& d.transparency_and_composition == spec_opt_descriptor(
        p.transparency_and_composition_mask,
    )
    &&& d.output == spec_descriptor_of(p.output)
    &&& d.jitter_offset == p.jitter_offset
    &&& d.motion_vector_scale == match p.motion_vector_scale {
        Some(s) => s,
        None => Coords2 { x: Rat { num: 1, den: 1 }, y: Rat { num: 1, den: 1 } },
    }
    &&& d.render_size == p.input_resolution
    &&& d.enable_sharpening == p.sharpness.spec_is_positive()
    &&& d.sharpness == spec_clamp01(p.sharpness)
    &&& d.frame_time_delta_ms == p.frame_delta_time_ms
    &&& d.reset == p.reset
    &&& d.camera_near == p.camera_near
    &&& d.camera_far == match p.camera_far {
        Some(f) => f,
        None => Rat { num: 0, den: 1 },
    }
    &&& d.camera_fov_angle_vertical == p.camera_fov_angle_vertical
    &&& plan.pre_dispatch_images@ == spec_touched_images(p)
    &&& plan.post_dispatch_images@ == spec_touched_images(p)
    &&& spec_nodup(plan.pre_dispatch_images@)
}

/// The upscaling context: the resolutions and flags it was created for.
/// The target resolution is fixed for the context's lifetime; an owner
/// that needs a different one destroys this context and creates a new
/// one.
#[derive(Clone, Copy, Debug, PartialEq, Eq, Structural)]
pub struct Fsr2Context {
    max_input_resolution: Resolution,
    upscaled_resolution: Resolution,
    initialization_flags: Fsr2InitializationFlags,
}

impl Fsr2Context {
    pub closed spec fn spec_max_input_resolution(self) -> Resolution {
        self.max_input_resolution
    }

    pub closed spec fn spec_upscaled_resolution(self) -> Resolution {
        self.upscaled_resolution
    }

    pub closed spec fn spec_initialization_flags(self) -> Fsr2InitializationFlags {
        self.initialization_flags
    }

    /// A context for upscaling inputs of at most `max_input_resolution`
    /// to the fixed `upscaled_resolution`, with backend-defined creation
    /// flags.
    pub fn new(
        max_input_resolution: Resolution,
        upscaled_resolution: Resolution,
        initialization_flags: Fsr2InitializationFlags,
    ) -> (ctx: Fsr2Context)
        ensures
            ctx.spec_max_input_resolution() == max_input_resolution,
            ctx.spec_upscaled_resolution() == upscaled_resolution,
            ctx.spec_initialization_flags() == initialization_flags,
    {
        Fsr2Context { max_input_resolution, upscaled_resolution, initialization_flags }
    }

    pub fn max_input_resolution(&self) -> (r: Resolution)
        ensures
            r == self.spec_max_input_resolution(),
    {
        self.max_input_resolution
    }

    pub fn upscaled_resolution(&self) -> (r: Resolution)
        ensures
            r == self.spec_upscaled_resolution(),
    {
        self.upscaled_resolution
    }

    pub fn initialization_flags(&self) -> (r: Fsr2InitializationFlags)
        ensures
            r == self.spec_initialization_flags(),
    {
        self.initialization_flags
    }

    /// The target resolution cannot change in place: a context is created
    /// for one target resolution and must be destroyed and recreated for
    /// another, so only the unchanged resolution is accepted here.
    pub fn set_new_upscale_resolution_if_changed(&mut self, new_upscaled_resolution: Resolution)
        requires
            new_upscaled_resolution == old(self).spec_upscaled_resolution(),
        ensures
            *final(self) == *old(self),
    {
    }

    /// The input resolution suggested for a quality tier: the target
    /// resolution divided by the tier's scale factor, truncated. The
    /// result never exceeds the target resolution in either component.
    pub fn get_suggested_input_resolution(&self, quality_mode: Fsr2QualityMode) -> (r: Resolution)
        ensures
            r.width as int == spec_suggested_extent(
                self.spec_upscaled_resolution().width as int,
                spec_scale_factor_x10(quality_mode),
            ),
            r.height as int == spec_suggested_extent(
                self.spec_upscaled_resolution().height as int,
                spec_scale_factor_x10(quality_mode),
            ),
            r.width <= self.spec_upscaled_resolution().width,
            r.height <= self.spec_upscaled_resolution().height,
    {
        let scale_x10: u64 = match quality_mode {
            Fsr2QualityMode::Quality => 15,
            Fsr2QualityMode::Balanced => 17,
            Fsr2QualityMode::Performance => 20,
            Fsr2QualityMode::UltraPerformance => 30,
        };
        proof {
            lemma_scaled_div_le(self.upscaled_resolution.width as int, scale_x10 as int);
            lemma_scaled_div_le(self.upscaled_resolution.height as int, scale_x10 as int);
        }
        let w = (self.upscaled_resolution.width as u64 * 10) / scale_x10;
        let h = (self.upscaled_resolution.height as u64 * 10) / scale_x10;
        Resolution::new(w as u32, h as u32)
    }

    /// The per-frame camera jitter offset in render-target pixel units,
    /// for this context's target width.
    pub fn get_camera_jitter_offset(&self, input_resolution: Resolution, frame_index: i32) -> (
        off: Coords2)
        requires
            input_resolution.width >= 1,
            1 <= spec_phase_count(
                input_resolution.width as int,
                self.spec_upscaled_resolution().width as int,
            ) <= JITTER_PHASE_LIMIT as int,
        ensures
            off.wf(),
            off.x.frac() == spec_jitter_coord(
                input_resolution.width as int,
                self.spec_upscaled_resolution().width as int,
                frame_index as int,
                2,
            ),
            off.y.frac() == spec_jitter_coord(
                input_resolution.width as int,
                self.spec_upscaled_resolution().width as int,
                frame_index as int,
                3,
            ),
            -off.x.den <= off.x.num <= off.x.den && 0 < off.x.den <= 0x60000,
            -off.y.den <= off.y.num <= off.y.den && 0 < off.y.den <= 0x60000,
    {
        camera_jitter_offset(input_resolution.width, self.upscaled_resolution.width, frame_index)
    }

    /// Compute the frame's jitter offset, convert it to normalized device
    /// coordinates (scaled by `2 / input_resolution`, y flipped), and
    /// left-multiply the resulting translation onto the caller's
    /// projection matrix in place. Returns the raw pixel-space offset for
    /// the caller to also hand to `render`.
    pub fn jitter_camera_projection_matrix(
        &self,
        matrix: &mut Mat4,
        input_resolution: Resolution,
        frame_index: i32,
    ) -> (offset: Coords2)
        requires
            old(matrix).wf(),
            old(matrix).bounded(MAT_ENTRY_BOUND as int),
            input_resolution.width >= 1,
            input_resolution.height >= 1,
            1 <= spec_phase_count(
                input_resolution.width as int,
                self.spec_upscaled_resolution().width as int,
            ) <= JITTER_PHASE_LIMIT as int,
        ensures
            offset.wf(),
            offset.x.frac() == spec_jitter_coord(
                input_resolution.width as int,
                self.spec_upscaled_resolution().width as int,
                frame_index as int,
                2,
            ),
            offset.y.frac() == spec_jitter_coord(
                input_resolution.width as int,
                self.spec_upscaled_resolution().width as int,
                frame_index as int,
                3,
            ),
            spec_translate_applied(
                old(matrix).x_axis,
                final(matrix).x_axis,
                spec_ndc_offset_x(
                    input_resolution.width as int,
                    self.spec_upscaled_resolution().width as int,
                    frame_index as int,
                ),
                spec_ndc_offset_y(
                    input_resolution.width as int,
                    input_resolution.height as int,
                    self.spec_upscaled_resolution().width as int,
                    frame_index as int,
                ),
            ),
            spec_translate_applied(
                old(matrix).y_axis,
                final(matrix).y_axis,
                spec_ndc_offset_x(
                    input_resolution.width as int,
                    self.spec_upscaled_resolution().width as int,
                    frame_index as int,
                ),
                spec_ndc_offset_y(
                    input_resolution.width as int,
                    input_resolution.height as int,
                    self.spec_upscaled_resolution().width as int,
                    frame_index as int,
                ),
            ),
            spec_translate_applied(
                old(matrix).z_axis,
                final(matrix).z_axis,
                spec_ndc_offset_x(
                    input_resolution.width as int,
                    self.spec_upscaled_resolution().width as int,
                    frame_index as int,
                ),
                spec_ndc_offset_y(
                    input_resolution.width as int,
                    input_resolution.height as int,
                    self.spec_upscaled_resolution().width as int,
                    frame_index as int,
                ),
            ),
            spec_translate_applied(
                old(matrix).w_axis,
                final(matrix).w_axis,
                spec_ndc_offset_x(
                    input_resolution.width as int,
                    self.spec_upscaled_resolution().width as int,
                    frame_index as int,
                ),
                spec_ndc_offset_y(
                    input_resolution.width as int,
                    input_resolution.height as int,
                    self.spec_upscaled_resolution().width as int,
                    frame_index as int,
                ),
            ),
    {
        let offset = self.get_camera_jitter_offset(input_resolution, frame_index);
        proof {
            lemma_mul_bounds(
                offset.x.den as int,
                input_resolution.width as int,
                0x60000,
                0x1_0000_0000,
            );
            lemma_mul_bounds(
                offset.y.den as int,
                input_resolution.height as int,
                0x60000,
                0x1_0000_0000,
            );
            assert(offset.x.den as int * input_resolution.width as int > 0) by (nonlinear_arith)
                requires
                    offset.x.den as int > 0,
                    input_resolution.width as int > 0,
            ;
            assert(offset.y.den as int * input_resolution.height as int > 0) by (nonlinear_arith)
                requires
                    offset.y.den as int > 0,
                    input_resolution.height as int > 0,
            ;
        }
        let tx = Rat::new(2 * offset.x.num, offset.x.den * (input_resolution.width as i128));
        proof {
            assert(-0xC0000 <= -2 * offset.y.num as int <= 0xC0000);
        }
        let ty = Rat::new((-2) * offset.y.num, offset.y.den * (input_resolution.height as i128));
        left_mul_translation_xy(matrix, &tx, &ty);
        offset
    }

    /// Plan one frame's dispatch: resolve the exposure and reactive-mask
    /// variants, translate every texture in the fixed order while the
    /// barrier set accumulates, and assemble the dispatch description.
    /// Requesting an auto-generated reactive mask fails with an explicit
    /// unsupported error, and nothing else fails.
    pub fn render(&mut self, parameters: Fsr2RenderParameters) -> (res: Result<
        Fsr2FramePlan,
        Fsr2Error,
    >)
        requires
            parameters.wf(),
            parameters.input_resolution.spec_fits_in(old(self).spec_max_input_resolution()),
        ensures
            *final(self) == *old(self),
            match res {
                Result::Ok(plan) => !(parameters.reactive_mask is AutoMask) && spec_plan_correct(
                    parameters,
                    plan,
                ),
                Result::Err(e) => parameters.reactive_mask is AutoMask && e
                    == Fsr2Error::UnimplementedFeature,
            },
    {
        let mut barriers = Barriers::new();

        let (exposure_texture, pre_exposure) = match parameters.exposure {
            Fsr2Exposure::AutoExposure => (None, Rat::zero()),
            Fsr2Exposure::ManualExposure { pre_exposure, exposure } => (
                Some(exposure),
                pre_exposure,
            ),
        };

        let reactive = match parameters.reactive_mask {
            Fsr2ReactiveMask::NoMask => translate_texture(None, &mut barriers),
            Fsr2ReactiveMask::ManualMask(mask) => translate_texture(Some(mask), &mut barriers),
            Fsr2ReactiveMask::AutoMask { .. } => {
                return Err(Fsr2Error::UnimplementedFeature);
            },
        };

        let color = translate_texture(Some(parameters.color), &mut barriers);
        let depth = translate_texture(Some(parameters.depth), &mut barriers);
        let motion_vectors = translate_texture(Some(parameters.motion_vectors), &mut barriers);
        let exposure = translate_texture(exposure_texture, &mut barriers);
        let transparency_and_composition = translate_texture(
            parameters.transparency_and_composition_mask,
            &mut barriers,
        );
        let output = translate_texture(Some(parameters.output), &mut barriers);

        let motion_vector_scale = match parameters.motion_vector_scale {
            Some(s) => s,
            None => Coords2::one_one(),
        };
        let camera_far = match parameters.camera_far {
            Some(f) => f,
            None => Rat::zero(),
        };

        let dispatch = Fsr2DispatchDescription {
            color,
            depth,
            motion_vectors,
            exposure,
            reactive,
            transparency_and_composition,
            output,
            jitter_offset: parameters.jitter_offset,
            motion_vector_scale,
            render_size: parameters.input_resolution,
            enable_sharpening: parameters.sharpness.is_positive(),
            sharpness: parameters.sharpness.clamp01(),
            frame_time_delta_ms: parameters.frame_delta_time_ms,
            pre_exposure,
            reset: parameters.reset,
            camera_near: parameters.camera_near,
            camera_far,
            camera_fov_angle_vertical: parameters.camera_fov_angle_vertical,
        };

        let pre_dispatch_images = barriers.cmd_start();
        let post_dispatch_images = barriers.cmd_end();

        Ok(Fsr2FramePlan { dispatch, pre_dispatch_images, post_dispatch_images })
    }
}

/// A target component scaled down by a factor of at least one stays
/// within the component.
proof fn lemma_scaled_div_le(t: int, s: int)
    requires
        t >= 0,
        s >= 10,
    ensures
        0 <= (t * 10) / s <= t,
{
    let a = (t * 10) / s;
    let r = (t * 10) % s;
    lemma_fundamental_div_mod(t * 10, s);
    lemma_mod_pos_bound(t * 10, s);
    assert(0 <= a && a <= t) by (nonlinear_arith)
        requires
            t * 10 == s * a + r,
            0 <= r < s,
            s >= 10,
            t >= 0,
    ;
}

/// Dividing by a sufficiently larger divisor gives a strictly smaller
/// quotient, once the dividend is past the tie region.
proof fn lemma_div_strict_gap(x: int, s: int, s2: int)
    requires
        0 <= x,
        0 < s < s2,
        (s2 - s) * x > s2 * (s - 1),
    ensures
        x / s > x / s2,
{
    let a = x / s;
    let ra = x % s;
    let b = x / s2;
    let rb = x % s2;
    lemma_fundamental_div_mod(x, s);
    lemma_mod_pos_bound(x, s);
    lemma_fundamental_div_mod(x, s2);
    lemma_mod_pos_bound(x, s2);
    assert(a > b) by (nonlinear_arith)
        requires
            x == s * a + ra,
            0 <= ra < s,
            x == s2 * b + rb,
            0 <= rb < s2,
            0 < s < s2,
            (s2 - s) * x > s2 * (s - 1),
    ;
}

/// The component values on which the tiers never tie: everything from 9
/// up, except 10 (at 10, Balanced and Performance both truncate to 5;
/// at 8 and below other neighbours tie as well).
pub open spec fn spec_strictly_tiered(t: int) -> bool {
    t == 9 || t == 11 || t >= 12
}

/// One component of the suggested resolution strictly shrinks when the
/// scale factor grows, on the components where no tie occurs.
proof fn lemma_extent_strict(t: int, sa: int, sb: int)
    requires
        spec_strictly_tiered(t),
        sa == 15 || sa == 17 || sa == 20 || sa == 30,
        sb == 15 || sb == 17 || sb == 20 || sb == 30,
        sa < sb,
    ensures
        spec_suggested_extent(t, sa) > spec_suggested_extent(t, sb),
{
    let x = t * 10;
    if t >= 12 {
        lemma_div_strict_gap(x, 15, 17);
        lemma_div_strict_gap(x, 17, 20);
        lemma_div_strict_gap(x, 20, 30);
    } else if t == 9 {
        assert(90int / 15 == 6 && 90int / 17 == 5 && 90int / 20 == 4 && 90int / 30 == 3);
    } else {
        assert(110int / 15 == 7 && 110int / 17 == 6 && 110int / 20 == 5 && 110int / 30 == 3);
    }
}

/// For a fixed target resolution, a coarser quality tier (a strictly
/// larger scale factor) suggests a strictly smaller input resolution in
/// both components. This holds exactly on the components where
/// truncation ties no two tiers: a target width of 10 suggests 5 pixels
/// for both the Balanced and the Performance tier, and widths of 8 and
/// below tie as well.
pub proof fn lemma_suggested_resolution_strictly_decreases(
    target: Resolution,
    finer: Fsr2QualityMode,
    coarser: Fsr2QualityMode,
)
    requires
        spec_scale_factor_x10(finer) < spec_scale_factor_x10(coarser),
        spec_strictly_tiered(target.width as int),
        spec_strictly_tiered(target.height as int),
    ensures
        spec_suggested_extent(target.width as int, spec_scale_factor_x10(finer))
            > spec_suggested_extent(target.width as int, spec_scale_factor_x10(coarser)),
        spec_suggested_extent(target.height as int, spec_scale_factor_x10(finer))
            > spec_suggested_extent(target.height as int, spec_scale_factor_x10(coarser)),
{
    lemma_extent_strict(
        target.width as int,
        spec_scale_factor_x10(finer),
        spec_scale_factor_x10(coarser),
    );
    lemma_extent_strict(
        target.height as int,
        spec_scale_factor_x10(finer),
        spec_scale_factor_x10(coarser),
    );
}

/// Applied to the identity matrix, the jitter injection yields a pure
/// translation matrix: the last column's x and y entries are exactly the
/// jitter offset scaled by `2 / input_resolution` with y negated, its z
/// entry is unaffected, and the other columns still hold the identity's
/// values.
pub proof fn lemma_jitter_on_identity_is_pure_translation(
    m: Mat4,
    input_resolution: Resolution,
    display_width: int,
    frame_index: int,
)
    requires
        input_resolution.width >= 1,
        input_resolution.height >= 1,
        spec_phase_count(input_resolution.width as int, display_width) >= 1,
        spec_translate_applied(
            spec_identity().x_axis,
            m.x_axis,
            spec_ndc_offset_x(input_resolution.width as int, display_width, frame_index),
            spec_ndc_offset_y(
                input_resolution.width as int,
                input_resolution.height as int,
                display_width,
                frame_index,
            ),
        ),
        spec_translate_applied(
            spec_identity().y_axis,
            m.y_axis,
            spec_ndc_offset_x(input_resolution.width as int, display_width, frame_index),
            spec_ndc_offset_y(
                input_resolution.width as int,
                input_resolution.height as int,
                display_width,
                frame_index,
            ),
        ),
        spec_translate_applied(
            spec_identity().z_axis,
            m.z_axis,
            spec_ndc_offset_x(input_resolution.width as int, display_width, frame_index),
            spec_ndc_offset_y(
                input_resolution.width as int,
                input_resolution.height as int,
                display_width,
                frame_index,
            ),
        ),
        spec_translate_applied(
            spec_identity().w_axis,
            m.w_axis,
            spec_ndc_offset_x(input_resolution.width as int, display_width, frame_index),
            spec_ndc_offset_y(
                input_resolution.width as int,
                input_resolution.height as int,
                display_width,
                frame_index,
            ),
        ),
    ensures
        frac_eq(
            m.w_axis.x.frac(),
            spec_ndc_offset_x(input_resolution.width as int, display_width, frame_index),
        ),
        frac_eq(
            m.w_axis.y.frac(),
            spec_ndc_offset_y(
                input_resolution.width as int,
                input_resolution.height as int,
                display_width,
                frame_index,
            ),
        ),
        m.w_axis.z == spec_rat_zero() && m.w_axis.w == spec_rat_one(),
        frac_eq(m.x_axis.x.frac(), (1int, 1int)) && frac_eq(m.x_axis.y.frac(), (0int, 1int)),
        m.x_axis.z == spec_rat_zero() && m.x_axis.w == spec_rat_zero(),
        frac_eq(m.y_axis.x.frac(), (0int, 1int)) && frac_eq(m.y_axis.y.frac(), (1int, 1int)),
        m.y_axis.z == spec_rat_zero() && m.y_axis.w == spec_rat_zero(),
        frac_eq(m.z_axis.x.frac(), (0int, 1int)) && frac_eq(m.z_axis.y.frac(), (0int, 1int)),
        m.z_axis.z == spec_rat_one() && m.z_axis.w == spec_rat_zero(),
{
    let w = input_resolution.width as int;
    let h = input_resolution.height as int;
    let pc = spec_phase_count(w, display_width);
    let idx = frame_index % pc + 1;
    lemma_mod_bound(frame_index, pc);
    lemma_halton_bounds(idx, 2);
    lemma_halton_bounds(idx, 3);
    let jx = spec_jitter_coord(w, display_width, frame_index, 2);
    let jy = spec_jitter_coord(w, display_width, frame_index, 3);
    assert(jx.1 == 2 * spec_halton(idx, 2).1);
    assert(jy.1 == 2 * spec_halton(idx, 3).1);
    let tx = spec_ndc_offset_x(w, display_width, frame_index);
    let ty = spec_ndc_offset_y(w, h, display_width, frame_index);
    assert(tx.1 > 0) by (nonlinear_arith)
        requires
            tx.1 == jx.1 * w,
            jx.1 > 0,
            w > 0,
    ;
    assert(ty.1 > 0) by (nonlinear_arith)
        requires
            ty.1 == jy.1 * h,
            jy.1 > 0,
            h > 0,
    ;
    crate::matrix::lemma_translation_of_identity(m, tx, ty);
}

} // verus!


