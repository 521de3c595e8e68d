use vstd::prelude::*;
use vstd::arithmetic::div_mod::{
    lemma_div_decreases, lemma_div_pos_is_pos, lemma_fundamental_div_mod,
    lemma_fundamental_div_mod_converse, lemma_mod_multiples_vanish, lemma_mod_pos_bound,
};
use crate::dims::Coords2;
use crate::rational::{lemma_mul_bounds, Rat};

verus! {

/// Largest jitter phase count this library accepts: it keeps every
/// denominator of the low-discrepancy sequence far away from the `i128`
/// range limits of [`Rat`].
pub const JITTER_PHASE_LIMIT: u32 = 65535;

/// The jitter phase count derived from the render width and the display
/// width: eight base phases, scaled by the square of the upscaling ratio.
pub open spec fn spec_phase_count(render_width: int, display_width: int) -> int
    recommends
        render_width >= 1,
{
    (8 * display_width * display_width) / (render_width * render_width)
}

/// The radical-inverse (Halton) value of `index` in the given base, as an
/// exact fraction pair: digit `d_j` of `index` contributes `d_j / base^j`.
pub open spec fn spec_halton(index: int, base: int) -> (int, int)
    recommends
        index >= 0,
        base >= 2,
    decreases index,
        when index >= 0 && base >= 2 via spec_halton_decreases
{
    if index <= 0 {
        (0, 1)
    } else {
        let rest = spec_halton(index / base, base);
        ((index % base) * rest.1 + rest.0, base * rest.1)
    }
}

#[via_fn]
proof fn spec_halton_decreases(index: int, base: int) {
    if index > 0 && base >= 2 {
        lemma_div_decreases(index, base);
        lemma_div_pos_is_pos(index, base);
    }
}

/// One coordinate of the jitter offset for a frame: the Halton value (in
/// base 2 for x, base 3 for y) of the frame's position within the phase
/// cycle, centred around zero by subtracting one half.
pub open spec fn spec_jitter_coord(
    render_width: int,
    display_width: int,
    frame_index: int,
    base: int,
) -> (int, int)
    recommends
        render_width >= 1,
        spec_phase_count(render_width, display_width) >= 1,
        base >= 2,
{
    let pc = spec_phase_count(render_width, display_width);
    let h = spec_halton(frame_index % pc + 1, base);
    (2 * h.0 - h.1, 2 * h.1)
}

/// The x translation injected into a projection matrix for a frame's
/// jitter: the pixel-space offset scaled by `2 / render_width`, in
/// normalized device coordinates.
pub open spec fn spec_ndc_offset_x(render_width: int, display_width: int, frame_index: int) -> (
    int,
    int,
) {
    let j = spec_jitter_coord(render_width, display_width, frame_index, 2);
    (2 * j.0, j.1 * render_width)
}

/// The y translation injected into a projection matrix for a frame's
/// jitter: the pixel-space offset scaled by `2 / render_height`, with the
/// sign flipped to match the clip-space convention.
pub open spec fn spec_ndc_offset_y(
    render_width: int,
    render_height: int,
    display_width: int,
    frame_index: int,
) -> (int, int) {
    let j = spec_jitter_coord(render_width, display_width, frame_index, 3);
    (-2 * j.0, j.1 * render_height)
}

/// The Halton fraction is in `[0, 1)`, its denominator is positive, and
/// the denominator is bounded by `base * index` (or 1 at index zero).
pub proof fn lemma_halton_bounds(index: int, base: int)
    requires
        index >= 0,
        base >= 2,
    ensures
        spec_halton(index, base).1 >= 1,
        0 <= spec_halton(index, base).0 < spec_halton(index, base).1,
        index == 0 ==> spec_halton(index, base).1 == 1,
        index >= 1 ==> spec_halton(index, base).1 <= base * index,
    decreases index,
{
    if index > 0 {
        let q = index / base;
        let d = index % base;
        lemma_div_pos_is_pos(index, base);
        lemma_div_decreases(index, base);
        lemma_mod_pos_bound(index, base);
        lemma_fundamental_div_mod(index, base);
        lemma_halton_bounds(q, base);
        let rest = spec_halton(q, base);
        assert(spec_halton(index, base) == ((d * rest.1 + rest.0, base * rest.1)));
        assert(base * rest.1 >= 1) by (nonlinear_arith)
            requires
                base >= 2,
                rest.1 >= 1,
        ;
        assert(0 <= d * rest.1 + rest.0 < base * rest.1) by (nonlinear_arith)
            requires
                0 <= d <= base - 1,
                0 <= rest.0 < rest.1,
        ;
        if q == 0 {
            assert(base * rest.1 <= base * index) by (nonlinear_arith)
                requires
                    base >= 2,
                    index >= 1,
                    rest.1 == 1,
            ;
        } else {
            assert(base * rest.1 <= base * index) by (nonlinear_arith)
                requires
                    rest.1 <= base * q,
                    index == base * q + d,
                    d >= 0,
                    base >= 2,
                    q >= 1,
            ;
        }
    }
}

/// The Halton fraction of `index` in `base`, computed exactly.
pub fn halton(index: u32, base: u32) -> (r: Rat)
    requires
        2 <= base <= 3,
        index <= 0x10000,
    ensures
        r.wf(),
        (r.num as int, r.den as int) == spec_halton(index as int, base as int),
        0 <= r.num < r.den,
        r.den <= 3 * index as int || r.den == 1,
    decreases index,
{
    if index == 0 {
        Rat::new(0, 1)
    } else {
        proof {
            lemma_div_pos_is_pos(index as int, base as int);
            lemma_div_decreases(index as int, base as int);
            lemma_mod_pos_bound(index as int, base as int);
            lemma_halton_bounds(index as int / base as int, base as int);
            lemma_halton_bounds(index as int, base as int);
        }
        let q = index / base;
        let d = index % base;
        let rest = halton(q, base);
        proof {
            lemma_mul_bounds(d as int, rest.den as int, 3, 0x30000);
            lemma_mul_bounds(base as int, rest.den as int, 3, 0x30000);
            assert(base as int * rest.den as int >= 1) by (nonlinear_arith)
                requires
                    base as int >= 2,
                    rest.den as int >= 1,
            ;
            assert(spec_halton(index as int, base as int).1 <= 3 * index as int)
                by (nonlinear_arith)
                requires
                    base as int <= 3,
                    index as int >= 1,
                    spec_halton(index as int, base as int).1 <= base as int * index as int,
            ;
        }
        Rat::new((d as i128) * rest.den + rest.num, (base as i128) * rest.den)
    }
}

/// The jitter phase count for the given render and display widths.
pub fn jitter_phase_count(render_width: u32, display_width: u32) -> (pc: u128)
    requires
        render_width >= 1,
    ensures
        pc == spec_phase_count(render_width as int, display_width as int),
{
    let d = display_width as u128;
    let r = render_width as u128;
    proof {
        assert((8 * d) * d <= 0x8000_0000_0000_0000_0000u128) by (nonlinear_arith)
            requires
                d <= 0xFFFF_FFFFu128,
        ;
        assert(r * r >= 1) by (nonlinear_arith)
            requires
                r >= 1,
        ;
        assert(r * r <= 0xFFFF_FFFF_FFFF_FFFFu128) by (nonlinear_arith)
            requires
                r <= 0xFFFF_FFFFu128,
        ;
    }
    (8 * d * d) / (r * r)
}

/// Euclidean remainder of a (possibly negative) frame index by a positive
/// phase count: the result is the frame's position within the cycle.
fn mod_euclid(frame_index: i32, pc: u32) -> (m: u32)
    requires
        pc >= 1,
    ensures
        m as int == (frame_index as int) % (pc as int),
        m < pc,
{
    if frame_index >= 0 {
        proof {
            lemma_mod_pos_bound(frame_index as int, pc as int);
        }
        (frame_index as u32) % pc
    } else {
        let neg = (-(frame_index as i64)) as u64;
        let k = neg % (pc as u64);
        proof {
            let n = frame_index as int;
            let p = pc as int;
            let q = neg as int / p;
            let kk = neg as int % p;
            lemma_fundamental_div_mod(neg as int, p);
            lemma_mod_pos_bound(neg as int, p);
            if kk == 0 {
                assert(n == (-q) * p + 0) by (nonlinear_arith)
                    requires
                        neg as int == p * q + kk,
                        kk == 0,
                        n == -(neg as int),
                ;
                lemma_fundamental_div_mod_converse(n, p, -q, 0);
            } else {
                assert(n == (-q - 1) * p + (p - kk)) by (nonlinear_arith)
                    requires
                        neg as int == p * q + kk,
                        n == -(neg as int),
                ;
                lemma_fundamental_div_mod_converse(n, p, -q - 1, p - kk);
            }
        }
        if k == 0 {
            0
        } else {
            (pc as u64 - k) as u32
        }
    }
}

/// The per-frame camera jitter offset in render-target pixel units, as an
/// exact pair of rationals: the low-discrepancy sequence point for the
/// frame's position in the phase cycle, centred around zero.
///
/// The phase-count bounds are forced by the fixed-width arithmetic: the
/// cycle must be non-empty, and long cycles would push the sequence's
/// denominators towards the `i128` range limits.
pub fn camera_jitter_offset(input_width: u32, display_width: u32, frame_index: i32) -> (off:
    Coords2)
    requires
        input_width >= 1,
        1 <= spec_phase_count(input_width as int, display_width as int)
            <= JITTER_PHASE_LIMIT as int,
    ensures
        off.wf(),
        off.x.frac() == spec_jitter_coord(
            input_width as int,
            display_width as int,
            frame_index as int,
            2,
        ),
        off.y.frac() == spec_jitter_coord(
            input_width as int,
            display_width as int,
            frame_index as int,
            3,
        ),
        -off.x.den <= off.x.num <= off.x.den && 0 < off.x.den <= 0x60000,
        -off.y.den <= off.y.num <= off.y.den && 0 < off.y.den <= 0x60000,
{
    let pc = jitter_phase_count(input_width, display_width) as u32;
    let m = mod_euclid(frame_index, pc);
    let idx = m + 1;
    let hx = halton(idx, 2);
    let hy = halton(idx, 3);
    let x = Rat::new(2 * hx.num - hx.den, 2 * hx.den);
    let y = Rat::new(2 * hy.num - hy.den, 2 * hy.den);
    Coords2::new(x, y)
}

/// The jitter offset is periodic in the frame index, with the phase count
/// as its period: the offset of `frame_index + phase_count` equals the
/// offset of `frame_index`, in both coordinates.
pub proof fn lemma_jitter_periodic(render_width: int, display_width: int, frame_index: int)
    requires
        render_width >= 1,
        spec_phase_count(render_width, display_width) >= 1,
    ensures
        spec_jitter_coord(render_width, display_width, frame_index, 2) == spec_jitter_coord(
            render_width,
            display_width,
            frame_index + spec_phase_count(render_width, display_width),
            2,
        ),
        spec_jitter_coord(render_width, display_width, frame_index, 3) == spec_jitter_coord(
            render_width,
            display_width,
            frame_index + spec_phase_count(render_width, display_width),
            3,
        ),
{
    let pc = spec_phase_count(render_width, display_width);
    lemma_mod_multiples_vanish(1, frame_index, pc);
    assert(frame_index + pc == pc * 1 + frame_index);
}

} // verus!
