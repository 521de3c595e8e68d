use vstd::prelude::*;
use crate::rational::{frac_add, frac_eq, frac_mul, lemma_mul_bounds, Rat};

verus! {

/// Largest entry magnitude (numerator and denominator) accepted by the
/// in-place translation: it keeps the exact-rational products inside the
/// `i128` range.
pub const MAT_ENTRY_BOUND: i128 = 0x8000_0000;

/// Bound on the numerator of a translation coordinate handed to
/// [`left_mul_translation_xy`].
pub const TRANSLATION_NUM_BOUND: i128 = 0x10_0000;

/// Bound on the denominator of a translation coordinate handed to
/// [`left_mul_translation_xy`].
pub const TRANSLATION_DEN_BOUND: i128 = 0x8_0000_0000_0000;

/// A column vector of four exact rationals.
#[derive(Clone, Copy, Debug, PartialEq, Eq, Structural)]
pub struct Vec4 {
    pub x: Rat,
    pub y: Rat,
    pub z: Rat,
    pub w: Rat,
}

/// A 4x4 matrix of exact rationals, stored as four columns: the library's
/// model of a camera projection matrix.
#[derive(Clone, Copy, Debug, PartialEq, Eq, Structural)]
pub struct Mat4 {
    pub x_axis: Vec4,
    pub y_axis: Vec4,
    pub z_axis: Vec4,
    pub w_axis: Vec4,
}

/// The entry's numerator and denominator are within `b`, with a positive
/// denominator.
pub open spec fn rat_bounded(r: Rat, b: int) -> bool {
    -b <= r.num <= b && 0 < r.den <= b
}

impl Vec4 {
    pub open spec fn wf(self) -> bool {
        self.x.wf() && self.y.wf() && self.z.wf() && self.w.wf()
    }

    pub open spec fn bounded(self, b: int) -> bool {
        rat_bounded(self.x, b) && rat_bounded(self.y, b) && rat_bounded(self.z, b)
            && rat_bounded(self.w, b)
    }
}

impl Mat4 {
    pub open spec fn wf(self) -> bool {
        self.x_axis.wf() && self.y_axis.wf() && self.z_axis.wf() && self.w_axis.wf()
    }

    pub open spec fn bounded(self, b: int) -> bool {
        self.x_axis.bounded(b) && self.y_axis.bounded(b) && self.z_axis.bounded(b)
            && self.w_axis.bounded(b)
    }

    /// The identity matrix, with every entry written over denominator one.
    pub fn identity() -> (m: Mat4)
        ensures
            m == spec_identity(),
            m.wf(),
            m.bounded(MAT_ENTRY_BOUND as int),
    {
        let o = Rat::one();
        let z = Rat::zero();
        Mat4 {
            x_axis: Vec4 { x: o, y: z, z: z, w: z },
            y_axis: Vec4 { x: z, y: o, z: z, w: z },
            z_axis: Vec4 { x: z, y: z, z: o, w: z },
            w_axis: Vec4 { x: z, y: z, z: z, w: o },
        }
    }
}

pub open spec fn spec_rat_zero() -> Rat {
    Rat { num: 0, den: 1 }
}

pub open spec fn spec_rat_one() -> Rat {
    Rat { num: 1, den: 1 }
}

pub open spec fn spec_identity() -> Mat4 {
    Mat4 {
        x_axis: Vec4 {
            x: spec_rat_one(),
            y: spec_rat_zero(),
            z: spec_rat_zero(),
            w: spec_rat_zero(),
        },
        y_axis: Vec4 {
            x: spec_rat_zero(),
            y: spec_rat_one(),
            z: spec_rat_zero(),
            w: spec_rat_zero(),
        },
        z_axis: Vec4 {
            x: spec_rat_zero(),
            y: spec_rat_zero(),
            z: spec_rat_one(),
            w: spec_rat_zero(),
        },
        w_axis: Vec4 {
            x: spec_rat_zero(),
            y: spec_rat_zero(),
            z: spec_rat_zero(),
            w: spec_rat_one(),
        },
    }
}

/// The new column is the old column with the translation `(tx, ty, 0)`
/// left-multiplied on: exactly `tx` (resp. `ty`) times the old `w` entry
/// is added to the old `x` (resp. `y`) entry, and `z` and `w` are
/// untouched.
pub open spec fn spec_translate_applied(
    old_col: Vec4,
    new_col: Vec4,
    tx: (int, int),
    ty: (int, int),
) -> bool {
    &&& new_col.x.frac() == frac_add(old_col.x.frac(), frac_mul(tx, old_col.w.frac()))
    &&& new_col.y.frac() == frac_add(old_col.y.frac(), frac_mul(ty, old_col.w.frac()))
    &&& new_col.z == old_col.z
    &&& new_col.w == old_col.w
    &&& new_col.x.wf()
    &&& new_col.y.wf()
}

/// One entry of the translated column: `e + t * w`, exactly.
fn translate_entry(e: &Rat, t: &Rat, w: &Rat) -> (r: Rat)
    requires
        e.wf(),
        t.wf(),
        w.wf(),
        rat_bounded(*e, MAT_ENTRY_BOUND as int),
        rat_bounded(*w, MAT_ENTRY_BOUND as int),
        -TRANSLATION_NUM_BOUND <= t.num <= TRANSLATION_NUM_BOUND,
        t.den <= TRANSLATION_DEN_BOUND,
    ensures
        r.wf(),
        r.frac() == frac_add(e.frac(), frac_mul(t.frac(), w.frac())),
{
    proof {
        lemma_mul_bounds(
            t.num as int,
            w.num as int,
            TRANSLATION_NUM_BOUND as int,
            MAT_ENTRY_BOUND as int,
        );
        lemma_mul_bounds(
            t.den as int,
            w.den as int,
            TRANSLATION_DEN_BOUND as int,
            MAT_ENTRY_BOUND as int,
        );
    }
    let p = t.mul(w);
    proof {
        lemma_mul_bounds(
            e.num as int,
            p.den as int,
            MAT_ENTRY_BOUND as int,
            TRANSLATION_DEN_BOUND as int * MAT_ENTRY_BOUND as int,
        );
        lemma_mul_bounds(
            p.num as int,
            e.den as int,
            TRANSLATION_NUM_BOUND as int * MAT_ENTRY_BOUND as int,
            MAT_ENTRY_BOUND as int,
        );
        lemma_mul_bounds(
            e.den as int,
            p.den as int,
            MAT_ENTRY_BOUND as int,
            TRANSLATION_DEN_BOUND as int * MAT_ENTRY_BOUND as int,
        );
    }
    e.add(&p)
}

fn translate_column(col: &Vec4, tx: &Rat, ty: &Rat) -> (r: Vec4)
    requires
        col.wf(),
        col.bounded(MAT_ENTRY_BOUND as int),
        tx.wf(),
        ty.wf(),
        -TRANSLATION_NUM_BOUND <= tx.num <= TRANSLATION_NUM_BOUND,
        tx.den <= TRANSLATION_DEN_BOUND,
        -TRANSLATION_NUM_BOUND <= ty.num <= TRANSLATION_NUM_BOUND,
        ty.den <= TRANSLATION_DEN_BOUND,
    ensures
        spec_translate_applied(*col, r, tx.frac(), ty.frac()),
{
    Vec4 {
        x: translate_entry(&col.x, tx, &col.w),
        y: translate_entry(&col.y, ty, &col.w),
        z: col.z,
        w: col.w,
    }
}

/// Left-multiply the translation by `(tx, ty, 0)` onto the matrix in
/// place: column by column, `tx` and `ty` times the column's `w` entry
/// are added to its `x` and `y` entries.
pub fn left_mul_translation_xy(matrix: &mut Mat4, tx: &Rat, ty: &Rat)
    requires
        old(matrix).wf(),
        old(matrix).bounded(MAT_ENTRY_BOUND as int),
        tx.wf(),
        ty.wf(),
        -TRANSLATION_NUM_BOUND <= tx.num <= TRANSLATION_NUM_BOUND,
        tx.den <= TRANSLATION_DEN_BOUND,
        -TRANSLATION_NUM_BOUND <= ty.num <= TRANSLATION_NUM_BOUND,
        ty.den <= TRANSLATION_DEN_BOUND,
    ensures
        spec_translate_applied(old(matrix).x_axis, final(matrix).x_axis, tx.frac(), ty.frac()),
        spec_translate_applied(old(matrix).y_axis, final(matrix).y_axis, tx.frac(), ty.frac()),
        spec_translate_applied(old(matrix).z_axis, final(matrix).z_axis, tx.frac(), ty.frac()),
        spec_translate_applied(old(matrix).w_axis, final(matrix).w_axis, tx.frac(), ty.frac()),
{
    let m = Mat4 {
        x_axis: translate_column(&matrix.x_axis, tx, ty),
        y_axis: translate_column(&matrix.y_axis, tx, ty),
        z_axis: translate_column(&matrix.z_axis, tx, ty),
        w_axis: translate_column(&matrix.w_axis, tx, ty),
    };
    *matrix = m;
}

/// `e + t * 0` keeps the value of `e`.
proof fn lemma_entry_plus_zero_w(e: (int, int), t: (int, int))
    by (nonlinear_arith)
    requires
        e.1 > 0,
        t.1 > 0,
    ensures
        frac_eq(frac_add(e, frac_mul(t, (0int, 1int))), e),
{
}

/// `0 + t * 1` has the value of `t`.
proof fn lemma_zero_plus_t(t: (int, int))
    by (nonlinear_arith)
    requires
        t.1 > 0,
    ensures
        frac_eq(frac_add((0int, 1int), frac_mul(t, (1int, 1int))), t),
{
}

/// Applying the translation to the identity matrix yields a pure
/// translation matrix: the first three columns still have the identity's
/// values, and the last column holds exactly `tx` and `ty` in its `x` and
/// `y` entries, with `z` unaffected.
pub proof fn lemma_translation_of_identity(n: Mat4, tx: (int, int), ty: (int, int))
    requires
        tx.1 > 0,
        ty.1 > 0,
        spec_translate_applied(spec_identity().x_axis, n.x_axis, tx, ty),
        spec_translate_applied(spec_identity().y_axis, n.y_axis, tx, ty),
        spec_translate_applied(spec_identity().z_axis, n.z_axis, tx, ty),
        spec_translate_applied(spec_identity().w_axis, n.w_axis, tx, ty),
    ensures
        frac_eq(n.x_axis.x.frac(), (1int, 1int)),
        frac_eq(n.x_axis.y.frac(), (0int, 1int)),
        n.x_axis.z == spec_rat_zero() && n.x_axis.w == spec_rat_zero(),
        frac_eq(n.y_axis.x.frac(), (0int, 1int)),
        frac_eq(n.y_axis.y.frac(), (1int, 1int)),
        n.y_axis.z == spec_rat_zero() && n.y_axis.w == spec_rat_zero(),
        frac_eq(n.z_axis.x.frac(), (0int, 1int)),
        frac_eq(n.z_axis.y.frac(), (0int, 1int)),
        n.z_axis.z == spec_rat_one() && n.z_axis.w == spec_rat_zero(),
        frac_eq(n.w_axis.x.frac(), tx),
        frac_eq(n.w_axis.y.frac(), ty),
        n.w_axis.z == spec_rat_zero() && n.w_axis.w == spec_rat_one(),
{
    lemma_entry_plus_zero_w((1int, 1int), tx);
    lemma_entry_plus_zero_w((1int, 1int), ty);
    lemma_entry_plus_zero_w((0int, 1int), tx);
    lemma_entry_plus_zero_w((0int, 1int), ty);
    lemma_zero_plus_t(tx);
    lemma_zero_plus_t(ty);
}

} // verus!
