//! The transform matrix: a 3-by-3 matrix of 32-bit scalars, packed row-major.
//!
//! The nine slots are, in storage order: scale-x, skew-x, translate-x,
//! skew-y, scale-y, translate-y, and the three perspective terms. Each slot
//! holds the bit pattern of its scalar (see [`crate::scalar`]). Everything
//! the matrix type itself defines — slot access, the bulk nine-slot and
//! six-slot affine forms, and the classification mask computed from scalar
//! comparisons — is stated and proved here. Scalar arithmetic (composition,
//! inversion, rotation by an angle, the fitting solvers and the
//! epsilon-tolerant similarity tests) is the engine's and is not redefined.

use vstd::prelude::*;

use crate::scalar::SCALAR_ONE;
use crate::scalar::SCALAR_ZERO;
use crate::scalar::scalar_is_one;
use crate::scalar::scalar_is_zero;
use crate::scalar::scalar_eq;
use crate::scalar::scalar_neg;
use crate::scalar::scalar_eq_one;
use crate::scalar::scalar_eq_zero;
use crate::scalar::scalars_equal;
use crate::scalar::scalar_negated;

verus! {

/// A point or direction: two 32-bit scalars, each held as its bit pattern.
#[derive(Clone, Copy, Debug)]
pub struct Point {
    pub x: u32,
    pub y: u32,
}

impl Point {
    /// The point with the two given coordinates.
    pub fn new(x: u32, y: u32) -> (r: Point)
        ensures
            r == (Point { x, y }),
    {
        Point { x, y }
    }
}

impl PartialEq for Point {
    /// Points are equal when their coordinates are equal as scalars, as for
    /// the matrix: the two zeroes are one scalar, a NaN equals nothing.
    fn eq(&self, other: &Self) -> (r: bool) {
        scalars_equal(self.x, other.x) && scalars_equal(self.y, other.y)
    }
}

impl vstd::std_specs::cmp::PartialEqSpecImpl for Point {
    open spec fn obeys_eq_spec() -> bool {
        true
    }

    open spec fn eq_spec(&self, other: &Point) -> bool {
        scalar_eq(self.x, other.x) && scalar_eq(self.y, other.y)
    }
}

/// A direction is a point used as an offset.
pub type Vector = Point;

/// The nine slots of the full matrix, in storage order.
#[derive(Clone, Copy, Debug)]
pub enum MatrixMember {
    ScaleX,
    SkewX,
    TransX,
    SkewY,
    ScaleY,
    TransY,
    Persp0,
    Persp1,
    Persp2,
}

impl MatrixMember {
    /// Storage index of the slot.
    pub open spec fn spec_index(self) -> usize {
        match self {
            MatrixMember::ScaleX => 0,
            MatrixMember::SkewX => 1,
            MatrixMember::TransX => 2,
            MatrixMember::SkewY => 3,
            MatrixMember::ScaleY => 4,
            MatrixMember::TransY => 5,
            MatrixMember::Persp0 => 6,
            MatrixMember::Persp1 => 7,
            MatrixMember::Persp2 => 8,
        }
    }

    /// Storage index of the slot.
    #[verifier::when_used_as_spec(spec_index)]
    pub fn index(self) -> (r: usize)
        ensures
            r == self.spec_index(),
    {
        match self {
            MatrixMember::ScaleX => 0,
            MatrixMember::SkewX => 1,
            MatrixMember::TransX => 2,
            MatrixMember::SkewY => 3,
            MatrixMember::ScaleY => 4,
            MatrixMember::TransY => 5,
            MatrixMember::Persp0 => 6,
            MatrixMember::Persp1 => 7,
            MatrixMember::Persp2 => 8,
        }
    }
}

/// The six slots of the affine form, in its storage order. Used both to
/// index the affine array and, like the full enumeration, to index the
/// matrix slots directly by the same ordinal.
#[derive(Clone, Copy, Debug)]
pub enum AffineMatrixMember {
    ScaleX,
    SkewY,
    SkewX,
    ScaleY,
    TransX,
    TransY,
}

impl AffineMatrixMember {
    /// Ordinal of the slot in the affine form.
    pub open spec fn spec_index(self) -> usize {
        match self {
            AffineMatrixMember::ScaleX => 0,
            AffineMatrixMember::SkewY => 1,
            AffineMatrixMember::SkewX => 2,
            AffineMatrixMember::ScaleY => 3,
            AffineMatrixMember::TransX => 4,
            AffineMatrixMember::TransY => 5,
        }
    }

    /// Ordinal of the slot in the affine form.
    #[verifier::when_used_as_spec(spec_index)]
    pub fn index(self) -> (r: usize)
        ensures
            r == self.spec_index(),
    {
        match self {
            AffineMatrixMember::ScaleX => 0,
            AffineMatrixMember::SkewY => 1,
            AffineMatrixMember::SkewX => 2,
            AffineMatrixMember::ScaleY => 3,
            AffineMatrixMember::TransX => 4,
            AffineMatrixMember::TransY => 5,
        }
    }
}

/// No classification bit: the identity mask.
pub const TYPE_MASK_IDENTITY: u32 = 0;

/// Classification bit: the matrix translates.
pub const TYPE_MASK_TRANSLATE: u32 = 1;

/// Classification bit: the matrix scales.
pub const TYPE_MASK_SCALE: u32 = 2;

/// Classification bit: the matrix skews or rotates.
pub const TYPE_MASK_AFFINE: u32 = 4;

/// Classification bit: the matrix has a perspective component.
pub const TYPE_MASK_PERSPECTIVE: u32 = 8;

/// The classification mask of a matrix: a word of the four
/// `TYPE_MASK` bits.
#[derive(Clone, Copy, PartialEq, Eq, Structural, Debug)]
pub struct MatrixTypeMask {
    pub bits: u32,
}

impl MatrixTypeMask {
    /// No bit is set: the identity classification.
    pub fn is_empty(&self) -> (r: bool)
        ensures
            r == (self.bits == TYPE_MASK_IDENTITY),
    {
        self.bits == TYPE_MASK_IDENTITY
    }
}

/// The transform matrix: nine packed 32-bit scalars, row-major, each held
/// as its bit pattern.
#[derive(Clone, Copy, Debug)]
pub struct Matrix {
    pub scale_x: u32,
    pub skew_x: u32,
    pub trans_x: u32,
    pub skew_y: u32,
    pub scale_y: u32,
    pub trans_y: u32,
    pub persp_0: u32,
    pub persp_1: u32,
    pub persp_2: u32,
}

impl View for Matrix {
    type V = Seq<u32>;

    /// The nine slots in storage order.
    open spec fn view(&self) -> Seq<u32> {
        seq![
            self.scale_x,
            self.skew_x,
            self.trans_x,
            self.skew_y,
            self.scale_y,
            self.trans_y,
            self.persp_0,
            self.persp_1,
            self.persp_2,
        ]
    }
}

impl Matrix {
    /// The identity matrix: ones on the diagonal, zeroes elsewhere.
    pub open spec fn spec_identity() -> Matrix {
        Matrix {
            scale_x: SCALAR_ONE,
            skew_x: SCALAR_ZERO,
            trans_x: SCALAR_ZERO,
            skew_y: SCALAR_ZERO,
            scale_y: SCALAR_ONE,
            trans_y: SCALAR_ZERO,
            persp_0: SCALAR_ZERO,
            persp_1: SCALAR_ZERO,
            persp_2: SCALAR_ONE,
        }
    }

    /// The matrix that scales by (sx, sy) about the origin.
    pub open spec fn spec_scale(sx: u32, sy: u32) -> Matrix {
        Matrix { scale_x: sx, scale_y: sy, ..Matrix::spec_identity() }
    }

    /// The matrix that translates by (dx, dy).
    pub open spec fn spec_translation(dx: u32, dy: u32) -> Matrix {
        Matrix { trans_x: dx, trans_y: dy, ..Matrix::spec_identity() }
    }

    /// The rotation matrix for an angle given by its sine and cosine: the
    /// cosine on the diagonal, the sine and its negation on the skew slots.
    pub open spec fn spec_sin_cos(sin_value: u32, cos_value: u32) -> Matrix {
        Matrix {
            scale_x: cos_value,
            skew_x: scalar_neg(sin_value),
            skew_y: sin_value,
            scale_y: cos_value,
            ..Matrix::spec_identity()
        }
    }

    /// The matrix that skews by (kx, ky) about the origin.
    pub open spec fn spec_skew(kx: u32, ky: u32) -> Matrix {
        Matrix { skew_x: kx, skew_y: ky, ..Matrix::spec_identity() }
    }

    /// The six slots of the affine form, in its storage order:
    /// scale-x, skew-y, skew-x, scale-y, translate-x, translate-y.
    pub open spec fn spec_affine(self) -> Seq<u32> {
        seq![self.scale_x, self.skew_y, self.skew_x, self.scale_y, self.trans_x, self.trans_y]
    }

    /// The affine form of the matrix: its six affine slots when it has no
    /// perspective component, nothing otherwise.
    pub open spec fn spec_as_affine(self) -> Option<Seq<u32>> {
        if self.has_perspective_component() {
            None
        } else {
            Some(self.spec_affine())
        }
    }

    /// The matrix whose affine slots are the six given scalars and whose
    /// perspective row is (0, 0, 1).
    pub open spec fn spec_from_affine(a: Seq<u32>) -> Matrix
        recommends
            a.len() == 6,
    {
        Matrix {
            scale_x: a[0],
            skew_y: a[1],
            skew_x: a[2],
            scale_y: a[3],
            trans_x: a[4],
            trans_y: a[5],
            ..Matrix::spec_identity()
        }
    }

    /// All nine slots equal as scalars, slot by slot.
    pub open spec fn spec_scalars_eq(self, other: Matrix) -> bool {
        &&& scalar_eq(self.scale_x, other.scale_x)
        &&& scalar_eq(self.skew_x, other.skew_x)
        &&& scalar_eq(self.trans_x, other.trans_x)
        &&& scalar_eq(self.skew_y, other.skew_y)
        &&& scalar_eq(self.scale_y, other.scale_y)
        &&& scalar_eq(self.trans_y, other.trans_y)
        &&& scalar_eq(self.persp_0, other.persp_0)
        &&& scalar_eq(self.persp_1, other.persp_1)
        &&& scalar_eq(self.persp_2, other.persp_2)
    }

    /// The matrix whose slots are the nine given scalars, in storage order.
    pub open spec fn spec_from_entries(s: Seq<u32>) -> Matrix
        recommends
            s.len() == 9,
    {
        Matrix {
            scale_x: s[0],
            skew_x: s[1],
            trans_x: s[2],
            skew_y: s[3],
            scale_y: s[4],
            trans_y: s[5],
            persp_0: s[6],
            persp_1: s[7],
            persp_2: s[8],
        }
    }

    /// The perspective row differs from (0, 0, 1).
    pub open spec fn has_perspective_component(self) -> bool {
        !(scalar_is_zero(self.persp_0) && scalar_is_zero(self.persp_1) && scalar_is_one(
            self.persp_2,
        ))
    }

    /// A translation slot differs from zero.
    pub open spec fn has_translation_component(self) -> bool {
        !(scalar_is_zero(self.trans_x) && scalar_is_zero(self.trans_y))
    }

    /// A skew slot differs from zero.
    pub open spec fn has_skew_component(self) -> bool {
        !(scalar_is_zero(self.skew_x) && scalar_is_zero(self.skew_y))
    }

    /// A scale slot differs from one.
    pub open spec fn has_scale_component(self) -> bool {
        !(scalar_is_one(self.scale_x) && scalar_is_one(self.scale_y))
    }

    /// The classification mask. A perspective component makes every bit
    /// owed; a skew component is counted as scaling too, since a skew can
    /// induce scale; otherwise the translate and scale bits follow their
    /// slots.
    pub open spec fn type_mask(self) -> u32 {
        if self.has_perspective_component() {
            15
        } else if self.has_skew_component() {
            if self.has_translation_component() {
                7
            } else {
                6
            }
        } else if self.has_scale_component() {
            if self.has_translation_component() {
                3
            } else {
                2
            }
        } else if self.has_translation_component() {
            1
        } else {
            0
        }
    }

    /// Every slot classifies as the identity's.
    pub open spec fn is_identity_matrix(self) -> bool {
        &&& !self.has_perspective_component()
        &&& !self.has_translation_component()
        &&& !self.has_skew_component()
        &&& !self.has_scale_component()
    }

    /// Mapped rectangles stay rectangles: no perspective, and either no skew
    /// with both scales non-zero, or pure skew (both scales zero, both skews
    /// non-zero), which maps the axes onto each other.
    pub open spec fn keeps_rects(self) -> bool {
        &&& !self.has_perspective_component()
        &&& if self.has_skew_component() {
            &&& scalar_is_zero(self.scale_x)
            &&& scalar_is_zero(self.scale_y)
            &&& !scalar_is_zero(self.skew_x)
            &&& !scalar_is_zero(self.skew_y)
        } else {
            &&& !scalar_is_zero(self.scale_x)
            &&& !scalar_is_zero(self.scale_y)
        }
    }

    /// Decides whether the perspective row differs from (0, 0, 1).
    pub fn has_perspective(&self) -> (r: bool)
        ensures
            r == self.has_perspective_component(),
    {
        !(scalar_eq_zero(self.persp_0) && scalar_eq_zero(self.persp_1) && scalar_eq_one(
            self.persp_2,
        ))
    }

    /// The classification mask of this matrix.
    pub fn get_type(&self) -> (r: MatrixTypeMask)
        ensures
            r.bits == self.type_mask(),
    {
        let bits: u32 = if self.has_perspective() {
            15
        } else {
            let skew = !(scalar_eq_zero(self.skew_x) && scalar_eq_zero(self.skew_y));
            let scale = !(scalar_eq_one(self.scale_x) && scalar_eq_one(self.scale_y));
            let trans = !(scalar_eq_zero(self.trans_x) && scalar_eq_zero(self.trans_y));
            if skew {
                if trans {
                    7
                } else {
                    6
                }
            } else if scale {
                if trans {
                    3
                } else {
                    2
                }
            } else if trans {
                1
            } else {
                0
            }
        };
        MatrixTypeMask { bits }
    }

    /// The matrix classifies as the identity.
    pub fn is_identity(&self) -> (r: bool)
        ensures
            r == self.is_identity_matrix(),
            r == (self.type_mask() == TYPE_MASK_IDENTITY),
    {
        self.get_type().is_empty()
    }

    /// The matrix at most scales and translates: no skew, no perspective,
    /// so no bit above `TYPE_MASK_TRANSLATE | TYPE_MASK_SCALE` is set.
    pub fn is_scale_translate(&self) -> (r: bool)
        ensures
            r == (!self.has_perspective_component() && !self.has_skew_component()),
            r == (self.type_mask() <= TYPE_MASK_TRANSLATE + TYPE_MASK_SCALE),
    {
        !self.has_perspective() && scalar_eq_zero(self.skew_x) && scalar_eq_zero(self.skew_y)
    }

    /// The matrix at most translates: no bit above `TYPE_MASK_TRANSLATE` is
    /// set.
    pub fn is_translate(&self) -> (r: bool)
        ensures
            r
                == (!self.has_perspective_component() && !self.has_skew_component()
                && !self.has_scale_component()),
            r == (self.type_mask() <= TYPE_MASK_TRANSLATE),
    {
        let mask = self.get_type();
        mask.bits == TYPE_MASK_IDENTITY || mask.bits == TYPE_MASK_TRANSLATE
    }

    /// Mapped rectangles stay rectangles.
    pub fn rect_stays_rect(&self) -> (r: bool)
        ensures
            r == self.keeps_rects(),
    {
        if self.has_perspective() {
            false
        } else if !(scalar_eq_zero(self.skew_x) && scalar_eq_zero(self.skew_y)) {
            scalar_eq_zero(self.scale_x) && scalar_eq_zero(self.scale_y) && !scalar_eq_zero(
                self.skew_x,
            ) && !scalar_eq_zero(self.skew_y)
        } else {
            !scalar_eq_zero(self.scale_x) && !scalar_eq_zero(self.scale_y)
        }
    }

    /// The matrix maps axis-aligned edges to axis-aligned edges: the same
    /// test as [`Matrix::rect_stays_rect`].
    pub fn preserves_axis_alignment(&self) -> (r: bool)
        ensures
            r == self.keeps_rects(),
    {
        self.rect_stays_rect()
    }

    /// The identity matrix.
    pub fn new_identity() -> (m: Matrix)
        ensures
            m == Matrix::spec_identity(),
    {
        Matrix {
            scale_x: SCALAR_ONE,
            skew_x: SCALAR_ZERO,
            trans_x: SCALAR_ZERO,
            skew_y: SCALAR_ZERO,
            scale_y: SCALAR_ONE,
            trans_y: SCALAR_ZERO,
            persp_0: SCALAR_ZERO,
            persp_1: SCALAR_ZERO,
            persp_2: SCALAR_ONE,
        }
    }

    /// Resets the matrix to the identity.
    pub fn reset(&mut self)
        ensures
            *final(self) == Matrix::spec_identity(),
    {
        *self = Matrix::new_identity();
    }

    /// Resets the matrix to the identity.
    pub fn set_identity(&mut self)
        ensures
            *final(self) == Matrix::spec_identity(),
    {
        self.reset();
    }

    /// The slot at the given storage index.
    pub fn index(&self, ix: usize) -> (r: u32)
        requires
            ix < 9,
        ensures
            r == self@[ix as int],
    {
        match ix {
            0 => self.scale_x,
            1 => self.skew_x,
            2 => self.trans_x,
            3 => self.skew_y,
            4 => self.scale_y,
            5 => self.trans_y,
            6 => self.persp_0,
            7 => self.persp_1,
            _ => self.persp_2,
        }
    }

    /// Replaces the slot at the given storage index.
    pub fn set_index(&mut self, ix: usize, v: u32)
        requires
            ix < 9,
        ensures
            final(self)@ == old(self)@.update(ix as int, v),
    {
        match ix {
            0 => self.scale_x = v,
            1 => self.skew_x = v,
            2 => self.trans_x = v,
            3 => self.skew_y = v,
            4 => self.scale_y = v,
            5 => self.trans_y = v,
            6 => self.persp_0 = v,
            7 => self.persp_1 = v,
            _ => self.persp_2 = v,
        }
        proof {
            assert(self@ =~= old(self)@.update(ix as int, v));
        }
    }

    /// Copies the nine slots into the buffer, in storage order.
    pub fn get_9(&self, buffer: &mut [u32; 9])
        ensures
            final(buffer)@ == self@,
    {
        buffer[0] = self.scale_x;
        buffer[1] = self.skew_x;
        buffer[2] = self.trans_x;
        buffer[3] = self.skew_y;
        buffer[4] = self.scale_y;
        buffer[5] = self.trans_y;
        buffer[6] = self.persp_0;
        buffer[7] = self.persp_1;
        buffer[8] = self.persp_2;
        proof {
            assert(buffer@ =~= self@);
        }
    }

    /// Replaces the nine slots with the buffer's scalars, in storage order.
    pub fn set_9(&mut self, buffer: &[u32; 9])
        ensures
            *final(self) == Matrix::spec_from_entries(buffer@),
            final(self)@ == buffer@,
    {
        self.scale_x = buffer[0];
        self.skew_x = buffer[1];
        self.trans_x = buffer[2];
        self.skew_y = buffer[3];
        self.scale_y = buffer[4];
        self.trans_y = buffer[5];
        self.persp_0 = buffer[6];
        self.persp_1 = buffer[7];
        self.persp_2 = buffer[8];
        proof {
            assert(self@ =~= buffer@);
        }
    }

    /// The slot at the given full-matrix member.
    pub fn get(&self, member: MatrixMember) -> (r: u32)
        ensures
            r == self@[member.spec_index() as int],
    {
        self.index(member.index())
    }

    /// Replaces the slot at the given full-matrix member.
    pub fn set(&mut self, member: MatrixMember, v: u32)
        ensures
            final(self)@ == old(self)@.update(member.spec_index() as int, v),
    {
        let ix = member.index();
        self.set_index(ix, v);
    }

    /// The matrix slot at the affine member's ordinal: the affine
    /// enumeration indexes the same nine-slot storage by its own order.
    pub fn get_affine(&self, member: AffineMatrixMember) -> (r: u32)
        ensures
            r == self@[member.spec_index() as int],
    {
        self.index(member.index())
    }

    /// Replaces the matrix slot at the affine member's ordinal.
    pub fn set_affine(&mut self, member: AffineMatrixMember, v: u32)
        ensures
            final(self)@ == old(self)@.update(member.spec_index() as int, v),
    {
        let ix = member.index();
        self.set_index(ix, v);
    }

    /// The scale-x slot.
    pub fn get_scale_x(&self) -> (r: u32)
        ensures
            r == self.scale_x,
    {
        self.scale_x
    }

    /// The scale-y slot.
    pub fn get_scale_y(&self) -> (r: u32)
        ensures
            r == self.scale_y,
    {
        self.scale_y
    }

    /// The skew-y slot.
    pub fn get_skew_y(&self) -> (r: u32)
        ensures
            r == self.skew_y,
    {
        self.skew_y
    }

    /// The skew-x slot.
    pub fn get_skew_x(&self) -> (r: u32)
        ensures
            r == self.skew_x,
    {
        self.skew_x
    }

    /// The translate-x slot.
    pub fn get_translate_x(&self) -> (r: u32)
        ensures
            r == self.trans_x,
    {
        self.trans_x
    }

    /// The translate-y slot.
    pub fn get_translate_y(&self) -> (r: u32)
        ensures
            r == self.trans_y,
    {
        self.trans_y
    }

    /// The first perspective slot.
    pub fn get_persp_x(&self) -> (r: u32)
        ensures
            r == self.persp_0,
    {
        self.persp_0
    }

    /// The second perspective slot.
    pub fn get_persp_y(&self) -> (r: u32)
        ensures
            r == self.persp_1,
    {
        self.persp_1
    }

    /// Replaces the scale-x slot.
    pub fn set_scale_x(&mut self, v: u32)
        ensures
            *final(self) == (Matrix { scale_x: v, ..*old(self) }),
    {
        self.scale_x = v;
    }

    /// Replaces the scale-y slot.
    pub fn set_scale_y(&mut self, v: u32)
        ensures
            *final(self) == (Matrix { scale_y: v, ..*old(self) }),
    {
        self.scale_y = v;
    }

    /// Replaces the skew-y slot.
    pub fn set_skew_y(&mut self, v: u32)
        ensures
            *final(self) == (Matrix { skew_y: v, ..*old(self) }),
    {
        self.skew_y = v;
    }

    /// Replaces the skew-x slot.
    pub fn set_skew_x(&mut self, v: u32)
        ensures
            *final(self) == (Matrix { skew_x: v, ..*old(self) }),
    {
        self.skew_x = v;
    }

    /// Replaces the translate-x slot.
    pub fn set_translate_x(&mut self, v: u32)
        ensures
            *final(self) == (Matrix { trans_x: v, ..*old(self) }),
    {
        self.trans_x = v;
    }

    /// Replaces the translate-y slot.
    pub fn set_translate_y(&mut self, v: u32)
        ensures
            *final(self) == (Matrix { trans_y: v, ..*old(self) }),
    {
        self.trans_y = v;
    }

    /// Replaces the first perspective slot.
    pub fn set_persp_x(&mut self, v: u32)
        ensures
            *final(self) == (Matrix { persp_0: v, ..*old(self) }),
    {
        self.persp_0 = v;
    }

    /// Replaces the second perspective slot.
    pub fn set_persp_y(&mut self, v: u32)
        ensures
            *final(self) == (Matrix { persp_1: v, ..*old(self) }),
    {
        self.persp_1 = v;
    }

    /// The matrix that scales by (sx, sy) about the origin.
    pub fn new_scale(sx: u32, sy: u32) -> (m: Matrix)
        ensures
            m == Matrix::spec_scale(sx, sy),
    {
        let mut m = Matrix::new_identity();
        m.scale_x = sx;
        m.scale_y = sy;
        m
    }

    /// The matrix that translates by (dx, dy).
    pub fn new_trans(dx: u32, dy: u32) -> (m: Matrix)
        ensures
            m == Matrix::spec_translation(dx, dy),
    {
        let mut m = Matrix::new_identity();
        m.trans_x = dx;
        m.trans_y = dy;
        m
    }

    /// The matrix with all nine slots given, in storage order.
    pub fn new_all(
        scale_x: u32,
        skew_x: u32,
        trans_x: u32,
        skew_y: u32,
        scale_y: u32,
        trans_y: u32,
        pers_0: u32,
        pers_1: u32,
        pers_2: u32,
    ) -> (m: Matrix)
        ensures
            m == (Matrix {
                scale_x,
                skew_x,
                trans_x,
                skew_y,
                scale_y,
                trans_y,
                persp_0: pers_0,
                persp_1: pers_1,
                persp_2: pers_2,
            }),
    {
        Matrix {
            scale_x,
            skew_x,
            trans_x,
            skew_y,
            scale_y,
            trans_y,
            persp_0: pers_0,
            persp_1: pers_1,
            persp_2: pers_2,
        }
    }

    /// Makes the matrix the translation by the given offset.
    pub fn set_translate(&mut self, v: Vector)
        ensures
            *final(self) == Matrix::spec_translation(v.x, v.y),
    {
        *self = Matrix::new_trans(v.x, v.y);
    }

    /// Makes the matrix the scaling by (sx, sy) about the origin. Scaling
    /// about another pivot takes the engine's scalar arithmetic.
    pub fn set_scale(&mut self, sx: u32, sy: u32)
        ensures
            *final(self) == Matrix::spec_scale(sx, sy),
    {
        *self = Matrix::new_scale(sx, sy);
    }

    /// Makes the matrix the rotation about the origin whose angle has the
    /// given sine and cosine. Rotation about another pivot, or by an angle
    /// in degrees, takes the engine's scalar arithmetic.
    pub fn set_sin_cos(&mut self, sin_value: u32, cos_value: u32)
        ensures
            *final(self) == Matrix::spec_sin_cos(sin_value, cos_value),
    {
        let mut m = Matrix::new_identity();
        m.scale_x = cos_value;
        m.skew_x = scalar_negated(sin_value);
        m.skew_y = sin_value;
        m.scale_y = cos_value;
        *self = m;
    }

    /// Makes the matrix the skew by (kx, ky) about the origin. Skewing
    /// about another pivot takes the engine's scalar arithmetic.
    pub fn set_skew(&mut self, kx: u32, ky: u32)
        ensures
            *final(self) == Matrix::spec_skew(kx, ky),
    {
        let mut m = Matrix::new_identity();
        m.skew_x = kx;
        m.skew_y = ky;
        *self = m;
    }

    /// Fills the six-slot buffer with the affine form of the identity.
    pub fn set_affine_identity(affine: &mut [u32; 6])
        ensures
            final(affine)@ == Matrix::spec_identity().spec_affine(),
    {
        affine[0] = SCALAR_ONE;
        affine[1] = SCALAR_ZERO;
        affine[2] = SCALAR_ZERO;
        affine[3] = SCALAR_ONE;
        affine[4] = SCALAR_ZERO;
        affine[5] = SCALAR_ZERO;
        proof {
            assert(affine@ =~= Matrix::spec_identity().spec_affine());
        }
    }

    /// The affine form of the matrix: its six affine slots, or nothing when
    /// the matrix has a perspective component. The matrix is not changed.
    pub fn as_affine(&mut self) -> (r: Option<[u32; 6]>)
        ensures
            *final(self) == *old(self),
            r is Some <==> !old(self).has_perspective_component(),
            r matches Some(a) ==> a@ == old(self).spec_affine(),
    {
        if self.has_perspective() {
            None
        } else {
            let a: [u32; 6] = [
                self.scale_x,
                self.skew_y,
                self.skew_x,
                self.scale_y,
                self.trans_x,
                self.trans_y,
            ];
            proof {
                assert(a@ =~= self.spec_affine());
            }
            Some(a)
        }
    }

    /// The matrix whose affine slots are the buffer's six scalars and whose
    /// perspective row is (0, 0, 1).
    pub fn new_affine(affine: &[u32; 6]) -> (m: Matrix)
        ensures
            m == Matrix::spec_from_affine(affine@),
    {
        let mut m = Matrix::new_identity();
        m.scale_x = affine[0];
        m.skew_y = affine[1];
        m.skew_x = affine[2];
        m.scale_y = affine[3];
        m.trans_x = affine[4];
        m.trans_y = affine[5];
        m
    }

    /// The polygon fit's result, gated by the library's own length check:
    /// lists of unequal length fit nothing, whatever the solver said. The
    /// solving itself — mapping each source point onto its destination —
    /// is the engine's scalar arithmetic, and its outcome is taken as the
    /// argument.
    pub fn poly_to_poly_outcome(src: &Vec<Point>, dst: &Vec<Point>, solved: Option<Matrix>) -> (r:
        Option<Matrix>)
        ensures
            src@.len() != dst@.len() ==> r is None,
            src@.len() == dst@.len() ==> r == solved,
    {
        if src.len() != dst.len() {
            None
        } else {
            solved
        }
    }
}

impl PartialEq for Matrix {
    /// Matrices are equal when their slots are equal as scalars — not when
    /// their bits are: a slot holding -0.0 equals one holding 0.0, and a
    /// matrix with a NaN slot equals nothing, itself included.
    fn eq(&self, other: &Self) -> (r: bool) {
        scalars_equal(self.scale_x, other.scale_x) && scalars_equal(self.skew_x, other.skew_x)
            && scalars_equal(self.trans_x, other.trans_x) && scalars_equal(
            self.skew_y,
            other.skew_y,
        ) && scalars_equal(self.scale_y, other.scale_y) && scalars_equal(
            self.trans_y,
            other.trans_y,
        ) && scalars_equal(self.persp_0, other.persp_0) && scalars_equal(
            self.persp_1,
            other.persp_1,
        ) && scalars_equal(self.persp_2, other.persp_2)
    }
}

impl vstd::std_specs::cmp::PartialEqSpecImpl for Matrix {
    open spec fn obeys_eq_spec() -> bool {
        true
    }

    open spec fn eq_spec(&self, other: &Matrix) -> bool {
        self.spec_scalars_eq(*other)
    }
}

/// Each classification bit of the mask, read on its own, reports its
/// component: a perspective component makes every bit owed, a skew
/// component makes the scale bit owed too, and the translate and scale
/// bits otherwise follow their slots.
pub proof fn lemma_type_mask_bits(m: Matrix)
    ensures
        (m.type_mask() & TYPE_MASK_PERSPECTIVE != 0) <==> m.has_perspective_component(),
        (m.type_mask() & TYPE_MASK_AFFINE != 0) <==> (m.has_perspective_component()
            || m.has_skew_component()),
        (m.type_mask() & TYPE_MASK_SCALE != 0) <==> (m.has_perspective_component()
            || m.has_skew_component() || m.has_scale_component()),
        (m.type_mask() & TYPE_MASK_TRANSLATE != 0) <==> (m.has_perspective_component()
            || m.has_translation_component()),
{
    assert(0u32 & 1 == 0 && 0u32 & 2 == 0 && 0u32 & 4 == 0 && 0u32 & 8 == 0) by (bit_vector);
    assert(1u32 & 1 == 1 && 1u32 & 2 == 0 && 1u32 & 4 == 0 && 1u32 & 8 == 0) by (bit_vector);
    assert(2u32 & 1 == 0 && 2u32 & 2 == 2 && 2u32 & 4 == 0 && 2u32 & 8 == 0) by (bit_vector);
    assert(3u32 & 1 == 1 && 3u32 & 2 == 2 && 3u32 & 4 == 0 && 3u32 & 8 == 0) by (bit_vector);
    assert(6u32 & 1 == 0 && 6u32 & 2 == 2 && 6u32 & 4 == 4 && 6u32 & 8 == 0) by (bit_vector);
    assert(7u32 & 1 == 1 && 7u32 & 2 == 2 && 7u32 & 4 == 4 && 7u32 & 8 == 0) by (bit_vector);
    assert(15u32 & 1 == 1 && 15u32 & 2 == 2 && 15u32 & 4 == 4 && 15u32 & 8 == 8) by (bit_vector);
}

/// Round trip of the bulk nine-slot form: a matrix filled from nine scalars
/// reads the same nine scalars back.
pub proof fn lemma_nine_slot_round_trip(s: Seq<u32>)
    requires
        s.len() == 9,
    ensures
        Matrix::spec_from_entries(s)@ == s,
{
    assert(Matrix::spec_from_entries(s)@ =~= s);
}

/// Round trip of the affine form: a matrix built from any six affine scalars
/// has no perspective component and yields exactly those scalars back as its
/// affine form.
pub proof fn lemma_affine_round_trip(a: Seq<u32>)
    requires
        a.len() == 6,
    ensures
        Matrix::spec_from_affine(a).spec_as_affine() == Some(a),
{
    let m = Matrix::spec_from_affine(a);
    assert(!m.has_perspective_component());
    assert(m.spec_affine() =~= a);
}

} // verus!

