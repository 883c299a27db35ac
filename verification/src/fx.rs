//! Exact 16.16 fixed-point scalars.
//!
//! A scalar is an `i64` holding `value * 65536`. Multiplication and
//! division truncate toward zero, like the hardware operations they
//! stand in for; both are implemented on unsigned magnitudes so that
//! every result is pinned exactly by a spec function.

use vstd::prelude::*;

verus! {

/// Raw representation of a 16.16 fixed-point scalar.
pub type Fx = i64;

/// The fixed-point representation of one.
pub const FX_ONE: i64 = 65536;

/// Magnitude bound for positions, scales and matrix entries.
pub const FX_LIMIT: i64 = 0x80_0000_0000;

/// Magnitude bound for unit-quaternion components (generous: allows
/// raw values up to sixteen, while a unit component stays within one).
pub const FX_QUAT_LIMIT: i64 = 0x10_0000;

pub open spec fn iabs(x: int) -> int {
    if x >= 0 {
        x
    } else {
        -x
    }
}

/// Truncating (toward zero) division of `p` by 65536.
pub open spec fn tdiv_fx(p: int) -> int {
    if p >= 0 {
        p / 65536
    } else {
        -((-p) / 65536)
    }
}

/// What fixed-point multiplication returns.
pub open spec fn fx_mul_s(a: int, b: int) -> int {
    tdiv_fx(a * b)
}

/// What fixed-point division returns (truncated toward zero).
pub open spec fn fx_div_s(a: int, b: int) -> int
    recommends
        b != 0,
{
    if (a >= 0) == (b >= 0) {
        (iabs(a) * 65536) / iabs(b)
    } else {
        -((iabs(a) * 65536) / iabs(b))
    }
}

pub proof fn lemma_abs_mul(a: int, b: int)
    ensures
        iabs(a * b) == iabs(a) * iabs(b),
{
    if a >= 0 && b >= 0 {
        assert(a * b >= 0) by (nonlinear_arith)
            requires
                a >= 0,
                b >= 0,
        ;
    } else if a >= 0 && b < 0 {
        assert(a * b <= 0 && a * (-b) == -(a * b)) by (nonlinear_arith)
            requires
                a >= 0,
                b < 0,
        ;
    } else if a < 0 && b >= 0 {
        assert(a * b <= 0 && (-a) * b == -(a * b)) by (nonlinear_arith)
            requires
                a < 0,
                b >= 0,
        ;
    } else {
        assert(a * b >= 0 && (-a) * (-b) == a * b) by (nonlinear_arith)
            requires
                a < 0,
                b < 0,
        ;
    }
}

pub proof fn lemma_mul_le(a: int, b: int, aa: int, bb: int)
    requires
        iabs(a) <= aa,
        iabs(b) <= bb,
    ensures
        iabs(a * b) <= aa * bb,
        iabs(a) * iabs(b) <= aa * bb,
{
    lemma_abs_mul(a, b);
    let x = iabs(a);
    let y = iabs(b);
    assert(x * y <= aa * bb) by (nonlinear_arith)
        requires
            0 <= x <= aa,
            0 <= y <= bb,
    ;
}

pub proof fn lemma_tdiv_fx_bound(p: int, pp: int)
    requires
        iabs(p) <= pp,
    ensures
        iabs(tdiv_fx(p)) <= pp / 65536,
        65536 * iabs(tdiv_fx(p)) <= iabs(p),
{
    assert(iabs(tdiv_fx(p)) == iabs(p) / 65536);
    vstd::arithmetic::div_mod::lemma_div_is_ordered(iabs(p), pp, 65536);
    vstd::arithmetic::div_mod::lemma_fundamental_div_mod(iabs(p), 65536);
    vstd::arithmetic::div_mod::lemma_mod_bound(iabs(p), 65536);
}

/// Bound on a fixed-point product from bounds on its factors.
pub proof fn lemma_fx_mul_bound(a: int, b: int, aa: int, bb: int)
    requires
        iabs(a) <= aa,
        iabs(b) <= bb,
    ensures
        iabs(a * b) <= aa * bb,
        iabs(fx_mul_s(a, b)) <= (aa * bb) / 65536,
        65536 * iabs(fx_mul_s(a, b)) <= aa * bb,
{
    lemma_mul_le(a, b, aa, bb);
    lemma_tdiv_fx_bound(a * b, aa * bb);
    vstd::arithmetic::div_mod::lemma_fundamental_div_mod(aa * bb, 65536);
    vstd::arithmetic::div_mod::lemma_mod_bound(aa * bb, 65536);
}

/// Fixed-point multiplication: exact truncating product.
pub fn fx_mul(a: i64, b: i64) -> (r: i64)
    requires
        iabs(a as int * b as int) <= 0x7fff_ffff_ffff_ffff * 0x10000,
    ensures
        r as int == fx_mul_s(a as int, b as int),
{
    let neg: bool = (a < 0) != (b < 0);
    let aa: u128 = if a >= 0 {
        a as u128
    } else {
        (-(a as i128)) as u128
    };
    let bb: u128 = if b >= 0 {
        b as u128
    } else {
        (-(b as i128)) as u128
    };
    proof {
        assert(aa == iabs(a as int));
        assert(bb == iabs(b as int));
        lemma_abs_mul(a as int, b as int);
        assert(aa * bb <= 0x7fff_ffff_ffff_ffff * 0x10000);
    }
    let p: u128 = aa * bb;
    let q: u128 = p / 65536;
    proof {
        assert(q == iabs(a as int * b as int) / 65536);
        vstd::arithmetic::div_mod::lemma_div_is_ordered(
            iabs(a as int * b as int),
            (0x7fff_ffff_ffff_ffff * 0x10000) as int,
            65536,
        );
        assert(q <= 0x7fff_ffff_ffff_ffff) by {
            assert(((0x7fff_ffff_ffff_ffff * 0x10000) as int) / 65536 == 0x7fff_ffff_ffff_ffff);
        }
        let p_int = a as int * b as int;
        if !neg {
            if a >= 0 && b >= 0 {
                assert(p_int >= 0) by (nonlinear_arith)
                    requires
                        a >= 0,
                        b >= 0,
                        p_int == a as int * b as int,
                ;
            } else {
                assert(p_int >= 0) by (nonlinear_arith)
                    requires
                        a < 0,
                        b < 0,
                        p_int == a as int * b as int,
                ;
            }
            assert(tdiv_fx(p_int) == iabs(p_int) / 65536);
        } else {
            if a < 0 {
                assert(p_int <= 0) by (nonlinear_arith)
                    requires
                        a < 0,
                        b >= 0,
                        p_int == a as int * b as int,
                ;
            } else {
                assert(p_int <= 0) by (nonlinear_arith)
                    requires
                        a >= 0,
                        b < 0,
                        p_int == a as int * b as int,
                ;
            }
            if p_int == 0 {
                assert(tdiv_fx(p_int) == 0);
                assert(q == 0);
            } else {
                assert(tdiv_fx(p_int) == -(iabs(p_int) / 65536));
            }
        }
    }
    if neg {
        -(q as i64)
    } else {
        q as i64
    }
}

/// Fixed-point division: exact truncating quotient of `a / b`.
pub fn fx_div(a: i64, b: i64) -> (r: i64)
    requires
        b != 0,
        iabs(a as int) <= 0x3fff_ffff_ffff,
    ensures
        r as int == fx_div_s(a as int, b as int),
{
    let neg: bool = (a < 0) != (b < 0);
    let aa: u128 = if a >= 0 {
        a as u128
    } else {
        (-(a as i128)) as u128
    };
    let bb: u128 = if b >= 0 {
        b as u128
    } else {
        (-(b as i128)) as u128
    };
    proof {
        assert(aa == iabs(a as int));
        assert(bb == iabs(b as int));
        assert(bb >= 1);
    }
    let p: u128 = aa * 65536;
    let q: u128 = p / bb;
    proof {
        vstd::arithmetic::div_mod::lemma_div_is_ordered_by_denominator(
            aa as int * 65536,
            1,
            bb as int,
        );
        assert(q <= 0x3fff_ffff_ffff * 0x10000);
    }
    if neg {
        -(q as i64)
    } else {
        q as i64
    }
}

/// The integer square root, as a mathematical function: the unique
/// nonnegative `r` with `r * r <= n < (r + 1) * (r + 1)`.
pub open spec fn isqrt_s(n: int) -> int {
    choose|r: int| r >= 0 && #[trigger] (r * r) <= n && n < (r + 1) * (r + 1)
}

pub proof fn lemma_isqrt_is(n: int, w: int)
    requires
        w >= 0,
        w * w <= n,
        n < (w + 1) * (w + 1),
    ensures
        isqrt_s(n) == w,
{
    assert(exists|r: int| r >= 0 && #[trigger] (r * r) <= n && n < (r + 1) * (r + 1)) by {
        assert(w >= 0 && w * w <= n && n < (w + 1) * (w + 1));
    }
    let c = isqrt_s(n);
    assert(c >= 0 && c * c <= n && n < (c + 1) * (c + 1));
    assert(c == w) by (nonlinear_arith)
        requires
            c >= 0,
            c * c <= n,
            n < (c + 1) * (c + 1),
            w >= 0,
            w * w <= n,
            n < (w + 1) * (w + 1),
    ;
}

/// Integer square root: the greatest `r` with `r * r <= n`.
pub fn isqrt(n: u128) -> (r: u64)
    ensures
        (r as int) * (r as int) <= n as int,
        (n as int) < (r as int + 1) * (r as int + 1),
        r as int == isqrt_s(n as int),
{
    let mut lo: u128 = 0;
    let mut hi: u128 = 0x1_0000_0000_0000_0000;
    proof {
        assert((hi as int) * (hi as int) > n as int) by (nonlinear_arith)
            requires
                hi == 0x1_0000_0000_0000_0000,
                n <= u128::MAX,
        ;
    }
    while lo + 1 < hi
        invariant
            lo < hi,
            hi <= 0x1_0000_0000_0000_0000,
            (lo as int) * (lo as int) <= n as int,
            (n as int) < (hi as int) * (hi as int),
        decreases hi - lo,
    {
        let mid: u128 = lo + (hi - lo) / 2;
        proof {
            assert(lo < mid < hi);
            assert((mid as int) * (mid as int) <= u128::MAX) by (nonlinear_arith)
                requires
                    mid < 0x1_0000_0000_0000_0000,
            ;
        }
        if mid * mid <= n {
            lo = mid;
        } else {
            hi = mid;
        }
    }
    proof {
        assert(lo + 1 >= hi);
        assert((lo as int + 1) * (lo as int + 1) >= (hi as int) * (hi as int)) by (nonlinear_arith)
            requires
                lo as int + 1 >= hi as int,
                hi >= 1,
        ;
        assert(lo < 0x1_0000_0000_0000_0000);
        lemma_isqrt_is(n as int, lo as int);
    }
    lo as u64
}

/// A three-component fixed-point vector.
#[derive(Clone, Copy, PartialEq, Eq, Structural, Debug)]
pub struct Vec3Fx {
    pub x: i64,
    pub y: i64,
    pub z: i64,
}

impl Vec3Fx {
    /// All components within the given magnitude bound.
    pub open spec fn bounded(self, limit: int) -> bool {
        &&& iabs(self.x as int) <= limit
        &&& iabs(self.y as int) <= limit
        &&& iabs(self.z as int) <= limit
    }

    pub fn zero() -> (r: Vec3Fx)
        ensures
            r == (Vec3Fx { x: 0, y: 0, z: 0 }),
    {
        Vec3Fx { x: 0, y: 0, z: 0 }
    }

    pub fn splat(v: i64) -> (r: Vec3Fx)
        ensures
            r == (Vec3Fx { x: v, y: v, z: v }),
    {
        Vec3Fx { x: v, y: v, z: v }
    }

    pub fn add(self, o: Vec3Fx) -> (r: Vec3Fx)
        requires
            self.bounded(0x4000_0000_0000_0000),
            o.bounded(0x3fff_ffff_ffff_ffff),
        ensures
            r.x == self.x + o.x,
            r.y == self.y + o.y,
            r.z == self.z + o.z,
    {
        Vec3Fx { x: self.x + o.x, y: self.y + o.y, z: self.z + o.z }
    }

    pub fn sub(self, o: Vec3Fx) -> (r: Vec3Fx)
        requires
            self.bounded(0x4000_0000_0000_0000),
            o.bounded(0x3fff_ffff_ffff_ffff),
        ensures
            r.x == self.x - o.x,
            r.y == self.y - o.y,
            r.z == self.z - o.z,
    {
        Vec3Fx { x: self.x - o.x, y: self.y - o.y, z: self.z - o.z }
    }

    pub fn neg(self) -> (r: Vec3Fx)
        requires
            self.bounded(0x7fff_ffff_ffff_ffff),
        ensures
            r.x == -self.x,
            r.y == -self.y,
            r.z == -self.z,
    {
        Vec3Fx { x: -self.x, y: -self.y, z: -self.z }
    }

    /// Component-wise fixed-point scaling.
    pub fn scaled(self, s: i64) -> (r: Vec3Fx)
        requires
            self.bounded(FX_LIMIT as int),
            iabs(s as int) <= FX_LIMIT as int,
        ensures
            r.x as int == fx_mul_s(self.x as int, s as int),
            r.y as int == fx_mul_s(self.y as int, s as int),
            r.z as int == fx_mul_s(self.z as int, s as int),
            r.bounded((FX_LIMIT as int * FX_LIMIT as int) / 65536),
    {
        proof {
            lemma_fx_mul_bound(self.x as int, s as int, FX_LIMIT as int, FX_LIMIT as int);
            lemma_fx_mul_bound(self.y as int, s as int, FX_LIMIT as int, FX_LIMIT as int);
            lemma_fx_mul_bound(self.z as int, s as int, FX_LIMIT as int, FX_LIMIT as int);
        }
        Vec3Fx { x: fx_mul(self.x, s), y: fx_mul(self.y, s), z: fx_mul(self.z, s) }
    }

    /// The exact squared magnitude of the raw representation, as an
    /// unsigned 128-bit integer (raw units squared).
    pub fn raw_magnitude_sq(self) -> (r: u128)
        requires
            self.bounded(0x7fff_ffff_ffff_ffff),
        ensures
            r as int == iabs(self.x as int) * iabs(self.x as int) + iabs(self.y as int) * iabs(
                self.y as int,
            ) + iabs(self.z as int) * iabs(self.z as int),
    {
        let ax: u128 = if self.x >= 0 {
            self.x as u128
        } else {
            (-(self.x as i128)) as u128
        };
        let ay: u128 = if self.y >= 0 {
            self.y as u128
        } else {
            (-(self.y as i128)) as u128
        };
        let az: u128 = if self.z >= 0 {
            self.z as u128
        } else {
            (-(self.z as i128)) as u128
        };
        proof {
            assert(ax * ax <= 0x8000_0000_0000_0000 * 0x8000_0000_0000_0000) by (nonlinear_arith)
                requires
                    ax <= 0x8000_0000_0000_0000,
            ;
            assert(ay * ay <= 0x8000_0000_0000_0000 * 0x8000_0000_0000_0000) by (nonlinear_arith)
                requires
                    ay <= 0x8000_0000_0000_0000,
            ;
            assert(az * az <= 0x8000_0000_0000_0000 * 0x8000_0000_0000_0000) by (nonlinear_arith)
                requires
                    az <= 0x8000_0000_0000_0000,
            ;
        }
        ax * ax + ay * ay + az * az
    }

    /// The magnitude of the raw representation, truncated to an integer:
    /// this is the fixed-point magnitude of the vector, up to truncation.
    pub fn raw_magnitude(self) -> (r: u64)
        requires
            self.bounded(0x7fff_ffff_ffff_ffff),
        ensures
            (r as int) * (r as int) <= iabs(self.x as int) * iabs(self.x as int) + iabs(
                self.y as int,
            ) * iabs(self.y as int) + iabs(self.z as int) * iabs(self.z as int),
            iabs(self.x as int) * iabs(self.x as int) + iabs(self.y as int) * iabs(self.y as int)
                + iabs(self.z as int) * iabs(self.z as int) < (r as int + 1) * (r as int + 1),
            r as int == isqrt_s(
                iabs(self.x as int) * iabs(self.x as int) + iabs(self.y as int) * iabs(
                    self.y as int,
                ) + iabs(self.z as int) * iabs(self.z as int),
            ),
    {
        let sq: u128 = self.raw_magnitude_sq();
        isqrt(sq)
    }
}

/// A fixed-point quaternion (scalar part `w`).
#[derive(Clone, Copy, PartialEq, Eq, Structural, Debug)]
pub struct QuatFx {
    pub w: i64,
    pub x: i64,
    pub y: i64,
    pub z: i64,
}

impl QuatFx {
    pub open spec fn bounded(self, limit: int) -> bool {
        &&& iabs(self.w as int) <= limit
        &&& iabs(self.x as int) <= limit
        &&& iabs(self.y as int) <= limit
        &&& iabs(self.z as int) <= limit
    }

    pub fn identity() -> (r: QuatFx)
        ensures
            r == (QuatFx { w: FX_ONE as i64, x: 0, y: 0, z: 0 }),
            r.bounded(FX_QUAT_LIMIT as int),
    {
        QuatFx { w: FX_ONE, x: 0, y: 0, z: 0 }
    }

    /// What each component of the Hamilton product `a * b` is.
    pub open spec fn mul_w(a: QuatFx, b: QuatFx) -> int {
        fx_mul_s(a.w as int, b.w as int) - fx_mul_s(a.x as int, b.x as int) - fx_mul_s(
            a.y as int,
            b.y as int,
        ) - fx_mul_s(a.z as int, b.z as int)
    }

    pub open spec fn mul_x(a: QuatFx, b: QuatFx) -> int {
        fx_mul_s(a.w as int, b.x as int) + fx_mul_s(a.x as int, b.w as int) + fx_mul_s(
            a.y as int,
            b.z as int,
        ) - fx_mul_s(a.z as int, b.y as int)
    }

    pub open spec fn mul_y(a: QuatFx, b: QuatFx) -> int {
        fx_mul_s(a.w as int, b.y as int) - fx_mul_s(a.x as int, b.z as int) + fx_mul_s(
            a.y as int,
            b.w as int,
        ) + fx_mul_s(a.z as int, b.x as int)
    }

    pub open spec fn mul_z(a: QuatFx, b: QuatFx) -> int {
        fx_mul_s(a.w as int, b.z as int) + fx_mul_s(a.x as int, b.y as int) - fx_mul_s(
            a.y as int,
            b.x as int,
        ) + fx_mul_s(a.z as int, b.w as int)
    }

    /// The conjugate; for a unit quaternion, its inverse.
    pub open spec fn conj_s(self) -> QuatFx {
        QuatFx { w: self.w, x: (-self.x as int) as i64, y: (-self.y as int) as i64, z: (-self.z as int) as i64 }
    }

    pub fn conj(self) -> (r: QuatFx)
        requires
            self.bounded(0x7fff_ffff_ffff_ffff),
        ensures
            r == self.conj_s(),
            forall|l: int| self.bounded(l) ==> r.bounded(l),
    {
        QuatFx { w: self.w, x: -self.x, y: -self.y, z: -self.z }
    }

    /// The Hamilton product, as a value.
    pub open spec fn mul_s(self, o: QuatFx) -> QuatFx {
        QuatFx {
            w: Self::mul_w(self, o) as i64,
            x: Self::mul_x(self, o) as i64,
            y: Self::mul_y(self, o) as i64,
            z: Self::mul_z(self, o) as i64,
        }
    }

    /// The Hamilton product `self * o` in fixed point.
    pub fn mul(self, o: QuatFx) -> (r: QuatFx)
        requires
            self.bounded(2 * FX_ONE as int),
            o.bounded(2 * FX_ONE as int),
        ensures
            r.w as int == Self::mul_w(self, o),
            r.x as int == Self::mul_x(self, o),
            r.y as int == Self::mul_y(self, o),
            r.z as int == Self::mul_z(self, o),
            r == self.mul_s(o),
            r.bounded(FX_QUAT_LIMIT as int),
    {
        proof {
            lemma_unit_prod(self.w as int, o.w as int);
            lemma_unit_prod(self.w as int, o.x as int);
            lemma_unit_prod(self.w as int, o.y as int);
            lemma_unit_prod(self.w as int, o.z as int);
            lemma_unit_prod(self.x as int, o.w as int);
            lemma_unit_prod(self.x as int, o.x as int);
            lemma_unit_prod(self.x as int, o.y as int);
            lemma_unit_prod(self.x as int, o.z as int);
            lemma_unit_prod(self.y as int, o.w as int);
            lemma_unit_prod(self.y as int, o.x as int);
            lemma_unit_prod(self.y as int, o.y as int);
            lemma_unit_prod(self.y as int, o.z as int);
            lemma_unit_prod(self.z as int, o.w as int);
            lemma_unit_prod(self.z as int, o.x as int);
            lemma_unit_prod(self.z as int, o.y as int);
            lemma_unit_prod(self.z as int, o.z as int);
        }
        let w: i64 = fx_mul(self.w, o.w) - fx_mul(self.x, o.x) - fx_mul(self.y, o.y) - fx_mul(
            self.z,
            o.z,
        );
        let x: i64 = fx_mul(self.w, o.x) + fx_mul(self.x, o.w) + fx_mul(self.y, o.z) - fx_mul(
            self.z,
            o.y,
        );
        let y: i64 = fx_mul(self.w, o.y) - fx_mul(self.x, o.z) + fx_mul(self.y, o.w) + fx_mul(
            self.z,
            o.x,
        );
        let z: i64 = fx_mul(self.w, o.z) + fx_mul(self.x, o.y) - fx_mul(self.y, o.x) + fx_mul(
            self.z,
            o.w,
        );
        QuatFx { w, x, y, z }
    }
}

/// A fixed-point product of two near-unit components neither
/// overflows nor exceeds four.
proof fn lemma_unit_prod(a: int, b: int)
    requires
        iabs(a) <= 2 * FX_ONE as int,
        iabs(b) <= 2 * FX_ONE as int,
    ensures
        iabs(a * b) <= 0x7fff_ffff_ffff_ffff * 0x10000,
        iabs(fx_mul_s(a, b)) <= 4 * FX_ONE as int,
{
    lemma_fx_mul_bound(a, b, 2 * FX_ONE as int, 2 * FX_ONE as int);
    assert((((2 * 65536) * (2 * 65536)) as int) / 65536 == 4 * 65536);
}

impl QuatFx {
    /// All four components at once, as exact squared raw magnitude.
    pub fn raw_magnitude_sq(self) -> (r: u128)
        requires
            self.bounded(FX_QUAT_LIMIT as int),
        ensures
            r as int == iabs(self.w as int) * iabs(self.w as int) + iabs(self.x as int) * iabs(
                self.x as int,
            ) + iabs(self.y as int) * iabs(self.y as int) + iabs(self.z as int) * iabs(
                self.z as int,
            ),
    {
        let aw: u128 = if self.w >= 0 {
            self.w as u128
        } else {
            (-(self.w as i128)) as u128
        };
        let ax: u128 = if self.x >= 0 {
            self.x as u128
        } else {
            (-(self.x as i128)) as u128
        };
        let ay: u128 = if self.y >= 0 {
            self.y as u128
        } else {
            (-(self.y as i128)) as u128
        };
        let az: u128 = if self.z >= 0 {
            self.z as u128
        } else {
            (-(self.z as i128)) as u128
        };
        proof {
            assert forall|v: u128| v <= 0x10_0000 implies #[trigger] (v * v) <= 0x100_0000_0000
            by {
                lemma_mul_le(v as int, v as int, 0x10_0000, 0x10_0000);
            }
            assert(aw == iabs(self.w as int));
            assert(ax == iabs(self.x as int));
            assert(ay == iabs(self.y as int));
            assert(az == iabs(self.z as int));
        }
        aw * aw + ax * ax + ay * ay + az * az
    }

    /// What normalization returns, component by component.
    pub open spec fn normalize_s(self) -> QuatFx {
        let sq = iabs(self.w as int) * iabs(self.w as int) + iabs(self.x as int) * iabs(
            self.x as int,
        ) + iabs(self.y as int) * iabs(self.y as int) + iabs(self.z as int) * iabs(self.z as int);
        let mag = isqrt_s(sq);
        if mag == 0 {
            QuatFx { w: FX_ONE, x: 0, y: 0, z: 0 }
        } else {
            QuatFx {
                w: fx_div_s(self.w as int, mag) as i64,
                x: fx_div_s(self.x as int, mag) as i64,
                y: fx_div_s(self.y as int, mag) as i64,
                z: fx_div_s(self.z as int, mag) as i64,
            }
        }
    }

    /// Rescale toward unit length; a zero quaternion becomes the identity.
    pub fn normalize(self) -> (r: QuatFx)
        requires
            self.bounded(FX_QUAT_LIMIT as int),
        ensures
            r == self.normalize_s(),
            r.bounded(FX_ONE as int),
    {
        let sq: u128 = self.raw_magnitude_sq();
        let mag: u64 = isqrt(sq);
        if mag == 0 {
            QuatFx { w: FX_ONE, x: 0, y: 0, z: 0 }
        } else {
            proof {
                lemma_mul_le(self.w as int, self.w as int, FX_QUAT_LIMIT as int, FX_QUAT_LIMIT as int);
                lemma_mul_le(self.x as int, self.x as int, FX_QUAT_LIMIT as int, FX_QUAT_LIMIT as int);
                lemma_mul_le(self.y as int, self.y as int, FX_QUAT_LIMIT as int, FX_QUAT_LIMIT as int);
                lemma_mul_le(self.z as int, self.z as int, FX_QUAT_LIMIT as int, FX_QUAT_LIMIT as int);
                assert(mag <= 0x20_0000) by (nonlinear_arith)
                    requires
                        (mag as int) * (mag as int) <= sq as int,
                        sq <= 0x400_0000_0000,
                ;
                lemma_quat_normal_components(self, sq as int, mag as int);
            }
            QuatFx {
                w: fx_div(self.w, mag as i64),
                x: fx_div(self.x, mag as i64),
                y: fx_div(self.y, mag as i64),
                z: fx_div(self.z, mag as i64),
            }
        }
    }
}

/// Each component of a quaternion is bounded by the integer square
/// root of the squared magnitude, and dividing by it lands within one.
proof fn lemma_quat_normal_components(q: QuatFx, sq: int, mag: int)
    requires
        q.bounded(FX_QUAT_LIMIT as int),
        sq == iabs(q.w as int) * iabs(q.w as int) + iabs(q.x as int) * iabs(q.x as int) + iabs(
            q.y as int,
        ) * iabs(q.y as int) + iabs(q.z as int) * iabs(q.z as int),
        mag >= 1,
        mag * mag <= sq,
        sq < (mag + 1) * (mag + 1),
    ensures
        forall|c: int|
            iabs(c) * iabs(c) <= sq ==> iabs(#[trigger] fx_div_s(c, mag)) <= FX_ONE as int,
{
    assert forall|c: int| iabs(c) * iabs(c) <= sq implies iabs(#[trigger] fx_div_s(c, mag))
        <= FX_ONE as int by {
        assert(iabs(c) <= mag) by (nonlinear_arith)
            requires
                iabs(c) * iabs(c) <= sq,
                sq < (mag + 1) * (mag + 1),
                mag >= 1,
                iabs(c) >= 0,
        ;
        assert(iabs(fx_div_s(c, mag)) == (iabs(c) * 65536) / iabs(mag));
        lemma_mul_le(iabs(c), 65536, mag, 65536);
        vstd::arithmetic::div_mod::lemma_div_is_ordered(iabs(c) * 65536, mag * 65536, mag);
        vstd::arithmetic::div_mod::lemma_div_by_multiple(65536, mag);
    }
}

} // verus!
