//! Saturating Q16.16 fixed-point scalars.
//!
//! A `Fx` holds a signed raw value `raw`; the number it stands for is
//! `raw / 65536`. Every operation clamps its result into
//! `[-LIM_RAW, LIM_RAW]`, so all operations are total and nothing
//! overflows: the clamp plays the role that infinities play for
//! floating-point slab and ratio tests. Products and quotients truncate
//! toward zero. Each operation's contract states its result exactly over
//! the mathematical integers, so every derived computation is a pure
//! function of its inputs.

use vstd::prelude::*;

verus! {

/// Raw units per 1.0: the fixed-point scale.
pub const SCALE: i64 = 65536;

/// Largest raw magnitude a `Fx` may hold (2^46).
pub const LIM_RAW: i64 = 0x4000_0000_0000;

/// Magnitude of an integer.
pub open spec fn iabs(x: int) -> int {
    if x < 0 {
        -x
    } else {
        x
    }
}

/// The raw value clamped into the representable band.
pub open spec fn sat(x: int) -> int {
    if x > LIM_RAW as int {
        LIM_RAW as int
    } else if x < -(LIM_RAW as int) {
        -(LIM_RAW as int)
    } else {
        x
    }
}

/// Whether a raw value lies in the representable band.
pub open spec fn fx_inv(x: int) -> bool {
    -(LIM_RAW as int) <= x <= LIM_RAW as int
}

/// Saturated sum of two raw values.
pub open spec fn spec_add(a: int, b: int) -> int {
    sat(a + b)
}

/// Saturated difference of two raw values.
pub open spec fn spec_sub(a: int, b: int) -> int {
    sat(a - b)
}

/// Saturated product `a * b / SCALE`, truncated toward zero.
pub open spec fn spec_mul(a: int, b: int) -> int {
    let q = iabs(a) * iabs(b) / (SCALE as int);
    if (a < 0) != (b < 0) {
        sat(-q)
    } else {
        sat(q)
    }
}

/// Saturated quotient `a * SCALE / b`, truncated toward zero. A zero
/// divisor saturates by the numerator's sign, the fixed-point stand-in
/// for the infinities a float division would give; `0 / 0` is 0.
pub open spec fn spec_div(a: int, b: int) -> int {
    if b == 0 {
        if a == 0 {
            0
        } else if a > 0 {
            LIM_RAW as int
        } else {
            -(LIM_RAW as int)
        }
    } else {
        let q = iabs(a) * (SCALE as int) / iabs(b);
        if (a < 0) != (b < 0) {
            sat(-q)
        } else {
            sat(q)
        }
    }
}

/// Whether `r` is the integer square root of `x`.
pub open spec fn is_isqrt(x: int, r: int) -> bool {
    0 <= r && r * r <= x && x < (r + 1) * (r + 1)
}

/// The integer square root of a non-negative value.
pub open spec fn spec_isqrt(x: int) -> int {
    choose|r: int| is_isqrt(x, r)
}

/// Fixed-point square root: `sqrt(raw / SCALE)` in raw units is the
/// integer square root of `raw * SCALE`. Values at or below zero map
/// to zero.
pub open spec fn spec_sqrt(a: int) -> int {
    if a <= 0 {
        0
    } else {
        spec_isqrt(a * SCALE)
    }
}

/// Two integer square roots of the same value are equal.
pub proof fn lemma_isqrt_unique(x: int, r1: int, r2: int)
    requires
        is_isqrt(x, r1),
        is_isqrt(x, r2),
    ensures
        r1 == r2,
{
    assert(r1 == r2) by (nonlinear_arith)
        requires
            0 <= r1 && r1 * r1 <= x && x < (r1 + 1) * (r1 + 1),
            0 <= r2 && r2 * r2 <= x && x < (r2 + 1) * (r2 + 1),
    ;
}

/// The integer square root of a bounded value is bounded.
pub proof fn lemma_isqrt_bound(x: int, r: int)
    requires
        is_isqrt(x, r),
        x <= LIM_RAW as int * SCALE as int,
    ensures
        0 <= r <= 0x8000_0000,
{
    assert(r <= 0x8000_0000) by (nonlinear_arith)
        requires
            0 <= r && r * r <= x,
            x <= (LIM_RAW as int) * (SCALE as int),
    ;
}

pub struct Fx {
    raw: i64,
}

impl Fx {
    #[verifier::type_invariant]
    spec fn type_inv(self) -> bool {
        fx_inv(self.raw as int)
    }
}

impl Fx {
    /// The scalar whose raw units are `v`; ghost-level constructor.
    pub closed spec fn fx_of(v: int) -> Fx {
        Fx { raw: v as i64 }
    }
}

impl View for Fx {
    type V = int;

    closed spec fn view(&self) -> int {
        self.raw as int
    }
}

impl Clone for Fx {
    fn clone(&self) -> (r: Self)
        ensures
            r@ == self@,
    {
        proof {
            use_type_invariant(&*self);
        }
        Fx { raw: self.raw }
    }
}

impl Copy for Fx {

}

impl Fx {
    /// The zero scalar.
    pub fn zero() -> (r: Fx)
        ensures
            r@ == 0,
    {
        Fx { raw: 0 }
    }

    /// The scalar 1.0.
    pub fn one() -> (r: Fx)
        ensures
            r@ == SCALE as int,
    {
        Fx { raw: SCALE }
    }

    /// The scalar 0.5.
    pub fn half() -> (r: Fx)
        ensures
            r@ == 32768,
    {
        Fx { raw: 32768 }
    }

    /// Builds a scalar from its raw Q16.16 units, clamped into range.
    pub fn from_raw(x: i64) -> (r: Fx)
        ensures
            r@ == sat(x as int),
    {
        if x > LIM_RAW {
            Fx { raw: LIM_RAW }
        } else if x < -LIM_RAW {
            Fx { raw: -LIM_RAW }
        } else {
            Fx { raw: x }
        }
    }

    /// Builds the scalar for the integer `x`, clamped into range.
    pub fn from_int(x: i32) -> (r: Fx)
        ensures
            r@ == sat(x as int * SCALE as int),
    {
        Fx::from_raw((x as i64) * SCALE)
    }

    /// The raw Q16.16 units of the scalar.
    pub fn raw(self) -> (r: i64)
        ensures
            r as int == self@,
    {
        self.raw
    }

    /// Saturating addition.
    pub fn add(self, o: Fx) -> (r: Fx)
        ensures
            r@ == spec_add(self@, o@),
    {
        proof {
            use_type_invariant(&self);
            use_type_invariant(&o);
        }
        Fx::from_raw(self.raw + o.raw)
    }

    /// Saturating subtraction.
    pub fn sub(self, o: Fx) -> (r: Fx)
        ensures
            r@ == spec_sub(self@, o@),
    {
        proof {
            use_type_invariant(&self);
            use_type_invariant(&o);
        }
        Fx::from_raw(self.raw - o.raw)
    }

    /// Negation.
    pub fn neg(self) -> (r: Fx)
        ensures
            r@ == -self@,
    {
        proof {
            use_type_invariant(&self);
        }
        Fx { raw: -self.raw }
    }

    /// Saturating, truncating product.
    pub fn mul(self, o: Fx) -> (r: Fx)
        ensures
            r@ == spec_mul(self@, o@),
    {
        proof {
            use_type_invariant(&self);
            use_type_invariant(&o);
        }
        let neg: bool = (self.raw < 0) != (o.raw < 0);
        let am: u64 = if self.raw < 0 {
            (-self.raw) as u64
        } else {
            self.raw as u64
        };
        let bm: u64 = if o.raw < 0 {
            (-o.raw) as u64
        } else {
            o.raw as u64
        };
        proof {
            assert(am as int == iabs(self@) && bm as int == iabs(o@));
            assert((am as int) * (bm as int) <= (LIM_RAW as int) * (LIM_RAW as int)) by (nonlinear_arith)
                requires
                    0 <= am as int <= LIM_RAW as int,
                    0 <= bm as int <= LIM_RAW as int,
            ;
        }
        let p: u128 = (am as u128) * (bm as u128);
        let q: u128 = p / 65536;
        let qc: i64 = if q > LIM_RAW as u128 {
            LIM_RAW
        } else {
            q as i64
        };
        if neg {
            Fx { raw: -qc }
        } else {
            Fx { raw: qc }
        }
    }

    /// Saturating, truncating quotient; a zero divisor saturates by the
    /// numerator's sign.
    pub fn div(self, o: Fx) -> (r: Fx)
        ensures
            r@ == spec_div(self@, o@),
    {
        proof {
            use_type_invariant(&self);
            use_type_invariant(&o);
        }
        if o.raw == 0 {
            if self.raw == 0 {
                return Fx { raw: 0 };
            } else if self.raw > 0 {
                return Fx { raw: LIM_RAW };
            } else {
                return Fx { raw: -LIM_RAW };
            }
        }
        let neg: bool = (self.raw < 0) != (o.raw < 0);
        let am: u64 = if self.raw < 0 {
            (-self.raw) as u64
        } else {
            self.raw as u64
        };
        let bm: u64 = if o.raw < 0 {
            (-o.raw) as u64
        } else {
            o.raw as u64
        };
        let num: u128 = (am as u128) * 65536;
        let q: u128 = num / (bm as u128);
        let qc: i64 = if q > LIM_RAW as u128 {
            LIM_RAW
        } else {
            q as i64
        };
        if neg {
            Fx { raw: -qc }
        } else {
            Fx { raw: qc }
        }
    }

    /// Fixed-point square root; zero on inputs at or below zero.
    pub fn sqrt(self) -> (r: Fx)
        ensures
            r@ == spec_sqrt(self@),
            r@ >= 0,
    {
        proof {
            use_type_invariant(&self);
        }
        if self.raw <= 0 {
            return Fx { raw: 0 };
        }
        let x: u64 = (self.raw as u64) * 65536;
        let ghost xi = x as int;
        let mut lo: u64 = 0;
        let mut hi: u64 = 0x8000_0001;
        proof {
            assert((0x8000_0001 as int) * (0x8000_0001 as int) > xi) by (nonlinear_arith)
                requires
                    xi <= 0x4000_0000_0000_0000,
            ;
        }
        while lo + 1 < hi
            invariant
                lo < hi,
                hi <= 0x8000_0001,
                lo as int * lo as int <= xi,
                xi < hi as int * hi as int,
                x == xi,
            decreases hi as int - lo as int,
        {
            let mid: u64 = lo + (hi - lo) / 2;
            proof {
                assert(mid < hi);
                assert((mid as int) * (mid as int) < 0x4000_0000_8000_0001) by (nonlinear_arith)
                    requires
                        0 <= mid as int,
                        (mid as int) < 0x8000_0001,
                ;
            }
            if mid * mid <= x {
                lo = mid;
            } else {
                hi = mid;
            }
        }
        proof {
            assert(is_isqrt(xi, lo as int));
            lemma_isqrt_unique(xi, lo as int, spec_isqrt(xi));
            lemma_isqrt_bound(xi, lo as int);
        }
        Fx { raw: lo as i64 }
    }

    /// Minimum by value.
    pub fn min(self, o: Fx) -> (r: Fx)
        ensures
            r@ == if self@ <= o@ {
                self@
            } else {
                o@
            },
    {
        if self.raw <= o.raw {
            self
        } else {
            o
        }
    }

    /// Maximum by value.
    pub fn max(self, o: Fx) -> (r: Fx)
        ensures
            r@ == if self@ >= o@ {
                self@
            } else {
                o@
            },
    {
        if self.raw >= o.raw {
            self
        } else {
            o
        }
    }

    /// Magnitude.
    pub fn abs(self) -> (r: Fx)
        ensures
            r@ == iabs(self@),
    {
        proof {
            use_type_invariant(&self);
        }
        if self.raw < 0 {
            Fx { raw: -self.raw }
        } else {
            self
        }
    }

    /// The value clamped into `[0, 1]`.
    pub fn clamp01(self) -> (r: Fx)
        ensures
            r@ == if self@ < 0 {
                0
            } else if self@ > SCALE as int {
                SCALE as int
            } else {
                self@
            },
    {
        if self.raw < 0 {
            Fx { raw: 0 }
        } else if self.raw > SCALE {
            Fx { raw: SCALE }
        } else {
            self
        }
    }

    /// Whether the value is below zero.
    pub fn is_neg(self) -> (r: bool)
        ensures
            r == (self@ < 0),
    {
        self.raw < 0
    }

    /// Strict order on values.
    pub fn lt(self, o: Fx) -> (r: bool)
        ensures
            r == (self@ < o@),
    {
        self.raw < o.raw
    }

    /// Non-strict order on values.
    pub fn le(self, o: Fx) -> (r: bool)
        ensures
            r == (self@ <= o@),
    {
        self.raw <= o.raw
    }

    /// Equality of values.
    pub fn eq_v(self, o: Fx) -> (r: bool)
        ensures
            r == (self@ == o@),
    {
        self.raw == o.raw
    }

    /// The integer part of the value, truncated toward zero, as a
    /// float-to-integer cast would give it; it cannot exceed the
    /// representable band's whole units.
    pub fn trunc(self) -> (r: i64)
        ensures
            r as int == spec_trunc(self@),
            -0x4000_0000 <= r <= 0x4000_0000,
    {
        proof {
            use_type_invariant(&self);
            assert(0x4000_0000int * (SCALE as int) == LIM_RAW as int) by (nonlinear_arith);
            vstd::arithmetic::div_mod::lemma_div_by_multiple(0x4000_0000, SCALE as int);
            vstd::arithmetic::div_mod::lemma_div_is_ordered(iabs(self@), LIM_RAW as int, SCALE as int);
        }
        if self.raw < 0 {
            -((((-self.raw) as u64) / 65536) as i64)
        } else {
            ((self.raw as u64) / 65536) as i64
        }
    }

    /// Truncated Maclaurin cosine.
    pub fn cos(self) -> (r: Fx)
        ensures
            r@ == spec_cos(self@),
    {
        let x2 = self.mul(self);
        let x4 = x2.mul(x2);
        let x6 = x4.mul(x2);
        Fx::one().sub(x2.div(Fx::from_int(2))).add(x4.div(Fx::from_int(24))).sub(
            x6.div(Fx::from_int(720)),
        )
    }

    /// Truncated Maclaurin sine.
    pub fn sin(self) -> (r: Fx)
        ensures
            r@ == spec_sin(self@),
    {
        let x2 = self.mul(self);
        let x3 = x2.mul(self);
        let x5 = x3.mul(x2);
        let x7 = x5.mul(x2);
        self.sub(x3.div(Fx::from_int(6))).add(x5.div(Fx::from_int(120))).sub(
            x7.div(Fx::from_int(5040)),
        )
    }

    /// Arc cosine by bisection over `[0, pi]`.
    pub fn acos(self) -> (r: Fx)
        ensures
            r@ == spec_acos(self@),
    {
        let mut lo = Fx::zero();
        let mut hi = Fx::from_raw(PI_RAW);
        let mut i: usize = 0;
        while i < 20
            invariant
                i <= 20,
                (lo@, hi@) == spec_acos_iter(self@, (0int, PI_RAW as int), i as nat),
            decreases 20 - i,
        {
            let mid = lo.add(hi).mul(Fx::half());
            if self.le(mid.cos()) {
                lo = mid;
            } else {
                hi = mid;
            }
            i = i + 1;
        }
        lo.add(hi).mul(Fx::half())
    }

    /// `self` raised to the integer power `n`, by squaring.
    pub fn powi(self, n: u64) -> (r: Fx)
        ensures
            r@ == spec_powi(self@, n as nat),
        decreases n,
    {
        if n == 0 {
            Fx::one()
        } else if n % 2 == 0 {
            let h = self.powi(n / 2);
            h.mul(h)
        } else {
            self.mul(self.powi(n - 1))
        }
    }

    /// `self` raised to the power `f / 65536` for `f < 65536`, by a
    /// square-root chain over the binary digits of `f`, `d` digits deep.
    pub fn pow_frac(self, f: u32, d: u32) -> (r: Fx)
        requires
            f < 65536,
        ensures
            r@ == spec_pow_frac(self@, f as int, d as nat),
        decreases d,
    {
        if d == 0 || f == 0 {
            Fx::one()
        } else {
            let s = self.sqrt();
            let rest = s.pow_frac((f % 32768) * 2, d - 1);
            if f >= 32768 {
                s.mul(rest)
            } else {
                rest
            }
        }
    }

    /// `self` raised to the fixed-point power `p`, for `self@ >= 0` and
    /// `p@ >= 0`: the integer part of `p` by squaring, the fractional
    /// part by a 16-digit square-root chain. A base of 0 or 1 and an
    /// exponent of exactly 1 are returned exactly.
    pub fn pow(self, p: Fx) -> (r: Fx)
        requires
            self@ >= 0,
            p@ >= 0,
        ensures
            r@ == spec_pow(self@, p@),
            r@ >= 0,
    {
        proof {
            use_type_invariant(&p);
            lemma_pow_nonneg(self@, p@);
        }
        if self.raw == 0 {
            Fx::zero()
        } else if self.raw == SCALE {
            Fx::one()
        } else if p.raw == SCALE {
            self
        } else {
            let n: u64 = (p.raw as u64) / 65536;
            let f: u32 = ((p.raw as u64) % 65536) as u32;
            self.powi(n).mul(self.pow_frac(f, 16))
        }
    }

    /// `self` raised to any fixed-point power: the reciprocal of the
    /// positive power for a negative exponent.
    pub fn powf(self, p: Fx) -> (r: Fx)
        requires
            self@ >= 0,
        ensures
            r@ == spec_pow_any(self@, p@),
            r@ >= 0,
    {
        if p.is_neg() {
            proof {
                lemma_pow_nonneg(self@, -p@);
                lemma_div_nonneg(SCALE as int, spec_pow(self@, -p@));
            }
            Fx::one().div(self.pow(p.neg()))
        } else {
            self.pow(p)
        }
    }

    /// Sign-preserving power: `sign(self) * |self| ^ p`.
    pub fn upowf(self, p: Fx) -> (r: Fx)
        ensures
            r@ == spec_upow(self@, p@),
    {
        if self.raw < 0 {
            self.neg().powf(p).neg()
        } else {
            self.powf(p)
        }
    }
}

/// The whole units of a raw value, truncated toward zero.
pub open spec fn spec_trunc(x: int) -> int {
    if x < 0 {
        -((-x) / SCALE as int)
    } else {
        x / SCALE as int
    }
}

/// Half the circle constant's raw value: pi in Q16.16 units.
pub const PI_RAW: i64 = 205887;

/// Truncated Maclaurin cosine over fixed-point arithmetic: four terms,
/// adequate near zero where the camera's half angles live.
pub open spec fn spec_cos(x: int) -> int {
    let x2 = spec_mul(x, x);
    let x4 = spec_mul(x2, x2);
    let x6 = spec_mul(x4, x2);
    spec_sub(
        spec_add(spec_sub(SCALE as int, spec_div(x2, 2 * SCALE as int)), spec_div(x4, 24 * SCALE as int)),
        spec_div(x6, 720 * SCALE as int),
    )
}

/// Truncated Maclaurin sine over fixed-point arithmetic.
pub open spec fn spec_sin(x: int) -> int {
    let x2 = spec_mul(x, x);
    let x3 = spec_mul(x2, x);
    let x5 = spec_mul(x3, x2);
    let x7 = spec_mul(x5, x2);
    spec_sub(
        spec_add(spec_sub(x, spec_div(x3, 6 * SCALE as int)), spec_div(x5, 120 * SCALE as int)),
        spec_div(x7, 5040 * SCALE as int),
    )
}

/// One bisection step inverting the cosine on `[0, pi]`, where it
/// falls: when the midpoint's cosine still lies at or above the target
/// the angle lies at or beyond the midpoint.
pub open spec fn spec_acos_step(x: int, st: (int, int)) -> (int, int) {
    let mid = spec_mul(spec_add(st.0, st.1), 32768);
    if spec_cos(mid) >= x {
        (mid, st.1)
    } else {
        (st.0, mid)
    }
}

/// `n` bisection steps inverting the cosine.
pub open spec fn spec_acos_iter(x: int, st: (int, int), n: nat) -> (int, int)
    decreases n,
{
    if n == 0 {
        st
    } else {
        spec_acos_step(x, spec_acos_iter(x, st, (n - 1) as nat))
    }
}

/// Arc cosine by 20 bisection steps over `[0, pi]`.
pub open spec fn spec_acos(x: int) -> int {
    let st = spec_acos_iter(x, (0, PI_RAW as int), 20);
    spec_mul(spec_add(st.0, st.1), 32768)
}

/// The cosine of zero is exactly one.
pub proof fn lemma_cos_zero()
    ensures
        spec_cos(0) == SCALE as int,
{
    lemma_mul_zero(0);
    lemma_div_zero(2 * SCALE as int);
    lemma_div_zero(24 * SCALE as int);
    lemma_div_zero(720 * SCALE as int);
}

/// The sine of zero is exactly zero.
pub proof fn lemma_sin_zero()
    ensures
        spec_sin(0) == 0,
{
    lemma_mul_zero(0);
    lemma_div_zero(6 * SCALE as int);
    lemma_div_zero(120 * SCALE as int);
    lemma_div_zero(5040 * SCALE as int);
}

/// Integer power by squaring over saturating products; `SCALE` is 1.0.
pub open spec fn spec_powi(b: int, n: nat) -> int
    decreases n,
{
    if n == 0 {
        SCALE as int
    } else if n % 2 == 0 {
        let h = spec_powi(b, n / 2);
        spec_mul(h, h)
    } else {
        spec_mul(b, spec_powi(b, (n - 1) as nat))
    }
}

/// Power to the fractional exponent `f / 65536`, `0 <= f < 65536`, as a
/// `d`-deep square-root chain over the binary digits of `f`.
pub open spec fn spec_pow_frac(b: int, f: int, d: nat) -> int
    decreases d,
{
    if d == 0 || f <= 0 {
        SCALE as int
    } else {
        let s = spec_sqrt(b);
        let rest = spec_pow_frac(s, (f % 32768) * 2, (d - 1) as nat);
        if f >= 32768 {
            spec_mul(s, rest)
        } else {
            rest
        }
    }
}

/// Fixed-point power for a non-negative base and exponent.
pub open spec fn spec_pow(b: int, p: int) -> int {
    if b == 0 {
        0
    } else if b == SCALE as int {
        SCALE as int
    } else if p == SCALE as int {
        b
    } else {
        spec_mul(spec_powi(b, (p / (SCALE as int)) as nat), spec_pow_frac(b, p % (SCALE as int), 16))
    }
}

/// Sign-preserving power.
pub open spec fn spec_upow(x: int, p: int) -> int {
    if x < 0 {
        -spec_pow_any(-x, p)
    } else {
        spec_pow_any(x, p)
    }
}

/// Power to any fixed-point exponent: the reciprocal of the positive
/// power for a negative exponent.
pub open spec fn spec_pow_any(b: int, p: int) -> int {
    if p >= 0 {
        spec_pow(b, p)
    } else {
        spec_div(SCALE as int, spec_pow(b, -p))
    }
}

/// A scalar is recovered from its own view.
pub broadcast proof fn lemma_fx_of_view(f: Fx)
    ensures
        #[trigger] Fx::fx_of(f@) == f,
{
}

/// Multiplying by exactly one returns the value, in either order.
pub proof fn lemma_mul_one(a: int)
    requires
        fx_inv(a),
    ensures
        spec_mul(a, SCALE as int) == a,
        spec_mul(SCALE as int, a) == a,
{
    vstd::arithmetic::div_mod::lemma_div_by_multiple(iabs(a), SCALE as int);
}

/// Multiplying by zero gives zero, in either order.
pub proof fn lemma_mul_zero(a: int)
    ensures
        spec_mul(a, 0) == 0,
        spec_mul(0, a) == 0,
{
    vstd::arithmetic::mul::lemma_mul_basics(iabs(a));
    vstd::arithmetic::div_mod::lemma_div_of0(SCALE as int);
}

/// A quotient of non-negative values is non-negative.
pub proof fn lemma_div_nonneg(a: int, b: int)
    requires
        a >= 0,
        b >= 0,
    ensures
        spec_div(a, b) >= 0,
{
    if b != 0 {
        vstd::arithmetic::div_mod::lemma_div_pos_is_pos(iabs(a) * (SCALE as int), iabs(b));
    }
}

/// A product of non-negative values is non-negative.
pub proof fn lemma_mul_nonneg(a: int, b: int)
    requires
        a >= 0,
        b >= 0,
    ensures
        spec_mul(a, b) >= 0,
{
    vstd::arithmetic::mul::lemma_mul_nonnegative(iabs(a), iabs(b));
    vstd::arithmetic::div_mod::lemma_div_pos_is_pos(iabs(a) * iabs(b), SCALE as int);
}

/// Every non-negative value has an integer square root, so the chosen
/// root satisfies the defining property.
pub proof fn lemma_isqrt_exists(x: int)
    requires
        x >= 0,
    ensures
        is_isqrt(x, spec_isqrt(x)),
    decreases x,
{
    if x == 0 {
        assert(is_isqrt(0, 0));
    } else {
        lemma_isqrt_exists(x - 1);
        let r = spec_isqrt(x - 1);
        if x < (r + 1) * (r + 1) {
            assert(is_isqrt(x, r));
        } else {
            assert(x == (r + 1) * (r + 1));
            assert((r + 1) * (r + 1) < (r + 2) * (r + 2)) by (nonlinear_arith)
                requires
                    r >= 0,
            ;
            assert(is_isqrt(x, r + 1));
        }
    }
}

/// A square root is never negative.
pub proof fn lemma_sqrt_nonneg(a: int)
    ensures
        spec_sqrt(a) >= 0,
{
    if a > 0 {
        lemma_isqrt_exists(a * (SCALE as int));
    }
}

/// An integer power of a non-negative base is non-negative.
pub proof fn lemma_powi_nonneg(b: int, n: nat)
    requires
        b >= 0,
    ensures
        spec_powi(b, n) >= 0,
    decreases n,
{
    if n == 0 {
    } else if n % 2 == 0 {
        lemma_powi_nonneg(b, n / 2);
        lemma_mul_nonneg(spec_powi(b, n / 2), spec_powi(b, n / 2));
    } else {
        lemma_powi_nonneg(b, (n - 1) as nat);
        lemma_mul_nonneg(b, spec_powi(b, (n - 1) as nat));
    }
}

/// A fractional power is never negative.
pub proof fn lemma_pow_frac_nonneg(b: int, f: int, d: nat)
    ensures
        spec_pow_frac(b, f, d) >= 0,
    decreases d,
{
    if d == 0 || f <= 0 {
    } else {
        let s = spec_sqrt(b);
        lemma_sqrt_nonneg(b);
        lemma_pow_frac_nonneg(s, (f % 32768) * 2, (d - 1) as nat);
        if f >= 32768 {
            lemma_mul_nonneg(s, spec_pow_frac(s, (f % 32768) * 2, (d - 1) as nat));
        }
    }
}

/// A power of a non-negative base is non-negative.
pub proof fn lemma_pow_nonneg(b: int, p: int)
    requires
        b >= 0,
    ensures
        spec_pow(b, p) >= 0,
{
    if b == 0 || b == SCALE as int || p == SCALE as int {
    } else {
        let n = (p / (SCALE as int)) as nat;
        lemma_powi_nonneg(b, n);
        lemma_pow_frac_nonneg(b, p % (SCALE as int), 16);
        lemma_mul_nonneg(spec_powi(b, n), spec_pow_frac(b, p % (SCALE as int), 16));
    }
}

/// A power of a non-negative base is non-negative for any exponent.
pub proof fn lemma_pow_any_nonneg(b: int, p: int)
    requires
        b >= 0,
    ensures
        spec_pow_any(b, p) >= 0,
{
    if p >= 0 {
        lemma_pow_nonneg(b, p);
    } else {
        lemma_pow_nonneg(b, -p);
        lemma_div_nonneg(SCALE as int, spec_pow(b, -p));
    }
}

/// An exponent of exactly two is the plain square.
pub proof fn lemma_pow_two_is_square(b: int)
    requires
        fx_inv(b),
        b >= 0,
    ensures
        spec_pow(b, 2 * SCALE as int) == spec_mul(b, b),
{
    if b == 0 {
        lemma_mul_zero(0);
    } else if b == SCALE as int {
        lemma_mul_one(SCALE as int);
    } else {
        vstd::arithmetic::div_mod::lemma_div_multiples_vanish(2, SCALE as int);
        vstd::arithmetic::div_mod::lemma_mod_multiples_basic(2, SCALE as int);
        assert((2 * SCALE as int) / (SCALE as int) == 2);
        assert((2 * SCALE as int) % (SCALE as int) == 0);
        lemma_mul_one(b);
        assert(spec_powi(b, 2nat) == spec_mul(b, b)) by {
            reveal_with_fuel(spec_powi, 3);
        }
        lemma_mul_one(spec_mul(b, b));
    }
}

/// An exponent of exactly one half is the plain square root.
pub proof fn lemma_pow_half_is_sqrt(b: int)
    requires
        fx_inv(b),
        b >= 0,
    ensures
        spec_pow(b, 32768) == spec_sqrt(b),
{
    if b == 0 {
    } else if b == SCALE as int {
        assert(is_isqrt((SCALE as int) * (SCALE as int), SCALE as int)) by (nonlinear_arith);
        lemma_isqrt_exists((SCALE as int) * (SCALE as int));
        lemma_isqrt_unique(
            (SCALE as int) * (SCALE as int),
            SCALE as int,
            spec_isqrt((SCALE as int) * (SCALE as int)),
        );
    } else {
        vstd::arithmetic::div_mod::lemma_basic_div(32768, SCALE as int);
        vstd::arithmetic::div_mod::lemma_small_mod(32768nat, SCALE as nat);
        assert(32768int / (SCALE as int) == 0);
        assert(32768int % (SCALE as int) == 32768);
        let s = spec_sqrt(b);
        lemma_isqrt_exists(b * SCALE as int);
        lemma_isqrt_bound(b * SCALE as int, s);
        vstd::arithmetic::div_mod::lemma_mod_multiples_basic(1, 32768);
        assert(32768int % 32768 == 0);
        assert(spec_pow_frac(b, 32768, 16) == spec_mul(s, SCALE as int)) by {
            reveal_with_fuel(spec_pow_frac, 3);
        }
        lemma_mul_one(s);
        lemma_mul_one(spec_pow_frac(b, 32768, 16));
    }
}

/// A positive value divided by itself is exactly one.
pub proof fn lemma_div_self(x: int)
    requires
        x > 0,
    ensures
        spec_div(x, x) == SCALE as int,
{
    vstd::arithmetic::div_mod::lemma_div_multiples_vanish(SCALE as int, x);
}

/// Zero divided by anything is zero.
pub proof fn lemma_div_zero(b: int)
    ensures
        spec_div(0, b) == 0,
{
    if b != 0 {
        vstd::arithmetic::div_mod::lemma_div_of0(iabs(b));
    }
}

/// A base of zero is carried to zero by any exponent.
pub proof fn lemma_pow_zero_base(p: int)
    ensures
        spec_pow(0, p) == 0,
{
}

/// A base of one is carried to one by any exponent.
pub proof fn lemma_pow_one_base(p: int)
    ensures
        spec_pow(SCALE as int, p) == SCALE as int,
{
}

/// An exponent of exactly one returns the base unchanged.
pub proof fn lemma_pow_exp_one(b: int)
    requires
        b >= 0,
    ensures
        spec_pow(b, SCALE as int) == b,
{
}

} // verus!
