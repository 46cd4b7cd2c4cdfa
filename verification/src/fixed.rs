//! Exact fixed-point scalars.
//!
//! Every time quantity, blend weight and scalar channel in this crate is an
//! [`Fx`]: a signed 64-bit count of units of `1 / SCALE`. Arithmetic saturates
//! at the ends of the `i64` range, and division truncates toward zero, so each
//! operation has an exact mathematical description as a spec function over
//! unbounded integers.

use vstd::prelude::*;

verus! {

/// Number of raw units in one; the fixed-point scale.
pub const SCALE: i64 = 65536;

/// Magnitude of an unbounded integer.
pub open spec fn iabs(x: int) -> int {
    if x < 0 {
        -x
    } else {
        x
    }
}

/// Clamp an unbounded integer to the range of `i64`.
pub open spec fn sat64(x: int) -> int {
    if x > i64::MAX as int {
        i64::MAX as int
    } else if x < i64::MIN as int {
        i64::MIN as int
    } else {
        x
    }
}

/// Division truncated toward zero; division by zero yields zero.
pub open spec fn tdiv(a: int, b: int) -> int {
    if b == 0 {
        0
    } else {
        let m = iabs(a) / iabs(b);
        if (a < 0) == (b < 0) {
            m
        } else {
            -m
        }
    }
}

/// Raw result of a saturating fixed-point addition.
pub open spec fn fx_add(a: int, b: int) -> int {
    sat64(a + b)
}

/// Raw result of a saturating fixed-point subtraction.
pub open spec fn fx_sub(a: int, b: int) -> int {
    sat64(a - b)
}

/// Raw result of a saturating fixed-point multiplication.
pub open spec fn fx_mul(a: int, b: int) -> int {
    sat64(tdiv(a * b, SCALE as int))
}

/// Raw result of a saturating fixed-point division.
pub open spec fn fx_div(a: int, b: int) -> int {
    sat64(tdiv(a * (SCALE as int), b))
}

/// Dividing an exact multiple truncates to the whole quotient.
pub proof fn lemma_tdiv_multiple(k: int, d: int)
    requires
        0 < d,
    ensures
        tdiv(k * d, d) == k,
{
    if k >= 0 {
        assert(k * d >= 0) by (nonlinear_arith)
            requires
                k >= 0,
                d > 0,
        ;
        vstd::arithmetic::div_mod::lemma_div_by_multiple(k, d);
    } else {
        assert(k * d < 0) by (nonlinear_arith)
            requires
                k < 0,
                d > 0,
        ;
        assert(-(k * d) == (-k) * d) by (nonlinear_arith);
        vstd::arithmetic::div_mod::lemma_div_by_multiple(-k, d);
    }
}

/// Weight one keeps a raw count unchanged.
pub proof fn lemma_fx_mul_one(a: int)
    requires
        i64::MIN <= a <= i64::MAX,
    ensures
        fx_mul(a, SCALE as int) == a,
{
    lemma_tdiv_multiple(a, SCALE as int);
}

/// Weight zero contributes nothing.
pub proof fn lemma_fx_mul_zero(a: int)
    ensures
        fx_mul(a, 0) == 0,
{
    assert(a * 0 == 0);
}

/// A quarter weight on a count divisible by four is an exact quarter.
pub proof fn lemma_fx_mul_quarter(v: int)
    requires
        v % 4 == 0,
        i64::MIN <= v <= i64::MAX,
    ensures
        fx_mul(v, (SCALE as int) / 4) == v / 4,
{
    let m = v / 4;
    vstd::arithmetic::div_mod::lemma_fundamental_div_mod(v, 4);
    assert(v * ((SCALE as int) / 4) == m * (SCALE as int)) by (nonlinear_arith)
        requires
            v == 4 * m,
    ;
    lemma_tdiv_multiple(m, SCALE as int);
}

/// A half weight on a count divisible by two is an exact half.
pub proof fn lemma_fx_mul_half(v: int)
    requires
        v % 2 == 0,
        i64::MIN <= v <= i64::MAX,
    ensures
        fx_mul(v, (SCALE as int) / 2) == v / 2,
{
    let m = v / 2;
    vstd::arithmetic::div_mod::lemma_fundamental_div_mod(v, 2);
    assert(v * ((SCALE as int) / 2) == m * (SCALE as int)) by (nonlinear_arith)
        requires
            v == 2 * m,
    ;
    lemma_tdiv_multiple(m, SCALE as int);
}

/// A nonzero count divided by itself is one.
pub proof fn lemma_fx_div_self(t: int)
    requires
        t != 0,
    ensures
        fx_div(t, t) == SCALE as int,
{
    if t > 0 {
        assert(t * (SCALE as int) == (SCALE as int) * t);
        lemma_tdiv_multiple(SCALE as int, t);
    } else {
        assert(iabs(t * (SCALE as int)) == (SCALE as int) * (-t)) by (nonlinear_arith)
            requires
                t < 0,
        ;
        vstd::arithmetic::div_mod::lemma_div_by_multiple(SCALE as int, -t);
        assert(iabs(t * (SCALE as int)) / iabs(t) == SCALE as int);
    }
}

/// Zero divided by anything is zero.
pub proof fn lemma_fx_div_zero(b: int)
    ensures
        fx_div(0, b) == 0,
{
    if b != 0 {
        assert(iabs(0int) / iabs(b) == 0);
    }
}

/// The integer square root of a non-negative `x`: the unique `r >= 0` with
/// `r * r <= x < (r + 1) * (r + 1)`.
pub open spec fn spec_isqrt(x: int) -> int {
    choose|r: int| 0 <= r && #[trigger] (r * r) <= x && x < (r + 1) * (r + 1)
}

/// The integer square root is unique: any root bound witnesses it.
pub proof fn lemma_isqrt_unique(x: int, r: int)
    requires
        0 <= r,
        r * r <= x,
        x < (r + 1) * (r + 1),
    ensures
        r == spec_isqrt(x),
{
    assert(exists|q: int| 0 <= q && #[trigger] (q * q) <= x && x < (q + 1) * (q + 1)) by {
        assert(0 <= r && r * r <= x && x < (r + 1) * (r + 1));
    }
    let w = spec_isqrt(x);
    assert(0 <= w && w * w <= x && x < (w + 1) * (w + 1));
    assert(w == r) by (nonlinear_arith)
        requires
            0 <= r,
            0 <= w,
            r * r <= x,
            x < (r + 1) * (r + 1),
            w * w <= x,
            x < (w + 1) * (w + 1),
    ;
}

/// The integer square root of a 128-bit quantity, by bisection.
fn isqrt_u128(x: u128) -> (r: u128)
    ensures
        r * r <= x < (r + 1) * (r + 1),
{
    let mut lo: u128 = 0;
    let mut hi: u128 = 0x1_0000_0000_0000_0000;
    proof {
        assert((0x1_0000_0000_0000_0000 as int) * (0x1_0000_0000_0000_0000 as int)
            > u128::MAX as int) by (nonlinear_arith);
    }
    while lo + 1 < hi
        invariant
            lo < hi <= 0x1_0000_0000_0000_0000,
            lo * lo <= x,
            x < hi * hi,
        decreases hi - lo,
    {
        let mid: u128 = lo + (hi - lo) / 2;
        proof {
            assert(mid * mid <= u128::MAX as int) by (nonlinear_arith)
                requires
                    mid < 0x1_0000_0000_0000_0000,
            ;
        }
        if mid * mid <= x {
            lo = mid;
        } else {
            hi = mid;
        }
    }
    lo
}

/// The scalar `base` raised to the natural power `n`, one saturating
/// truncating multiplication at a time.
pub open spec fn spec_pow_nat(base: Fx, n: nat) -> Fx
    decreases n,
{
    if n == 0 {
        fx(SCALE as int)
    } else {
        fx(fx_mul(spec_pow_nat(base, (n - 1) as nat)@, base@))
    }
}

/// The scalar `base` raised to the integer power `e`; a negative exponent
/// raises to the opposite power and takes the reciprocal.
pub open spec fn spec_powi(base: Fx, e: int) -> Fx {
    if e >= 0 {
        spec_pow_nat(base, e as nat)
    } else {
        fx(fx_div(SCALE as int, spec_pow_nat(base, (-e) as nat)@))
    }
}

/// The fixed-point scalar whose raw unit count is `x`, which must lie in the
/// range of `i64`.
pub open spec fn fx(x: int) -> Fx {
    Fx { raw: x as i64 }
}

/// An exact fixed-point scalar: the represented value is `raw / SCALE`.
#[derive(Clone, Copy, Debug, PartialEq, Eq, Structural)]
pub struct Fx {
    pub raw: i64,
}

impl View for Fx {
    type V = int;

    open spec fn view(&self) -> int {
        self.raw as int
    }
}

/// Clamp a 128-bit intermediate result to the range of `i64`.
fn clamp64(x: i128) -> (r: i64)
    ensures
        r as int == sat64(x as int),
{
    if x > i64::MAX as i128 {
        i64::MAX
    } else if x < i64::MIN as i128 {
        i64::MIN
    } else {
        x as i64
    }
}

/// Divide a 128-bit quantity, truncating toward zero.
fn tdiv128(a: i128, b: i128) -> (q: i128)
    requires
        -0x4000_0000_0000_0000_0000_0000_0000_0000 <= a
            <= 0x4000_0000_0000_0000_0000_0000_0000_0000,
        -0x4000_0000_0000_0000_0000_0000_0000_0000 <= b
            <= 0x4000_0000_0000_0000_0000_0000_0000_0000,
    ensures
        q == tdiv(a as int, b as int),
{
    if b == 0 {
        return 0;
    }
    let neg: bool = (a < 0) != (b < 0);
    let ma: u128 = if a < 0 {
        (-a) as u128
    } else {
        a as u128
    };
    let mb: u128 = if b < 0 {
        (-b) as u128
    } else {
        b as u128
    };
    let d: u128 = ma / mb;
    proof {
        assert(ma == iabs(a as int));
        assert(mb == iabs(b as int));
        assert(d <= ma) by (nonlinear_arith)
            requires
                d == ma / mb,
                mb >= 1,
        ;
    }
    if neg {
        -(d as i128)
    } else {
        d as i128
    }
}

impl Fx {
    /// Build a scalar from its raw unit count.
    pub fn new(raw: i64) -> (r: Fx)
        ensures
            r@ == raw as int,
    {
        Fx { raw }
    }

    /// The scalar zero.
    pub fn zero() -> (r: Fx)
        ensures
            r@ == 0,
    {
        Fx { raw: 0 }
    }

    /// The scalar one.
    pub fn one() -> (r: Fx)
        ensures
            r@ == SCALE as int,
    {
        Fx { raw: SCALE }
    }

    /// Build a scalar from a whole number.
    pub fn from_int(v: i64) -> (r: Fx)
        ensures
            r@ == sat64(v * (SCALE as int)),
    {
        proof {
            assert(-0x4000_0000_0000_0000_0000_0000_0000_0000 <= (v as i128) * (SCALE as i128)
                <= 0x4000_0000_0000_0000_0000_0000_0000_0000) by (nonlinear_arith)
                requires
                    -0x8000_0000_0000_0000 <= v as i128 <= 0x7fff_ffff_ffff_ffff,
            ;
        }
        Fx { raw: clamp64((v as i128) * (SCALE as i128)) }
    }

    /// Saturating addition.
    pub fn add(self, o: Fx) -> (r: Fx)
        ensures
            r@ == fx_add(self@, o@),
    {
        Fx { raw: clamp64((self.raw as i128) + (o.raw as i128)) }
    }

    /// Saturating subtraction.
    pub fn sub(self, o: Fx) -> (r: Fx)
        ensures
            r@ == fx_sub(self@, o@),
    {
        Fx { raw: clamp64((self.raw as i128) - (o.raw as i128)) }
    }

    /// Saturating negation.
    pub fn neg(self) -> (r: Fx)
        ensures
            r@ == sat64(-self@),
    {
        Fx { raw: clamp64(-(self.raw as i128)) }
    }

    /// Saturating fixed-point multiplication, truncating toward zero.
    pub fn mul(self, o: Fx) -> (r: Fx)
        ensures
            r@ == fx_mul(self@, o@),
    {
        proof {
            assert(-0x4000_0000_0000_0000_0000_0000_0000_0000 <= (self.raw as i128) * (
            o.raw as i128) <= 0x4000_0000_0000_0000_0000_0000_0000_0000) by (nonlinear_arith)
                requires
                    -0x8000_0000_0000_0000 <= self.raw as i128 <= 0x7fff_ffff_ffff_ffff,
                    -0x8000_0000_0000_0000 <= o.raw as i128 <= 0x7fff_ffff_ffff_ffff,
            ;
        }
        let p: i128 = (self.raw as i128) * (o.raw as i128);
        Fx { raw: clamp64(tdiv128(p, SCALE as i128)) }
    }

    /// Saturating fixed-point division, truncating toward zero; division by
    /// zero yields zero.
    pub fn div(self, o: Fx) -> (r: Fx)
        ensures
            r@ == fx_div(self@, o@),
    {
        proof {
            assert(-0x4000_0000_0000_0000_0000_0000_0000_0000 <= (self.raw as i128) * (
            SCALE as i128) <= 0x4000_0000_0000_0000_0000_0000_0000_0000) by (nonlinear_arith)
                requires
                    -0x8000_0000_0000_0000 <= self.raw as i128 <= 0x7fff_ffff_ffff_ffff,
            ;
        }
        let num: i128 = (self.raw as i128) * (SCALE as i128);
        Fx { raw: clamp64(tdiv128(num, o.raw as i128)) }
    }

    /// Fixed-point square root of a non-negative scalar: the integer square
    /// root of the raw count rescaled to keep the fixed-point reading.
    pub fn sqrt(self) -> (r: Fx)
        requires
            0 <= self@,
        ensures
            r@ == spec_isqrt(self@ * (SCALE as int)),
            0 <= r@,
    {
        let v: u128 = (self.raw as u128) * (SCALE as u128);
        let root = isqrt_u128(v);
        proof {
            assert(root < 0x100_0000_0000) by (nonlinear_arith)
                requires
                    root * root <= v,
                    v < 0x1_0000_0000_0000_0000_0000,
            ;
            lemma_isqrt_unique(v as int, root as int);
        }
        Fx { raw: root as i64 }
    }

    /// Saturating integer power, truncating toward zero at each step; a
    /// negative exponent raises to the opposite power and takes the
    /// reciprocal.
    pub fn powi(self, e: i32) -> (r: Fx)
        ensures
            r == spec_powi(self, e as int),
    {
        let n: u32 = if e < 0 {
            (-(e as i64)) as u32
        } else {
            e as u32
        };
        let mut acc = Fx::one();
        let mut i: u32 = 0;
        while i < n
            invariant
                0 <= i <= n,
                acc == spec_pow_nat(self, i as nat),
            decreases n - i,
        {
            acc = acc.mul(self);
            i = i + 1;
        }
        if e < 0 {
            Fx::one().div(acc)
        } else {
            acc
        }
    }

    /// Strictly-less comparison.
    pub fn lt(self, o: Fx) -> (r: bool)
        ensures
            r == (self@ < o@),
    {
        self.raw < o.raw
    }

    /// Less-or-equal comparison.
    pub fn le(self, o: Fx) -> (r: bool)
        ensures
            r == (self@ <= o@),
    {
        self.raw <= o.raw
    }

    /// Strictly-greater comparison.
    pub fn gt(self, o: Fx) -> (r: bool)
        ensures
            r == (self@ > o@),
    {
        self.raw > o.raw
    }

    /// Greater-or-equal comparison.
    pub fn ge(self, o: Fx) -> (r: bool)
        ensures
            r == (self@ >= o@),
    {
        self.raw >= o.raw
    }
}

} // verus!
