//! An exact, fully specified scalar type for the numeric kernel.
//!
//! A [`Scalar`] is either not-a-number, a signed infinity, or a finite
//! sign-and-magnitude value counted in units of `1 / SCALE` (so `SCALE`
//! units make `1.0`).  The arithmetic mirrors IEEE conventions where the
//! library needs them: not-a-number propagates, out-of-range results
//! saturate to the matching infinity, and comparisons on not-a-number are
//! false.  Every executable operation is pinned to a specification
//! function, so repeated calls on identical inputs return identical values.

use vstd::prelude::*;
use vstd::arithmetic::power2::*;

verus! {

/// Number of units per `1.0`: finite scalars hold multiples of `1 / SCALE`.
pub const SCALE: u64 = 4294967296;

/// A scalar value: not-a-number, a signed infinity, or a finite
/// sign-and-magnitude quantity counted in units of `1 / SCALE`.
#[derive(Clone, Copy, Debug, PartialEq, Eq, Structural)]
pub enum Scalar {
    /// Not a number: the result of a domain violation.
    NaN,
    /// Negative infinity.
    NegInf,
    /// Positive infinity.
    PosInf,
    /// A finite value; `neg` gives its sign and `mag` its magnitude in units.
    Fin { neg: bool, mag: u64 },
}

/// The signed value, in units, of a finite scalar (0 for the other variants,
/// which no caller relies on).
pub open spec fn val(s: Scalar) -> int {
    match s {
        Scalar::Fin { neg, mag } => if neg { -(mag as int) } else { mag as int },
        _ => 0,
    }
}

/// Builds a finite scalar from a sign and an unbounded magnitude in units:
/// magnitudes beyond `u64::MAX` saturate to the matching infinity, and a zero
/// magnitude is canonically positive.
pub open spec fn sfin(neg: bool, m: int) -> Scalar {
    if m > u64::MAX {
        if neg {
            Scalar::NegInf
        } else {
            Scalar::PosInf
        }
    } else if m == 0 {
        Scalar::Fin { neg: false, mag: 0 }
    } else {
        Scalar::Fin { neg, mag: m as u64 }
    }
}

/// Builds a finite scalar from a signed value in units, saturating as `sfin`.
pub open spec fn fin(v: int) -> Scalar {
    if v >= 0 {
        sfin(false, v)
    } else {
        sfin(true, -v)
    }
}

pub open spec fn spec_is_nan(a: Scalar) -> bool {
    a is NaN
}

pub open spec fn spec_is_infinite(a: Scalar) -> bool {
    a is PosInf || a is NegInf
}

pub open spec fn spec_neg(a: Scalar) -> Scalar {
    match a {
        Scalar::NaN => Scalar::NaN,
        Scalar::NegInf => Scalar::PosInf,
        Scalar::PosInf => Scalar::NegInf,
        Scalar::Fin { neg, mag } => sfin(!neg, mag as int),
    }
}

pub open spec fn spec_add(a: Scalar, b: Scalar) -> Scalar {
    if a is NaN || b is NaN {
        Scalar::NaN
    } else if a is PosInf {
        if b is NegInf {
            Scalar::NaN
        } else {
            Scalar::PosInf
        }
    } else if a is NegInf {
        if b is PosInf {
            Scalar::NaN
        } else {
            Scalar::NegInf
        }
    } else if b is PosInf {
        Scalar::PosInf
    } else if b is NegInf {
        Scalar::NegInf
    } else {
        fin(val(a) + val(b))
    }
}

pub open spec fn spec_sub(a: Scalar, b: Scalar) -> Scalar {
    spec_add(a, spec_neg(b))
}

/// The sign bit of a finite or infinite scalar.
pub open spec fn spec_sign(a: Scalar) -> bool {
    match a {
        Scalar::NegInf => true,
        Scalar::Fin { neg, mag } => neg,
        _ => false,
    }
}

pub open spec fn spec_mul(a: Scalar, b: Scalar) -> Scalar {
    if a is NaN || b is NaN {
        Scalar::NaN
    } else if spec_is_infinite(a) || spec_is_infinite(b) {
        // An infinity times zero is undefined; otherwise signs combine.
        if (a matches Scalar::Fin { neg: _, mag: 0 }) || (b matches Scalar::Fin {
            neg: _,
            mag: 0,
        }) {
            Scalar::NaN
        } else if spec_sign(a) != spec_sign(b) {
            Scalar::NegInf
        } else {
            Scalar::PosInf
        }
    } else {
        match (a, b) {
            (Scalar::Fin { neg: na, mag: ma }, Scalar::Fin { neg: nb, mag: mb }) => sfin(
                na != nb,
                (ma as int * mb as int) / (SCALE as int),
            ),
            _ => Scalar::NaN,
        }
    }
}

pub open spec fn spec_div(a: Scalar, b: Scalar) -> Scalar {
    if a is NaN || b is NaN {
        Scalar::NaN
    } else if spec_is_infinite(a) {
        if spec_is_infinite(b) {
            Scalar::NaN
        } else if spec_sign(a) != spec_sign(b) {
            Scalar::NegInf
        } else {
            Scalar::PosInf
        }
    } else if spec_is_infinite(b) {
        Scalar::Fin { neg: false, mag: 0 }
    } else {
        match (a, b) {
            (Scalar::Fin { neg: na, mag: ma }, Scalar::Fin { neg: nb, mag: mb }) => {
                if mb == 0 {
                    if ma == 0 {
                        Scalar::NaN
                    } else if na != nb {
                        Scalar::NegInf
                    } else {
                        Scalar::PosInf
                    }
                } else {
                    sfin(na != nb, (ma as int * SCALE as int) / (mb as int))
                }
            },
            _ => Scalar::NaN,
        }
    }
}

/// Value comparison `a < b`; false whenever either side is not-a-number.
pub open spec fn spec_lt(a: Scalar, b: Scalar) -> bool {
    if a is NaN || b is NaN {
        false
    } else if a is NegInf {
        !(b is NegInf)
    } else if a is PosInf {
        false
    } else if b is PosInf {
        true
    } else if b is NegInf {
        false
    } else {
        val(a) < val(b)
    }
}

/// Value equality; false whenever either side is not-a-number, and true on a
/// pair of zeroes of either sign.
pub open spec fn spec_eq_v(a: Scalar, b: Scalar) -> bool {
    if a is NaN || b is NaN {
        false
    } else if spec_is_infinite(a) || spec_is_infinite(b) {
        a == b
    } else {
        val(a) == val(b)
    }
}

pub open spec fn spec_abs(a: Scalar) -> Scalar {
    match a {
        Scalar::NaN => Scalar::NaN,
        Scalar::NegInf => Scalar::PosInf,
        Scalar::PosInf => Scalar::PosInf,
        Scalar::Fin { neg, mag } => Scalar::Fin { neg: false, mag },
    }
}

impl Scalar {
    /// The canonical zero.
    pub fn zero() -> (r: Scalar)
        ensures
            r == (Scalar::Fin { neg: false, mag: 0 }),
    {
        Scalar::Fin { neg: false, mag: 0 }
    }

    /// The value `1.0`.
    pub fn one() -> (r: Scalar)
        ensures
            r == (Scalar::Fin { neg: false, mag: SCALE }),
    {
        Scalar::Fin { neg: false, mag: SCALE }
    }

    pub fn is_nan(self) -> (r: bool)
        ensures
            r == spec_is_nan(self),
    {
        match self {
            Scalar::NaN => true,
            _ => false,
        }
    }

    pub fn is_infinite(self) -> (r: bool)
        ensures
            r == spec_is_infinite(self),
    {
        match self {
            Scalar::PosInf => true,
            Scalar::NegInf => true,
            _ => false,
        }
    }

    pub fn neg(self) -> (r: Scalar)
        ensures
            r == spec_neg(self),
    {
        match self {
            Scalar::NaN => Scalar::NaN,
            Scalar::NegInf => Scalar::PosInf,
            Scalar::PosInf => Scalar::NegInf,
            Scalar::Fin { neg, mag } => {
                if mag == 0 {
                    Scalar::Fin { neg: false, mag: 0 }
                } else {
                    Scalar::Fin { neg: !neg, mag }
                }
            },
        }
    }

    pub fn abs(self) -> (r: Scalar)
        ensures
            r == spec_abs(self),
    {
        match self {
            Scalar::NaN => Scalar::NaN,
            Scalar::NegInf => Scalar::PosInf,
            Scalar::PosInf => Scalar::PosInf,
            Scalar::Fin { neg: _, mag } => Scalar::Fin { neg: false, mag },
        }
    }

    pub fn add(self, other: Scalar) -> (r: Scalar)
        ensures
            r == spec_add(self, other),
    {
        match (self, other) {
            (Scalar::NaN, _) => Scalar::NaN,
            (_, Scalar::NaN) => Scalar::NaN,
            (Scalar::PosInf, Scalar::NegInf) => Scalar::NaN,
            (Scalar::NegInf, Scalar::PosInf) => Scalar::NaN,
            (Scalar::PosInf, _) => Scalar::PosInf,
            (Scalar::NegInf, _) => Scalar::NegInf,
            (_, Scalar::PosInf) => Scalar::PosInf,
            (_, Scalar::NegInf) => Scalar::NegInf,
            (Scalar::Fin { neg: na, mag: ma }, Scalar::Fin { neg: nb, mag: mb }) => {
                if na == nb {
                    let s: u128 = ma as u128 + mb as u128;
                    if s > u64::MAX as u128 {
                        if na {
                            Scalar::NegInf
                        } else {
                            Scalar::PosInf
                        }
                    } else if s == 0 {
                        Scalar::Fin { neg: false, mag: 0 }
                    } else {
                        Scalar::Fin { neg: na, mag: s as u64 }
                    }
                } else if ma == mb {
                    Scalar::Fin { neg: false, mag: 0 }
                } else if ma > mb {
                    Scalar::Fin { neg: na, mag: ma - mb }
                } else {
                    Scalar::Fin { neg: nb, mag: mb - ma }
                }
            },
        }
    }

    pub fn sub(self, other: Scalar) -> (r: Scalar)
        ensures
            r == spec_sub(self, other),
    {
        self.add(other.neg())
    }

    pub fn mul(self, other: Scalar) -> (r: Scalar)
        ensures
            r == spec_mul(self, other),
    {
        match (self, other) {
            (Scalar::NaN, _) => Scalar::NaN,
            (_, Scalar::NaN) => Scalar::NaN,
            (Scalar::Fin { neg: na, mag: ma }, Scalar::Fin { neg: nb, mag: mb }) => {
                let p: u128 = mul_u64(ma, mb);
                let q: u128 = p / (SCALE as u128);
                if q > u64::MAX as u128 {
                    if na != nb {
                        Scalar::NegInf
                    } else {
                        Scalar::PosInf
                    }
                } else if q == 0 {
                    Scalar::Fin { neg: false, mag: 0 }
                } else {
                    Scalar::Fin { neg: na != nb, mag: q as u64 }
                }
            },
            (a, b) => {
                // At least one side is infinite here.
                let zero_side = match a {
                    Scalar::Fin { neg: _, mag } => mag == 0,
                    _ => match b {
                        Scalar::Fin { neg: _, mag } => mag == 0,
                        _ => false,
                    },
                };
                if zero_side {
                    Scalar::NaN
                } else if a.sign() != b.sign() {
                    Scalar::NegInf
                } else {
                    Scalar::PosInf
                }
            },
        }
    }

    /// The sign bit of a finite or infinite scalar.
    pub fn sign(self) -> (r: bool)
        ensures
            r == spec_sign(self),
    {
        match self {
            Scalar::NegInf => true,
            Scalar::Fin { neg, mag: _ } => neg,
            _ => false,
        }
    }

    pub fn div(self, other: Scalar) -> (r: Scalar)
        ensures
            r == spec_div(self, other),
    {
        match (self, other) {
            (Scalar::NaN, _) => Scalar::NaN,
            (_, Scalar::NaN) => Scalar::NaN,
            (Scalar::PosInf, b) => {
                if b.is_infinite() {
                    Scalar::NaN
                } else if b.sign() {
                    Scalar::NegInf
                } else {
                    Scalar::PosInf
                }
            },
            (Scalar::NegInf, b) => {
                if b.is_infinite() {
                    Scalar::NaN
                } else if b.sign() {
                    Scalar::PosInf
                } else {
                    Scalar::NegInf
                }
            },
            (Scalar::Fin { neg: _, mag: _ }, Scalar::PosInf) => Scalar::Fin { neg: false, mag: 0 },
            (Scalar::Fin { neg: _, mag: _ }, Scalar::NegInf) => Scalar::Fin { neg: false, mag: 0 },
            (Scalar::Fin { neg: na, mag: ma }, Scalar::Fin { neg: nb, mag: mb }) => {
                if mb == 0 {
                    if ma == 0 {
                        Scalar::NaN
                    } else if na != nb {
                        Scalar::NegInf
                    } else {
                        Scalar::PosInf
                    }
                } else {
                    let p: u128 = mul_u64(ma, SCALE);
                    let q: u128 = p / (mb as u128);
                    if q > u64::MAX as u128 {
                        if na != nb {
                            Scalar::NegInf
                        } else {
                            Scalar::PosInf
                        }
                    } else if q == 0 {
                        Scalar::Fin { neg: false, mag: 0 }
                    } else {
                        Scalar::Fin { neg: na != nb, mag: q as u64 }
                    }
                }
            },
        }
    }

    /// Value comparison `self < other`; false whenever a side is not-a-number.
    pub fn lt(self, other: Scalar) -> (r: bool)
        ensures
            r == spec_lt(self, other),
    {
        match (self, other) {
            (Scalar::NaN, _) => false,
            (_, Scalar::NaN) => false,
            (Scalar::NegInf, Scalar::NegInf) => false,
            (Scalar::NegInf, _) => true,
            (Scalar::PosInf, _) => false,
            (_, Scalar::PosInf) => true,
            (_, Scalar::NegInf) => false,
            (Scalar::Fin { neg: na, mag: ma }, Scalar::Fin { neg: nb, mag: mb }) => {
                if na && !nb {
                    ma != 0 || mb != 0
                } else if !na && nb {
                    false
                } else if !na {
                    ma < mb
                } else {
                    mb < ma
                }
            },
        }
    }

    /// Value comparison `self > other`.
    pub fn gt(self, other: Scalar) -> (r: bool)
        ensures
            r == spec_lt(other, self),
    {
        other.lt(self)
    }

    /// Value equality; false whenever a side is not-a-number.
    pub fn eq_v(self, other: Scalar) -> (r: bool)
        ensures
            r == spec_eq_v(self, other),
    {
        match (self, other) {
            (Scalar::NaN, _) => false,
            (_, Scalar::NaN) => false,
            (Scalar::NegInf, Scalar::NegInf) => true,
            (Scalar::PosInf, Scalar::PosInf) => true,
            (Scalar::Fin { neg: na, mag: ma }, Scalar::Fin { neg: nb, mag: mb }) => ma == mb && (na
                == nb || ma == 0),
            _ => false,
        }
    }
}

/// The integer square root: the unique `r >= 0` with `r * r <= n < (r + 1) * (r + 1)`.
pub open spec fn isqrt(n: int) -> int {
    choose|r: int| 0 <= r && #[trigger] (r * r) <= n && n < (r + 1) * (r + 1)
}

/// Every nonnegative integer has an integer square root.
pub proof fn lemma_isqrt_exists(n: nat)
    ensures
        exists|r: int| 0 <= r && #[trigger] (r * r) <= n && n < (r + 1) * (r + 1),
    decreases n,
{
    if n == 0 {
        assert(0 <= 0int && 0int * 0int <= n && n < (0int + 1) * (0int + 1));
    } else {
        lemma_isqrt_exists((n - 1) as nat);
        let r = choose|r: int| 0 <= r && #[trigger] (r * r) <= n - 1 && n - 1 < (r + 1) * (r + 1);
        if (r + 1) * (r + 1) <= n {
            assert((r + 1) * (r + 1) == n);
            assert(n < (r + 2) * (r + 2)) by (nonlinear_arith)
                requires
                    0 <= r,
                    (r + 1) * (r + 1) == n,
            ;
            assert(0 <= r + 1 && (r + 1) * (r + 1) <= n && n < (r + 1 + 1) * (r + 1 + 1));
        } else {
            assert(0 <= r && r * r <= n && n < (r + 1) * (r + 1));
        }
    }
}

/// The integer square root is unique.
pub proof fn lemma_isqrt_unique(n: int, r1: int, r2: int)
    requires
        0 <= r1,
        r1 * r1 <= n,
        n < (r1 + 1) * (r1 + 1),
        0 <= r2,
        r2 * r2 <= n,
        n < (r2 + 1) * (r2 + 1),
    ensures
        r1 == r2,
{
    if r1 < r2 {
        assert((r1 + 1) * (r1 + 1) <= r2 * r2) by (nonlinear_arith)
            requires
                0 <= r1,
                r1 + 1 <= r2,
        ;
    }
    if r2 < r1 {
        assert((r2 + 1) * (r2 + 1) <= r1 * r1) by (nonlinear_arith)
            requires
                0 <= r2,
                r2 + 1 <= r1,
        ;
    }
}

/// Binary search for the integer square root of a value below `2^96`.
fn isqrt_u128(n: u128) -> (r: u64)
    requires
        n < 79228162514264337593543950336u128,
    ensures
        r as int * r as int <= n as int,
        (n as int) < (r as int + 1) * (r as int + 1),
{
    let mut lo: u64 = 0;
    let mut hi: u64 = 281474976710656;
    assert(281474976710656int * 281474976710656int == 79228162514264337593543950336int);
    while lo + 1 < hi
        invariant
            lo < hi,
            hi <= 281474976710656,
            lo as int * lo as int <= n as int,
            (n as int) < (hi as int) * (hi as int),
        decreases hi - lo,
    {
        let mid: u64 = lo + (hi - lo) / 2;
        let sq: u128 = mul_u64(mid, mid);
        if sq <= n {
            lo = mid;
        } else {
            hi = mid;
        }
    }
    lo
}

pub open spec fn spec_sqrt(a: Scalar) -> Scalar {
    match a {
        Scalar::NaN => Scalar::NaN,
        Scalar::PosInf => Scalar::PosInf,
        Scalar::NegInf => Scalar::NaN,
        Scalar::Fin { neg, mag } => {
            if mag == 0 {
                Scalar::Fin { neg: false, mag: 0 }
            } else if neg {
                Scalar::NaN
            } else {
                Scalar::Fin { neg: false, mag: isqrt(mag as int * SCALE as int) as u64 }
            }
        },
    }
}

impl Scalar {
    /// The square root; not-a-number on negative values.
    pub fn sqrt(self) -> (r: Scalar)
        ensures
            r == spec_sqrt(self),
    {
        match self {
            Scalar::NaN => Scalar::NaN,
            Scalar::PosInf => Scalar::PosInf,
            Scalar::NegInf => Scalar::NaN,
            Scalar::Fin { neg, mag } => {
                if mag == 0 {
                    Scalar::Fin { neg: false, mag: 0 }
                } else if neg {
                    Scalar::NaN
                } else {
                    let n: u128 = mul_u64(mag, SCALE);
                    let rt: u64 = isqrt_u128(n);
                    proof {
                        lemma_isqrt_exists(n as nat);
                        let rs = isqrt(n as int);
                        lemma_isqrt_unique(n as int, rt as int, rs);
                    }
                    Scalar::Fin { neg: false, mag: rt }
                }
            },
        }
    }
}

/// Units of `pi`.
pub const PI_U: u64 = 13493037705;

/// Units of `pi / 2`.
pub const HALF_PI_U: u64 = 6746518852;

/// Units of `2 * pi`.
pub const TAU_U: u64 = 26986075409;

/// Units of `ln 2`.
pub const LN2_U: u64 = 2977044472;

/// Units of `2`.
pub const TWO_U: u64 = 8589934592;

/// Units of `1 / 3!`.
pub const SIN_C3: u64 = 715827883;

/// Units of `1 / 5!`.
pub const SIN_C5: u64 = 35791394;

/// Units of `1 / 7!`.
pub const SIN_C7: u64 = 852176;

/// Units of `1 / 9!`.
pub const SIN_C9: u64 = 11836;

/// Units of `1 / 11!`.
pub const SIN_C11: u64 = 108;

/// Units of `1 / 13!`.
pub const SIN_C13: u64 = 1;

/// Units of `1 / 3`.
pub const AT3: u64 = 1431655765;

/// Units of `1 / 5`.
pub const AT5: u64 = 858993459;

/// Units of `1 / 7`.
pub const AT7: u64 = 613566757;

/// Units of `1 / 9`.
pub const AT9: u64 = 477218588;

/// Units of `1 / 11`.
pub const AT11: u64 = 390451572;

/// Units of `1 / 13`.
pub const AT13: u64 = 330382100;

/// Units of `1 / 15`.
pub const AT15: u64 = 286331153;

/// The truncated Maclaurin factor of the sine on a quarter period:
/// `sin x == x * (1 - y/3! + y^2/5! - ...)` with `y = x^2`, evaluated in
/// nested form on a magnitude `x` of at most a quarter turn.
pub open spec fn spec_sin_core(x: u64) -> Scalar {
    let xs = Scalar::Fin { neg: false, mag: x };
    let one = Scalar::Fin { neg: false, mag: SCALE };
    let y = spec_mul(xs, xs);
    let c3 = Scalar::Fin { neg: false, mag: SIN_C3 };
    let c5 = Scalar::Fin { neg: false, mag: SIN_C5 };
    let c7 = Scalar::Fin { neg: false, mag: SIN_C7 };
    let c9 = Scalar::Fin { neg: false, mag: SIN_C9 };
    let c11 = Scalar::Fin { neg: false, mag: SIN_C11 };
    let c13 = Scalar::Fin { neg: false, mag: SIN_C13 };
    let s = spec_sub(
        one,
        spec_mul(
            y,
            spec_sub(
                c3,
                spec_mul(
                    y,
                    spec_sub(c5, spec_mul(y, spec_sub(c7, spec_mul(y, spec_sub(c9, spec_mul(y, spec_sub(c11, spec_mul(y, c13)))))))),
                ),
            ),
        ),
    );
    spec_mul(xs, s)
}

/// The sine over one positive period, `0 <= r < TAU_U`, by quadrant folding.
pub open spec fn spec_sin_cycle(r: u64) -> Scalar {
    if r <= HALF_PI_U {
        spec_sin_core(r)
    } else if r <= PI_U {
        spec_sin_core((PI_U - r) as u64)
    } else if r <= PI_U + HALF_PI_U {
        spec_neg(spec_sin_core((r - PI_U) as u64))
    } else {
        spec_neg(spec_sin_core((TAU_U - r) as u64))
    }
}

/// The sine: period reduction by the quantized turn, then quadrant folding;
/// not-a-number on non-finite input.
pub open spec fn spec_sin(a: Scalar) -> Scalar {
    match a {
        Scalar::Fin { neg, mag } => {
            let s = spec_sin_cycle(mag % TAU_U);
            if neg {
                spec_neg(s)
            } else {
                s
            }
        },
        _ => Scalar::NaN,
    }
}

/// The cosine, as the sine shifted by a quarter turn.
pub open spec fn spec_cos(a: Scalar) -> Scalar {
    spec_sin(spec_add(a, Scalar::Fin { neg: false, mag: HALF_PI_U }))
}

fn sin_core(x: u64) -> (r: Scalar)
    ensures
        r == spec_sin_core(x),
{
    let xs = Scalar::Fin { neg: false, mag: x };
    let one = Scalar::one();
    let y = xs.mul(xs);
    let c3 = Scalar::Fin { neg: false, mag: SIN_C3 };
    let c5 = Scalar::Fin { neg: false, mag: SIN_C5 };
    let c7 = Scalar::Fin { neg: false, mag: SIN_C7 };
    let c9 = Scalar::Fin { neg: false, mag: SIN_C9 };
    let c11 = Scalar::Fin { neg: false, mag: SIN_C11 };
    let c13 = Scalar::Fin { neg: false, mag: SIN_C13 };
    let s = one.sub(y.mul(c3.sub(y.mul(c5.sub(y.mul(c7.sub(y.mul(c9.sub(y.mul(c11.sub(y.mul(c13))))))))))));
    xs.mul(s)
}

/// The position of the highest set bit: `2^spec_top_bit(m) <= m` for `m >= 1`.
pub open spec fn spec_top_bit(m: nat) -> nat
    decreases m,
{
    if m < 2 {
        0
    } else {
        1 + spec_top_bit(m / 2)
    }
}

proof fn lemma_top_bit_bounds(m: nat)
    requires
        1 <= m,
    ensures
        pow2(spec_top_bit(m)) <= m,
        m < pow2(spec_top_bit(m) + 1),
    decreases m,
{
    if m < 2 {
        lemma2_to64();
    } else {
        lemma_top_bit_bounds(m / 2);
        let tb = spec_top_bit(m / 2);
        lemma_pow2_unfold(tb + 1);
        lemma_pow2_unfold(tb + 2);
    }
}

proof fn lemma_top_bit_lt_pow2(m: nat, k: nat)
    requires
        m < pow2(k),
        1 <= k,
    ensures
        spec_top_bit(m) <= k - 1,
    decreases k,
{
    if m < 2 {
    } else {
        lemma_pow2_unfold(k);
        lemma_pow2_pos((k - 1) as nat);
        lemma2_to64();
        lemma_top_bit_lt_pow2(m / 2, (k - 1) as nat);
    }
}

fn top_bit(mag: u64) -> (r: u32)
    requires
        1 <= mag,
    ensures
        r as nat == spec_top_bit(mag as nat),
        r <= 63,
{
    proof {
        lemma2_to64();
        lemma2_to64_rest();
        lemma_top_bit_lt_pow2(mag as nat, 64);
    }
    let mut b: u32 = 0;
    let mut m: u64 = mag;
    while m >= 2
        invariant
            1 <= m,
            b as nat + spec_top_bit(m as nat) == spec_top_bit(mag as nat),
            spec_top_bit(mag as nat) <= 63,
        decreases m,
    {
        m = m / 2;
        b = b + 1;
    }
    b
}

fn pow2_u64(k: u32) -> (r: u64)
    requires
        k <= 63,
    ensures
        r as nat == pow2(k as nat),
    decreases k,
{
    proof {
        lemma2_to64();
    }
    if k == 0 {
        1
    } else {
        let p = pow2_u64(k - 1);
        proof {
            lemma2_to64();
            lemma2_to64_rest();
            lemma_pow2_unfold(k as nat);
            if ((k - 1) as nat) < 63 {
                lemma_pow2_strictly_increases((k - 1) as nat, 63);
            }
        }
        2 * p
    }
}

/// The natural logarithm of a positive finite magnitude: the value is split
/// as `f * 2^e` with `f` within one octave of `1`, `ln f` comes from the
/// inverse-hyperbolic-tangent series, and `e * ln 2` is added back.
#[verifier::opaque]
pub open spec fn spec_ln_pos(mag: u64) -> Scalar {
    let b = spec_top_bit(mag as nat);
    let f = if b >= 32 {
        (mag as nat) / pow2((b - 32) as nat)
    } else {
        (mag as nat) * pow2((32 - b) as nat)
    };
    let e_scaled = fin((b as int - 32) * (LN2_U as int));
    let fs = Scalar::Fin { neg: false, mag: f as u64 };
    let one = Scalar::Fin { neg: false, mag: SCALE };
    let t = spec_div(spec_sub(fs, one), spec_add(fs, one));
    let y = spec_mul(t, t);
    let a3 = Scalar::Fin { neg: false, mag: AT3 };
    let a5 = Scalar::Fin { neg: false, mag: AT5 };
    let a7 = Scalar::Fin { neg: false, mag: AT7 };
    let a9 = Scalar::Fin { neg: false, mag: AT9 };
    let a11 = Scalar::Fin { neg: false, mag: AT11 };
    let a13 = Scalar::Fin { neg: false, mag: AT13 };
    let a15 = Scalar::Fin { neg: false, mag: AT15 };
    let s = spec_add(
        one,
        spec_mul(
            y,
            spec_add(
                a3,
                spec_mul(
                    y,
                    spec_add(
                        a5,
                        spec_mul(y, spec_add(a7, spec_mul(y, spec_add(a9, spec_mul(y, spec_add(a11, spec_mul(y, spec_add(a13, spec_mul(y, a15))))))))),
                    ),
                ),
            ),
        ),
    );
    let two = Scalar::Fin { neg: false, mag: TWO_U };
    spec_add(e_scaled, spec_mul(two, spec_mul(t, s)))
}

/// The natural logarithm: negative infinity at zero, not-a-number on
/// negative values and not-a-number, positive infinity at positive infinity.
pub open spec fn spec_ln(a: Scalar) -> Scalar {
    match a {
        Scalar::NaN => Scalar::NaN,
        Scalar::PosInf => Scalar::PosInf,
        Scalar::NegInf => Scalar::NaN,
        Scalar::Fin { neg, mag } => {
            if mag == 0 {
                Scalar::NegInf
            } else if neg {
                Scalar::NaN
            } else {
                spec_ln_pos(mag)
            }
        },
    }
}

fn ln_pos(mag: u64) -> (r: Scalar)
    requires
        1 <= mag,
    ensures
        r == spec_ln_pos(mag),
{
    proof {
        reveal(spec_ln_pos);
    }
    let b = top_bit(mag);
    let f: u64 = if b >= 32 {
        let p = pow2_u64(b - 32);
        proof {
            lemma_pow2_pos((b - 32) as nat);
        }
        mag / p
    } else {
        let p = pow2_u64(32 - b);
        proof {
            lemma_top_bit_bounds(mag as nat);
            lemma_pow2_adds((b + 1) as nat, (32 - b) as nat);
            lemma2_to64();
            lemma2_to64_rest();
            assert((mag as int) * (p as int) < pow2(33)) by (nonlinear_arith)
                requires
                    (mag as int) < pow2((b + 1) as nat),
                    (p as int) == pow2((32 - b) as nat),
                    pow2((b + 1) as nat) * pow2((32 - b) as nat) == pow2(33),
                    pow2((32 - b) as nat) > 0,
            ;
        }
        mag * p
    };
    let e_scaled: Scalar = if b >= 32 {
        let m: u64 = (b - 32) as u64 * LN2_U;
        if m == 0 {
            Scalar::Fin { neg: false, mag: 0 }
        } else {
            Scalar::Fin { neg: false, mag: m }
        }
    } else {
        Scalar::Fin { neg: true, mag: (32 - b) as u64 * LN2_U }
    };
    let fs = Scalar::Fin { neg: false, mag: f };
    let one = Scalar::one();
    let t = fs.sub(one).div(fs.add(one));
    let y = t.mul(t);
    let a3 = Scalar::Fin { neg: false, mag: AT3 };
    let a5 = Scalar::Fin { neg: false, mag: AT5 };
    let a7 = Scalar::Fin { neg: false, mag: AT7 };
    let a9 = Scalar::Fin { neg: false, mag: AT9 };
    let a11 = Scalar::Fin { neg: false, mag: AT11 };
    let a13 = Scalar::Fin { neg: false, mag: AT13 };
    let a15 = Scalar::Fin { neg: false, mag: AT15 };
    let s = one.add(y.mul(a3.add(y.mul(a5.add(y.mul(a7.add(y.mul(a9.add(y.mul(a11.add(y.mul(a13.add(y.mul(a15))))))))))))));
    let two = Scalar::Fin { neg: false, mag: TWO_U };
    e_scaled.add(two.mul(t.mul(s)))
}

impl Scalar {
    /// The sine, with the angle in radians.
    pub fn sin(self) -> (r: Scalar)
        ensures
            r == spec_sin(self),
    {
        match self {
            Scalar::Fin { neg, mag } => {
                let rr: u64 = mag % TAU_U;
                let s = if rr <= HALF_PI_U {
                    sin_core(rr)
                } else if rr <= PI_U {
                    sin_core(PI_U - rr)
                } else if rr <= PI_U + HALF_PI_U {
                    sin_core(rr - PI_U).neg()
                } else {
                    sin_core(TAU_U - rr).neg()
                };
                if neg {
                    s.neg()
                } else {
                    s
                }
            },
            _ => Scalar::NaN,
        }
    }

    /// The cosine, with the angle in radians.
    pub fn cos(self) -> (r: Scalar)
        ensures
            r == spec_cos(self),
    {
        self.add(Scalar::Fin { neg: false, mag: HALF_PI_U }).sin()
    }

    /// The natural logarithm.
    pub fn ln(self) -> (r: Scalar)
        ensures
            r == spec_ln(self),
    {
        match self {
            Scalar::NaN => Scalar::NaN,
            Scalar::PosInf => Scalar::PosInf,
            Scalar::NegInf => Scalar::NaN,
            Scalar::Fin { neg, mag } => {
                if mag == 0 {
                    Scalar::NegInf
                } else if neg {
                    Scalar::NaN
                } else {
                    ln_pos(mag)
                }
            },
        }
    }
}


/// The finite scalar of a small nonnegative integer count; counts of `2^32`
/// or more saturate to positive infinity.
pub open spec fn spec_from_usize(n: usize) -> Scalar {
    if n as int * SCALE as int > u64::MAX {
        Scalar::PosInf
    } else {
        sfin(false, n as int * SCALE as int)
    }
}

impl Scalar {
    /// Converts a count to a scalar, saturating at `2^32`.
    pub fn from_usize(n: usize) -> (r: Scalar)
        ensures
            r == spec_from_usize(n),
    {
        if n as u64 >= SCALE {
            proof {
                assert((n as int) * (SCALE as int) > u64::MAX) by (nonlinear_arith)
                    requires
                        n as int >= SCALE as int,
                        SCALE == 4294967296,
                ;
            }
            Scalar::PosInf
        } else {
            proof {
                assert((n as int) * (SCALE as int) <= u64::MAX) by (nonlinear_arith)
                    requires
                        (n as int) < (SCALE as int),
                        SCALE == 4294967296,
                ;
            }
            let m: u64 = (n as u64) * SCALE;
            if m == 0 {
                Scalar::Fin { neg: false, mag: 0 }
            } else {
                Scalar::Fin { neg: false, mag: m }
            }
        }
    }
}

/// Widening product of two 64-bit magnitudes.
fn mul_u64(a: u64, b: u64) -> (r: u128)
    ensures
        r == a as int * b as int,
{
    let pa: u128 = a as u128;
    let pb: u128 = b as u128;
    assert(pa * pb <= 340282366920938463426481119284349108225u128) by (nonlinear_arith)
        requires
            pa <= 0xffff_ffff_ffff_ffffu128,
            pb <= 0xffff_ffff_ffff_ffffu128,
    ;
    pa * pb
}

} // verus!
