//! Elliptic integrals over the exact [`Scalar`] kernel.
//!
//! The four Carlson symmetric forms (`rc`, `rd`, `rf`, `rg`) are evaluated by
//! the classical arithmetic-geometric descent with a short polynomial
//! correction; the complete integrals (`cel1`, `cel2`) combine tabulated
//! Taylor expansions, logarithmic asymptotics and `rg`; the incomplete
//! integrals (`el1`, `el2`) reduce to those through the ascending-transform
//! amplitude inversion (`asn`, `acn`, `serf`).
//!
//! Every executable function is pinned to a specification function of the
//! same shape, so results are a function of the arguments alone: repeated
//! calls with identical inputs return identical values.  Domain violations
//! yield not-a-number, mathematical poles yield an infinity, and the
//! ascending transform reports failure to converge as an absent result.

use vstd::prelude::*;

use crate::scalar::{
    sfin, spec_abs, spec_add, spec_cos, spec_div, spec_eq_v, spec_is_infinite, spec_ln, spec_lt,
    spec_mul, spec_neg, spec_sin, spec_sqrt, spec_sub, val, Scalar, HALF_PI_U, PI_U, SCALE, TWO_U,
};

verus! {

/// Units of `1/4`.
pub const QUARTER_U: u64 = 1073741824;

/// Units of `1/2`.
pub const HALF_U: u64 = 2147483648;

/// Units of `3`.
pub const THREE_U: u64 = 12884901888;

/// Units of `4`.
pub const FOUR_U: u64 = 17179869184;

/// Units of `5`.
pub const FIVE_U: u64 = 21474836480;

/// Units of `6`.
pub const SIX_U: u64 = 25769803776;

/// Units of the `rc` stopping tolerance `3e-4`.
pub const RC_TOL_U: u64 = 1288490;

/// Units of the `rd` stopping tolerance `2e-3`.
pub const RD_TOL_U: u64 = 8589935;

/// Units of the `rf` stopping tolerance `1e-3`.
pub const RF_TOL_U: u64 = 4294967;

/// Iteration cap of the `rc` descent.
pub const RC_ROUNDS: u32 = 16;

/// Iteration cap of the `rd` and `rf` descents.
pub const RDF_ROUNDS: u32 = 20;

/// Iteration cap of the ascending transform.
pub const ASN_ROUNDS: u32 = 10;

pub open spec fn s_zero() -> Scalar {
    Scalar::Fin { neg: false, mag: 0 }
}

pub open spec fn s_one() -> Scalar {
    Scalar::Fin { neg: false, mag: SCALE }
}

pub open spec fn s_pos(mag: u64) -> Scalar {
    Scalar::Fin { neg: false, mag }
}

pub open spec fn s_neg_of(mag: u64) -> Scalar {
    Scalar::Fin { neg: true, mag }
}


/// Units of `8`.
pub const EIGHT_U: u64 = 34359738368;

/// Homogeneity rescaling for a descent pair: while both components lie under
/// a quarter, quadruple them and double the prefactor `w`; by
/// `RC(4x, 4y) == RC(x, y) / 2` the result is unchanged, and the iterates
/// keep enough magnitude for full precision.
pub open spec fn spec_rescale2(x: Scalar, y: Scalar, w: Scalar, fuel: nat) -> (
    Scalar,
    Scalar,
    Scalar,
)
    decreases fuel,
{
    if fuel == 0 {
        (x, y, w)
    } else if spec_lt(x, s_pos(QUARTER_U)) && spec_lt(y, s_pos(QUARTER_U)) && !(spec_eq_v(
        x,
        s_zero(),
    ) && spec_eq_v(y, s_zero())) {
        spec_rescale2(
            spec_mul(x, s_pos(FOUR_U)),
            spec_mul(y, s_pos(FOUR_U)),
            spec_mul(w, s_pos(TWO_U)),
            (fuel - 1) as nat,
        )
    } else {
        (x, y, w)
    }
}

fn rescale2(x: Scalar, y: Scalar, w: Scalar, fuel: u32) -> (r: (Scalar, Scalar, Scalar))
    ensures
        r == spec_rescale2(x, y, w, fuel as nat),
    decreases fuel,
{
    if fuel == 0 {
        (x, y, w)
    } else if x.lt(sp(QUARTER_U)) && y.lt(sp(QUARTER_U)) && !(x.eq_v(Scalar::zero()) && y.eq_v(
        Scalar::zero(),
    )) {
        rescale2(x.mul(sp(FOUR_U)), y.mul(sp(FOUR_U)), w.mul(sp(TWO_U)), fuel - 1)
    } else {
        (x, y, w)
    }
}

/// Homogeneity rescaling for a descent triad: while all three components lie
/// under a quarter, quadruple them and multiply the prefactor `f` by `fm`
/// (`2` for `rf`, whose result scales as the `-1/2` power, and `8` for `rd`,
/// whose result scales as the `-3/2` power).
pub open spec fn spec_rescale3(
    x: Scalar,
    y: Scalar,
    z: Scalar,
    f: Scalar,
    fm: Scalar,
    fuel: nat,
) -> (Scalar, Scalar, Scalar, Scalar)
    decreases fuel,
{
    if fuel == 0 {
        (x, y, z, f)
    } else if spec_lt(x, s_pos(QUARTER_U)) && spec_lt(y, s_pos(QUARTER_U)) && spec_lt(
        z,
        s_pos(QUARTER_U),
    ) && !(spec_eq_v(x, s_zero()) && spec_eq_v(y, s_zero()) && spec_eq_v(z, s_zero())) {
        spec_rescale3(
            spec_mul(x, s_pos(FOUR_U)),
            spec_mul(y, s_pos(FOUR_U)),
            spec_mul(z, s_pos(FOUR_U)),
            spec_mul(f, fm),
            fm,
            (fuel - 1) as nat,
        )
    } else {
        (x, y, z, f)
    }
}

fn rescale3(x: Scalar, y: Scalar, z: Scalar, f: Scalar, fm: Scalar, fuel: u32) -> (r: (
    Scalar,
    Scalar,
    Scalar,
    Scalar,
))
    ensures
        r == spec_rescale3(x, y, z, f, fm, fuel as nat),
    decreases fuel,
{
    if fuel == 0 {
        (x, y, z, f)
    } else if x.lt(sp(QUARTER_U)) && y.lt(sp(QUARTER_U)) && z.lt(sp(QUARTER_U)) && !(x.eq_v(
        Scalar::zero(),
    ) && y.eq_v(Scalar::zero()) && z.eq_v(Scalar::zero())) {
        rescale3(x.mul(sp(FOUR_U)), y.mul(sp(FOUR_U)), z.mul(sp(FOUR_U)), f.mul(fm), fm, fuel - 1)
    } else {
        (x, y, z, f)
    }
}

/// The tail of the `rc` descent: halve until the relative spread `s` falls
/// under the tolerance, then apply the quartic correction
/// `(1 + s^2 (3/10 + s (1/7 + s (3/8 + s 9/22)))) / sqrt(mean)`, scaled by `w`.
pub open spec fn spec_rc_loop(x: Scalar, y: Scalar, w: Scalar, fuel: nat) -> Scalar
    decreases fuel,
{
    if fuel == 0 {
        Scalar::NaN
    } else {
        let sc = spec_rescale2(x, y, w, 16);
        let x = sc.0;
        let y = sc.1;
        let w = sc.2;
        let p = spec_add(spec_mul(s_pos(TWO_U), spec_sqrt(spec_mul(x, y))), y);
        let x1 = spec_mul(s_pos(QUARTER_U), spec_add(x, p));
        let y1 = spec_mul(s_pos(QUARTER_U), spec_add(y, p));
        let t = spec_add(x1, spec_add(y1, y1));
        let m = spec_div(t, s_pos(THREE_U));
        let s = spec_div(spec_sub(y1, x1), t);
        if s is NaN {
            Scalar::NaN
        } else if spec_lt(spec_abs(s), s_pos(RC_TOL_U)) {
            let c = spec_mul(
                spec_mul(
                    spec_add(
                        s_pos(1288490189),
                        spec_mul(
                            s,
                            spec_add(
                                s_pos(613566757),
                                spec_mul(s, spec_add(s_pos(1610612736), spec_mul(s, s_pos(1757032076)))),
                            ),
                        ),
                    ),
                    s,
                ),
                s,
            );
            spec_mul(w, spec_div(spec_add(s_one(), c), spec_sqrt(m)))
        } else {
            spec_rc_loop(x1, y1, w, (fuel - 1) as nat)
        }
    }
}

/// The Carlson degenerate form `RC(x, y)`: a pole at `y == 0`, closed forms
/// on the axis and the diagonal, and otherwise the halving descent (after
/// moving a negative `y` into the positive quadrant).
#[verifier::opaque]
pub open spec fn spec_rc(x: Scalar, y: Scalar) -> Scalar {
    if spec_eq_v(y, s_zero()) {
        Scalar::PosInf
    } else if spec_eq_v(x, s_zero()) && spec_lt(s_zero(), y) {
        spec_div(s_pos(PI_U), spec_mul(s_pos(TWO_U), spec_sqrt(y)))
    } else if spec_eq_v(x, y) {
        spec_div(s_one(), spec_sqrt(x))
    } else {
        if spec_lt(s_zero(), y) {
            spec_rc_loop(x, y, s_one(), RC_ROUNDS as nat)
        } else {
            let w = spec_sqrt(spec_div(x, spec_sub(x, y)));
            spec_rc_loop(spec_sub(x, y), spec_neg(y), w, RC_ROUNDS as nat)
        }
    }
}

fn rc_loop(x: Scalar, y: Scalar, w: Scalar, fuel: u32) -> (r: Scalar)
    ensures
        r == spec_rc_loop(x, y, w, fuel as nat),
    decreases fuel,
{
    if fuel == 0 {
        Scalar::NaN
    } else {
        let (x, y, w) = rescale2(x, y, w, 16);
        let p = sp(TWO_U).mul(x.mul(y).sqrt()).add(y);
        let x1 = sp(QUARTER_U).mul(x.add(p));
        let y1 = sp(QUARTER_U).mul(y.add(p));
        let t = x1.add(y1.add(y1));
        let m = t.div(sp(THREE_U));
        let sdev = y1.sub(x1).div(t);
        if sdev.is_nan() {
            Scalar::NaN
        } else if sdev.abs().lt(sp(RC_TOL_U)) {
            let c = sp(1288490189).add(
                sdev.mul(sp(613566757).add(sdev.mul(sp(1610612736).add(sdev.mul(sp(1757032076)))))),
            ).mul(sdev).mul(sdev);
            w.mul(Scalar::one().add(c).div(m.sqrt()))
        } else {
            rc_loop(x1, y1, w, fuel - 1)
        }
    }
}

/// Shorthand for a positive finite scalar of the given magnitude in units.
fn sp(mag: u64) -> (r: Scalar)
    ensures
        r == s_pos(mag),
{
    Scalar::Fin { neg: false, mag }
}

/// Shorthand for a negative finite scalar of the given magnitude in units.
fn sneg(mag: u64) -> (r: Scalar)
    ensures
        r == s_neg_of(mag),
{
    Scalar::Fin { neg: true, mag }
}

/// Computes the Carlson degenerate integral of [`el1`].
pub fn rc(x: Scalar, y: Scalar) -> (r: Scalar)
    ensures
        r == spec_rc(x, y),
{
    proof {
        reveal(spec_rc);
    }
    if y.eq_v(Scalar::zero()) {
        Scalar::PosInf
    } else if x.eq_v(Scalar::zero()) && Scalar::zero().lt(y) {
        sp(PI_U).div(sp(TWO_U).mul(y.sqrt()))
    } else if x.eq_v(y) {
        Scalar::one().div(x.sqrt())
    } else if Scalar::zero().lt(y) {
        rc_loop(x, y, Scalar::one(), RC_ROUNDS)
    } else {
        let w = x.div(x.sub(y)).sqrt();
        rc_loop(x.sub(y), y.neg(), w, RC_ROUNDS)
    }
}

/// The tail of the `rd` descent: quarter the triad while accumulating the
/// partial sum, stop once all three normalized deviations from the running
/// mean fall under the tolerance, and finish with the sixth-order symmetric
/// polynomial correction.
pub open spec fn spec_rd_loop(
    x: Scalar,
    y: Scalar,
    z: Scalar,
    sm: Scalar,
    fc: Scalar,
    fuel: nat,
) -> Scalar
    decreases fuel,
{
    if fuel == 0 {
        Scalar::NaN
    } else {
        let sc = spec_rescale3(x, y, z, fc, s_pos(EIGHT_U), 16);
        let x = sc.0;
        let y = sc.1;
        let z = sc.2;
        let fc = sc.3;
        let rx = spec_sqrt(x);
        let ry = spec_sqrt(y);
        let rz = spec_sqrt(z);
        let lm = spec_add(spec_mul(rx, spec_add(ry, rz)), spec_mul(ry, rz));
        let sm1 = spec_add(sm, spec_div(spec_div(fc, rz), spec_add(z, lm)));
        let fc1 = spec_mul(s_pos(QUARTER_U), fc);
        let x1 = spec_mul(s_pos(QUARTER_U), spec_add(lm, x));
        let y1 = spec_mul(s_pos(QUARTER_U), spec_add(lm, y));
        let z1 = spec_mul(s_pos(QUARTER_U), spec_add(lm, z));
        let m = spec_div(spec_add(spec_add(x1, y1), spec_mul(s_pos(THREE_U), z1)), s_pos(FIVE_U));
        if spec_is_infinite(m) {
            Scalar::NaN
        } else {
            let dx = spec_div(spec_sub(m, x1), m);
            let dy = spec_div(spec_sub(m, y1), m);
            let dz = spec_div(spec_sub(m, z1), m);
            if spec_lt(spec_abs(dx), s_pos(RD_TOL_U)) && spec_lt(spec_abs(dy), s_pos(RD_TOL_U))
                && spec_lt(spec_abs(dz), s_pos(RD_TOL_U)) {
                let ea = spec_mul(dx, dy);
                let eb = spec_mul(dz, dz);
                let ec = spec_sub(ea, eb);
                let ed = spec_sub(ea, spec_mul(s_pos(SIX_U), eb));
                let ee = spec_add(spec_add(ed, ec), ec);
                let s1 = spec_mul(
                    ed,
                    spec_sub(
                        spec_add(s_neg_of(920350135), spec_mul(s_pos(439258019), ed)),
                        spec_mul(spec_mul(s_pos(743359724), dz), ee),
                    ),
                );
                let s2 = spec_add(
                    s1,
                    spec_mul(
                        dz,
                        spec_add(
                            spec_mul(s_pos(715827883), ee),
                            spec_mul(
                                dz,
                                spec_sub(
                                    spec_mul(spec_mul(dz, s_pos(495573150)), ea),
                                    spec_mul(s_pos(1757032076), ec),
                                ),
                            ),
                        ),
                    ),
                );
                spec_add(
                    spec_mul(s_pos(THREE_U), sm1),
                    spec_div(spec_div(spec_mul(fc1, spec_add(s_one(), s2)), m), spec_sqrt(m)),
                )
            } else {
                spec_rd_loop(x1, y1, z1, sm1, fc1, (fuel - 1) as nat)
            }
        }
    }
}

/// The Carlson second-kind form `RD(x, y, z)`: a pole at `x == y == 0`,
/// closed forms on the degenerate diagonals, a domain violation when
/// `x + y == 0` otherwise, and the accumulating descent in general.
#[verifier::opaque]
pub open spec fn spec_rd(x: Scalar, y: Scalar, z: Scalar) -> Scalar {
    if spec_eq_v(x, y) && spec_eq_v(x, s_zero()) {
        Scalar::PosInf
    } else if spec_eq_v(spec_add(x, y), s_zero()) {
        Scalar::NaN
    } else if spec_eq_v(y, z) && spec_eq_v(x, s_zero()) {
        spec_div(
            spec_mul(s_pos(THREE_U), s_pos(PI_U)),
            spec_mul(spec_mul(s_pos(FOUR_U), y), spec_sqrt(y)),
        )
    } else if spec_eq_v(y, z) && spec_eq_v(x, y) {
        spec_div(s_one(), spec_mul(x, spec_sqrt(x)))
    } else {
        spec_rd_loop(x, y, z, s_zero(), s_one(), RDF_ROUNDS as nat)
    }
}

fn rd_loop(x: Scalar, y: Scalar, z: Scalar, sm: Scalar, fc: Scalar, fuel: u32) -> (r: Scalar)
    ensures
        r == spec_rd_loop(x, y, z, sm, fc, fuel as nat),
    decreases fuel,
{
    if fuel == 0 {
        Scalar::NaN
    } else {
        let (x, y, z, fc) = rescale3(x, y, z, fc, sp(EIGHT_U), 16);
        let rx = x.sqrt();
        let ry = y.sqrt();
        let rz = z.sqrt();
        let lm = rx.mul(ry.add(rz)).add(ry.mul(rz));
        let sm1 = sm.add(fc.div(rz).div(z.add(lm)));
        let fc1 = sp(QUARTER_U).mul(fc);
        let x1 = sp(QUARTER_U).mul(lm.add(x));
        let y1 = sp(QUARTER_U).mul(lm.add(y));
        let z1 = sp(QUARTER_U).mul(lm.add(z));
        let m = x1.add(y1).add(sp(THREE_U).mul(z1)).div(sp(FIVE_U));
        if m.is_infinite() {
            Scalar::NaN
        } else {
            let dx = m.sub(x1).div(m);
            let dy = m.sub(y1).div(m);
            let dz = m.sub(z1).div(m);
            if dx.abs().lt(sp(RD_TOL_U)) && dy.abs().lt(sp(RD_TOL_U)) && dz.abs().lt(sp(RD_TOL_U)) {
                let ea = dx.mul(dy);
                let eb = dz.mul(dz);
                let ec = ea.sub(eb);
                let ed = ea.sub(sp(SIX_U).mul(eb));
                let ee = ed.add(ec).add(ec);
                let s1 = ed.mul(
                    sneg(920350135).add(sp(439258019).mul(ed)).sub(sp(743359724).mul(dz).mul(ee)),
                );
                let s2 = s1.add(
                    dz.mul(
                        sp(715827883).mul(ee).add(
                            dz.mul(dz.mul(sp(495573150)).mul(ea).sub(sp(1757032076).mul(ec))),
                        ),
                    ),
                );
                sp(THREE_U).mul(sm1).add(fc1.mul(Scalar::one().add(s2)).div(m).div(m.sqrt()))
            } else {
                rd_loop(x1, y1, z1, sm1, fc1, fuel - 1)
            }
        }
    }
}

/// Computes the Carlson degenerate cases of [`cel2`].
pub fn rd(x: Scalar, y: Scalar, z: Scalar) -> (r: Scalar)
    ensures
        r == spec_rd(x, y, z),
{
    proof {
        reveal(spec_rd);
    }
    if x.eq_v(y) && x.eq_v(Scalar::zero()) {
        Scalar::PosInf
    } else if x.add(y).eq_v(Scalar::zero()) {
        Scalar::NaN
    } else if y.eq_v(z) && x.eq_v(Scalar::zero()) {
        sp(THREE_U).mul(sp(PI_U)).div(sp(FOUR_U).mul(y).mul(y.sqrt()))
    } else if y.eq_v(z) && x.eq_v(y) {
        Scalar::one().div(x.mul(x.sqrt()))
    } else {
        rd_loop(x, y, z, Scalar::zero(), Scalar::one(), RDF_ROUNDS)
    }
}

/// The tail of the `rf` descent: quarter the triad, stop once the three
/// normalized deviations fall under the tolerance, and finish with the
/// degree-four symmetric polynomial correction `(1 + s) / sqrt(mean)`.
pub open spec fn spec_rf_loop(x: Scalar, y: Scalar, z: Scalar, p: Scalar, fuel: nat) -> Scalar
    decreases fuel,
{
    if fuel == 0 {
        Scalar::NaN
    } else {
        let sc = spec_rescale3(x, y, z, p, s_pos(TWO_U), 16);
        let x = sc.0;
        let y = sc.1;
        let z = sc.2;
        let p = sc.3;
        let rx = spec_sqrt(x);
        let ry = spec_sqrt(y);
        let rz = spec_sqrt(z);
        let lm = spec_add(spec_mul(rx, spec_add(ry, rz)), spec_mul(ry, rz));
        let x1 = spec_mul(s_pos(QUARTER_U), spec_add(lm, x));
        let y1 = spec_mul(s_pos(QUARTER_U), spec_add(lm, y));
        let z1 = spec_mul(s_pos(QUARTER_U), spec_add(lm, z));
        let av = spec_div(spec_add(spec_add(x1, y1), z1), s_pos(THREE_U));
        if spec_is_infinite(av) {
            Scalar::NaN
        } else {
            let dx = spec_div(spec_sub(av, x1), av);
            let dy = spec_div(spec_sub(av, y1), av);
            let dz = spec_div(spec_sub(av, z1), av);
            if spec_lt(spec_abs(dx), s_pos(RF_TOL_U)) && spec_lt(spec_abs(dy), s_pos(RF_TOL_U))
                && spec_lt(spec_abs(dz), s_pos(RF_TOL_U)) {
                let e2 = spec_sub(spec_mul(dx, dy), spec_mul(dz, dz));
                let e3 = spec_mul(spec_mul(dx, dy), dz);
                let c = spec_add(
                    spec_mul(
                        e2,
                        spec_sub(
                            spec_sub(spec_mul(s_pos(178956971), e2), s_pos(429496730)),
                            spec_mul(s_pos(292838679), e3),
                        ),
                    ),
                    spec_mul(s_pos(306783378), e3),
                );
                spec_mul(p, spec_div(spec_add(s_one(), c), spec_sqrt(av)))
            } else {
                spec_rf_loop(x1, y1, z1, p, (fuel - 1) as nat)
            }
        }
    }
}

/// The Carlson first-kind form `RF(x, y, z)`: zero arguments are moved out
/// of the first slot, the degenerate diagonals reduce to closed forms or to
/// `rc`, and the general case runs the quartering descent.
#[verifier::opaque]
pub open spec fn spec_rf(x: Scalar, y: Scalar, z: Scalar) -> Scalar {
    let xz = if spec_eq_v(z, s_zero()) && spec_lt(s_zero(), x) {
        (z, x)
    } else {
        (x, z)
    };
    let xy = if spec_eq_v(y, s_zero()) && spec_lt(s_zero(), xz.0) {
        (y, xz.0)
    } else {
        (xz.0, y)
    };
    let x2 = xy.0;
    let y2 = xy.1;
    let z2 = xz.1;
    if spec_eq_v(x2, s_zero()) && spec_eq_v(y2, s_zero()) {
        Scalar::PosInf
    } else if spec_eq_v(x2, y2) && spec_eq_v(y2, z2) {
        spec_div(s_one(), spec_sqrt(x2))
    } else if spec_eq_v(y2, z2) {
        if spec_eq_v(x2, s_zero()) {
            spec_div(s_pos(PI_U), spec_mul(s_pos(TWO_U), spec_sqrt(y2)))
        } else {
            spec_rc(x2, y2)
        }
    } else {
        spec_rf_loop(x2, y2, z2, s_one(), RDF_ROUNDS as nat)
    }
}

fn rf_loop(x: Scalar, y: Scalar, z: Scalar, p: Scalar, fuel: u32) -> (r: Scalar)
    ensures
        r == spec_rf_loop(x, y, z, p, fuel as nat),
    decreases fuel,
{
    if fuel == 0 {
        Scalar::NaN
    } else {
        let (x, y, z, p) = rescale3(x, y, z, p, sp(TWO_U), 16);
        let rx = x.sqrt();
        let ry = y.sqrt();
        let rz = z.sqrt();
        let lm = rx.mul(ry.add(rz)).add(ry.mul(rz));
        let x1 = sp(QUARTER_U).mul(lm.add(x));
        let y1 = sp(QUARTER_U).mul(lm.add(y));
        let z1 = sp(QUARTER_U).mul(lm.add(z));
        let av = x1.add(y1).add(z1).div(sp(THREE_U));
        if av.is_infinite() {
            Scalar::NaN
        } else {
            let dx = av.sub(x1).div(av);
            let dy = av.sub(y1).div(av);
            let dz = av.sub(z1).div(av);
            if dx.abs().lt(sp(RF_TOL_U)) && dy.abs().lt(sp(RF_TOL_U)) && dz.abs().lt(sp(RF_TOL_U)) {
                let e2 = dx.mul(dy).sub(dz.mul(dz));
                let e3 = dx.mul(dy).mul(dz);
                let c = e2.mul(sp(178956971).mul(e2).sub(sp(429496730)).sub(sp(292838679).mul(e3)))
                    .add(sp(306783378).mul(e3));
                p.mul(Scalar::one().add(c).div(av.sqrt()))
            } else {
                rf_loop(x1, y1, z1, p, fuel - 1)
            }
        }
    }
}

/// Computes the Carlson elliptic integral of the first kind.
pub fn rf(x: Scalar, y: Scalar, z: Scalar) -> (r: Scalar)
    ensures
        r == spec_rf(x, y, z),
{
    proof {
        reveal(spec_rf);
    }
    let (xa, za) = if z.eq_v(Scalar::zero()) && x.gt(Scalar::zero()) {
        (z, x)
    } else {
        (x, z)
    };
    let (xb, yb) = if y.eq_v(Scalar::zero()) && xa.gt(Scalar::zero()) {
        (y, xa)
    } else {
        (xa, y)
    };
    if xb.eq_v(Scalar::zero()) && yb.eq_v(Scalar::zero()) {
        Scalar::PosInf
    } else if xb.eq_v(yb) && yb.eq_v(za) {
        Scalar::one().div(xb.sqrt())
    } else if yb.eq_v(za) {
        if xb.eq_v(Scalar::zero()) {
            sp(PI_U).div(sp(TWO_U).mul(yb.sqrt()))
        } else {
            rc(xb, yb)
        }
    } else {
        rf_loop(xb, yb, za, Scalar::one(), RDF_ROUNDS)
    }
}

/// Total order used to sort the arguments of `rg`: minus infinity first,
/// finite values by signed value, not-a-number last.
pub open spec fn spec_total_le(a: Scalar, b: Scalar) -> bool {
    if b is NaN {
        true
    } else if a is NaN {
        false
    } else if a is NegInf {
        true
    } else if b is NegInf {
        false
    } else if a is PosInf {
        b is PosInf
    } else if b is PosInf {
        true
    } else {
        val(a) <= val(b)
    }
}

fn total_le(a: Scalar, b: Scalar) -> (r: bool)
    ensures
        r == spec_total_le(a, b),
{
    match (a, b) {
        (_, Scalar::NaN) => true,
        (Scalar::NaN, _) => false,
        (Scalar::NegInf, _) => true,
        (_, Scalar::NegInf) => false,
        (Scalar::PosInf, b2) => b2.is_infinite(),
        (_, Scalar::PosInf) => true,
        (Scalar::Fin { neg: na, mag: ma }, Scalar::Fin { neg: nb, mag: mb }) => {
            if na && !nb {
                true
            } else if !na && nb {
                ma == 0 && mb == 0
            } else if !na {
                ma <= mb
            } else {
                mb <= ma
            }
        },
    }
}

/// Sorts three scalars ascending with a fixed compare-exchange network.
pub open spec fn spec_sort3(x: Scalar, y: Scalar, z: Scalar) -> (Scalar, Scalar, Scalar) {
    let ab = if spec_total_le(x, y) {
        (x, y)
    } else {
        (y, x)
    };
    let bc = if spec_total_le(ab.1, z) {
        (ab.1, z)
    } else {
        (z, ab.1)
    };
    let ab2 = if spec_total_le(ab.0, bc.0) {
        (ab.0, bc.0)
    } else {
        (bc.0, ab.0)
    };
    (ab2.0, ab2.1, bc.1)
}

fn sort3(x: Scalar, y: Scalar, z: Scalar) -> (r: (Scalar, Scalar, Scalar))
    ensures
        r == spec_sort3(x, y, z),
{
    let (a, b) = if total_le(x, y) {
        (x, y)
    } else {
        (y, x)
    };
    let (b2, c) = if total_le(b, z) {
        (b, z)
    } else {
        (z, b)
    };
    let (a2, b3) = if total_le(a, b2) {
        (a, b2)
    } else {
        (b2, a)
    };
    (a2, b3, c)
}

/// The completely symmetric second-kind form `RG(x, y, z)`: the arguments
/// are sorted ascending into `(y, z, x)`, the degenerate shapes reduce to
/// square roots, and the general case combines `rf` and `rd`.
#[verifier::opaque]
pub open spec fn spec_rg(x0: Scalar, y0: Scalar, z0: Scalar) -> Scalar {
    let srt = spec_sort3(x0, y0, z0);
    let y = srt.0;
    let z = srt.1;
    let x = srt.2;
    if spec_eq_v(x, y) {
        spec_sqrt(x)
    } else if spec_eq_v(z, s_zero()) {
        spec_mul(s_pos(HALF_U), spec_sqrt(x))
    } else if spec_eq_v(y, s_zero()) && spec_eq_v(x, z) {
        spec_mul(spec_div(s_pos(PI_U), s_pos(FOUR_U)), spec_sqrt(x))
    } else {
        let sq = spec_sqrt(spec_mul(spec_div(x, z), y));
        let f = spec_mul(z, spec_rf(x, y, z));
        let d = if spec_eq_v(z, x) || spec_eq_v(z, y) {
            s_zero()
        } else {
            spec_mul(
                spec_sub(z, y),
                spec_mul(spec_sub(x, z), spec_div(spec_rd(x, y, z), s_pos(THREE_U))),
            )
        };
        spec_mul(s_pos(HALF_U), spec_add(spec_add(f, d), sq))
    }
}

/// Computes the Carlson completely symmetric elliptic integral of the 2nd kind.
pub fn rg(x0: Scalar, y0: Scalar, z0: Scalar) -> (r: Scalar)
    ensures
        r == spec_rg(x0, y0, z0),
{
    proof {
        reveal(spec_rg);
    }
    let (y, z, x) = sort3(x0, y0, z0);
    if x.eq_v(y) {
        x.sqrt()
    } else if z.eq_v(Scalar::zero()) {
        sp(HALF_U).mul(x.sqrt())
    } else if y.eq_v(Scalar::zero()) && x.eq_v(z) {
        sp(PI_U).div(sp(FOUR_U)).mul(x.sqrt())
    } else {
        let sq = x.div(z).mul(y).sqrt();
        let f = z.mul(rf(x, y, z));
        let d = if z.eq_v(x) || z.eq_v(y) {
            Scalar::zero()
        } else {
            z.sub(y).mul(x.sub(z).mul(rd(x, y, z).div(sp(THREE_U))))
        };
        sp(HALF_U).mul(f.add(d).add(sq))
    }
}


/// The truncated Maclaurin series of the inverse sine amplitude in
/// `y = s^2`, with parameter-dependent coefficients `u_1 .. u_6`.
pub open spec fn spec_serf(y: Scalar, m: Scalar) -> Scalar {
    let u1 = spec_add(s_pos(715827883), spec_mul(m, s_pos(715827883)));
    let u2 = spec_add(s_pos(322122547), spec_mul(m, spec_add(s_pos(214748365), spec_mul(m, s_pos(322122547)))));
    let u3 = spec_add(s_pos(191739611), spec_mul(m, spec_add(s_pos(115043767), spec_mul(m, spec_add(s_pos(115043767), spec_mul(m, s_pos(191739611)))))));
    let u4 = spec_add(s_pos(130489458), spec_mul(m, spec_add(s_pos(74565404), spec_mul(m, spec_add(s_pos(67108864), spec_mul(m, spec_add(s_pos(74565404), spec_mul(m, s_pos(130489458)))))))));
    let u5 = spec_add(s_pos(99138095), spec_mul(m, spec_add(s_pos(53382051), spec_mul(m, spec_add(s_pos(45756044), spec_mul(m, spec_add(s_pos(45756044), spec_mul(m, spec_add(s_pos(53382051), spec_mul(m, s_pos(99138095)))))))))));
    let u6 = spec_add(s_pos(74529556), spec_mul(m, spec_add(s_pos(40652485), spec_mul(m, spec_add(s_pos(33877071), spec_mul(m, spec_add(s_pos(32263877), spec_mul(m, spec_add(s_pos(33877071), spec_mul(m, spec_add(s_pos(40652485), spec_mul(m, s_pos(74529556)))))))))))));
    spec_add(s_one(), spec_mul(y, spec_add(u1, spec_mul(y, spec_add(u2, spec_mul(y, spec_add(u3, spec_mul(y, spec_add(u4, spec_mul(y, spec_add(u5, spec_mul(y, u6))))))))))))
}

/// Computes the truncated series expansion of the inverse sine amplitude function.
fn serf(y: Scalar, m: Scalar) -> (r: Scalar)
    ensures
        r == spec_serf(y, m),
{
    let u1 = sp(715827883).add(m.mul(sp(715827883)));
    let u2 = sp(322122547).add(m.mul(sp(214748365).add(m.mul(sp(322122547)))));
    let u3 = sp(191739611).add(m.mul(sp(115043767).add(m.mul(sp(115043767).add(m.mul(sp(191739611)))))));
    let u4 = sp(130489458).add(m.mul(sp(74565404).add(m.mul(sp(67108864).add(m.mul(sp(74565404).add(m.mul(sp(130489458)))))))));
    let u5 = sp(99138095).add(m.mul(sp(53382051).add(m.mul(sp(45756044).add(m.mul(sp(45756044).add(m.mul(sp(53382051).add(m.mul(sp(99138095)))))))))));
    let u6 = sp(74529556).add(m.mul(sp(40652485).add(m.mul(sp(33877071).add(m.mul(sp(32263877).add(m.mul(sp(33877071).add(m.mul(sp(40652485).add(m.mul(sp(74529556)))))))))))));
    Scalar::one().add(y.mul(u1.add(y.mul(u2.add(y.mul(u3.add(y.mul(u4.add(y.mul(u5.add(y.mul(u6))))))))))))
}

/// Units of the ascending-transform threshold constant `0.1888`.
pub const ASN_YA0_U: u64 = 810889825;

/// Units of the ascending-transform threshold slope `0.0378`.
pub const ASN_YA1_U: u64 = 162349764;

/// The descending Landen tail of `asn`: each round shrinks `y` and doubles
/// the scale `p`; once `y` falls under the threshold the series finishes the
/// job, and an exhausted round budget reports failure to converge.
pub open spec fn spec_asn_loop(y: Scalar, m: Scalar, ya: Scalar, p: Scalar, fuel: nat) -> Option<
    Scalar,
>
    decreases fuel,
{
    if fuel == 0 {
        Option::None
    } else {
        let y1 = spec_div(
            y,
            spec_mul(
                spec_add(s_one(), spec_sqrt(spec_sub(s_one(), y))),
                spec_add(s_one(), spec_sqrt(spec_sub(s_one(), spec_mul(m, y)))),
            ),
        );
        let p1 = spec_mul(p, s_pos(TWO_U));
        if spec_lt(y1, ya) {
            Option::Some(spec_mul(spec_mul(p1, spec_sqrt(y1)), spec_serf(y1, m)))
        } else {
            spec_asn_loop(y1, m, ya, p1, (fuel - 1) as nat)
        }
    }
}

/// The inverse sine amplitude `sn^{-1}(s | m)`: the truncated series below
/// the threshold `0.1888 - 0.0378 m`, and otherwise up to ten descending
/// Landen rounds; an absent result means the transform failed to converge.
pub open spec fn spec_asn(s: Scalar, m: Scalar) -> Option<Scalar> {
    let ya = spec_sub(s_pos(ASN_YA0_U), spec_mul(s_pos(ASN_YA1_U), m));
    let y = spec_mul(s, s);
    if spec_lt(y, ya) {
        Option::Some(spec_mul(s, spec_serf(y, m)))
    } else {
        spec_asn_loop(y, m, ya, s_one(), ASN_ROUNDS as nat)
    }
}

fn asn_loop(y: Scalar, m: Scalar, ya: Scalar, p: Scalar, fuel: u32) -> (r: Option<Scalar>)
    ensures
        r == spec_asn_loop(y, m, ya, p, fuel as nat),
    decreases fuel,
{
    if fuel == 0 {
        Option::None
    } else {
        let y1 = y.div(
            Scalar::one().add(Scalar::one().sub(y).sqrt()).mul(
                Scalar::one().add(Scalar::one().sub(m.mul(y)).sqrt()),
            ),
        );
        let p1 = p.mul(sp(TWO_U));
        if y1.lt(ya) {
            Option::Some(p1.mul(y1.sqrt()).mul(serf(y1, m)))
        } else {
            asn_loop(y1, m, ya, p1, fuel - 1)
        }
    }
}

/// Computes the inverse sine amplitude.
///
/// An absent result reports that the ascending transform did not converge
/// within its round budget; this happens only at or outside the edge of the
/// documented domain.
pub fn asn(s: Scalar, m: Scalar) -> (r: Option<Scalar>)
    ensures
        r == spec_asn(s, m),
{
    let ya = sp(ASN_YA0_U).sub(sp(ASN_YA1_U).mul(m));
    let y = s.mul(s);
    if y.lt(ya) {
        Option::Some(s.mul(serf(y, m)))
    } else {
        asn_loop(y, m, ya, Scalar::one(), ASN_ROUNDS)
    }
}

/// The mirrored tail of `acn`: ascend `x` towards the half-way point and
/// double the scale; past the half-way point the work is handed to `asn`.
pub open spec fn spec_acn_loop(x: Scalar, m: Scalar, mc: Scalar, p: Scalar, fuel: nat) -> Option<
    Scalar,
>
    decreases fuel,
{
    if fuel == 0 {
        Option::None
    } else if spec_lt(s_pos(HALF_U), x) {
        match spec_asn(spec_sqrt(spec_sub(s_one(), x)), m) {
            Option::Some(v) => Option::Some(spec_mul(p, v)),
            Option::None => Option::None,
        }
    } else {
        let d = spec_sqrt(spec_add(mc, spec_mul(m, x)));
        let x1 = spec_div(spec_add(spec_sqrt(x), d), spec_add(s_one(), d));
        spec_acn_loop(x1, m, mc, spec_mul(p, s_pos(TWO_U)), (fuel - 1) as nat)
    }
}

/// The inverse cosine amplitude against the complementary parameter `mc`,
/// sharing the round budget and failure mode of `asn`.
pub open spec fn spec_acn(c: Scalar, mc: Scalar) -> Option<Scalar> {
    spec_acn_loop(spec_mul(c, c), spec_sub(s_one(), mc), mc, s_one(), ASN_ROUNDS as nat)
}

fn acn_loop(x: Scalar, m: Scalar, mc: Scalar, p: Scalar, fuel: u32) -> (r: Option<Scalar>)
    ensures
        r == spec_acn_loop(x, m, mc, p, fuel as nat),
    decreases fuel,
{
    if fuel == 0 {
        Option::None
    } else if sp(HALF_U).lt(x) {
        match asn(Scalar::one().sub(x).sqrt(), m) {
            Option::Some(v) => Option::Some(p.mul(v)),
            Option::None => Option::None,
        }
    } else {
        let d = mc.add(m.mul(x)).sqrt();
        let x1 = x.sqrt().add(d).div(Scalar::one().add(d));
        acn_loop(x1, m, mc, p.mul(sp(TWO_U)), fuel - 1)
    }
}

/// Computes the inverse cosine amplitude.
///
/// An absent result reports that the transform did not converge within its
/// round budget, as for [`asn`].
pub fn acn(c: Scalar, mc: Scalar) -> (r: Option<Scalar>)
    ensures
        r == spec_acn(c, mc),
{
    acn_loop(c.mul(c), Scalar::one().sub(mc), mc, Scalar::one(), ASN_ROUNDS)
}

/// Taylor evaluation of `K(m)` around the bucket midpoint `214748365` units.
pub open spec fn spec_cel1_b0(m: Scalar) -> Scalar {
    let d = spec_sub(m, s_pos(214748365));
    spec_add(s_pos(6833307786), spec_mul(d, spec_add(s_pos(1786709573), spec_mul(d, spec_add(s_pos(1055666497), spec_mul(d, spec_add(s_pos(770867087), spec_mul(d, s_pos(620863550)))))))))
}

fn cel1_b0(m: Scalar) -> (r: Scalar)
    ensures
        r == spec_cel1_b0(m),
{
    let d = m.sub(sp(214748365));
    sp(6833307786).add(d.mul(sp(1786709573).add(d.mul(sp(1055666497).add(d.mul(sp(770867087).add(d.mul(sp(620863550)))))))))
}

/// Taylor evaluation of `K(m)` around the bucket midpoint `644245094` units.
pub open spec fn spec_cel1_b1(m: Scalar) -> Scalar {
    let d = spec_sub(m, s_pos(644245094));
    spec_add(s_pos(7023374176), spec_mul(d, spec_add(s_pos(2023748346), spec_mul(d, spec_add(s_pos(1330273392), spec_mul(d, spec_add(s_pos(1083226443), spec_mul(d, s_pos(973779123)))))))))
}

fn cel1_b1(m: Scalar) -> (r: Scalar)
    ensures
        r == spec_cel1_b1(m),
{
    let d = m.sub(sp(644245094));
    sp(7023374176).add(d.mul(sp(2023748346).add(d.mul(sp(1330273392).add(d.mul(sp(1083226443).add(d.mul(sp(973779123)))))))))
}

/// Taylor evaluation of `K(m)` around the bucket midpoint `1073741824` units.
pub open spec fn spec_cel1_b2(m: Scalar) -> Scalar {
    let d = spec_sub(m, s_pos(1073741824));
    spec_add(s_pos(7240242622), spec_mul(d, spec_add(s_pos(2326720579), spec_mul(d, spec_add(s_pos(1724534338), spec_mul(d, spec_add(s_pos(1587602320), spec_mul(d, s_pos(1615168494)))))))))
}

fn cel1_b2(m: Scalar) -> (r: Scalar)
    ensures
        r == spec_cel1_b2(m),
{
    let d = m.sub(sp(1073741824));
    sp(7240242622).add(d.mul(sp(2326720579).add(d.mul(sp(1724534338).add(d.mul(sp(1587602320).add(d.mul(sp(1615168494)))))))))
}

/// Taylor evaluation of `K(m)` around the bucket midpoint `1503238554` units.
pub open spec fn spec_cel1_b3(m: Scalar) -> Scalar {
    let d = spec_sub(m, s_pos(1503238554));
    spec_add(s_pos(7491928780), spec_mul(d, spec_add(s_pos(2726721320), spec_mul(d, spec_add(s_pos(2318606140), spec_mul(d, spec_add(s_pos(2456260486), spec_mul(d, spec_add(s_pos(2878895705), spec_mul(d, s_pos(3575932175)))))))))))
}

fn cel1_b3(m: Scalar) -> (r: Scalar)
    ensures
        r == spec_cel1_b3(m),
{
    let d = m.sub(sp(1503238554));
    sp(7491928780).add(d.mul(sp(2726721320).add(d.mul(sp(2318606140).add(d.mul(sp(2456260486).add(d.mul(sp(2878895705).add(d.mul(sp(3575932175)))))))))))
}

/// Taylor evaluation of `K(m)` around the bucket midpoint `1932735283` units.
pub open spec fn spec_cel1_b4(m: Scalar) -> Scalar {
    let d = spec_sub(m, s_pos(1932735283));
    spec_add(s_pos(7790572201), spec_mul(d, spec_add(s_pos(3277761200), spec_mul(d, spec_add(s_pos(3272458462), spec_mul(d, spec_add(s_pos(4084834518), spec_mul(d, spec_add(s_pos(5648658009), spec_mul(d, s_pos(8283105092)))))))))))
}

fn cel1_b4(m: Scalar) -> (r: Scalar)
    ensures
        r == spec_cel1_b4(m),
{
    let d = m.sub(sp(1932735283));
    sp(7790572201).add(d.mul(sp(3277761200).add(d.mul(sp(3272458462).add(d.mul(sp(4084834518).add(d.mul(sp(5648658009).add(d.mul(sp(8283105092)))))))))))
}

/// Taylor evaluation of `K(m)` around the bucket midpoint `2362232013` units.
pub open spec fn spec_cel1_b5(m: Scalar) -> Scalar {
    let d = spec_sub(m, s_pos(2362232013));
    spec_add(s_pos(8155820386), spec_mul(d, spec_add(s_pos(4082460002), spec_mul(d, spec_add(s_pos(4943840604), spec_mul(d, spec_add(s_pos(7517219738), spec_mul(d, spec_add(s_pos(12681650335), spec_mul(d, s_pos(22702339851)))))))))))
}

fn cel1_b5(m: Scalar) -> (r: Scalar)
    ensures
        r == spec_cel1_b5(m),
{
    let d = m.sub(sp(2362232013));
    sp(8155820386).add(d.mul(sp(4082460002).add(d.mul(sp(4943840604).add(d.mul(sp(7517219738).add(d.mul(sp(12681650335).add(d.mul(sp(22702339851)))))))))))
}

/// Taylor evaluation of `K(m)` around the bucket midpoint `2791728742` units.
pub open spec fn spec_cel1_b6(m: Scalar) -> Scalar {
    let d = spec_sub(m, s_pos(2791728742));
    spec_add(s_pos(8622569472), spec_mul(d, spec_add(s_pos(5362082973), spec_mul(d, spec_add(s_pos(8273114869), spec_mul(d, spec_add(s_pos(16111666322), spec_mul(d, spec_add(s_pos(34874896288), spec_mul(d, spec_add(s_pos(80168662540), spec_mul(d, s_pos(191572398289)))))))))))))
}

fn cel1_b6(m: Scalar) -> (r: Scalar)
    ensures
        r == spec_cel1_b6(m),
{
    let d = m.sub(sp(2791728742));
    sp(8622569472).add(d.mul(sp(5362082973).add(d.mul(sp(8273114869).add(d.mul(sp(16111666322).add(d.mul(sp(34874896288).add(d.mul(sp(80168662540).add(d.mul(sp(191572398289)))))))))))))
}

/// Taylor evaluation of `K(m)` around the bucket midpoint `3221225472` units.
pub open spec fn spec_cel1_b7(m: Scalar) -> Scalar {
    let d = spec_sub(m, s_pos(3221225472));
    spec_add(s_pos(9262164190), spec_mul(d, spec_add(s_pos(7695746625), spec_mul(d, spec_add(s_pos(16435771640), spec_mul(d, spec_add(s_pos(44610642899), spec_mul(d, spec_add(s_pos(134876207046), spec_mul(d, spec_add(s_pos(433464008071), spec_mul(d, spec_add(s_pos(1448807694323), spec_mul(d, s_pos(4976612664966)))))))))))))))
}

fn cel1_b7(m: Scalar) -> (r: Scalar)
    ensures
        r == spec_cel1_b7(m),
{
    let d = m.sub(sp(3221225472));
    sp(9262164190).add(d.mul(sp(7695746625).add(d.mul(sp(16435771640).add(d.mul(sp(44610642899).add(d.mul(sp(134876207046).add(d.mul(sp(433464008071).add(d.mul(sp(1448807694323).add(d.mul(sp(4976612664966)))))))))))))))
}

/// Taylor evaluation of `K(m)` around the bucket midpoint `3543348019` units.
pub open spec fn spec_cel1_b8(m: Scalar) -> Scalar {
    let d = spec_sub(m, s_pos(3543348019));
    spec_add(s_pos(9956260841), spec_mul(d, spec_add(s_pos(11239586460), spec_mul(d, spec_add(s_pos(33921372875), spec_mul(d, spec_add(s_pos(131006798424), spec_mul(d, spec_add(s_pos(564732094266), spec_mul(d, spec_add(s_pos(2589799841366), spec_mul(d, s_pos(12356726652687)))))))))))))
}

fn cel1_b8(m: Scalar) -> (r: Scalar)
    ensures
        r == spec_cel1_b8(m),
{
    let d = m.sub(sp(3543348019));
    sp(9956260841).add(d.mul(sp(11239586460).add(d.mul(sp(33921372875).add(d.mul(sp(131006798424).add(d.mul(sp(564732094266).add(d.mul(sp(2589799841366).add(d.mul(sp(12356726652687)))))))))))))
}

/// Taylor evaluation of `K(m)` around the bucket midpoint `3758096384` units.
pub open spec fn spec_cel1_b9(m: Scalar) -> Scalar {
    let d = spec_sub(m, s_pos(3758096384));
    spec_add(s_pos(10624014654), spec_mul(d, spec_add(s_pos(16010024203), spec_mul(d, spec_add(s_pos(67033242511), spec_mul(d, spec_add(s_pos(361329192239), spec_mul(d, spec_add(s_pos(2177470336567), spec_mul(d, spec_add(s_pos(13968423610231), spec_mul(d, spec_add(s_pos(93257665998121), spec_mul(d, s_pos(640109234167480)))))))))))))))
}

fn cel1_b9(m: Scalar) -> (r: Scalar)
    ensures
        r == spec_cel1_b9(m),
{
    let d = m.sub(sp(3758096384));
    sp(10624014654).add(d.mul(sp(16010024203).add(d.mul(sp(67033242511).add(d.mul(sp(361329192239).add(d.mul(sp(2177470336567).add(d.mul(sp(13968423610231).add(d.mul(sp(93257665998121).add(d.mul(sp(640109234167480)))))))))))))))
}

/// Units of the bucket width `0.1`.
pub const TENTH_U: u64 = 429496730;

/// Units of the half-decile bucket width `0.05`.
pub const C005_U: u64 = 214748365;

/// Units of the bucket-table split point `0.8`.
pub const C08_U: u64 = 3435973837;

/// Units of the small/large split point `0.9`.
pub const C09_U: u64 = 3865470566;

/// The tabulated-Taylor evaluation of `K(m)` below `0.9`: the parameter is
/// bucketed into deciles below `0.8` and half-deciles above, and the bucket
/// polynomial is evaluated around its midpoint.  Values outside the finite
/// positive range fall into the lowest bucket, where the arithmetic
/// propagates them as the kernel dictates.
pub open spec fn spec_cel1_small(m: Scalar) -> Scalar {
    match m {
        Scalar::Fin { neg, mag } => {
            if neg {
                spec_cel1_b0(m)
            } else if mag < C08_U {
                let idx = mag / TENTH_U;
                if idx == 0 {
                    spec_cel1_b0(m)
                } else
                if idx == 1 {
                    spec_cel1_b1(m)
                } else
                if idx == 2 {
                    spec_cel1_b2(m)
                } else
                if idx == 3 {
                    spec_cel1_b3(m)
                } else
                if idx == 4 {
                    spec_cel1_b4(m)
                } else
                if idx == 5 {
                    spec_cel1_b5(m)
                } else
                if idx == 6 {
                    spec_cel1_b6(m)
                } else {
                    spec_cel1_b7(m)
                }
            } else if (mag - C08_U) / (C005_U as int) == 0 {
                spec_cel1_b8(m)
            } else {
                spec_cel1_b9(m)
            }
        },
        _ => spec_cel1_b0(m),
    }
}

/// Computes the complete elliptic integral of the first kind for `m` below `0.9`.
fn cel1_small(m: Scalar) -> (r: Scalar)
    ensures
        r == spec_cel1_small(m),
{
    match m {
        Scalar::Fin { neg, mag } => {
            if neg {
                cel1_b0(m)
            } else if mag < C08_U {
                let idx: u64 = mag / TENTH_U;
                if idx == 0 {
                    cel1_b0(m)
                } else
                if idx == 1 {
                    cel1_b1(m)
                } else
                if idx == 2 {
                    cel1_b2(m)
                } else
                if idx == 3 {
                    cel1_b3(m)
                } else
                if idx == 4 {
                    cel1_b4(m)
                } else
                if idx == 5 {
                    cel1_b5(m)
                } else
                if idx == 6 {
                    cel1_b6(m)
                } else {
                    cel1_b7(m)
                }
            } else if (mag - C08_U) / C005_U == 0 {
                cel1_b8(m)
            } else {
                cel1_b9(m)
            }
        },
        _ => cel1_b0(m),
    }
}

/// The log-asymptotic evaluation of `K(m)` near `1`: with `mc = 1 - m`,
/// combine `K(mc)` with the logarithm of the nome series
/// `q_c = mc/16 + mc^2/32 + 21 mc^3/1024 + ...` as `-ln(q_c) K(mc) / pi`.
pub open spec fn spec_cel1_large(m: Scalar) -> Scalar {
    let mc = spec_sub(s_one(), m);
    let kc = spec_cel1_small(mc);
    let qc = spec_mul(mc, spec_add(s_pos(268435456), spec_mul(mc, spec_add(s_pos(134217728), spec_mul(mc, spec_add(s_pos(88080384), spec_mul(mc, spec_add(s_pos(65011712), spec_mul(mc, spec_add(s_pos(51257344), spec_mul(mc, s_pos(42160128))))))))))));
    spec_div(spec_mul(spec_mul(s_neg_of(SCALE), spec_ln(qc)), kc), s_pos(PI_U))
}

/// Computes the complete elliptic integral of the first kind for `m` of at least `0.9`.
fn cel1_large(m: Scalar) -> (r: Scalar)
    ensures
        r == spec_cel1_large(m),
{
    let mc = Scalar::one().sub(m);
    let kc = cel1_small(mc);
    let qc = mc.mul(sp(268435456).add(mc.mul(sp(134217728).add(mc.mul(sp(88080384).add(mc.mul(sp(65011712).add(mc.mul(sp(51257344).add(mc.mul(sp(42160128))))))))))));
    sneg(SCALE).mul(qc.ln()).mul(kc).div(sp(PI_U))
}

/// The complete first-kind integral `K(m)`: tabulated Taylor buckets below
/// `0.9`, the logarithmic asymptotic branch above.
pub open spec fn spec_cel1(m: Scalar) -> Scalar {
    if spec_lt(m, s_pos(C09_U)) {
        spec_cel1_small(m)
    } else {
        spec_cel1_large(m)
    }
}

/// Computes the complete elliptic integral of the first kind for a given `m`: K(m).
///
/// `m` should be in the range `(0, 1)`; the pole at `m == 1` yields positive
/// infinity.
pub fn cel1(m: Scalar) -> (r: Scalar)
    ensures
        r == spec_cel1(m),
{
    if m.lt(sp(C09_U)) {
        cel1_small(m)
    } else {
        cel1_large(m)
    }
}

/// Units of the large negative cutoff `2e6` of `cel2`.
pub const CEL2_NEG_U: u64 = 8589934592000000;

/// Units of the near-one cutoff `0.99999` of `cel2`.
pub const CEL2_HI_U: u64 = 4294924346;

/// Units of `16`.
pub const SIXTEEN_U: u64 = 68719476736;

/// Units of `1/32`.
pub const ONE32_U: u64 = 134217728;

/// Units of `1.5`.
pub const THREE_HALVES_U: u64 = 6442450944;

/// The complete second-kind integral `E(m)`: exact values at `0` and `1`,
/// logarithmic asymptotics for very negative or near-one parameters, and
/// `2 RG(0, 1 - m, 1)` otherwise.
pub open spec fn spec_cel2(m: Scalar) -> Scalar {
    if spec_eq_v(m, s_zero()) {
        s_pos(HALF_PI_U)
    } else if spec_eq_v(m, s_one()) {
        s_one()
    } else if spec_lt(m, s_neg_of(CEL2_NEG_U)) {
        let b = spec_ln(spec_mul(s_neg_of(SIXTEEN_U), m));
        let a = spec_sqrt(spec_neg(m));
        spec_sub(
            spec_add(a, spec_div(spec_mul(s_pos(QUARTER_U), spec_add(b, s_one())), a)),
            spec_div(
                spec_mul(s_pos(ONE32_U), spec_sub(b, s_pos(THREE_HALVES_U))),
                spec_mul(spec_mul(a, a), a),
            ),
        )
    } else if spec_lt(s_pos(CEL2_HI_U), m) {
        let m1 = spec_sub(s_one(), m);
        let a = spec_ln(spec_div(s_pos(SIXTEEN_U), m1));
        spec_add(s_one(), spec_mul(spec_mul(m1, s_pos(QUARTER_U)), spec_sub(a, s_one())))
    } else {
        spec_mul(s_pos(TWO_U), spec_rg(s_zero(), spec_sub(s_one(), m), s_one()))
    }
}

/// Computes the complete elliptic integral of the second kind for `m`: E(m).
///
/// `m` must be in the range `(0, 1)`.
pub fn cel2(m: Scalar) -> (r: Scalar)
    ensures
        r == spec_cel2(m),
{
    if m.eq_v(Scalar::zero()) {
        sp(HALF_PI_U)
    } else if m.eq_v(Scalar::one()) {
        Scalar::one()
    } else if m.lt(sneg(CEL2_NEG_U)) {
        let b = sneg(SIXTEEN_U).mul(m).ln();
        let a = m.neg().sqrt();
        a.add(sp(QUARTER_U).mul(b.add(Scalar::one())).div(a)).sub(
            sp(ONE32_U).mul(b.sub(sp(THREE_HALVES_U))).div(a.mul(a).mul(a)),
        )
    } else if sp(CEL2_HI_U).lt(m) {
        let m1 = Scalar::one().sub(m);
        let a = sp(SIXTEEN_U).div(m1).ln();
        Scalar::one().add(m1.mul(sp(QUARTER_U)).mul(a.sub(Scalar::one())))
    } else {
        sp(TWO_U).mul(rg(Scalar::zero(), Scalar::one().sub(m), Scalar::one()))
    }
}

/// Units of the amplitude split point `1.249` of `el1`.
pub const PHI_S_U: u64 = 5364414153;

/// Units of the ratio threshold `0.9` of `el1`.
pub const GAMMA_S_U: u64 = 3865470566;

/// The incomplete first-kind integral `F(phi | m)`: small amplitudes go to
/// `asn` on `sin phi`; larger ones are reduced through `cos phi` to `acn`
/// or to a difference against the complete integral of the complementary
/// parameter.  An absent result reports a failed ascending transform.
pub open spec fn spec_el1(phi: Scalar, m: Scalar) -> Option<Scalar> {
    let mc = spec_sub(s_one(), m);
    if spec_lt(phi, s_pos(PHI_S_U)) {
        spec_asn(spec_sin(phi), m)
    } else {
        let c = spec_cos(phi);
        let x = spec_mul(c, c);
        let d2 = spec_add(mc, spec_mul(m, x));
        if spec_lt(x, spec_mul(s_pos(GAMMA_S_U), d2)) {
            match spec_asn(spec_div(c, spec_sqrt(d2)), m) {
                Option::Some(v) => Option::Some(spec_sub(spec_cel1(mc), v)),
                Option::None => Option::None,
            }
        } else {
            let v = spec_mul(mc, spec_sub(s_one(), x));
            if spec_lt(v, spec_mul(x, d2)) {
                spec_acn(c, mc)
            } else {
                match spec_acn(spec_sqrt(spec_div(v, d2)), mc) {
                    Option::Some(w) => Option::Some(spec_sub(spec_cel1(mc), w)),
                    Option::None => Option::None,
                }
            }
        }
    }
}

/// Computes the incomplete elliptic integral of the first kind for `phi` and `m`: F(phi | m).
///
/// `phi` must be in the range `(0, PI / 2)` and `m` must be in the range
/// `(0, 1)`.  An absent result reports that the ascending transform did not
/// converge, which only happens at or outside the edge of that domain.
pub fn el1(phi: Scalar, m: Scalar) -> (r: Option<Scalar>)
    ensures
        r == spec_el1(phi, m),
{
    let mc = Scalar::one().sub(m);
    if phi.lt(sp(PHI_S_U)) {
        asn(phi.sin(), m)
    } else {
        let c = phi.cos();
        let x = c.mul(c);
        let d2 = mc.add(m.mul(x));
        if x.lt(sp(GAMMA_S_U).mul(d2)) {
            match asn(c.div(d2.sqrt()), m) {
                Option::Some(v) => Option::Some(cel1(mc).sub(v)),
                Option::None => Option::None,
            }
        } else {
            let v = mc.mul(Scalar::one().sub(x));
            if v.lt(x.mul(d2)) {
                acn(c, mc)
            } else {
                match acn(v.div(d2).sqrt(), mc) {
                    Option::Some(w) => Option::Some(cel1(mc).sub(w)),
                    Option::None => Option::None,
                }
            }
        }
    }
}

/// The incomplete second-kind integral `E(x | m)` on the sine argument `x`:
/// `0` at `x == 0`, the complete integral at `x == 1`, not-a-number when the
/// domain check `q = 1 - m x^2` turns negative, and otherwise the standard
/// Carlson reduction `x RF(c, q, 1) - (m/3) x^3 RD(c, q, 1)` with
/// `c = 1 - x^2`.
pub open spec fn spec_el2(x: Scalar, m: Scalar) -> Scalar {
    if spec_eq_v(x, s_zero()) {
        s_zero()
    } else if spec_eq_v(x, s_one()) {
        spec_cel2(m)
    } else {
        let s2 = spec_mul(x, x);
        let q = spec_sub(s_one(), spec_mul(m, s2));
        if spec_lt(q, s_zero()) {
            Scalar::NaN
        } else {
            let c = spec_sub(s_one(), s2);
            let f = spec_rf(c, q, s_one());
            let d = spec_rd(c, q, s_one());
            spec_sub(
                spec_mul(x, f),
                spec_mul(spec_mul(spec_div(m, s_pos(THREE_U)), spec_mul(s2, x)), d),
            )
        }
    }
}

/// Computes the incomplete elliptic integral of the second kind for `x` and `m`: E(x | m).
///
/// `x` is the sine of the amplitude and must satisfy `|x| <= 1`; `m` must be
/// in the range `(0, 1)`.  A negative domain check `1 - m x^2` yields
/// not-a-number.
pub fn el2(x: Scalar, m: Scalar) -> (r: Scalar)
    ensures
        r == spec_el2(x, m),
{
    if x.eq_v(Scalar::zero()) {
        Scalar::zero()
    } else if x.eq_v(Scalar::one()) {
        cel2(m)
    } else {
        let s2 = x.mul(x);
        let q = Scalar::one().sub(m.mul(s2));
        if q.lt(Scalar::zero()) {
            Scalar::NaN
        } else {
            let c = Scalar::one().sub(s2);
            let f = rf(c, q, Scalar::one());
            let d = rd(c, q, Scalar::one());
            x.mul(f).sub(m.div(sp(THREE_U)).mul(s2.mul(x)).mul(d))
        }
    }
}


/// On an all-equal positive triad the first-kind form collapses exactly to
/// the inverse square root: `rf(x, x, x) == 1 / sqrt(x)` for `x > 0`.
pub proof fn lemma_rf_diagonal(x: Scalar)
    requires
        spec_lt(s_zero(), x),
    ensures
        spec_rf(x, x, x) == spec_div(s_one(), spec_sqrt(x)),
{
    reveal(spec_rf);
}

/// On an all-equal positive triad the second-kind form collapses exactly to
/// the inverse `3/2` power: `rd(y, y, y) == 1 / (y * sqrt(y))` for `y > 0`.
pub proof fn lemma_rd_diagonal(y: Scalar)
    requires
        spec_lt(s_zero(), y),
    ensures
        spec_rd(y, y, y) == spec_div(s_one(), spec_mul(y, spec_sqrt(y))),
{
    reveal(spec_rd);
}

/// The complete second-kind integral takes its exact endpoint values:
/// a quarter turn at parameter zero and one at parameter one.
pub proof fn lemma_cel2_endpoints()
    ensures
        spec_cel2(s_zero()) == s_pos(HALF_PI_U),
        spec_cel2(s_one()) == s_one(),
{
}

/// The complete first-kind integral has its pole at parameter one:
/// `cel1(1)` is positive infinity.
/// Helper: the tabulated Taylor evaluation at parameter zero.
#[verifier::spinoff_prover]
proof fn lemma_cel1_small_zero()
    ensures
        spec_cel1_small(Scalar::Fin { neg: false, mag: 0 }) == s_pos(6746518996),
{
    let mc = Scalar::Fin { neg: false, mag: 0 };
    let d = spec_sub(mc, s_pos(214748365));
    assert(d == (Scalar::Fin { neg: true, mag: 214748365 }));
    assert(spec_mul(d, s_pos(620863550)) == (Scalar::Fin { neg: true, mag: 31043177 }));
    assert(spec_add(s_pos(770867087), spec_mul(d, s_pos(620863550))) == s_pos(739823910));
    assert(spec_mul(d, s_pos(739823910)) == (Scalar::Fin { neg: true, mag: 36991195 }));
    assert(spec_mul(d, s_pos(1018675302)) == (Scalar::Fin { neg: true, mag: 50933765 }));
    assert(spec_mul(d, s_pos(1735775808)) == (Scalar::Fin { neg: true, mag: 86788790 }));
    assert(spec_cel1_b0(mc) == s_pos(6746518996));
}

/// The complete first-kind integral has its pole at parameter one:
/// `cel1(1)` is positive infinity.
#[verifier::rlimit(100)]
#[verifier::spinoff_prover]
pub proof fn lemma_cel1_pole()
    ensures
        spec_cel1(s_one()) == Scalar::PosInf,
{
    let mc = spec_sub(s_one(), s_one());
    assert(mc == (Scalar::Fin { neg: false, mag: 0 }));
    lemma_cel1_small_zero();
    assert(spec_mul(mc, s_pos(42160128)) == mc);
    assert(spec_add(s_pos(51257344), mc) == s_pos(51257344));
    assert(spec_mul(mc, s_pos(51257344)) == mc);
    assert(spec_add(s_pos(65011712), mc) == s_pos(65011712));
    assert(spec_mul(mc, s_pos(65011712)) == mc);
    assert(spec_add(s_pos(88080384), mc) == s_pos(88080384));
    assert(spec_mul(mc, s_pos(88080384)) == mc);
    assert(spec_add(s_pos(134217728), mc) == s_pos(134217728));
    assert(spec_mul(mc, s_pos(134217728)) == mc);
    assert(spec_add(s_pos(268435456), mc) == s_pos(268435456));
    assert(spec_mul(mc, s_pos(268435456)) == mc);
    assert(spec_ln(mc) == Scalar::NegInf);
    assert(spec_mul(s_neg_of(SCALE), Scalar::NegInf) == Scalar::PosInf);
    assert(spec_mul(Scalar::PosInf, s_pos(6746518996)) == Scalar::PosInf);
    assert(spec_div(Scalar::PosInf, s_pos(PI_U)) == Scalar::PosInf);
    assert(spec_cel1_large(s_one()) == Scalar::PosInf);
    assert(spec_cel1(s_one()) == Scalar::PosInf);
}

/// Helper for the boundary law: the complete second-kind integral is
/// not-a-number on finite parameters beyond one, where its near-one
/// asymptotic branch takes the logarithm of a negative value.
#[verifier::rlimit(100)]
#[verifier::spinoff_prover]
proof fn lemma_cel2_above_one(m: Scalar)
    requires
        m is Fin,
        !(m->Fin_neg),
        m->Fin_mag > SCALE,
    ensures
        spec_cel2(m) is NaN,
{
    let mm = m->Fin_mag;
    let d = (mm - SCALE) as u64;
    let m1 = spec_sub(s_one(), m);
    assert(m1 == (Scalar::Fin { neg: true, mag: d }));
    let q16 = (SIXTEEN_U as int * SCALE as int) / (d as int);
    vstd::arithmetic::div_mod::lemma_div_non_zero(SIXTEEN_U as int * SCALE as int, d as int);
    if q16 > u64::MAX {
        assert(spec_div(s_pos(SIXTEEN_U), m1) == Scalar::NegInf);
    } else {
        assert(spec_div(s_pos(SIXTEEN_U), m1) == (Scalar::Fin { neg: true, mag: q16 as u64 }));
    }
    assert(spec_ln(spec_div(s_pos(SIXTEEN_U), m1)) is NaN);
}

/// Boundary law: the incomplete second-kind integral is not-a-number
/// whenever the domain check `q = 1 - m x^2` is negative.
///
/// The parameter is kept finite because the dispatcher at `x == 1` hands
/// `m` to `cel2` before any domain check, and `cel2` of positive infinity
/// is a pole, not a domain violation.
#[verifier::rlimit(100)]
#[verifier::spinoff_prover]
pub proof fn lemma_el2_domain(x: Scalar, m: Scalar)
    requires
        m is Fin,
        spec_lt(spec_sub(s_one(), spec_mul(m, spec_mul(x, x))), s_zero()),
    ensures
        spec_el2(x, m) is NaN,
{
    if spec_eq_v(x, s_one()) {
        assert(x == s_one());
        vstd::arithmetic::div_mod::lemma_div_multiples_vanish(SCALE as int, SCALE as int);
        assert((SCALE as int * SCALE as int) / (SCALE as int) == SCALE as int);
        assert(spec_mul(x, x) == s_one());
        let mm = m->Fin_mag;
        vstd::arithmetic::div_mod::lemma_div_multiples_vanish(
            mm as int,
            SCALE as int,
        );
        assert((mm as int * SCALE as int) / (SCALE as int) == mm as int);
        assert(spec_mul(m, s_one()) == sfin(m->Fin_neg, mm as int));
        assert(!(m->Fin_neg) && mm > SCALE);
        lemma_cel2_above_one(m);
    } else if spec_eq_v(x, s_zero()) {
        assert(spec_mul(x, x) == (Scalar::Fin { neg: false, mag: 0 }));
        assert(false);
    }
}

} // verus!
