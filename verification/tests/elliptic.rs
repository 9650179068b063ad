//! Numeric checks of the elliptic integrals against reference values.

use gizmomath::elliptic::{acn, asn, cel1, cel2, el1, el2, rc, rd, rf, rg};
use gizmomath::scalar::{Scalar, HALF_PI_U};

const UNITS: f64 = 4294967296.0;

/// About six binary-32 epsilons: the tolerance for values near the pole.
const FIVE_EPSILON: f64 = 6.0 * 1.1920929e-7;

/// One binary-32 epsilon: the default tolerance of these checks.
const ONE_EPSILON: f64 = 1.1920929e-7;

fn fx(v: f64) -> Scalar {
    if v < 0.0 {
        Scalar::Fin { neg: true, mag: (-v * UNITS).round() as u64 }
    } else {
        Scalar::Fin { neg: false, mag: (v * UNITS).round() as u64 }
    }
}

fn tof(s: Scalar) -> f64 {
    match s {
        Scalar::NaN => f64::NAN,
        Scalar::PosInf => f64::INFINITY,
        Scalar::NegInf => f64::NEG_INFINITY,
        Scalar::Fin { neg, mag } => {
            let v = mag as f64 / UNITS;
            if neg {
                -v
            } else {
                v
            }
        },
    }
}

fn assert_rel(got: Scalar, want: f64, tol: f64) {
    let g = tof(got);
    let rel = (g - want).abs() / want.abs().max(1e-12);
    assert!(rel < tol, "got {g}, want {want}, rel {rel:e}");
}

#[test]
fn complete_integral_first_kind_low() {
    let pi_2 = std::f64::consts::FRAC_PI_2;
    assert_rel(cel1(fx(0.)), pi_2, ONE_EPSILON);
    assert_rel(cel1(fx(0.00001)), 1.570800253, ONE_EPSILON);
    assert_rel(cel1(fx(0.09)), 1.60804861, ONE_EPSILON);
    assert_rel(cel1(fx(0.185)), 1.65213899, ONE_EPSILON);
    assert_rel(cel1(fx(0.25)), 1.68575035, ONE_EPSILON);
    assert_rel(cel1(fx(0.31)), 1.71978481, ONE_EPSILON);
    assert_rel(cel1(fx(0.493)), 1.84818918, ONE_EPSILON);
    assert_rel(cel1(fx(0.5)), 1.854074677, ONE_EPSILON);
    assert_rel(cel1(fx(0.597)), 1.94633962, ONE_EPSILON);
    assert_rel(cel1(fx(0.618)), 1.96950524, ONE_EPSILON);
    assert_rel(cel1(fx(0.75)), 2.15651565, ONE_EPSILON);
    assert_rel(cel1(fx(0.801)), 2.25948339, ONE_EPSILON);
    assert_rel(cel1(fx(0.853)), 2.39835076, ONE_EPSILON);
}

#[test]
fn complete_integral_first_kind_high() {
    // Use the larger epsilon for the high tests.
    assert_rel(cel1(fx(0.903)), 2.59243319, FIVE_EPSILON);
    assert_rel(cel1(fx(0.916)), 2.66041638, FIVE_EPSILON);
    assert_rel(cel1(fx(0.924)), 2.70791714, FIVE_EPSILON);
    assert_rel(cel1(fx(0.933)), 2.76797262, FIVE_EPSILON);
    assert_rel(cel1(fx(0.948)), 2.88945822, FIVE_EPSILON);
    assert_rel(cel1(fx(0.952)), 2.92800816, FIVE_EPSILON);
    assert_rel(cel1(fx(0.961)), 3.02837751, FIVE_EPSILON);
    assert_rel(cel1(fx(0.976)), 3.26482357, FIVE_EPSILON);
    assert_rel(cel1(fx(0.985)), 3.49554409, FIVE_EPSILON);
    assert_rel(cel1(fx(0.995)), 4.03925748, FIVE_EPSILON);
    assert_eq!(cel1(fx(1.)), Scalar::PosInf);
}

#[test]
fn incomplete_integral_first_kind() {
    let pi_4 = std::f64::consts::FRAC_PI_4;
    assert_rel(el1(fx(pi_4), fx(0.)).unwrap(), 0.7853982, FIVE_EPSILON);
    assert_rel(el1(fx(pi_4), fx(0.25)).unwrap(), 0.8043661, FIVE_EPSILON);
    assert_rel(el1(fx(pi_4), fx(0.5)).unwrap(), 0.8260179, FIVE_EPSILON);
    assert_rel(el1(fx(pi_4), fx(0.75)).unwrap(), 0.8512237, FIVE_EPSILON);
    assert_rel(el1(fx(pi_4), fx(1.0)).unwrap(), 0.8813736, FIVE_EPSILON);
}

#[test]
fn complete_integral_second_kind() {
    assert_rel(cel2(fx(0.062)), 1.5461584, ONE_EPSILON);
    assert_rel(cel2(fx(0.158)), 1.5067791, ONE_EPSILON);
    assert_rel(cel2(fx(0.217)), 1.4817567, ONE_EPSILON);
    assert_rel(cel2(fx(0.334)), 1.4300116, ONE_EPSILON);
    assert_rel(cel2(fx(0.409)), 1.3951269, ONE_EPSILON);
    assert_rel(cel2(fx(0.582)), 1.3081238, ONE_EPSILON);
    assert_rel(cel2(fx(0.618)), 1.2885870, ONE_EPSILON);
    assert_rel(cel2(fx(0.753)), 1.2091616, ONE_EPSILON);
    assert_rel(cel2(fx(0.829)), 1.1584934, ONE_EPSILON);
    assert_rel(cel2(fx(0.964)), 1.0463593, ONE_EPSILON);
    assert_rel(cel2(fx(0.99992)), 1.0002241, ONE_EPSILON);
    assert_rel(cel2(fx(0.999995)), 1.0000175, ONE_EPSILON);
}

#[test]
fn stress() {
    const N: usize = 1000000;
    let mut random = Vec::with_capacity(N);

    for _ in 0..N {
        random.push(fx(rand::random::<f32>() as f64));
    }

    let mut cloned = random.clone();
    let start = std::time::Instant::now();
    for r in random.iter_mut() {
        *r = cel2(*r);
    }
    let int_dur = std::time::Instant::now().duration_since(start);

    let start = std::time::Instant::now();
    for r in cloned.iter_mut() {
        *r = (*r).sin();
    }
    let sin_dur = std::time::Instant::now().duration_since(start);

    println!("{N} integrals took {}ms", int_dur.as_millis());
    println!("{N} sin() took {}ms", sin_dur.as_millis());
    println!(
        "Integrals are {:.2} times slower",
        int_dur.as_secs_f64() / sin_dur.as_secs_f64().max(1e-9)
    );
}

#[test]
fn complete_second_kind_endpoints_exact() {
    assert_eq!(cel2(fx(0.0)), Scalar::Fin { neg: false, mag: HALF_PI_U });
    assert_eq!(cel2(fx(1.0)), Scalar::one());
}

#[test]
fn first_kind_form_collapses_on_diagonal() {
    for v in [0.25, 1.0, 2.0, 7.5] {
        let x = fx(v);
        assert_eq!(rf(x, x, x), Scalar::one().div(x.sqrt()));
    }
}

#[test]
fn second_kind_form_collapses_on_diagonal() {
    for v in [0.25, 1.0, 3.0, 9.5] {
        let y = fx(v);
        assert_eq!(rd(y, y, y), Scalar::one().div(y.mul(y.sqrt())));
    }
}

#[test]
fn degenerate_form_pole_at_zero() {
    assert_eq!(rc(fx(1.0), fx(0.0)), Scalar::PosInf);
}

#[test]
fn symmetric_second_kind_degenerate_shapes() {
    // An all-equal triad collapses to a square root.
    assert_eq!(rg(fx(4.0), fx(4.0), fx(4.0)), fx(4.0).sqrt());
    // A zero middle argument halves the square root of the largest.
    let half = Scalar::Fin { neg: false, mag: 2147483648 };
    assert_eq!(rg(fx(4.0), fx(0.0), fx(0.0)), half.mul(fx(4.0).sqrt()));
}

#[test]
fn complete_first_kind_strictly_increasing() {
    let mut prev = tof(cel1(fx(0.0)));
    for i in 1..90 {
        let m = i as f64 / 100.0;
        let v = tof(cel1(fx(m)));
        assert!(v > prev, "not increasing at m = {m}: {v} <= {prev}");
        prev = v;
    }
}

#[test]
fn incomplete_first_kind_parameter_zero_is_identity() {
    for phi in [0.1, 0.3, 0.7, 1.1, 1.2] {
        let r = el1(fx(phi), fx(0.0)).unwrap();
        assert_rel(r, phi, 1e-6);
        assert_rel(r, phi.sin().asin(), 1e-6);
    }
}

#[test]
fn incomplete_first_kind_parameter_one_is_atanh() {
    for phi in [0.3, 0.7, 1.2, 1.5] {
        let r = el1(fx(phi), fx(1.0)).unwrap();
        assert_rel(r, phi.sin().atanh(), 1e-6);
    }
}

#[test]
fn incomplete_second_kind_parameter_zero_is_asin() {
    for x in [0.2, 0.5, 0.9] {
        assert_rel(el2(fx(x), fx(0.0)), x.asin(), 1e-6);
    }
}

#[test]
fn incomplete_second_kind_parameter_one_is_identity() {
    for x in [0.2, 0.5, 0.9] {
        assert_rel(el2(fx(x), fx(1.0)), x, 1e-6);
    }
}

#[test]
fn incomplete_second_kind_endpoints_exact() {
    assert_eq!(el2(fx(0.0), fx(0.3)), Scalar::zero());
    assert_eq!(el2(fx(1.0), fx(0.3)), cel2(fx(0.3)));
}

#[test]
fn incomplete_second_kind_domain_violation_is_nan() {
    // 1 - m x^2 < 0 in each case.
    assert_eq!(el2(fx(0.9), fx(2.0)), Scalar::NaN);
    assert_eq!(el2(fx(0.5), fx(5.0)), Scalar::NaN);
    assert_eq!(el2(fx(1.5), fx(0.9)), Scalar::NaN);
}

#[test]
fn ascending_transform_reports_convergence_failure() {
    // At the corner s = 1, m = 1 the Landen step makes no progress.
    assert_eq!(asn(fx(1.0), fx(1.0)), None);
    assert!(asn(fx(0.5), fx(0.5)).is_some());
    assert!(acn(fx(0.5), fx(0.5)).is_some());
}

#[test]
fn repeated_calls_are_bit_identical() {
    let m = fx(0.37);
    assert_eq!(cel1(m), cel1(m));
    assert_eq!(cel2(m), cel2(m));
    assert_eq!(el1(fx(0.8), m), el1(fx(0.8), m));
    assert_eq!(el2(fx(0.6), m), el2(fx(0.6), m));
    assert_eq!(rf(fx(0.1), fx(0.2), fx(0.3)), rf(fx(0.1), fx(0.2), fx(0.3)));
    assert_eq!(rd(fx(0.1), fx(0.2), fx(0.3)), rd(fx(0.1), fx(0.2), fx(0.3)));
}

#[test]
fn scalar_kernel_edge_values() {
    assert_eq!(fx(-4.0).sqrt(), Scalar::NaN);
    assert_eq!(fx(0.0).ln(), Scalar::NegInf);
    assert_eq!(fx(-1.0).ln(), Scalar::NaN);
    assert_rel(fx(std::f64::consts::E).ln(), 1.0, 1e-6);
    assert_rel(fx(1.0).sin(), (1.0f64).sin(), 1e-6);
    assert_rel(fx(1.0).cos(), (1.0f64).cos(), 1e-6);
}

#[test]
fn complete_first_kind_beyond_pole_is_nan() {
    // Past the pole the nome series turns negative and its logarithm fails.
    assert_eq!(cel1(fx(1.5)), Scalar::NaN);
}

#[test]
fn complete_second_kind_negative_parameters() {
    // Moderately negative parameters go through the symmetric form.
    assert_rel(cel2(fx(-1.5)), 2.052994984282589, 1e-6);
    // Very negative parameters take the logarithmic asymptotic branch.
    assert_rel(cel2(fx(-3000000.0)), 1732.0535047632686, 1e-6);
}

#[test]
fn degenerate_form_negative_argument() {
    // A negative second argument is moved into the positive quadrant first.
    assert_rel(rc(fx(1.0), fx(-1.0)), 0.6232252401402305, 1e-6);
    assert_rel(rc(fx(2.0), fx(1.0)), 0.8813735870195430, 1e-6);
}

#[test]
fn scalar_trigonometry_matches_reference() {
    let mut x = -7.0;
    while x < 7.0 {
        assert_rel(fx(x).sin(), x.sin(), 2e-6);
        assert_rel(fx(x).cos(), x.cos(), 2e-6);
        x += 0.373;
    }
    let mut v = 0.001;
    while v < 100000.0 {
        assert_rel(fx(v).ln(), v.ln(), 2e-6);
        v *= 9.7;
    }
}
