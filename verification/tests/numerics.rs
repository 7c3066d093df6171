//! Accuracy checks of the fixed-point elementary functions against
//! floating-point references.

use dwcpn::fixed::{qadd, qsub, qmul, qdiv, qabs, qhalf};
use dwcpn::elem::{qexp, qtrans, qln, qsqrt, qsin, qcos, qtan, qasin, qacos, qpow};

const Q: f64 = 4294967296.0;

fn q(x: f64) -> i64 {
    (x * Q).round() as i64
}

fn fq(v: i64) -> f64 {
    v as f64 / Q
}

fn close(a: f64, b: f64, tol: f64) -> bool {
    (a - b).abs() <= tol
}

#[test]
fn fixed_point_ring_ops() {
    assert_eq!(qadd(q(1.5), q(2.25)), q(3.75));
    assert_eq!(qsub(q(1.5), q(2.25)), q(-0.75));
    assert_eq!(qmul(q(3.0), q(4.0)), q(12.0));
    assert_eq!(qdiv(q(1.0), q(8.0)), q(0.125));
    assert_eq!(qhalf(q(5.0)), q(2.5));
    assert_eq!(qabs(q(-2.5)), q(2.5));
    assert_eq!(qadd(i64::MAX, i64::MAX), i64::MAX);
}

#[test]
fn exponential_accuracy() {
    for &x in &[-20.0, -5.0, -1.0, -0.1, 0.0, 0.1, 1.0, 2.5, 10.0, 21.0] {
        let want = (x as f64).exp();
        let got = fq(qexp(q(x)));
        assert!(close(got, want, want * 1e-6 + 1e-9), "exp({}) = {} want {}", x, got, want);
    }
    assert_eq!(qexp(0), 4294967296);
    assert!(qtrans(q(0.5)) == 4294967296);
    assert!(qtrans(q(-0.5)) == qexp(q(-0.5)));
}

#[test]
fn logarithm_accuracy() {
    for &x in &[1e-6, 0.01, 0.5, 1.0, 2.0, 660.0 / 500.0, 1000.0, 2.0e8] {
        // compare against the logarithm of the value actually represented
        let want = fq(q(x)).ln();
        let got = fq(qln(q(x)));
        assert!(close(got, want, 1e-7), "ln({}) = {} want {}", x, got, want);
    }
    assert_eq!(qln(0), i64::MIN);
}

#[test]
fn square_root_accuracy() {
    for &x in &[0.25, 1.0, 2.0, 100.0, 12345.678] {
        let want = (x as f64).sqrt();
        let got = fq(qsqrt(q(x)));
        assert!(close(got, want, 1e-8), "sqrt({}) = {} want {}", x, got, want);
    }
    assert_eq!(qsqrt(-5), 0);
}

#[test]
fn trigonometry_accuracy() {
    for &x in &[-6.0, -3.1, -1.0, -0.5, 0.0, 0.3, 1.0, 1.5707963, 3.0, 6.2, 12.5] {
        assert!(close(fq(qsin(q(x))), x.sin(), 1e-8), "sin({})", x);
        assert!(close(fq(qcos(q(x))), x.cos(), 1e-8), "cos({})", x);
    }
    for &x in &[-0.2, 0.0, 0.4, 1.0, 1.3] {
        assert!(close(fq(qtan(q(x))), x.tan(), 1e-6), "tan({})", x);
    }
    for &x in &[-1.0, -0.7, -0.3, 0.0, 0.5, 0.8, 0.99, 1.0] {
        assert!(close(fq(qasin(q(x))), x.asin(), 2e-7), "asin({})", x);
        assert!(close(fq(qacos(q(x))), x.acos(), 2e-7), "acos({})", x);
    }
}

#[test]
fn power_accuracy() {
    for &(x, y) in &[(0.5, 4.0), (0.5, -1.253), (2.0, 0.45), (1.32, -4.3), (93.0, -1.253), (0.26, 0.795)] {
        let want = (x as f64).powf(y);
        let got = fq(qpow(q(x), q(y)));
        assert!(close(got, want, want.abs() * 1e-6 + 1e-8), "pow({},{}) = {} want {}", x, y, got, want);
    }
    assert_eq!(qpow(0, q(2.0)), 0);
    assert_eq!(qpow(-5, q(2.0)), 0);
}
