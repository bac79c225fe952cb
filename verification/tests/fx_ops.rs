use curveray::fx::{Fx, LIM_RAW, SCALE};

fn fx(i: i32) -> Fx {
    Fx::from_int(i)
}

fn close(a: Fx, b: Fx, tol: i64) -> bool {
    (a.raw() - b.raw()).abs() <= tol
}

#[test]
fn add_sub_exact() {
    assert_eq!(fx(3).add(fx(4)).raw(), 7 * SCALE);
    assert_eq!(fx(3).sub(fx(4)).raw(), -SCALE);
    assert_eq!(fx(-3).neg().raw(), 3 * SCALE);
}

#[test]
fn add_saturates() {
    let top = Fx::from_raw(LIM_RAW);
    assert_eq!(top.add(Fx::one()).raw(), LIM_RAW);
    assert_eq!(top.neg().sub(Fx::one()).raw(), -LIM_RAW);
}

#[test]
fn mul_exact_and_truncating() {
    assert_eq!(fx(3).mul(fx(4)).raw(), 12 * SCALE);
    assert_eq!(fx(-3).mul(fx(4)).raw(), -12 * SCALE);
    // 1/3 * 3 truncates just below one.
    let third = Fx::one().div(fx(3));
    assert_eq!(third.raw(), 21845);
    assert_eq!(third.mul(fx(3)).raw(), 65535);
}

#[test]
fn div_exact() {
    assert_eq!(fx(6).div(fx(3)).raw(), 2 * SCALE);
    assert_eq!(fx(-6).div(fx(3)).raw(), -2 * SCALE);
    assert_eq!(fx(1).div(fx(2)).raw(), 32768);
}

#[test]
fn div_by_zero_saturates_by_numerator_sign() {
    assert_eq!(fx(5).div(Fx::zero()).raw(), LIM_RAW);
    assert_eq!(fx(-5).div(Fx::zero()).raw(), -LIM_RAW);
    assert_eq!(Fx::zero().div(Fx::zero()).raw(), 0);
}

#[test]
fn sqrt_exact_squares() {
    assert_eq!(fx(4).sqrt().raw(), 2 * SCALE);
    assert_eq!(fx(9).sqrt().raw(), 3 * SCALE);
    assert_eq!(Fx::zero().sqrt().raw(), 0);
    assert_eq!(fx(-4).sqrt().raw(), 0);
}

#[test]
fn sqrt_of_two() {
    // sqrt(2) = 1.41421..., raw 92681.9
    let r = fx(2).sqrt();
    assert!(close(r, Fx::from_raw(92682), 2), "raw {}", r.raw());
}

#[test]
fn pow_integer_exponents() {
    assert_eq!(fx(2).pow(fx(2)).raw(), 4 * SCALE);
    assert_eq!(fx(3).pow(fx(3)).raw(), 27 * SCALE);
    assert_eq!(fx(2).pow(fx(10)).raw(), 1024 * SCALE);
}

#[test]
fn pow_identities() {
    // x^1 == x, 1^p == 1, 0^p == 0: the exact endpoint cases the
    // curve evaluation relies on.
    let x = Fx::from_raw(123_456);
    assert_eq!(x.pow(Fx::one()).raw(), x.raw());
    assert_eq!(Fx::one().pow(Fx::from_raw(99_999)).raw(), SCALE);
    assert_eq!(Fx::zero().pow(fx(7)).raw(), 0);
}

#[test]
fn pow_fractional() {
    // 4^0.5 == 2 exactly (a pure square-root chain step).
    assert_eq!(fx(4).pow(Fx::half()).raw(), 2 * SCALE);
    // 2^1.5 = 2.8284..., raw 185363.8
    let r = fx(2).pow(Fx::one().add(Fx::half()));
    assert!(close(r, Fx::from_raw(185364), 16), "raw {}", r.raw());
}

#[test]
fn powf_negative_exponent_is_reciprocal() {
    // 2^-1 == 0.5
    assert_eq!(fx(2).powf(fx(-1)).raw(), 32768);
    // 4^-0.5 == 0.5
    assert_eq!(fx(4).powf(Fx::half().neg()).raw(), 32768);
}

#[test]
fn upowf_preserves_sign() {
    assert_eq!(fx(-4).upowf(Fx::half()).raw(), -2 * SCALE);
    assert_eq!(fx(4).upowf(Fx::half()).raw(), 2 * SCALE);
    assert_eq!(fx(-2).upowf(fx(2)).raw(), -4 * SCALE);
}

#[test]
fn trunc_rounds_toward_zero() {
    assert_eq!(Fx::from_raw(3 * SCALE / 2).trunc(), 1);
    assert_eq!(Fx::from_raw(-3 * SCALE / 2).trunc(), -1);
    assert_eq!(fx(7).trunc(), 7);
}

#[test]
fn trig_at_zero_is_exact() {
    assert_eq!(Fx::zero().cos().raw(), SCALE);
    assert_eq!(Fx::zero().sin().raw(), 0);
}

#[test]
fn trig_near_small_angles() {
    // cos(pi/3) = 0.5, sin(pi/6) = 0.5
    let third_pi = Fx::from_raw(68629);
    assert!(close(third_pi.cos(), Fx::half(), 80));
    let sixth_pi = Fx::from_raw(34315);
    assert!(close(sixth_pi.sin(), Fx::half(), 80));
}

#[test]
fn acos_inverts_cos() {
    // acos(0.5) = pi/3, raw 68629
    let r = Fx::half().acos();
    assert!(close(r, Fx::from_raw(68629), 700), "raw {}", r.raw());
    let r0 = Fx::one().acos();
    assert!(r0.raw() < 1200, "raw {}", r0.raw());
}

#[test]
fn min_max_abs_clamp() {
    assert_eq!(fx(2).min(fx(5)).raw(), 2 * SCALE);
    assert_eq!(fx(2).max(fx(5)).raw(), 5 * SCALE);
    assert_eq!(fx(-2).abs().raw(), 2 * SCALE);
    assert_eq!(fx(-2).clamp01().raw(), 0);
    assert_eq!(fx(2).clamp01().raw(), SCALE);
    assert_eq!(Fx::half().clamp01().raw(), 32768);
}

#[test]
fn comparisons() {
    assert!(fx(1).lt(fx(2)));
    assert!(fx(2).le(fx(2)));
    assert!(fx(2).eq_v(fx(2)));
    assert!(fx(-1).is_neg());
    assert!(!Fx::zero().is_neg());
}
