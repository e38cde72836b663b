use ancomplex::complex;
use ancomplex::Analytic;
use ancomplex::Complex;
use ancomplex::Identity;
use std::f64::consts::FRAC_PI_2;

/// A floating component type: `f64` wrapped with the capabilities the
/// transcendental engine consumes.
#[derive(Clone, Copy, Debug, PartialEq)]
struct R64(f64);

fn cr(re: f64, im: f64) -> Complex<R64> {
    complex(R64(re), R64(im))
}

impl std::ops::Add for R64 {
    type Output = R64;
    fn add(self, o: R64) -> R64 {
        R64(self.0 + o.0)
    }
}

impl std::ops::Sub for R64 {
    type Output = R64;
    fn sub(self, o: R64) -> R64 {
        R64(self.0 - o.0)
    }
}

impl std::ops::Mul for R64 {
    type Output = R64;
    fn mul(self, o: R64) -> R64 {
        R64(self.0 * o.0)
    }
}

impl std::ops::Div for R64 {
    type Output = R64;
    fn div(self, o: R64) -> R64 {
        R64(self.0 / o.0)
    }
}

impl std::ops::Rem for R64 {
    type Output = R64;
    fn rem(self, o: R64) -> R64 {
        R64(self.0 % o.0)
    }
}

impl std::ops::Neg for R64 {
    type Output = R64;
    fn neg(self) -> R64 {
        R64(-self.0)
    }
}

impl Identity for R64 {
    fn zero_s() -> R64 {
        R64(0.0)
    }
    fn one_s() -> R64 {
        R64(1.0)
    }
    fn zero() -> R64 {
        R64(0.0)
    }
    fn one() -> R64 {
        R64(1.0)
    }
    fn is_zero(&self) -> bool {
        self.0 == 0.0
    }
    fn is_one(&self) -> bool {
        self.0 == 1.0
    }
}

impl Analytic for R64 {
    fn plus_s(self, o: R64) -> R64 {
        R64(self.0 + o.0)
    }
    fn minus_s(self, o: R64) -> R64 {
        R64(self.0 - o.0)
    }
    fn times_s(self, o: R64) -> R64 {
        R64(self.0 * o.0)
    }
    fn over_s(self, o: R64) -> R64 {
        R64(self.0 / o.0)
    }
    fn negated_s(self) -> R64 {
        R64(-self.0)
    }
    fn eq_s(self, o: R64) -> bool {
        self.0 == o.0
    }
    fn abs_s(self) -> R64 {
        R64(self.0.abs())
    }
    fn sin_s(self) -> R64 {
        R64(self.0.sin())
    }
    fn cos_s(self) -> R64 {
        R64(self.0.cos())
    }
    fn sinh_s(self) -> R64 {
        R64(self.0.sinh())
    }
    fn cosh_s(self) -> R64 {
        R64(self.0.cosh())
    }
    fn atan2_s(self, o: R64) -> R64 {
        R64(self.0.atan2(o.0))
    }
    fn hypot_s(self, o: R64) -> R64 {
        R64(self.0.hypot(o.0))
    }
    fn ln_s(self) -> R64 {
        R64(self.0.ln())
    }
    fn logb_s(self, base: R64) -> R64 {
        R64(self.0.log(base.0))
    }
    fn exp_s(self) -> R64 {
        R64(self.0.exp())
    }
    fn exp2_s(self) -> R64 {
        R64(self.0.exp2())
    }
    fn sqrt_s(self) -> R64 {
        R64(self.0.sqrt())
    }
    fn powf_s(self, p: R64) -> R64 {
        R64(self.0.powf(p.0))
    }
    fn powi_s(self, n: i32) -> R64 {
        R64(self.0.powi(n))
    }
    fn from_int_s(n: i32) -> R64 {
        R64(n as f64)
    }
    fn infinity_s() -> R64 {
        R64(f64::INFINITY)
    }
    fn ln2_s() -> R64 {
        R64(std::f64::consts::LN_2)
    }
    fn ln10_s() -> R64 {
        R64(std::f64::consts::LN_10)
    }
    fn plus(self, o: R64) -> R64 {
        R64(self.0 + o.0)
    }
    fn minus(self, o: R64) -> R64 {
        R64(self.0 - o.0)
    }
    fn times(self, o: R64) -> R64 {
        R64(self.0 * o.0)
    }
    fn over(self, o: R64) -> R64 {
        R64(self.0 / o.0)
    }
    fn negated(self) -> R64 {
        R64(-self.0)
    }
    fn eqv(self, o: R64) -> bool {
        self.0 == o.0
    }
    fn abs(self) -> R64 {
        R64(self.0.abs())
    }
    fn sin(self) -> R64 {
        R64(self.0.sin())
    }
    fn cos(self) -> R64 {
        R64(self.0.cos())
    }
    fn sinh(self) -> R64 {
        R64(self.0.sinh())
    }
    fn cosh(self) -> R64 {
        R64(self.0.cosh())
    }
    fn atan2(self, o: R64) -> R64 {
        R64(self.0.atan2(o.0))
    }
    fn hypot(self, o: R64) -> R64 {
        R64(self.0.hypot(o.0))
    }
    fn ln(self) -> R64 {
        R64(self.0.ln())
    }
    fn logb(self, base: R64) -> R64 {
        R64(self.0.log(base.0))
    }
    fn exp(self) -> R64 {
        R64(self.0.exp())
    }
    fn exp2(self) -> R64 {
        R64(self.0.exp2())
    }
    fn sqrt(self) -> R64 {
        R64(self.0.sqrt())
    }
    fn powf(self, p: R64) -> R64 {
        R64(self.0.powf(p.0))
    }
    fn powi(self, n: i32) -> R64 {
        R64(self.0.powi(n))
    }
    fn from_int(n: i32) -> R64 {
        R64(n as f64)
    }
    fn infinity() -> R64 {
        R64(f64::INFINITY)
    }
    fn ln2() -> R64 {
        R64(std::f64::consts::LN_2)
    }
    fn ln10() -> R64 {
        R64(std::f64::consts::LN_10)
    }
}

fn close(a: Complex<R64>, b: Complex<R64>) -> bool {
    (a.re.0 - b.re.0).abs() < 1e-10 && (a.im.0 - b.im.0).abs() < 1e-10
}

#[test]
fn sin_of_complex() {
    let c = cr(0.0, 0.0);
    let correct_result = cr(0.0, 0.0);
    assert_eq!(c.sin(), correct_result);
}

#[test]
fn cos_of_complex() {
    let c = cr(0.0, 0.0);
    let correct_result = cr(1.0, -0.0);
    assert_eq!(c.cos(), correct_result);
}

#[test]
fn tan_of_complex() {
    let c = cr(0.0, 0.0);
    let correct_result = cr(0.0, 0.0);
    assert_eq!(c.tan(), correct_result);
}

#[test]
fn asin_of_complex() {
    let c = cr(0.0, 0.0);
    let correct_result = cr(0.0, -0.0);
    assert_eq!(c.asin(), correct_result);
}

#[test]
fn acos_of_complex() {
    let c = cr(1.0, 0.0);
    let correct_result = cr(0.0, -0.0);
    assert_eq!(c.acos(), correct_result);
}

#[test]
fn atan_of_complex() {
    let c = cr(0.0, 0.0);
    let correct_result = cr(0.0, 0.0);
    assert_eq!(c.atan(), correct_result);
}

#[test]
fn sinh_of_complex() {
    let c = cr(0.0, 0.0);
    let correct_result = cr(0.0, 0.0);
    assert_eq!(c.sinh(), correct_result);
}

#[test]
fn cosh_of_complex() {
    let c = cr(0.0, 0.0);
    let correct_result = cr(1.0, 0.0);
    assert_eq!(c.cosh(), correct_result);
}

#[test]
fn tanh_of_complex() {
    let c = cr(0.0, 0.0);
    let correct_result = cr(0.0, 0.0);
    assert_eq!(c.tanh(), correct_result);
}

#[test]
fn asinh_of_complex() {
    let c = cr(0.0, 0.0);
    let correct_result = cr(0.0, 0.0);
    assert_eq!(c.asinh(), correct_result);
}

#[test]
fn acosh_of_complex() {
    let c = cr(0.0, 0.0);
    let correct_result = cr(0.0, 0.0);
    assert_eq!(c.acosh(), correct_result);
}

#[test]
fn atanh_of_complex() {
    let c = cr(0.0, 0.0);
    let correct_result = cr(0.0, 0.0);
    assert_eq!(c.atanh(), correct_result);
}

#[test]
fn l1_norm_of_complex() {
    let c = cr(2.0, -2.0);
    let correct_result = R64(4.);
    assert_eq!(c.l1_norm(), correct_result);
}

#[test]
fn norm_of_complex() {
    let c = cr(2.0, 0.0);
    let correct_result = R64(2.);
    assert_eq!(c.norm(), correct_result);
}

#[test]
fn arg_of_complex() {
    let c = cr(0.0, 1.0);
    let correct_result = R64(FRAC_PI_2);
    assert_eq!(c.arg(), correct_result);
}

#[test]
fn powc_of_complex() {
    let c = cr(1.0, 0.0);
    let z = cr(1.0, 0.0);
    let correct_result = cr(1.0, 0.0);
    println!("{:?}", correct_result);
    assert_eq!(c.powc(z), correct_result);
}

#[test]
fn powf_of_complex() {
    let c = cr(0.0, 0.0);
    let z = R64(4.0);
    let correct_result = cr(0.0, 0.0);
    assert_eq!(c.powf(z), correct_result);
}

#[test]
fn powi_of_complex() {
    let c = cr(0.0, 0.0);
    let z = 2;
    let correct_result = cr(0.0, 0.0);
    assert_eq!(c.powi(z), correct_result);
}

#[test]
fn exp_of_complex() {
    let c = cr(0.0, 0.0);
    let correct_result = cr(1.0, 0.0);
    assert_eq!(c.exp(), correct_result);
}

#[test]
fn ln_of_complex() {
    let c = cr(1.0, 0.0);
    let correct_result = cr(0.0, 0.0);
    assert_eq!(c.ln(), correct_result);
}

#[test]
fn sqrt_of_complex() {
    let c = cr(1.0, 0.0);
    let correct_result = cr(1.0, 0.0);
    assert_eq!(c.sqrt(), correct_result);
}

#[test]
fn complex_rem_assing_complex() {
    let mut c = cr(6.0, 16.0);
    let z = cr(2.0, 8.0);
    c.rem_assign(z);
    let correct_result = cr(2.0, 0.0);
    assert_eq!(c, correct_result);
}

#[test]
fn complex_rem_complex() {
    let c = cr(6.0, 16.0);
    let z = cr(2.0, 8.0);
    let correct_result = cr(2.0, 0.0);
    assert_eq!(c % z, correct_result);
}

#[test]
fn f64_rem_complex() {
    let c = cr(2.0, 0.0);
    let z = R64(5.0);
    let correct_result = cr(1.0, 0.0);
    assert_eq!(c.rrem(z), correct_result);
}

#[test]
fn norm_squares_to_square_norm() {
    let z = cr(3.0, 4.0);
    let n = z.norm().0;
    assert!((z.square_norm().0 - n * n).abs() < 1e-10);
}

#[test]
fn polar_round_trip_returns_the_value() {
    let z = cr(3.0, 4.0);
    let polar = z.to_polar();
    let back = Complex::from_polar(polar.0, polar.1);
    assert!(close(back, z));
}

#[test]
fn powi_two_agrees_with_square_within_tolerance() {
    let z = cr(1.0, 4.0);
    assert!(close(z.powi(2), z.square()));
    assert!(close(z.powi(2), z * z));
}

#[test]
fn gaussian_integer_of_quotient() {
    let c = cr(6.0, 16.0);
    let z = cr(2.0, 8.0);
    assert_eq!(c.gausian_integer(z), cr(2.0, -0.0));
}

#[test]
fn expf_in_base_two() {
    let c = cr(3.0, 0.0);
    assert!(close(c.expf(R64(2.0)), cr(8.0, 0.0)));
}

#[test]
fn exp2_of_complex() {
    let c = cr(3.0, 0.0);
    assert!(close(c.exp2(), cr(8.0, 0.0)));
}

#[test]
fn log_of_complex_in_base_ten() {
    let c = cr(100.0, 0.0);
    assert!(close(c.log(R64(10.0)), cr(2.0, 0.0)));
}

#[test]
fn log2_of_complex() {
    let c = cr(8.0, 0.0);
    assert!(close(c.log2(), cr(3.0, 0.0)));
}

#[test]
fn log10_of_complex() {
    let c = cr(1000.0, 0.0);
    assert!(close(c.log10(), cr(3.0, 0.0)));
}

#[test]
fn atanh_at_the_unit_poles() {
    assert_eq!(cr(1.0, 0.0).atanh(), cr(f64::INFINITY, 0.0));
    assert_eq!(cr(-1.0, 0.0).atanh(), cr(f64::NEG_INFINITY, 0.0));
}

#[test]
fn sin_of_real_input_reduces_to_real_sine() {
    let c = cr(1.25, 0.0);
    let s = c.sin();
    assert!((s.re.0 - 1.25f64.sin()).abs() < 1e-12);
    assert!(s.im.0 == 0.0 || s.im.0 == -0.0);
}

#[test]
fn sin_matches_the_component_formula() {
    let z = cr(1.0, 2.0);
    let expected = cr(1.0f64.sin() * 2.0f64.cosh(), 1.0f64.cos() * 2.0f64.sinh());
    assert_eq!(z.sin(), expected);
}

#[test]
fn cosh_matches_the_component_formula() {
    let z = cr(1.0, 2.0);
    let expected = cr(1.0f64.cosh() * 2.0f64.cos(), 1.0f64.sinh() * 2.0f64.sin());
    assert_eq!(z.cosh(), expected);
}

#[test]
fn exp_matches_the_polar_formula() {
    let z = cr(1.0, 2.0);
    let expected = cr(1.0f64.exp() * 2.0f64.cos(), 1.0f64.exp() * 2.0f64.sin());
    assert_eq!(z.exp(), expected);
}

#[test]
fn norm_of_three_four_is_five() {
    assert_eq!(cr(3.0, 4.0).norm(), R64(5.0));
}

#[test]
fn to_polar_gives_magnitude_and_angle() {
    let z = cr(0.0, 2.0);
    let polar = z.to_polar();
    assert_eq!(polar.0, R64(2.0));
    assert_eq!(polar.1, R64(FRAC_PI_2));
}
