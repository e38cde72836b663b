use ancomplex::complex;
use ancomplex::Complex;
use ancomplex::Sign;

#[test]
fn integer_add_complex() {
    let c = complex(1i64, 4);
    let z = complex(17i64, 18);
    assert_eq!(c + z, complex(18i64, 22));
}

#[test]
fn integer_mul_complex() {
    let c = complex(1i64, 4);
    let z = complex(17i64, 18);
    assert_eq!(c * z, complex(-55i64, 86));
}

#[test]
fn integer_div_truncates_componentwise() {
    let c = complex(25i64, 30);
    let z = complex(5i64, 5);
    assert_eq!(c / z, complex(5i64, 0));
}

#[test]
fn integer_rem_complex() {
    let c = complex(6i64, 16);
    let z = complex(2i64, 8);
    assert_eq!(c % z, complex(2i64, 0));
}

#[test]
fn integer_gaussian_integer() {
    let c = complex(6i64, 16);
    let z = complex(2i64, 8);
    assert_eq!(c.gausian_integer(z), complex(2i64, 0));
}

#[test]
fn integer_conj() {
    let c = complex(3i64, -4);
    assert_eq!(c.conj(), complex(3i64, 4));
}

#[test]
fn integer_square() {
    let c = complex(2i64, 3);
    assert_eq!(c.square(), complex(-5i64, 12));
    assert_eq!(c.square(), c * c);
}

#[test]
fn integer_square_norm() {
    let c = complex(3i64, 4);
    assert_eq!(c.square_norm(), 25);
}

#[test]
fn integer_inv_of_unit() {
    let c = complex(1i64, 0);
    assert_eq!(c.inv(), complex(1i64, 0));
}

#[test]
fn imaginary_unit() {
    assert_eq!(Complex::<i64>::i(), complex(0i64, 1));
    let squared = Complex::<i64>::i() * Complex::<i64>::i();
    assert_eq!(squared, complex(-1i64, 0));
}

#[test]
fn zero_constructor_and_test() {
    let z = Complex::<i64>::zero();
    assert_eq!(z, complex(0i64, 0));
    assert!(z.is_zero());
    assert!(!complex(0i64, 2).is_zero());
}

#[test]
fn one_constructor_disagrees_with_is_one() {
    // The identity-shaped constructor builds `1 + 1i`, while the identity
    // test asks for `1 + 0i`; the disagreement is kept as it stands.
    let one = Complex::<i64>::one();
    assert_eq!(one, complex(1i64, 1));
    assert!(!one.is_one());
    assert!(complex(1i64, 0).is_one());
}

#[test]
fn set_zero_and_set_one() {
    let mut z = complex(3i64, 4);
    z.set_zero();
    assert_eq!(z, complex(0i64, 0));
    z.set_one();
    assert_eq!(z, complex(1i64, 1));
}

#[test]
fn narrowing_fails_closed() {
    assert_eq!(complex(5i64, 0).to_scalar(), Some(5));
    assert_eq!(complex(5i64, 3).to_scalar(), None);
}

#[test]
fn widening_always_has_zero_imaginary_part() {
    assert_eq!(Complex::from_scalar(7i64), complex(7i64, 0));
}

#[test]
fn truncating_fast_path_discards_the_imaginary_part() {
    assert_eq!(complex(5i64, 3).as_scalar(), 5);
}

#[test]
fn integer_scalar_ops() {
    let c = complex(1i64, 4);
    assert_eq!(c + 2, complex(3i64, 4));
    assert_eq!(c - 8, complex(-7i64, 4));
    assert_eq!(c * 12, complex(12i64, 48));
    assert_eq!(complex(8i64, 12) / 4, complex(2i64, 3));
    assert_eq!(complex(8i64, 13) % 4, complex(0i64, 1));
    assert_eq!(c.radd(2), complex(3i64, 4));
    assert_eq!(c.rsub(8), complex(7i64, -4));
    assert_eq!(c.rmul(-12), complex(-12i64, -48));
}

#[test]
fn integer_assign_ops() {
    let mut c = complex(6i64, 16);
    c.add_assign(complex(2i64, 8));
    assert_eq!(c, complex(8i64, 24));
    c.sub_assign(complex(2i64, 8));
    assert_eq!(c, complex(6i64, 16));
    c.mul_assign(complex(2i64, 8));
    assert_eq!(c, complex(-116i64, 80));
    c.rem_assign_scalar(10);
    assert_eq!(c, complex(-6i64, 0));
}

#[test]
fn sign_of_signed_integers() {
    let neg: i64 = -5;
    let pos: i64 = 5;
    let nul: i64 = 0;
    assert!(Sign::is_negative(&neg));
    assert!(!Sign::is_negative(&pos));
    assert!(Sign::is_positive(&pos));
    assert!(!Sign::is_positive(&nul));
    assert!(Sign::is_zero(&nul));
    assert_eq!(Sign::abs(&neg), 5);
    assert_eq!(Sign::abs(&pos), 5);
    assert_eq!(neg.signumi32(), -1);
    assert_eq!(pos.signumi32(), 1);
    assert_eq!(nul.signumi32(), 0);
}

#[test]
fn sign_of_unsigned_integers() {
    let pos: u32 = 5;
    let nul: u32 = 0;
    assert!(!Sign::is_negative(&pos));
    assert!(Sign::is_positive(&pos));
    assert!(!Sign::is_positive(&nul));
    assert!(Sign::is_zero(&nul));
    assert_eq!(Sign::abs(&pos), 5);
    assert_eq!(pos.signumi32(), 1);
    assert_eq!(nul.signumi32(), 0);
}

#[test]
fn conjugating_twice_gives_back_the_value() {
    let z = complex(-7i64, 11);
    assert_eq!(z.conj().conj(), z);
}

#[test]
fn integer_add_sub_round_trip() {
    let z = complex(-3i64, 9);
    let w = complex(14i64, -2);
    assert_eq!((z + w) - w, z);
}

#[test]
fn integer_mul_div_round_trip() {
    let z = complex(-3i64, 9);
    let w = complex(14i64, -2);
    assert_eq!((z * w) / w, z);
}

#[test]
fn unsigned_components_share_the_algebra() {
    let c = complex(6u32, 16);
    let z = complex(3u32, 1);
    assert_eq!(c + z, complex(9u32, 17));
    assert_eq!(c * z, complex(2u32, 54));
    assert_eq!(c.square_norm(), 292);
    assert_eq!(c % 5, complex(1u32, 1));
}
