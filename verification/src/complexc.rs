use crate::numeric::Identity;
use std::ops::Add;
use std::ops::Div;
use std::ops::Mul;
use std::ops::Neg;
use std::ops::Rem;
use std::ops::Sub;
use vstd::prelude::*;
use vstd::std_specs::cmp::PartialEqSpec;
use vstd::std_specs::ops::AddSpec;
use vstd::std_specs::ops::RemSpec;
use vstd::std_specs::ops::DivSpec;
use vstd::std_specs::ops::MulSpec;
use vstd::std_specs::ops::NegSpec;
use vstd::std_specs::ops::SubSpec;

verus! {

/// A complex number `re + im*i` over a generic component type.
///
/// The pair is never normalized: every operation derives a new pair from the
/// operands by the textbook formulas, component by component.  Ordering and
/// hashing are lexicographic over `(re, im)`; the order is mathematically
/// meaningless but total, for use in ordered containers.
#[derive(Clone, Copy, Debug, Eq, PartialOrd, Ord, Hash)]
pub struct Complex<T> {
    /// real part of the complex number
    pub re: T,
    /// imaginary part of the complex number
    pub im: T,
}

impl<T: Default> Default for Complex<T> {
    fn default() -> Self {
        Complex { re: T::default(), im: T::default() }
    }
}

impl<T: PartialEq> PartialEq for Complex<T> {
    fn eq(&self, other: &Self) -> (r: bool) {
        self.re.eq(&other.re) && self.im.eq(&other.im)
    }
}

impl<T: PartialEq> vstd::std_specs::cmp::PartialEqSpecImpl for Complex<T> {
    open spec fn obeys_eq_spec() -> bool {
        T::obeys_eq_spec()
    }

    open spec fn eq_spec(&self, other: &Self) -> bool {
        self.re.eq_spec(&other.re) && self.im.eq_spec(&other.im)
    }
}

// The spec-level formulas of the algebra.  Each executable operation is pinned
// to one of these; the `_ok` predicate beside it states exactly when the
// component operations are defined (no overflow, no division by the zero
// value) and, where the body chains component operations, that the component
// type obeys its operator model (`obeys_*_spec`), which every integer
// component type does.
impl<T: AddSpec<T, Output = T> + Copy> Complex<T> {
    /// `(a+c) + (b+d)i`
    pub open spec fn cadd(self, rhs: Self) -> Self {
        Complex { re: self.re.add_spec(rhs.re), im: self.im.add_spec(rhs.im) }
    }

    pub open spec fn cadd_ok(self, rhs: Self) -> bool {
        self.re.add_req(rhs.re) && self.im.add_req(rhs.im)
    }
}

impl<T: SubSpec<T, Output = T> + Copy> Complex<T> {
    /// `(a-c) + (b-d)i`
    pub open spec fn csub(self, rhs: Self) -> Self {
        Complex { re: self.re.sub_spec(rhs.re), im: self.im.sub_spec(rhs.im) }
    }

    pub open spec fn csub_ok(self, rhs: Self) -> bool {
        self.re.sub_req(rhs.re) && self.im.sub_req(rhs.im)
    }
}

impl<T: NegSpec<Output = T> + Copy> Complex<T> {
    /// `-a - bi`
    pub open spec fn cneg(self) -> Self {
        Complex { re: self.re.neg_spec(), im: self.im.neg_spec() }
    }

    pub open spec fn cneg_ok(self) -> bool {
        T::obeys_neg_spec() && self.re.neg_req() && self.im.neg_req()
    }

    /// `a - bi`
    pub open spec fn cconj(self) -> Self {
        Complex { re: self.re, im: self.im.neg_spec() }
    }

    pub open spec fn cconj_ok(self) -> bool {
        T::obeys_neg_spec() && self.im.neg_req()
    }
}

impl<T: MulSpec<T, Output = T> + AddSpec<T, Output = T> + Copy> Complex<T> {
    /// `a*a + b*b`, the squared magnitude.
    pub open spec fn csqnorm(self) -> T {
        self.re.mul_spec(self.re).add_spec(self.im.mul_spec(self.im))
    }

    pub open spec fn csqnorm_ok(self) -> bool {
        T::obeys_mul_spec() && T::obeys_add_spec() && self.re.mul_req(self.re) && self.im.mul_req(
            self.im,
        ) && self.re.mul_spec(self.re).add_req(self.im.mul_spec(self.im))
    }

    /// The squared magnitude `a*a + b*b`.
    ///
    /// Exact whenever the component type is exact; no square root is taken.
    pub fn square_norm(&self) -> (r: T)
        requires
            self.csqnorm_ok(),
        ensures
            r == self.csqnorm(),
    {
        self.re.mul(self.re).add(self.im.mul(self.im))
    }
}

impl<
    T: MulSpec<T, Output = T> + AddSpec<T, Output = T> + SubSpec<T, Output = T> + Copy,
> Complex<T> {
    /// `(ac - bd) + (ad + bc)i`
    pub open spec fn cmul(self, rhs: Self) -> Self {
        Complex {
            re: self.re.mul_spec(rhs.re).sub_spec(self.im.mul_spec(rhs.im)),
            im: self.re.mul_spec(rhs.im).add_spec(self.im.mul_spec(rhs.re)),
        }
    }

    pub open spec fn cmul_ok(self, rhs: Self) -> bool {
        T::obeys_mul_spec() && T::obeys_add_spec() && T::obeys_sub_spec()
            && self.re.mul_req(rhs.re) && self.im.mul_req(rhs.im) && self.re.mul_req(rhs.im)
            && self.im.mul_req(rhs.re) && self.re.mul_spec(rhs.re).sub_req(
            self.im.mul_spec(rhs.im),
        ) && self.re.mul_spec(rhs.im).add_req(self.im.mul_spec(rhs.re))
    }

    /// `(a*a - b*b) + (ab + ab)i`, the direct expansion of `(a+bi)^2`.
    pub open spec fn csquare(self) -> Self {
        Complex {
            re: self.re.mul_spec(self.re).sub_spec(self.im.mul_spec(self.im)),
            im: self.re.mul_spec(self.im).add_spec(self.re.mul_spec(self.im)),
        }
    }

    pub open spec fn csquare_ok(self) -> bool {
        T::obeys_mul_spec() && T::obeys_add_spec() && T::obeys_sub_spec()
            && self.re.mul_req(self.re) && self.im.mul_req(self.im) && self.re.mul_req(self.im)
            && self.re.mul_spec(self.re).sub_req(self.im.mul_spec(self.im))
            && self.re.mul_spec(self.im).add_req(self.re.mul_spec(self.im))
    }
}

impl<
    T: MulSpec<T, Output = T> + AddSpec<T, Output = T> + SubSpec<T, Output = T> + DivSpec<
        T,
        Output = T,
    > + Copy,
> Complex<T> {
    /// `((ac + bd) + (bc - ad)i) / (c*c + d*d)`, the textbook quotient.
    pub open spec fn cdiv(self, rhs: Self) -> Self {
        let s = rhs.csqnorm();
        Complex {
            re: self.re.mul_spec(rhs.re).add_spec(self.im.mul_spec(rhs.im)).div_spec(s),
            im: self.im.mul_spec(rhs.re).sub_spec(self.re.mul_spec(rhs.im)).div_spec(s),
        }
    }

    pub open spec fn cdiv_ok(self, rhs: Self) -> bool {
        let s = rhs.csqnorm();
        T::obeys_mul_spec() && T::obeys_add_spec() && T::obeys_sub_spec() && rhs.csqnorm_ok()
            && self.re.mul_req(rhs.re) && self.im.mul_req(rhs.im) && self.im.mul_req(rhs.re)
            && self.re.mul_req(rhs.im) && self.re.mul_spec(rhs.re).add_req(
            self.im.mul_spec(rhs.im),
        ) && self.im.mul_spec(rhs.re).sub_req(self.re.mul_spec(rhs.im)) && self.re.mul_spec(
            rhs.re,
        ).add_spec(self.im.mul_spec(rhs.im)).div_req(s) && self.im.mul_spec(rhs.re).sub_spec(
            self.re.mul_spec(rhs.im),
        ).div_req(s)
    }
}

impl<
    T: MulSpec<T, Output = T> + AddSpec<T, Output = T> + SubSpec<T, Output = T> + DivSpec<
        T,
        Output = T,
    > + RemSpec<T, Output = T> + Identity + Copy,
> Complex<T> {
    /// The quotient rounded to a Gaussian integer: each component of
    /// `self / rhs` is truncated by subtracting its remainder by one.
    pub open spec fn cgauss(self, rhs: Self) -> Self {
        let q = self.cdiv(rhs);
        Complex {
            re: q.re.sub_spec(q.re.rem_spec(T::one_s())),
            im: q.im.sub_spec(q.im.rem_spec(T::one_s())),
        }
    }

    pub open spec fn cgauss_ok(self, rhs: Self) -> bool {
        let q = self.cdiv(rhs);
        self.cdiv_ok(rhs) && T::obeys_div_spec() && T::obeys_rem_spec() && q.re.rem_req(T::one_s())
            && q.im.rem_req(T::one_s()) && q.re.sub_req(q.re.rem_spec(T::one_s()))
            && q.im.sub_req(q.im.rem_spec(T::one_s()))
    }

    /// `self - rhs * gaussian(self / rhs)`, the complex remainder.
    pub open spec fn crem(self, rhs: Self) -> Self {
        self.csub(rhs.cmul(self.cgauss(rhs)))
    }

    pub open spec fn crem_ok(self, rhs: Self) -> bool {
        self.cgauss_ok(rhs) && rhs.cmul_ok(self.cgauss(rhs)) && self.csub_ok(
            rhs.cmul(self.cgauss(rhs)),
        )
    }

    /// Rounds the quotient `self / other` to a Gaussian integer by
    /// truncation: each component loses its remainder by one.
    pub fn gausian_integer(&self, other: Complex<T>) -> (r: Complex<T>)
        requires
            self.cgauss_ok(other),
        ensures
            r == self.cgauss(other),
    {
        let q = (*self).div(other);
        let unit = T::one();
        Complex { re: q.re.sub(q.re.rem(unit)), im: q.im.sub(q.im.rem(unit)) }
    }
}

impl<
    T: MulSpec<T, Output = T> + AddSpec<T, Output = T> + SubSpec<T, Output = T> + Copy,
> Complex<T> {
    /// The square `(a+bi)^2 = (a*a - b*b) + 2abi`, by direct expansion.
    pub fn square(&self) -> (r: Self)
        requires
            self.csquare_ok(),
        ensures
            r == self.csquare(),
    {
        Complex { re: self.re.mul(self.re).sub(self.im.mul(self.im)), im: self.re.mul(self.im).add(self.re.mul(self.im)) }
    }

}

impl<T: MulSpec<T, Output = T> + Copy> Complex<T> {
    /// `(a*k) + (b*k)i`, both components scaled.
    pub open spec fn cmuls(self, k: T) -> Self {
        Complex { re: self.re.mul_spec(k), im: self.im.mul_spec(k) }
    }

    pub open spec fn cmuls_ok(self, k: T) -> bool {
        T::obeys_mul_spec() && self.re.mul_req(k) && self.im.mul_req(k)
    }

    /// Multiplies both components by a bare component value.
    pub fn scale(&self, scallar: T) -> (r: Self)
        requires
            self.cmuls_ok(scallar),
        ensures
            r == self.cmuls(scallar),
    {
        Complex { re: self.re.mul(scallar), im: self.im.mul(scallar) }
    }
}

impl<T: DivSpec<T, Output = T> + Copy> Complex<T> {
    /// `(a/k) + (b/k)i`, both components divided.
    pub open spec fn cdivs(self, k: T) -> Self {
        Complex { re: self.re.div_spec(k), im: self.im.div_spec(k) }
    }

    pub open spec fn cdivs_ok(self, k: T) -> bool {
        T::obeys_div_spec() && self.re.div_req(k) && self.im.div_req(k)
    }

    /// Divides both components by a bare component value.
    pub fn unscale(&self, scallar: T) -> (r: Self)
        requires
            self.cdivs_ok(scallar),
        ensures
            r == self.cdivs(scallar),
    {
        Complex { re: self.re.div(scallar), im: self.im.div(scallar) }
    }
}

impl<
    T: MulSpec<T, Output = T> + AddSpec<T, Output = T> + DivSpec<T, Output = T> + NegSpec<
        Output = T,
    > + Copy,
> Complex<T> {
    /// `conj / square_norm`: `(a/s) - (b/s)i` with `s = a*a + b*b`.
    pub open spec fn cinv(self) -> Self {
        let s = self.csqnorm();
        Complex { re: self.re.div_spec(s), im: self.im.div_spec(s).neg_spec() }
    }

    pub open spec fn cinv_ok(self) -> bool {
        let s = self.csqnorm();
        self.csqnorm_ok() && T::obeys_div_spec() && T::obeys_neg_spec() && self.re.div_req(s)
            && self.im.div_req(s) && self.im.div_spec(s).neg_req()
    }

    /// The multiplicative inverse `1 / self`, as the conjugate divided by the
    /// squared magnitude.
    pub fn inv(&self) -> (r: Self)
        requires
            self.cinv_ok(),
        ensures
            r == self.cinv(),
    {
        let sqs = self.square_norm();
        Complex { re: self.re.div(sqs), im: self.im.div(sqs).neg() }
    }
}

impl<T: Identity + Copy> Complex<T> {
    /// The purely imaginary unit `0 + 1i`.
    pub fn i() -> (r: Self)
        ensures
            r.re == T::zero_s(),
            r.im == T::one_s(),
    {
        Complex { re: T::zero(), im: T::one() }
    }

    /// The additive identity `0 + 0i`.
    pub fn zero() -> (r: Self)
        ensures
            r.re == T::zero_s(),
            r.im == T::zero_s(),
    {
        Complex { re: T::zero(), im: T::zero() }
    }

    /// Whether both components are the additive identity.
    pub fn is_zero(&self) -> (b: bool)
        ensures
            b == (self.re == T::zero_s() && self.im == T::zero_s()),
    {
        self.re.is_zero() && self.im.is_zero()
    }

    /// Sets both components to the additive identity.
    pub fn set_zero(&mut self)
        ensures
            final(self).re == T::zero_s(),
            final(self).im == T::zero_s(),
    {
        self.re = T::zero();
        self.im = T::zero();
    }

    /// The identity-shaped constant `1 + 1i`.
    ///
    /// Note that this is not the mathematical multiplicative identity
    /// `1 + 0i`: both components are set to one, while [`Self::is_one`]
    /// tests for `1 + 0i`.  The disagreement is kept as it stands; the test
    /// suite flags it.
    pub fn one() -> (r: Self)
        ensures
            r.re == T::one_s(),
            r.im == T::one_s(),
    {
        Complex { re: T::one(), im: T::one() }
    }

    /// Whether this value is the multiplicative identity `1 + 0i`.
    pub fn is_one(&self) -> (b: bool)
        ensures
            b == (self.re == T::one_s() && self.im == T::zero_s()),
    {
        self.re.is_one() && self.im.is_zero()
    }

    /// Sets both components to the multiplicative identity of the component
    /// type (the same `1 + 1i` shape as [`Self::one`]).
    pub fn set_one(&mut self)
        ensures
            final(self).re == T::one_s(),
            final(self).im == T::one_s(),
    {
        self.re = T::one();
        self.im = T::one();
    }
}

impl<T: NegSpec<Output = T> + Copy> Complex<T> {
    /// Conjugate: negates the imaginary component only.
    pub fn conj(&self) -> (r: Self)
        requires
            self.im.neg_req(),
        ensures
            r.re == self.re,
            T::obeys_neg_spec() ==> r == self.cconj(),
    {
        Complex { re: self.re, im: self.im.neg() }
    }
}

} // verus!
