use crate::complexc::Complex;
use crate::numeric::Identity;
use std::ops::Add;
use std::ops::Div;
use std::ops::Mul;
use std::ops::Neg;
use std::ops::Rem;
use std::ops::Sub;
use vstd::prelude::*;
use vstd::std_specs::ops::AddSpec;
use vstd::std_specs::ops::DivSpec;
use vstd::std_specs::ops::MulSpec;
use vstd::std_specs::ops::NegSpec;
use vstd::std_specs::ops::RemSpec;
use vstd::std_specs::ops::SubSpec;

verus! {

// Complex (+ - * /) Complex.
//
// Each operator is pinned to the spec formula beside the struct; vstd's
// operator specifications carry the contract, so `z + w` in verified code
// means exactly `z.cadd(w)` whenever the component type obeys its own
// operator model.
impl<T: AddSpec<T, Output = T> + Copy> std::ops::Add<Complex<T>> for Complex<T> {
    type Output = Complex<T>;

    fn add(self, rhs: Complex<T>) -> (r: Complex<T>) {
        Complex { re: self.re.add(rhs.re), im: self.im.add(rhs.im) }
    }
}

impl<T: AddSpec<T, Output = T> + Copy> vstd::std_specs::ops::AddSpecImpl<Complex<T>> for Complex<T> {
    open spec fn obeys_add_spec() -> bool {
        T::obeys_add_spec()
    }

    open spec fn add_req(self, rhs: Complex<T>) -> bool {
        self.cadd_ok(rhs)
    }

    open spec fn add_spec(self, rhs: Complex<T>) -> Complex<T> {
        self.cadd(rhs)
    }
}

impl<T: SubSpec<T, Output = T> + Copy> std::ops::Sub<Complex<T>> for Complex<T> {
    type Output = Complex<T>;

    fn sub(self, rhs: Complex<T>) -> (r: Complex<T>) {
        Complex { re: self.re.sub(rhs.re), im: self.im.sub(rhs.im) }
    }
}

impl<T: SubSpec<T, Output = T> + Copy> vstd::std_specs::ops::SubSpecImpl<Complex<T>> for Complex<T> {
    open spec fn obeys_sub_spec() -> bool {
        T::obeys_sub_spec()
    }

    open spec fn sub_req(self, rhs: Complex<T>) -> bool {
        self.csub_ok(rhs)
    }

    open spec fn sub_spec(self, rhs: Complex<T>) -> Complex<T> {
        self.csub(rhs)
    }
}

impl<T: MulSpec<T, Output = T> + AddSpec<T, Output = T> + SubSpec<T, Output = T> + Copy> std::ops::Mul<Complex<T>> for Complex<T> {
    type Output = Complex<T>;

    fn mul(self, rhs: Complex<T>) -> (r: Complex<T>) {
        Complex {
            re: self.re.mul(rhs.re).sub(self.im.mul(rhs.im)),
            im: self.re.mul(rhs.im).add(self.im.mul(rhs.re)),
        }
    }
}

impl<T: MulSpec<T, Output = T> + AddSpec<T, Output = T> + SubSpec<T, Output = T> + Copy> vstd::std_specs::ops::MulSpecImpl<Complex<T>> for Complex<T> {
    open spec fn obeys_mul_spec() -> bool {
        T::obeys_mul_spec() && T::obeys_add_spec() && T::obeys_sub_spec()
    }

    open spec fn mul_req(self, rhs: Complex<T>) -> bool {
        self.cmul_ok(rhs)
    }

    open spec fn mul_spec(self, rhs: Complex<T>) -> Complex<T> {
        self.cmul(rhs)
    }
}

impl<T: MulSpec<T, Output = T> + AddSpec<T, Output = T> + SubSpec<T, Output = T> + DivSpec<T, Output = T> + Copy> std::ops::Div<Complex<T>> for Complex<T> {
    type Output = Complex<T>;

    fn div(self, rhs: Complex<T>) -> (r: Complex<T>) {
        let sqs = rhs.re.mul(rhs.re).add(rhs.im.mul(rhs.im));
        Complex {
            re: self.re.mul(rhs.re).add(self.im.mul(rhs.im)).div(sqs),
            im: self.im.mul(rhs.re).sub(self.re.mul(rhs.im)).div(sqs),
        }
    }
}

impl<T: MulSpec<T, Output = T> + AddSpec<T, Output = T> + SubSpec<T, Output = T> + DivSpec<T, Output = T> + Copy> vstd::std_specs::ops::DivSpecImpl<Complex<T>> for Complex<T> {
    open spec fn obeys_div_spec() -> bool {
        T::obeys_div_spec() && T::obeys_mul_spec() && T::obeys_add_spec() && T::obeys_sub_spec()
    }

    open spec fn div_req(self, rhs: Complex<T>) -> bool {
        self.cdiv_ok(rhs)
    }

    open spec fn div_spec(self, rhs: Complex<T>) -> Complex<T> {
        self.cdiv(rhs)
    }
}

impl<T: MulSpec<T, Output = T> + AddSpec<T, Output = T> + SubSpec<T, Output = T> + DivSpec<T, Output = T> + RemSpec<T, Output = T> + Identity + Copy> std::ops::Rem<Complex<T>> for Complex<T> {
    type Output = Complex<T>;

    fn rem(self, rhs: Complex<T>) -> (r: Complex<T>) {
        let g = self.gausian_integer(rhs);
        self.sub(rhs.mul(g))
    }
}

impl<T: MulSpec<T, Output = T> + AddSpec<T, Output = T> + SubSpec<T, Output = T> + DivSpec<T, Output = T> + RemSpec<T, Output = T> + Identity + Copy> vstd::std_specs::ops::RemSpecImpl<Complex<T>> for Complex<T> {
    open spec fn obeys_rem_spec() -> bool {
        T::obeys_mul_spec() && T::obeys_add_spec() && T::obeys_sub_spec() && T::obeys_div_spec()
            && T::obeys_rem_spec()
    }

    open spec fn rem_req(self, rhs: Complex<T>) -> bool {
        self.crem_ok(rhs)
    }

    open spec fn rem_spec(self, rhs: Complex<T>) -> Complex<T> {
        self.crem(rhs)
    }
}

impl<T: NegSpec<Output = T> + Copy> std::ops::Neg for Complex<T> {
    type Output = Complex<T>;

    fn neg(self) -> (r: Complex<T>) {
        Complex { re: self.re.neg(), im: self.im.neg() }
    }
}

impl<T: NegSpec<Output = T> + Copy> vstd::std_specs::ops::NegSpecImpl for Complex<T> {
    open spec fn obeys_neg_spec() -> bool {
        T::obeys_neg_spec()
    }

    open spec fn neg_req(self) -> bool {
        self.re.neg_req() && self.im.neg_req()
    }

    open spec fn neg_spec(self) -> Complex<T> {
        self.cneg()
    }
}

// Complex (+ - * / %) bare component, acting on the real component alone for
// the additive operators and on both components for the multiplicative ones.
impl<T: AddSpec<T, Output = T> + Copy> Complex<T> {
    /// `(a+k) + bi`
    pub open spec fn cadds(self, k: T) -> Self {
        Complex { re: self.re.add_spec(k), im: self.im }
    }

    pub open spec fn cadds_ok(self, k: T) -> bool {
        self.re.add_req(k)
    }
}

impl<T: AddSpec<T, Output = T> + Copy> std::ops::Add<T> for Complex<T> {
    type Output = Complex<T>;

    fn add(self, rhs: T) -> (r: Complex<T>) {
        Complex { re: self.re.add(rhs), im: self.im }
    }
}

impl<T: AddSpec<T, Output = T> + Copy> vstd::std_specs::ops::AddSpecImpl<T> for Complex<T> {
    open spec fn obeys_add_spec() -> bool {
        T::obeys_add_spec()
    }

    open spec fn add_req(self, rhs: T) -> bool {
        self.cadds_ok(rhs)
    }

    open spec fn add_spec(self, rhs: T) -> Complex<T> {
        self.cadds(rhs)
    }
}

impl<T: SubSpec<T, Output = T> + Copy> Complex<T> {
    /// `(a-k) + bi`
    pub open spec fn csubs(self, k: T) -> Self {
        Complex { re: self.re.sub_spec(k), im: self.im }
    }

    pub open spec fn csubs_ok(self, k: T) -> bool {
        self.re.sub_req(k)
    }
}

impl<T: SubSpec<T, Output = T> + Copy> std::ops::Sub<T> for Complex<T> {
    type Output = Complex<T>;

    fn sub(self, rhs: T) -> (r: Complex<T>) {
        Complex { re: self.re.sub(rhs), im: self.im }
    }
}

impl<T: SubSpec<T, Output = T> + Copy> vstd::std_specs::ops::SubSpecImpl<T> for Complex<T> {
    open spec fn obeys_sub_spec() -> bool {
        T::obeys_sub_spec()
    }

    open spec fn sub_req(self, rhs: T) -> bool {
        self.csubs_ok(rhs)
    }

    open spec fn sub_spec(self, rhs: T) -> Complex<T> {
        self.csubs(rhs)
    }
}

impl<T: MulSpec<T, Output = T> + Copy> std::ops::Mul<T> for Complex<T> {
    type Output = Complex<T>;

    fn mul(self, rhs: T) -> (r: Complex<T>) {
        Complex { re: self.re.mul(rhs), im: self.im.mul(rhs) }
    }
}

impl<T: MulSpec<T, Output = T> + Copy> vstd::std_specs::ops::MulSpecImpl<T> for Complex<T> {
    open spec fn obeys_mul_spec() -> bool {
        T::obeys_mul_spec()
    }

    open spec fn mul_req(self, rhs: T) -> bool {
        self.re.mul_req(rhs) && self.im.mul_req(rhs)
    }

    open spec fn mul_spec(self, rhs: T) -> Complex<T> {
        self.cmuls(rhs)
    }
}

impl<T: DivSpec<T, Output = T> + Copy> std::ops::Div<T> for Complex<T> {
    type Output = Complex<T>;

    fn div(self, rhs: T) -> (r: Complex<T>) {
        Complex { re: self.re.div(rhs), im: self.im.div(rhs) }
    }
}

impl<T: DivSpec<T, Output = T> + Copy> vstd::std_specs::ops::DivSpecImpl<T> for Complex<T> {
    open spec fn obeys_div_spec() -> bool {
        T::obeys_div_spec()
    }

    open spec fn div_req(self, rhs: T) -> bool {
        self.re.div_req(rhs) && self.im.div_req(rhs)
    }

    open spec fn div_spec(self, rhs: T) -> Complex<T> {
        self.cdivs(rhs)
    }
}

impl<T: RemSpec<T, Output = T> + Copy> Complex<T> {
    /// `(a%k) + (b%k)i`
    pub open spec fn crems(self, k: T) -> Self {
        Complex { re: self.re.rem_spec(k), im: self.im.rem_spec(k) }
    }

    pub open spec fn crems_ok(self, k: T) -> bool {
        self.re.rem_req(k) && self.im.rem_req(k)
    }
}

impl<T: RemSpec<T, Output = T> + Copy> std::ops::Rem<T> for Complex<T> {
    type Output = Complex<T>;

    fn rem(self, rhs: T) -> (r: Complex<T>) {
        Complex { re: self.re.rem(rhs), im: self.im.rem(rhs) }
    }
}

impl<T: RemSpec<T, Output = T> + Copy> vstd::std_specs::ops::RemSpecImpl<T> for Complex<T> {
    open spec fn obeys_rem_spec() -> bool {
        T::obeys_rem_spec()
    }

    open spec fn rem_req(self, rhs: T) -> bool {
        self.crems_ok(rhs)
    }

    open spec fn rem_spec(self, rhs: T) -> Complex<T> {
        self.crems(rhs)
    }
}

// Bare component on the left.  Rust's coherence rules keep a generic impl of
// the operator traits for the component type itself out of reach, so these
// stand as named methods: `z.radd(k)` is `k + z`.
impl<T: AddSpec<T, Output = T> + Copy> Complex<T> {
    /// `(k+a) + bi`
    pub open spec fn sadd(self, k: T) -> Self {
        Complex { re: k.add_spec(self.re), im: self.im }
    }

    pub open spec fn sadd_ok(self, k: T) -> bool {
        k.add_req(self.re)
    }

    /// The sum `k + self` with the bare component value on the left.
    pub fn radd(&self, k: T) -> (r: Self)
        requires
            self.sadd_ok(k),
        ensures
            T::obeys_add_spec() ==> r == self.sadd(k),
            r.im == self.im,
    {
        Complex { re: k.add(self.re), im: self.im }
    }
}

impl<T: SubSpec<T, Output = T> + NegSpec<Output = T> + Copy> Complex<T> {
    /// `(k-a) - bi`: the difference taken as `(k + 0i) - (a + bi)`, so the
    /// imaginary component is negated.
    pub open spec fn ssub(self, k: T) -> Self {
        Complex { re: k.sub_spec(self.re), im: self.im.neg_spec() }
    }

    pub open spec fn ssub_ok(self, k: T) -> bool {
        k.sub_req(self.re) && self.im.neg_req()
    }

    /// The difference `k - self` with the bare component value on the left.
    pub fn rsub(&self, k: T) -> (r: Self)
        requires
            self.ssub_ok(k),
        ensures
            T::obeys_sub_spec() && T::obeys_neg_spec() ==> r == self.ssub(k),
    {
        Complex { re: k.sub(self.re), im: self.im.neg() }
    }
}

impl<T: MulSpec<T, Output = T> + Copy> Complex<T> {
    /// `(k*a) + (k*b)i`
    pub open spec fn smul(self, k: T) -> Self {
        Complex { re: k.mul_spec(self.re), im: k.mul_spec(self.im) }
    }

    pub open spec fn smul_ok(self, k: T) -> bool {
        k.mul_req(self.re) && k.mul_req(self.im)
    }

    /// The product `k * self` with the bare component value on the left.
    pub fn rmul(&self, k: T) -> (r: Self)
        requires
            self.smul_ok(k),
        ensures
            T::obeys_mul_spec() ==> r == self.smul(k),
    {
        Complex { re: k.mul(self.re), im: k.mul(self.im) }
    }
}

impl<
    T: MulSpec<T, Output = T> + AddSpec<T, Output = T> + DivSpec<T, Output = T> + NegSpec<
        Output = T,
    > + Copy,
> Complex<T> {
    /// `(k*a/s) - (k*b/s)i` with `s = a*a + b*b`: the bare value times the
    /// inverse of the complex value.
    pub open spec fn sdiv(self, k: T) -> Self {
        let s = self.csqnorm();
        Complex {
            re: k.mul_spec(self.re).div_spec(s),
            im: k.mul_spec(self.im).div_spec(s).neg_spec(),
        }
    }

    pub open spec fn sdiv_ok(self, k: T) -> bool {
        let s = self.csqnorm();
        self.csqnorm_ok() && T::obeys_div_spec() && T::obeys_neg_spec() && k.mul_req(self.re)
            && k.mul_req(self.im) && k.mul_spec(self.re).div_req(s) && k.mul_spec(self.im).div_req(
            s,
        ) && k.mul_spec(self.im).div_spec(s).neg_req()
    }

    /// The quotient `k / self` with the bare component value on the left.
    pub fn rdiv(&self, k: T) -> (r: Self)
        requires
            self.sdiv_ok(k),
        ensures
            r == self.sdiv(k),
    {
        let sqs = self.square_norm();
        Complex { re: k.mul(self.re).div(sqs), im: k.mul(self.im).div(sqs).neg() }
    }
}

impl<
    T: MulSpec<T, Output = T> + AddSpec<T, Output = T> + SubSpec<T, Output = T> + DivSpec<
        T,
        Output = T,
    > + RemSpec<T, Output = T> + Identity + Copy,
> Complex<T> {
    /// `(k + 0i) % self`
    pub open spec fn srem(self, k: T) -> Self {
        Complex { re: k, im: T::zero_s() }.crem(self)
    }

    pub open spec fn srem_ok(self, k: T) -> bool {
        Complex { re: k, im: T::zero_s() }.crem_ok(self)
    }

    /// The remainder `k % self` with the bare component value on the left,
    /// taken as the complex remainder of `k + 0i`.
    pub fn rrem(&self, k: T) -> (r: Self)
        requires
            self.srem_ok(k),
        ensures
            r == self.srem(k),
    {
        Complex { re: k, im: T::zero() }.rem(*self)
    }
}

} // verus!
