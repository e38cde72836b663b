use crate::complexc::Complex;
use crate::numeric::Identity;
use std::ops::Add;
use std::ops::Div;
use std::ops::Mul;
use std::ops::Rem;
use std::ops::Sub;
use vstd::prelude::*;
use vstd::std_specs::ops::AddSpec;
use vstd::std_specs::ops::DivSpec;
use vstd::std_specs::ops::MulSpec;
use vstd::std_specs::ops::RemSpec;
use vstd::std_specs::ops::SubSpec;

verus! {

// The in-place compound forms.  Each replaces the receiver with exactly the
// value the corresponding plain operator would return.
impl<T: AddSpec<T, Output = T> + Copy> Complex<T> {
    /// In-place sum with another complex value.
    pub fn add_assign(&mut self, rhs: Complex<T>)
        requires
            old(self).cadd_ok(rhs),
        ensures
            T::obeys_add_spec() ==> *final(self) == old(self).cadd(rhs),
    {
        self.re = self.re.add(rhs.re);
        self.im = self.im.add(rhs.im);
    }

    /// In-place sum with a bare component value: only the real component
    /// moves.
    pub fn add_assign_scalar(&mut self, rhs: T)
        requires
            old(self).cadds_ok(rhs),
        ensures
            T::obeys_add_spec() ==> *final(self) == old(self).cadds(rhs),
            final(self).im == old(self).im,
    {
        self.re = self.re.add(rhs);
    }
}

impl<T: SubSpec<T, Output = T> + Copy> Complex<T> {
    /// In-place difference with another complex value.
    pub fn sub_assign(&mut self, rhs: Complex<T>)
        requires
            old(self).csub_ok(rhs),
        ensures
            T::obeys_sub_spec() ==> *final(self) == old(self).csub(rhs),
    {
        self.re = self.re.sub(rhs.re);
        self.im = self.im.sub(rhs.im);
    }

    /// In-place difference with a bare component value: only the real
    /// component moves.
    pub fn sub_assign_scalar(&mut self, rhs: T)
        requires
            old(self).csubs_ok(rhs),
        ensures
            T::obeys_sub_spec() ==> *final(self) == old(self).csubs(rhs),
            final(self).im == old(self).im,
    {
        self.re = self.re.sub(rhs);
    }
}

impl<
    T: MulSpec<T, Output = T> + AddSpec<T, Output = T> + SubSpec<T, Output = T> + Copy,
> Complex<T> {
    /// In-place product with another complex value.
    pub fn mul_assign(&mut self, rhs: Complex<T>)
        requires
            old(self).cmul_ok(rhs),
        ensures
            *final(self) == old(self).cmul(rhs),
    {
        let tmp_re = self.re;
        self.re = self.re.mul(rhs.re).sub(self.im.mul(rhs.im));
        self.im = tmp_re.mul(rhs.im).add(self.im.mul(rhs.re));
    }
}

impl<T: MulSpec<T, Output = T> + Copy> Complex<T> {
    /// In-place product with a bare component value: both components scale.
    pub fn mul_assign_scalar(&mut self, rhs: T)
        requires
            old(self).cmuls_ok(rhs),
        ensures
            *final(self) == old(self).cmuls(rhs),
    {
        self.re = self.re.mul(rhs);
        self.im = self.im.mul(rhs);
    }
}

impl<
    T: MulSpec<T, Output = T> + AddSpec<T, Output = T> + SubSpec<T, Output = T> + DivSpec<
        T,
        Output = T,
    > + Copy,
> Complex<T> {
    /// In-place quotient by another complex value.
    pub fn div_assign(&mut self, rhs: Complex<T>)
        requires
            old(self).cdiv_ok(rhs),
        ensures
            T::obeys_div_spec() ==> *final(self) == old(self).cdiv(rhs),
    {
        let tmp_re = self.re;
        let sqs = rhs.re.mul(rhs.re).add(rhs.im.mul(rhs.im));
        self.re = self.re.mul(rhs.re).add(self.im.mul(rhs.im)).div(sqs);
        self.im = self.im.mul(rhs.re).sub(tmp_re.mul(rhs.im)).div(sqs);
    }
}

impl<T: DivSpec<T, Output = T> + Copy> Complex<T> {
    /// In-place quotient by a bare component value: both components divide.
    pub fn div_assign_scalar(&mut self, rhs: T)
        requires
            old(self).cdivs_ok(rhs),
        ensures
            *final(self) == old(self).cdivs(rhs),
    {
        self.re = self.re.div(rhs);
        self.im = self.im.div(rhs);
    }
}

impl<
    T: MulSpec<T, Output = T> + AddSpec<T, Output = T> + SubSpec<T, Output = T> + DivSpec<
        T,
        Output = T,
    > + RemSpec<T, Output = T> + Identity + Copy,
> Complex<T> {
    /// In-place complex remainder by another complex value.
    pub fn rem_assign(&mut self, rhs: Complex<T>)
        requires
            old(self).crem_ok(rhs),
        ensures
            *final(self) == old(self).crem(rhs),
    {
        let g = self.gausian_integer(rhs);
        let p = rhs.mul(g);
        self.sub_assign(p);
    }
}

impl<T: RemSpec<T, Output = T> + Copy> Complex<T> {
    /// In-place component-wise remainder by a bare component value.
    pub fn rem_assign_scalar(&mut self, rhs: T)
        requires
            old(self).crems_ok(rhs),
        ensures
            T::obeys_rem_spec() ==> *final(self) == old(self).crems(rhs),
    {
        self.re = self.re.rem(rhs);
        self.im = self.im.rem(rhs);
    }
}

} // verus!
