use crate::complexc::Complex;
use crate::numeric::Identity;
use vstd::prelude::*;

verus! {

// Conversions between a complex value and a bare component value.
impl<T: Identity + Copy> Complex<T> {
    /// The narrowing conversion to a bare component value: succeeds exactly
    /// when the imaginary component is the zero value, and fails closed
    /// otherwise.
    pub fn to_scalar(&self) -> (r: Option<T>)
        ensures
            r == if self.im == T::zero_s() {
                Some(self.re)
            } else {
                None::<T>
            },
    {
        if self.im.is_zero() {
            Some(self.re)
        } else {
            None
        }
    }

    /// The lossless widening of a bare component value: the imaginary
    /// component is always the zero value.
    pub fn from_scalar(re: T) -> (z: Self)
        ensures
            z.re == re,
            z.im == T::zero_s(),
    {
        Complex { re, im: T::zero() }
    }
}

impl<T: Copy> Complex<T> {
    /// The truncating fast path: hands out the real component and silently
    /// discards the imaginary one.
    ///
    /// This is deliberately lossy, unlike [`Self::to_scalar`], which fails
    /// closed on a nonzero imaginary component; any further narrowing of the
    /// returned component value is the caller's own.
    pub fn as_scalar(&self) -> (r: T)
        ensures
            r == self.re,
    {
        self.re
    }
}

} // verus!
