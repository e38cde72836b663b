//! A beginner-friendly complex number library over a generic component type.
//!
//! A complex value is a plain pair `(re, im)`.  The algebra is generic over
//! the component type through the standard operator traits, the remainder and
//! the identities through the [`Identity`] capability, and the transcendental
//! family through the [`Analytic`] capability, so one implementation serves
//! both exact integer-like and approximate floating component types.

use vstd::prelude::*;

mod analytic;
mod cast;
mod complex_assign_ops;
mod complex_ops;
mod complexc;
pub mod laws;
mod numeric;
mod sign_trait;

pub use analytic::Analytic;
pub use complexc::Complex;
pub use numeric::Identity;
pub use sign_trait::Sign;

verus! {

/// Builds a complex number from its two components (the recommended way).
pub fn complex<T>(re: T, im: T) -> (z: Complex<T>)
    ensures
        z.re == re,
        z.im == im,
{
    Complex { re, im }
}

} // verus!
