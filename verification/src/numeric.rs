use vstd::prelude::*;

verus! {

/// The identity-element capability of a component type: a zero and a one,
/// with tests against them.
///
/// The algebra that needs no identities is generic over the standard operator
/// traits alone; this capability unlocks the remainder (whose Gaussian
/// rounding divides by one), the imaginary unit and the identity-valued
/// constructors.  The library implements it for the primitive integer types;
/// a floating component type is given it by a caller-side wrapper type, whose
/// unverified implementation is trusted to return its genuine zero and one.
pub trait Identity: Sized {
    /// The additive identity, at the specification level.
    spec fn zero_s() -> Self;

    /// The multiplicative identity, at the specification level.
    spec fn one_s() -> Self;

    /// Returns the additive identity.
    fn zero() -> (r: Self)
        ensures
            r == Self::zero_s(),
    ;

    /// Returns the multiplicative identity.
    fn one() -> (r: Self)
        ensures
            r == Self::one_s(),
    ;

    /// Whether this value is the additive identity.
    fn is_zero(&self) -> (b: bool)
        ensures
            b == (*self == Self::zero_s()),
    ;

    /// Whether this value is the multiplicative identity.
    fn is_one(&self) -> (b: bool)
        ensures
            b == (*self == Self::one_s()),
    ;
}

impl Identity for u8 {
    open spec fn zero_s() -> Self {
        0u8
    }

    open spec fn one_s() -> Self {
        1u8
    }

    fn zero() -> Self {
        0
    }

    fn one() -> Self {
        1
    }

    fn is_zero(&self) -> bool {
        *self == 0
    }

    fn is_one(&self) -> bool {
        *self == 1
    }
}

impl Identity for u16 {
    open spec fn zero_s() -> Self {
        0u16
    }

    open spec fn one_s() -> Self {
        1u16
    }

    fn zero() -> Self {
        0
    }

    fn one() -> Self {
        1
    }

    fn is_zero(&self) -> bool {
        *self == 0
    }

    fn is_one(&self) -> bool {
        *self == 1
    }
}

impl Identity for u32 {
    open spec fn zero_s() -> Self {
        0u32
    }

    open spec fn one_s() -> Self {
        1u32
    }

    fn zero() -> Self {
        0
    }

    fn one() -> Self {
        1
    }

    fn is_zero(&self) -> bool {
        *self == 0
    }

    fn is_one(&self) -> bool {
        *self == 1
    }
}

impl Identity for u64 {
    open spec fn zero_s() -> Self {
        0u64
    }

    open spec fn one_s() -> Self {
        1u64
    }

    fn zero() -> Self {
        0
    }

    fn one() -> Self {
        1
    }

    fn is_zero(&self) -> bool {
        *self == 0
    }

    fn is_one(&self) -> bool {
        *self == 1
    }
}

impl Identity for u128 {
    open spec fn zero_s() -> Self {
        0u128
    }

    open spec fn one_s() -> Self {
        1u128
    }

    fn zero() -> Self {
        0
    }

    fn one() -> Self {
        1
    }

    fn is_zero(&self) -> bool {
        *self == 0
    }

    fn is_one(&self) -> bool {
        *self == 1
    }
}

impl Identity for usize {
    open spec fn zero_s() -> Self {
        0usize
    }

    open spec fn one_s() -> Self {
        1usize
    }

    fn zero() -> Self {
        0
    }

    fn one() -> Self {
        1
    }

    fn is_zero(&self) -> bool {
        *self == 0
    }

    fn is_one(&self) -> bool {
        *self == 1
    }
}

impl Identity for i8 {
    open spec fn zero_s() -> Self {
        0i8
    }

    open spec fn one_s() -> Self {
        1i8
    }

    fn zero() -> Self {
        0
    }

    fn one() -> Self {
        1
    }

    fn is_zero(&self) -> bool {
        *self == 0
    }

    fn is_one(&self) -> bool {
        *self == 1
    }
}

impl Identity for i16 {
    open spec fn zero_s() -> Self {
        0i16
    }

    open spec fn one_s() -> Self {
        1i16
    }

    fn zero() -> Self {
        0
    }

    fn one() -> Self {
        1
    }

    fn is_zero(&self) -> bool {
        *self == 0
    }

    fn is_one(&self) -> bool {
        *self == 1
    }
}

impl Identity for i32 {
    open spec fn zero_s() -> Self {
        0i32
    }

    open spec fn one_s() -> Self {
        1i32
    }

    fn zero() -> Self {
        0
    }

    fn one() -> Self {
        1
    }

    fn is_zero(&self) -> bool {
        *self == 0
    }

    fn is_one(&self) -> bool {
        *self == 1
    }
}

impl Identity for i64 {
    open spec fn zero_s() -> Self {
        0i64
    }

    open spec fn one_s() -> Self {
        1i64
    }

    fn zero() -> Self {
        0
    }

    fn one() -> Self {
        1
    }

    fn is_zero(&self) -> bool {
        *self == 0
    }

    fn is_one(&self) -> bool {
        *self == 1
    }
}

impl Identity for i128 {
    open spec fn zero_s() -> Self {
        0i128
    }

    open spec fn one_s() -> Self {
        1i128
    }

    fn zero() -> Self {
        0
    }

    fn one() -> Self {
        1
    }

    fn is_zero(&self) -> bool {
        *self == 0
    }

    fn is_one(&self) -> bool {
        *self == 1
    }
}

impl Identity for isize {
    open spec fn zero_s() -> Self {
        0isize
    }

    open spec fn one_s() -> Self {
        1isize
    }

    fn zero() -> Self {
        0
    }

    fn one() -> Self {
        1
    }

    fn is_zero(&self) -> bool {
        *self == 0
    }

    fn is_one(&self) -> bool {
        *self == 1
    }
}

} // verus!
