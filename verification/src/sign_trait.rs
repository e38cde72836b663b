use vstd::prelude::*;

verus! {

/// The sign capability of a component type, consumed by presentation code:
/// sign queries, the absolute value and a small integer signum.
///
/// For an unsigned component type negativity is always false and the
/// absolute value is the identity.
pub trait Sign: Sized {
    /// Model of the negativity test.
    spec fn is_negative_s(&self) -> bool;

    /// Model of the positivity test.
    spec fn is_positive_s(&self) -> bool;

    /// Model of the test against the zero value.
    spec fn is_zero_s(&self) -> bool;

    /// When the absolute value is representable.
    spec fn abs_ok(&self) -> bool;

    /// Model of the absolute value.
    spec fn abs_s(&self) -> Self;

    /// Model of the signum: `1`, `-1` or `0`.
    spec fn signum_s(&self) -> i32;

    /// Whether this value is strictly negative.
    fn is_negative(&self) -> (b: bool)
        ensures
            b == self.is_negative_s(),
    ;

    /// Whether this value is strictly positive.
    fn is_positive(&self) -> (b: bool)
        ensures
            b == self.is_positive_s(),
    ;

    /// Whether this value is the zero value.
    fn is_zero(&self) -> (b: bool)
        ensures
            b == self.is_zero_s(),
    ;

    /// The absolute value.
    fn abs(&self) -> (r: Self)
        requires
            self.abs_ok(),
        ensures
            r == self.abs_s(),
    ;

    /// The sign as a small integer: `1` when positive, `-1` when negative,
    /// `0` otherwise.
    fn signumi32(&self) -> (r: i32)
        ensures
            r == self.signum_s(),
    ;
}

impl Sign for i8 {
    open spec fn is_negative_s(&self) -> bool {
        *self < 0
    }

    open spec fn is_positive_s(&self) -> bool {
        *self > 0
    }

    open spec fn is_zero_s(&self) -> bool {
        *self == 0
    }

    open spec fn abs_ok(&self) -> bool {
        *self != i8::MIN
    }

    open spec fn abs_s(&self) -> Self {
        if *self < 0 {
            (-*self) as i8
        } else {
            *self
        }
    }

    open spec fn signum_s(&self) -> i32 {
        if *self > 0 {
            1i32
        } else if *self < 0 {
            -1i32
        } else {
            0i32
        }
    }

    fn is_negative(&self) -> bool {
        *self < 0
    }

    fn is_positive(&self) -> bool {
        *self > 0
    }

    fn is_zero(&self) -> bool {
        *self == 0
    }

    fn abs(&self) -> Self {
        if self.is_negative() {
            let sg = self.signumi32() as i8;
            proof {
                assert((*self) * sg == -(*self)) by (nonlinear_arith)
                    requires
                        sg == -1,
                ;
            }
            *self * sg
        } else {
            *self
        }
    }

    fn signumi32(&self) -> i32 {
        if *self > 0 {
            1
        } else if *self < 0 {
            -1
        } else {
            0
        }
    }
}

impl Sign for i16 {
    open spec fn is_negative_s(&self) -> bool {
        *self < 0
    }

    open spec fn is_positive_s(&self) -> bool {
        *self > 0
    }

    open spec fn is_zero_s(&self) -> bool {
        *self == 0
    }

    open spec fn abs_ok(&self) -> bool {
        *self != i16::MIN
    }

    open spec fn abs_s(&self) -> Self {
        if *self < 0 {
            (-*self) as i16
        } else {
            *self
        }
    }

    open spec fn signum_s(&self) -> i32 {
        if *self > 0 {
            1i32
        } else if *self < 0 {
            -1i32
        } else {
            0i32
        }
    }

    fn is_negative(&self) -> bool {
        *self < 0
    }

    fn is_positive(&self) -> bool {
        *self > 0
    }

    fn is_zero(&self) -> bool {
        *self == 0
    }

    fn abs(&self) -> Self {
        if self.is_negative() {
            let sg = self.signumi32() as i16;
            proof {
                assert((*self) * sg == -(*self)) by (nonlinear_arith)
                    requires
                        sg == -1,
                ;
            }
            *self * sg
        } else {
            *self
        }
    }

    fn signumi32(&self) -> i32 {
        if *self > 0 {
            1
        } else if *self < 0 {
            -1
        } else {
            0
        }
    }
}

impl Sign for i32 {
    open spec fn is_negative_s(&self) -> bool {
        *self < 0
    }

    open spec fn is_positive_s(&self) -> bool {
        *self > 0
    }

    open spec fn is_zero_s(&self) -> bool {
        *self == 0
    }

    open spec fn abs_ok(&self) -> bool {
        *self != i32::MIN
    }

    open spec fn abs_s(&self) -> Self {
        if *self < 0 {
            (-*self) as i32
        } else {
            *self
        }
    }

    open spec fn signum_s(&self) -> i32 {
        if *self > 0 {
            1i32
        } else if *self < 0 {
            -1i32
        } else {
            0i32
        }
    }

    fn is_negative(&self) -> bool {
        *self < 0
    }

    fn is_positive(&self) -> bool {
        *self > 0
    }

    fn is_zero(&self) -> bool {
        *self == 0
    }

    fn abs(&self) -> Self {
        if self.is_negative() {
            let sg = self.signumi32() as i32;
            proof {
                assert((*self) * sg == -(*self)) by (nonlinear_arith)
                    requires
                        sg == -1,
                ;
            }
            *self * sg
        } else {
            *self
        }
    }

    fn signumi32(&self) -> i32 {
        if *self > 0 {
            1
        } else if *self < 0 {
            -1
        } else {
            0
        }
    }
}

impl Sign for i64 {
    open spec fn is_negative_s(&self) -> bool {
        *self < 0
    }

    open spec fn is_positive_s(&self) -> bool {
        *self > 0
    }

    open spec fn is_zero_s(&self) -> bool {
        *self == 0
    }

    open spec fn abs_ok(&self) -> bool {
        *self != i64::MIN
    }

    open spec fn abs_s(&self) -> Self {
        if *self < 0 {
            (-*self) as i64
        } else {
            *self
        }
    }

    open spec fn signum_s(&self) -> i32 {
        if *self > 0 {
            1i32
        } else if *self < 0 {
            -1i32
        } else {
            0i32
        }
    }

    fn is_negative(&self) -> bool {
        *self < 0
    }

    fn is_positive(&self) -> bool {
        *self > 0
    }

    fn is_zero(&self) -> bool {
        *self == 0
    }

    fn abs(&self) -> Self {
        if self.is_negative() {
            let sg = self.signumi32() as i64;
            proof {
                assert((*self) * sg == -(*self)) by (nonlinear_arith)
                    requires
                        sg == -1,
                ;
            }
            *self * sg
        } else {
            *self
        }
    }

    fn signumi32(&self) -> i32 {
        if *self > 0 {
            1
        } else if *self < 0 {
            -1
        } else {
            0
        }
    }
}

impl Sign for i128 {
    open spec fn is_negative_s(&self) -> bool {
        *self < 0
    }

    open spec fn is_positive_s(&self) -> bool {
        *self > 0
    }

    open spec fn is_zero_s(&self) -> bool {
        *self == 0
    }

    open spec fn abs_ok(&self) -> bool {
        *self != i128::MIN
    }

    open spec fn abs_s(&self) -> Self {
        if *self < 0 {
            (-*self) as i128
        } else {
            *self
        }
    }

    open spec fn signum_s(&self) -> i32 {
        if *self > 0 {
            1i32
        } else if *self < 0 {
            -1i32
        } else {
            0i32
        }
    }

    fn is_negative(&self) -> bool {
        *self < 0
    }

    fn is_positive(&self) -> bool {
        *self > 0
    }

    fn is_zero(&self) -> bool {
        *self == 0
    }

    fn abs(&self) -> Self {
        if self.is_negative() {
            let sg = self.signumi32() as i128;
            proof {
                assert((*self) * sg == -(*self)) by (nonlinear_arith)
                    requires
                        sg == -1,
                ;
            }
            *self * sg
        } else {
            *self
        }
    }

    fn signumi32(&self) -> i32 {
        if *self > 0 {
            1
        } else if *self < 0 {
            -1
        } else {
            0
        }
    }
}

impl Sign for isize {
    open spec fn is_negative_s(&self) -> bool {
        *self < 0
    }

    open spec fn is_positive_s(&self) -> bool {
        *self > 0
    }

    open spec fn is_zero_s(&self) -> bool {
        *self == 0
    }

    open spec fn abs_ok(&self) -> bool {
        *self != isize::MIN
    }

    open spec fn abs_s(&self) -> Self {
        if *self < 0 {
            (-*self) as isize
        } else {
            *self
        }
    }

    open spec fn signum_s(&self) -> i32 {
        if *self > 0 {
            1i32
        } else if *self < 0 {
            -1i32
        } else {
            0i32
        }
    }

    fn is_negative(&self) -> bool {
        *self < 0
    }

    fn is_positive(&self) -> bool {
        *self > 0
    }

    fn is_zero(&self) -> bool {
        *self == 0
    }

    fn abs(&self) -> Self {
        if self.is_negative() {
            let sg = self.signumi32() as isize;
            proof {
                assert((*self) * sg == -(*self)) by (nonlinear_arith)
                    requires
                        sg == -1,
                ;
            }
            *self * sg
        } else {
            *self
        }
    }

    fn signumi32(&self) -> i32 {
        if *self > 0 {
            1
        } else if *self < 0 {
            -1
        } else {
            0
        }
    }
}

impl Sign for u8 {
    open spec fn is_negative_s(&self) -> bool {
        false
    }

    open spec fn is_positive_s(&self) -> bool {
        *self != 0
    }

    open spec fn is_zero_s(&self) -> bool {
        *self == 0
    }

    open spec fn abs_ok(&self) -> bool {
        true
    }

    open spec fn abs_s(&self) -> Self {
        *self
    }

    open spec fn signum_s(&self) -> i32 {
        if *self > 0 {
            1i32
        } else {
            0i32
        }
    }

    fn is_negative(&self) -> bool {
        false
    }

    fn is_positive(&self) -> bool {
        *self != 0
    }

    fn is_zero(&self) -> bool {
        *self == 0
    }

    fn abs(&self) -> Self {
        *self
    }

    fn signumi32(&self) -> i32 {
        if *self > 0 {
            1
        } else {
            0
        }
    }
}

impl Sign for u16 {
    open spec fn is_negative_s(&self) -> bool {
        false
    }

    open spec fn is_positive_s(&self) -> bool {
        *self != 0
    }

    open spec fn is_zero_s(&self) -> bool {
        *self == 0
    }

    open spec fn abs_ok(&self) -> bool {
        true
    }

    open spec fn abs_s(&self) -> Self {
        *self
    }

    open spec fn signum_s(&self) -> i32 {
        if *self > 0 {
            1i32
        } else {
            0i32
        }
    }

    fn is_negative(&self) -> bool {
        false
    }

    fn is_positive(&self) -> bool {
        *self != 0
    }

    fn is_zero(&self) -> bool {
        *self == 0
    }

    fn abs(&self) -> Self {
        *self
    }

    fn signumi32(&self) -> i32 {
        if *self > 0 {
            1
        } else {
            0
        }
    }
}

impl Sign for u32 {
    open spec fn is_negative_s(&self) -> bool {
        false
    }

    open spec fn is_positive_s(&self) -> bool {
        *self != 0
    }

    open spec fn is_zero_s(&self) -> bool {
        *self == 0
    }

    open spec fn abs_ok(&self) -> bool {
        true
    }

    open spec fn abs_s(&self) -> Self {
        *self
    }

    open spec fn signum_s(&self) -> i32 {
        if *self > 0 {
            1i32
        } else {
            0i32
        }
    }

    fn is_negative(&self) -> bool {
        false
    }

    fn is_positive(&self) -> bool {
        *self != 0
    }

    fn is_zero(&self) -> bool {
        *self == 0
    }

    fn abs(&self) -> Self {
        *self
    }

    fn signumi32(&self) -> i32 {
        if *self > 0 {
            1
        } else {
            0
        }
    }
}

impl Sign for u64 {
    open spec fn is_negative_s(&self) -> bool {
        false
    }

    open spec fn is_positive_s(&self) -> bool {
        *self != 0
    }

    open spec fn is_zero_s(&self) -> bool {
        *self == 0
    }

    open spec fn abs_ok(&self) -> bool {
        true
    }

    open spec fn abs_s(&self) -> Self {
        *self
    }

    open spec fn signum_s(&self) -> i32 {
        if *self > 0 {
            1i32
        } else {
            0i32
        }
    }

    fn is_negative(&self) -> bool {
        false
    }

    fn is_positive(&self) -> bool {
        *self != 0
    }

    fn is_zero(&self) -> bool {
        *self == 0
    }

    fn abs(&self) -> Self {
        *self
    }

    fn signumi32(&self) -> i32 {
        if *self > 0 {
            1
        } else {
            0
        }
    }
}

impl Sign for u128 {
    open spec fn is_negative_s(&self) -> bool {
        false
    }

    open spec fn is_positive_s(&self) -> bool {
        *self != 0
    }

    open spec fn is_zero_s(&self) -> bool {
        *self == 0
    }

    open spec fn abs_ok(&self) -> bool {
        true
    }

    open spec fn abs_s(&self) -> Self {
        *self
    }

    open spec fn signum_s(&self) -> i32 {
        if *self > 0 {
            1i32
        } else {
            0i32
        }
    }

    fn is_negative(&self) -> bool {
        false
    }

    fn is_positive(&self) -> bool {
        *self != 0
    }

    fn is_zero(&self) -> bool {
        *self == 0
    }

    fn abs(&self) -> Self {
        *self
    }

    fn signumi32(&self) -> i32 {
        if *self > 0 {
            1
        } else {
            0
        }
    }
}

impl Sign for usize {
    open spec fn is_negative_s(&self) -> bool {
        false
    }

    open spec fn is_positive_s(&self) -> bool {
        *self != 0
    }

    open spec fn is_zero_s(&self) -> bool {
        *self == 0
    }

    open spec fn abs_ok(&self) -> bool {
        true
    }

    open spec fn abs_s(&self) -> Self {
        *self
    }

    open spec fn signum_s(&self) -> i32 {
        if *self > 0 {
            1i32
        } else {
            0i32
        }
    }

    fn is_negative(&self) -> bool {
        false
    }

    fn is_positive(&self) -> bool {
        *self != 0
    }

    fn is_zero(&self) -> bool {
        *self == 0
    }

    fn abs(&self) -> Self {
        *self
    }

    fn signumi32(&self) -> i32 {
        if *self > 0 {
            1
        } else {
            0
        }
    }
}

} // verus!
