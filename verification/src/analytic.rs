use crate::complexc::Complex;
use crate::numeric::Identity;
use vstd::prelude::*;

verus! {

/// The real-number capability of a component type: total arithmetic and the
/// transcendental primitives, each pinned to an abstract model.
///
/// The transcendental engine is generic over this capability, so its every
/// function is verified to compute exactly the intended formula over the
/// primitives, for any implementation.  A floating component type is given
/// the capability by a caller-side wrapper type whose methods forward to the
/// native floating operations; those forwarding bodies are outside the
/// verified library and are trusted to match their models, which are
/// otherwise uninterpreted.
///
/// Every method is total: the floating primitives never fail, they produce
/// infinities or NaN values instead, and the model makes no claim that
/// excludes those.
pub trait Analytic: Identity + Sized + Copy {
    /// Model of the sum of two component values.
    spec fn plus_s(self, o: Self) -> Self;

    /// Model of the difference of two component values.
    spec fn minus_s(self, o: Self) -> Self;

    /// Model of the product of two component values.
    spec fn times_s(self, o: Self) -> Self;

    /// Model of the quotient of two component values.
    spec fn over_s(self, o: Self) -> Self;

    /// Model of the additive inverse.
    spec fn negated_s(self) -> Self;

    /// Model of the equality test of two component values.
    spec fn eq_s(self, o: Self) -> bool;

    /// Model of the absolute value.
    spec fn abs_s(self) -> Self;

    /// Model of the sine.
    spec fn sin_s(self) -> Self;

    /// Model of the cosine.
    spec fn cos_s(self) -> Self;

    /// Model of the hyperbolic sine.
    spec fn sinh_s(self) -> Self;

    /// Model of the hyperbolic cosine.
    spec fn cosh_s(self) -> Self;

    /// Model of the four-quadrant arc tangent of `self / o`.
    spec fn atan2_s(self, o: Self) -> Self;

    /// Model of the overflow-stable hypotenuse `sqrt(self² + o²)`.
    spec fn hypot_s(self, o: Self) -> Self;

    /// Model of the natural logarithm.
    spec fn ln_s(self) -> Self;

    /// Model of the logarithm in a given base.
    spec fn logb_s(self, base: Self) -> Self;

    /// Model of the natural exponential.
    spec fn exp_s(self) -> Self;

    /// Model of the base-two exponential.
    spec fn exp2_s(self) -> Self;

    /// Model of the square root.
    spec fn sqrt_s(self) -> Self;

    /// Model of the power with a real exponent.
    spec fn powf_s(self, p: Self) -> Self;

    /// Model of the power with an integer exponent.
    spec fn powi_s(self, n: i32) -> Self;

    /// Model of the exact widening of a small integer.
    spec fn from_int_s(n: i32) -> Self;

    /// Model of the positive infinite value.
    spec fn infinity_s() -> Self;

    /// Model of the constant `ln 2`.
    spec fn ln2_s() -> Self;

    /// Model of the constant `ln 10`.
    spec fn ln10_s() -> Self;

    /// The sum of two component values.
    fn plus(self, o: Self) -> (r: Self)
        ensures
            r == self.plus_s(o),
    ;

    /// The difference of two component values.
    fn minus(self, o: Self) -> (r: Self)
        ensures
            r == self.minus_s(o),
    ;

    /// The product of two component values.
    fn times(self, o: Self) -> (r: Self)
        ensures
            r == self.times_s(o),
    ;

    /// The quotient of two component values.
    fn over(self, o: Self) -> (r: Self)
        ensures
            r == self.over_s(o),
    ;

    /// The additive inverse of a component value.
    fn negated(self) -> (r: Self)
        ensures
            r == self.negated_s(),
    ;

    /// Whether two component values compare equal.
    fn eqv(self, o: Self) -> (r: bool)
        ensures
            r == self.eq_s(o),
    ;

    /// The absolute value.
    fn abs(self) -> (r: Self)
        ensures
            r == self.abs_s(),
    ;

    /// The sine.
    fn sin(self) -> (r: Self)
        ensures
            r == self.sin_s(),
    ;

    /// The cosine.
    fn cos(self) -> (r: Self)
        ensures
            r == self.cos_s(),
    ;

    /// The hyperbolic sine.
    fn sinh(self) -> (r: Self)
        ensures
            r == self.sinh_s(),
    ;

    /// The hyperbolic cosine.
    fn cosh(self) -> (r: Self)
        ensures
            r == self.cosh_s(),
    ;

    /// The four-quadrant arc tangent of `self / o`.
    fn atan2(self, o: Self) -> (r: Self)
        ensures
            r == self.atan2_s(o),
    ;

    /// The overflow-stable hypotenuse `sqrt(self² + o²)`.
    fn hypot(self, o: Self) -> (r: Self)
        ensures
            r == self.hypot_s(o),
    ;

    /// The natural logarithm.
    fn ln(self) -> (r: Self)
        ensures
            r == self.ln_s(),
    ;

    /// The logarithm in the given base.
    fn logb(self, base: Self) -> (r: Self)
        ensures
            r == self.logb_s(base),
    ;

    /// The natural exponential.
    fn exp(self) -> (r: Self)
        ensures
            r == self.exp_s(),
    ;

    /// The base-two exponential.
    fn exp2(self) -> (r: Self)
        ensures
            r == self.exp2_s(),
    ;

    /// The square root.
    fn sqrt(self) -> (r: Self)
        ensures
            r == self.sqrt_s(),
    ;

    /// The power with a real exponent.
    fn powf(self, p: Self) -> (r: Self)
        ensures
            r == self.powf_s(p),
    ;

    /// The power with an integer exponent (kept apart from [`Self::powf`]
    /// for precision).
    fn powi(self, n: i32) -> (r: Self)
        ensures
            r == self.powi_s(n),
    ;

    /// The exact widening of a small integer into the component type.
    fn from_int(n: i32) -> (r: Self)
        ensures
            r == Self::from_int_s(n),
    ;

    /// The positive infinite value.
    fn infinity() -> (r: Self)
        ensures
            r == Self::infinity_s(),
    ;

    /// The constant `ln 2`.
    fn ln2() -> (r: Self)
        ensures
            r == Self::ln2_s(),
    ;

    /// The constant `ln 10`.
    fn ln10() -> (r: Self)
        ensures
            r == Self::ln10_s(),
    ;
}

// The formulas of the transcendental and polar engine, at the specification
// level, over the capability models.  Every executable function below is
// pinned to one of these.
impl<T: Analytic> Complex<T> {
    /// `(a+c) + (b+d)i` over the capability arithmetic.
    pub open spec fn aplus(self, w: Self) -> Self {
        Complex { re: self.re.plus_s(w.re), im: self.im.plus_s(w.im) }
    }

    /// `(a-c) + (b-d)i` over the capability arithmetic.
    pub open spec fn aminus(self, w: Self) -> Self {
        Complex { re: self.re.minus_s(w.re), im: self.im.minus_s(w.im) }
    }

    /// `(ac-bd) + (ad+bc)i` over the capability arithmetic.
    pub open spec fn atimes(self, w: Self) -> Self {
        Complex {
            re: self.re.times_s(w.re).minus_s(self.im.times_s(w.im)),
            im: self.re.times_s(w.im).plus_s(self.im.times_s(w.re)),
        }
    }

    /// The textbook quotient over the capability arithmetic.
    pub open spec fn aover(self, w: Self) -> Self {
        let s = w.re.times_s(w.re).plus_s(w.im.times_s(w.im));
        Complex {
            re: self.re.times_s(w.re).plus_s(self.im.times_s(w.im)).over_s(s),
            im: self.im.times_s(w.re).minus_s(self.re.times_s(w.im)).over_s(s),
        }
    }

    /// `-a - bi` over the capability arithmetic.
    pub open spec fn anegated(self) -> Self {
        Complex { re: self.re.negated_s(), im: self.im.negated_s() }
    }

    /// Both components divided by a bare component value.
    pub open spec fn aunscale(self, k: T) -> Self {
        Complex { re: self.re.over_s(k), im: self.im.over_s(k) }
    }

    /// The multiplicative identity `1 + 0i`.
    pub open spec fn aone() -> Self {
        Complex { re: T::one_s(), im: T::zero_s() }
    }

    /// The imaginary unit `0 + 1i`.
    pub open spec fn aim() -> Self {
        Complex { re: T::zero_s(), im: T::one_s() }
    }

    /// The component value `2`, as `1 + 1`.
    pub open spec fn two_s() -> T {
        T::one_s().plus_s(T::one_s())
    }

    /// The magnitude `hypot(a, b)`.
    pub open spec fn cnorm(self) -> T {
        self.re.hypot_s(self.im)
    }

    /// The angle `atan2(b, a)`.
    pub open spec fn carg(self) -> T {
        self.im.atan2_s(self.re)
    }

    /// `|a| + |b|`.
    pub open spec fn cl1norm(self) -> T {
        self.re.abs_s().plus_s(self.im.abs_s())
    }

    /// `(r cos θ) + (r sin θ)i`, back from polar form.
    pub open spec fn cpolar(radius: T, theta: T) -> Self {
        Complex { re: radius.times_s(theta.cos_s()), im: radius.times_s(theta.sin_s()) }
    }

    /// `from_polar(e^a, b)`.
    pub open spec fn cexp(self) -> Self {
        Self::cpolar(self.re.exp_s(), self.im)
    }

    /// `from_polar(base^a, b·ln base)`.
    pub open spec fn cexpf(self, base: T) -> Self {
        Self::cpolar(base.powf_s(self.re), self.im.times_s(base.ln_s()))
    }

    /// `from_polar(ln r, θ)` with `(r, θ)` the polar form of `self`.
    pub open spec fn cln(self) -> Self {
        Self::cpolar(self.cnorm().ln_s(), self.carg())
    }

    /// `log_base(r) + (θ / ln base)i`.
    pub open spec fn clog(self, base: T) -> Self {
        Complex { re: self.cnorm().logb_s(base), im: self.carg().over_s(base.ln_s()) }
    }

    /// `from_polar(sqrt r, θ/2)`: the magnitude's root at half the angle.
    pub open spec fn csqrt(self) -> Self {
        Self::cpolar(self.cnorm().sqrt_s(), self.carg().over_s(Self::two_s()))
    }

    /// `from_polar(r^n, θ·n)`, with the exact integer-power primitive.
    pub open spec fn cpowi(self, n: i32) -> Self {
        Self::cpolar(self.cnorm().powi_s(n), self.carg().times_s(T::from_int_s(n)))
    }

    /// `from_polar(r^p, θ·p)`, with the general real-power primitive.
    pub open spec fn cpowf(self, p: T) -> Self {
        Self::cpolar(self.cnorm().powf_s(p), self.carg().times_s(p))
    }

    /// `exp(w · (ln r + θi))`: general complex exponentiation.
    pub open spec fn cpowc(self, w: Self) -> Self {
        w.atimes(Complex { re: self.cnorm().ln_s(), im: self.carg() }).cexp()
    }

    /// `from_polar(2^a, b·ln 2)`.
    pub open spec fn cexp2(self) -> Self {
        Self::cpolar(self.re.exp2_s(), self.im.times_s(T::ln2_s()))
    }

    /// `ln(self) / ln 2`, component-wise.
    pub open spec fn clog2(self) -> Self {
        self.cln().aunscale(T::ln2_s())
    }

    /// `ln(self) / ln 10`, component-wise.
    pub open spec fn clog10(self) -> Self {
        self.cln().aunscale(T::ln10_s())
    }
}

// Private executable complex arithmetic over the capability, for the engine's
// own use; the public algebra stays with the standard operator traits.
impl<T: Analytic> Complex<T> {
    fn add_a(self, w: Self) -> (r: Self)
        ensures
            r == self.aplus(w),
    {
        Complex { re: self.re.plus(w.re), im: self.im.plus(w.im) }
    }

    fn sub_a(self, w: Self) -> (r: Self)
        ensures
            r == self.aminus(w),
    {
        Complex { re: self.re.minus(w.re), im: self.im.minus(w.im) }
    }

    fn mul_a(self, w: Self) -> (r: Self)
        ensures
            r == self.atimes(w),
    {
        Complex {
            re: self.re.times(w.re).minus(self.im.times(w.im)),
            im: self.re.times(w.im).plus(self.im.times(w.re)),
        }
    }

    fn div_a(self, w: Self) -> (r: Self)
        ensures
            r == self.aover(w),
    {
        let s = w.re.times(w.re).plus(w.im.times(w.im));
        Complex {
            re: self.re.times(w.re).plus(self.im.times(w.im)).over(s),
            im: self.im.times(w.re).minus(self.re.times(w.im)).over(s),
        }
    }

    fn neg_a(self) -> (r: Self)
        ensures
            r == self.anegated(),
    {
        Complex { re: self.re.negated(), im: self.im.negated() }
    }

    fn unscale_a(self, k: T) -> (r: Self)
        ensures
            r == self.aunscale(k),
    {
        Complex { re: self.re.over(k), im: self.im.over(k) }
    }

    fn one_a() -> (r: Self)
        ensures
            r == Self::aone(),
    {
        Complex { re: T::one(), im: T::zero() }
    }
}

// The polar bridge and the exponential, logarithmic and power family.
impl<T: Analytic> Complex<T> {
    /// The magnitude, by the overflow-stable hypotenuse primitive.
    pub fn norm(&self) -> (r: T)
        ensures
            r == self.cnorm(),
    {
        self.re.hypot(self.im)
    }

    /// The angle, by the four-quadrant arc tangent of `b / a`.
    pub fn arg(&self) -> (r: T)
        ensures
            r == self.carg(),
    {
        self.im.atan2(self.re)
    }

    /// The taxicab magnitude `|a| + |b|`.
    pub fn l1_norm(&self) -> (r: T)
        ensures
            r == self.cl1norm(),
    {
        self.re.abs().plus(self.im.abs())
    }

    /// The polar form `(magnitude, angle)`.
    pub fn to_polar(&self) -> (r: (T, T))
        ensures
            r.0 == self.cnorm(),
            r.1 == self.carg(),
    {
        (self.norm(), self.arg())
    }

    /// Back from polar form: `(r cos θ) + (r sin θ)i`.
    pub fn from_polar(radius: T, theta: T) -> (r: Self)
        ensures
            r == Self::cpolar(radius, theta),
    {
        Complex { re: radius.times(theta.cos()), im: radius.times(theta.sin()) }
    }

    /// The natural exponential `from_polar(e^a, b)`.
    pub fn exp(&self) -> (r: Self)
        ensures
            r == self.cexp(),
    {
        Self::from_polar(self.re.exp(), self.im)
    }

    /// The exponential in a given base, `from_polar(base^a, b·ln base)`.
    pub fn expf(&self, base: T) -> (r: Self)
        ensures
            r == self.cexpf(base),
    {
        Self::from_polar(base.powf(self.re), self.im.times(base.ln()))
    }

    /// The natural logarithm, taken as `from_polar(ln r, θ)`.
    ///
    /// The pair `(ln r, θ)` is reassembled through the polar constructor,
    /// so the result is `(ln r · cos θ, ln r · sin θ)`, not the rectangular
    /// pair `(ln r, θ)` itself.
    pub fn ln(&self) -> (r: Self)
        ensures
            r == self.cln(),
    {
        let polar = self.to_polar();
        Self::from_polar(polar.0.ln(), polar.1)
    }

    /// The logarithm in a given base: `log_base(r) + (θ / ln base)i`.
    pub fn log(&self, base: T) -> (r: Self)
        ensures
            r == self.clog(base),
    {
        let polar = self.to_polar();
        Complex { re: polar.0.logb(base), im: polar.1.over(base.ln()) }
    }

    /// The square root, by halving the angle and rooting the magnitude.
    pub fn sqrt(&self) -> (r: Self)
        ensures
            r == self.csqrt(),
    {
        let two = T::one().plus(T::one());
        let polar = self.to_polar();
        Self::from_polar(polar.0.sqrt(), polar.1.over(two))
    }

    /// The power with an integer exponent, `from_polar(r^n, θ·n)`.
    pub fn powi(&self, power: i32) -> (r: Self)
        ensures
            r == self.cpowi(power),
    {
        let polar = self.to_polar();
        Self::from_polar(polar.0.powi(power), polar.1.times(T::from_int(power)))
    }

    /// The power with a real exponent, `from_polar(r^p, θ·p)`.
    pub fn powf(&self, power: T) -> (r: Self)
        ensures
            r == self.cpowf(power),
    {
        let polar = self.to_polar();
        Self::from_polar(polar.0.powf(power), polar.1.times(power))
    }

    /// General complex exponentiation `exp(power · ln self)`, via polar form.
    pub fn powc(&self, power: Complex<T>) -> (r: Self)
        ensures
            r == self.cpowc(power),
    {
        let polar = self.to_polar();
        let rhs = Complex { re: polar.0.ln(), im: polar.1 };
        power.mul_a(rhs).exp()
    }

    /// The base-two exponential, `from_polar(2^a, b·ln 2)`.
    pub fn exp2(&self) -> (r: Self)
        ensures
            r == self.cexp2(),
    {
        Self::from_polar(self.re.exp2(), self.im.times(T::ln2()))
    }

    /// The base-two logarithm `ln(self) / ln 2`.
    pub fn log2(&self) -> (r: Self)
        ensures
            r == self.clog2(),
    {
        self.ln().unscale_a(T::ln2())
    }

    /// The base-ten logarithm `ln(self) / ln 10`.
    pub fn log10(&self) -> (r: Self)
        ensures
            r == self.clog10(),
    {
        self.ln().unscale_a(T::ln10())
    }
}

// The trigonometric and hyperbolic family, at the specification level.
impl<T: Analytic> Complex<T> {
    /// `(sin a · cosh b) + (cos a · sinh b)i`
    pub open spec fn csin(self) -> Self {
        Complex {
            re: self.re.sin_s().times_s(self.im.cosh_s()),
            im: self.re.cos_s().times_s(self.im.sinh_s()),
        }
    }

    /// `(cos a · cosh b) - (sin a · sinh b)i`
    pub open spec fn ccos(self) -> Self {
        Complex {
            re: self.re.cos_s().times_s(self.im.cosh_s()),
            im: self.re.sin_s().negated_s().times_s(self.im.sinh_s()),
        }
    }

    /// `sin(self) / cos(self)`
    pub open spec fn ctan(self) -> Self {
        self.csin().aover(self.ccos())
    }

    /// `-i · ln(sqrt(1 - z²) + z·i)`
    pub open spec fn casin(self) -> Self {
        Self::aim().anegated().atimes(
            Self::aone().aminus(self.atimes(self)).csqrt().aplus(self.atimes(Self::aim())).cln(),
        )
    }

    /// `-i · ln(sqrt(z² - 1) + z)`
    pub open spec fn cacos(self) -> Self {
        Self::aim().anegated().atimes(
            self.atimes(self).aminus(Self::aone()).csqrt().aplus(self).cln(),
        )
    }

    /// `(i/2) · ln((1 - iz) / (1 + iz))`
    pub open spec fn catan(self) -> Self {
        let one = Self::aone();
        let two = one.aplus(one);
        let iz = Self::aim().atimes(self);
        Self::aim().aover(two).atimes(one.aminus(iz).aover(one.aplus(iz)).cln())
    }

    /// `(sinh a · cos b) + (cosh a · sin b)i`
    pub open spec fn csinh(self) -> Self {
        Complex {
            re: self.re.sinh_s().times_s(self.im.cos_s()),
            im: self.re.cosh_s().times_s(self.im.sin_s()),
        }
    }

    /// `(cosh a · cos b) + (sinh a · sin b)i`
    pub open spec fn ccosh(self) -> Self {
        Complex {
            re: self.re.cosh_s().times_s(self.im.cos_s()),
            im: self.re.sinh_s().times_s(self.im.sin_s()),
        }
    }

    /// `(sinh 2a + (sin 2b)i) / (cosh 2a + cos 2b)`
    pub open spec fn ctanh(self) -> Self {
        let two_re = self.re.plus_s(self.re);
        let two_im = self.im.plus_s(self.im);
        Complex { re: two_re.sinh_s(), im: two_im.sin_s() }.aunscale(
            two_re.cosh_s().plus_s(two_im.cos_s()),
        )
    }

    /// `ln(z + sqrt(1 + z²))`
    pub open spec fn casinh(self) -> Self {
        self.aplus(Self::aone().aplus(self.atimes(self)).csqrt()).cln()
    }

    /// `2 · ln(sqrt((z+1)/2) + sqrt((z-1)/2))`
    pub open spec fn cacosh(self) -> Self {
        let one = Self::aone();
        let two = one.aplus(one);
        two.atimes(
            self.aplus(one).aover(two).csqrt().aplus(self.aminus(one).aover(two).csqrt()).cln(),
        )
    }

    /// `(ln(1+z) - ln(1-z)) / 2`, with the two unit poles special-cased to
    /// the signed infinite values.
    pub open spec fn catanh(self) -> Self {
        let one = Self::aone();
        let two = one.aplus(one);
        if self.re.eq_s(one.re) && self.im.eq_s(one.im) {
            Complex { re: T::infinity_s(), im: T::zero_s() }
        } else if self.re.eq_s(one.anegated().re) && self.im.eq_s(one.anegated().im) {
            Complex { re: T::infinity_s().negated_s(), im: T::zero_s() }
        } else {
            one.aplus(self).cln().aminus(one.aminus(self).cln()).aover(two)
        }
    }
}

// The trigonometric and hyperbolic family.
impl<T: Analytic> Complex<T> {
    /// The complex sine.
    pub fn sin(&self) -> (r: Self)
        ensures
            r == self.csin(),
    {
        Complex {
            re: self.re.sin().times(self.im.cosh()),
            im: self.re.cos().times(self.im.sinh()),
        }
    }

    /// The complex cosine.
    pub fn cos(&self) -> (r: Self)
        ensures
            r == self.ccos(),
    {
        Complex {
            re: self.re.cos().times(self.im.cosh()),
            im: self.re.sin().negated().times(self.im.sinh()),
        }
    }

    /// The complex tangent `sin / cos`.
    pub fn tan(&self) -> (r: Self)
        ensures
            r == self.ctan(),
    {
        self.sin().div_a(self.cos())
    }

    /// The arc sine `-i · ln(sqrt(1 - z²) + z·i)`.
    pub fn asin(&self) -> (r: Self)
        ensures
            r == self.casin(),
    {
        let unit = Self::i();
        unit.neg_a().mul_a(
            Self::one_a().sub_a((*self).mul_a(*self)).sqrt().add_a((*self).mul_a(unit)).ln(),
        )
    }

    /// The arc cosine `-i · ln(sqrt(z² - 1) + z)`.
    pub fn acos(&self) -> (r: Self)
        ensures
            r == self.cacos(),
    {
        let unit = Self::i();
        unit.neg_a().mul_a((*self).mul_a(*self).sub_a(Self::one_a()).sqrt().add_a(*self).ln())
    }

    /// The arc tangent `(i/2) · ln((1 - iz) / (1 + iz))`.
    pub fn atan(&self) -> (r: Self)
        ensures
            r == self.catan(),
    {
        let unit = Self::i();
        let one = Self::one_a();
        let two = one.add_a(one);
        let iz = unit.mul_a(*self);
        unit.div_a(two).mul_a(one.sub_a(iz).div_a(one.add_a(iz)).ln())
    }

    /// The complex hyperbolic sine.
    pub fn sinh(&self) -> (r: Self)
        ensures
            r == self.csinh(),
    {
        Complex {
            re: self.re.sinh().times(self.im.cos()),
            im: self.re.cosh().times(self.im.sin()),
        }
    }

    /// The complex hyperbolic cosine.
    pub fn cosh(&self) -> (r: Self)
        ensures
            r == self.ccosh(),
    {
        Complex {
            re: self.re.cosh().times(self.im.cos()),
            im: self.re.sinh().times(self.im.sin()),
        }
    }

    /// The complex hyperbolic tangent, over the doubled components.
    pub fn tanh(&self) -> (r: Self)
        ensures
            r == self.ctanh(),
    {
        let two_re = self.re.plus(self.re);
        let two_im = self.im.plus(self.im);
        Complex { re: two_re.sinh(), im: two_im.sin() }.unscale_a(
            two_re.cosh().plus(two_im.cos()),
        )
    }

    /// The inverse hyperbolic sine `ln(z + sqrt(1 + z²))`.
    pub fn asinh(self) -> (r: Self)
        ensures
            r == self.casinh(),
    {
        let one = Self::one_a();
        self.add_a(one.add_a(self.mul_a(self)).sqrt()).ln()
    }

    /// The inverse hyperbolic cosine `2 · ln(sqrt((z+1)/2) + sqrt((z-1)/2))`.
    pub fn acosh(self) -> (r: Self)
        ensures
            r == self.cacosh(),
    {
        let one = Self::one_a();
        let two = one.add_a(one);
        two.mul_a(
            self.add_a(one).div_a(two).sqrt().add_a(self.sub_a(one).div_a(two).sqrt()).ln(),
        )
    }

    /// The inverse hyperbolic tangent `(ln(1+z) - ln(1-z)) / 2`.
    ///
    /// The unit poles are special-cased: at `1` the result is `+∞ + 0i`, at
    /// `-1` it is `-∞ + 0i`, avoiding a quotient that would otherwise turn
    /// into a NaN for floating components.
    pub fn atanh(self) -> (r: Self)
        ensures
            r == self.catanh(),
    {
        let one = Self::one_a();
        let two = one.add_a(one);
        if self.re.eqv(one.re) && self.im.eqv(one.im) {
            return Complex { re: T::infinity(), im: T::zero() };
        }
        let none = one.neg_a();
        if self.re.eqv(none.re) && self.im.eqv(none.im) {
            return Complex { re: T::infinity().negated(), im: T::zero() };
        }
        one.add_a(self).ln().sub_a(one.sub_a(self).ln()).div_a(two)
    }
}

} // verus!
