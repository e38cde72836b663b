use crate::complexc::Complex;
use vstd::arithmetic::div_mod::lemma_div_multiples_vanish;
use vstd::prelude::*;

verus! {

// The algebraic laws of the library, proved over an exact integer component
// type, where the operations carry no rounding.  For floating component
// types the same laws hold only within tolerance, which Verus cannot state;
// the test suite checks them there on concrete values.

/// Truncating division gives back the factor: `(k*s) / s == k` for a
/// positive divisor, in the truncating-division model of the signed
/// primitive types.
proof fn lemma_trunc_div_cancel(k: int, s: int)
    requires
        0 < s,
    ensures
        k * s >= 0 ==> (k * s) / s == k,
        k * s < 0 ==> -((-(k * s)) / s) == k,
{
    lemma_div_multiples_vanish(k, s);
    assert(k * s == s * k) by (nonlinear_arith);
    if k * s < 0 {
        assert(-(k * s) == s * (-k)) by (nonlinear_arith);
        lemma_div_multiples_vanish(-k, s);
    }
}

/// Algebraic closure of addition: adding and then subtracting the same
/// complex value gives back the first operand exactly, whenever the sum
/// itself is representable.
pub proof fn lemma_add_sub_cancel(z: Complex<i64>, w: Complex<i64>)
    requires
        z.cadd_ok(w),
    ensures
        z.cadd(w).csub(w) == z,
{
}

/// Algebraic closure of multiplication: multiplying and then dividing by
/// the same complex value gives back the first operand exactly, whenever
/// the product and the quotient are representable (which excludes a zero
/// `w`, whose squared magnitude would divide by zero).
pub proof fn lemma_mul_div_cancel(z: Complex<i64>, w: Complex<i64>)
    requires
        z.cmul_ok(w),
        z.cmul(w).cdiv_ok(w),
    ensures
        z.cmul(w).cdiv(w) == z,
{
    let a = z.re as int;
    let b = z.im as int;
    let c = w.re as int;
    let d = w.im as int;
    let s = c * c + d * d;
    let p = z.cmul(w);
    assert(p.re == a * c - b * d && p.im == a * d + b * c);
    assert(w.csqnorm() == s);
    assert(s >= 0) by (nonlinear_arith)
        requires
            s == c * c + d * d,
    ;
    assert((a * c - b * d) * c + (a * d + b * c) * d == a * s) by (nonlinear_arith)
        requires
            s == c * c + d * d,
    ;
    assert((a * d + b * c) * c - (a * c - b * d) * d == b * s) by (nonlinear_arith)
        requires
            s == c * c + d * d,
    ;
    let nre = p.re as int * c + p.im as int * d;
    let nim = p.im as int * c - p.re as int * d;
    assert(nre == a * s && nim == b * s);
    lemma_trunc_div_cancel(a, s);
    lemma_trunc_div_cancel(b, s);
}

/// Conjugate involution: conjugating twice gives back the value exactly,
/// whenever the negated imaginary component is representable.
pub proof fn lemma_conj_involution(z: Complex<i64>)
    requires
        z.cconj_ok(),
    ensures
        z.cconj().cconj() == z,
{
}

/// Square agreement: the direct expansion `(a*a - b*b) + (ab + ab)i` is the
/// same formula as the product of the value with itself, on every input.
pub proof fn lemma_square_is_self_mul(z: Complex<i64>)
    ensures
        z.csquare() == z.cmul(z),
{
    assert(z.re as int * z.im as int == z.im as int * z.re as int) by (nonlinear_arith);
}

} // verus!
