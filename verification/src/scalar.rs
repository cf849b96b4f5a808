//! The capability interface that a scalar element type must supply before a
//! vector can be formed over it: an additive identity, addition, subtraction,
//! multiplication, and exact equality, together with the algebraic laws the
//! vector-level reasoning rests on.

use vstd::arithmetic::div_mod::{
    lemma_mod_multiples_vanish, lemma_mul_mod_noop_left, lemma_mul_mod_noop_right,
};
use vstd::prelude::*;
use vstd::wrapping::i64_specs;

verus! {

/// A numeric scalar that vectors can be built over.
///
/// Each executable operation is pinned to a specification-level counterpart,
/// and the trait demands the three algebraic laws that the vector laws
/// (commutativity of addition, anti-commutativity of subtraction and of the
/// cross product, symmetry of the dot product) are proved from.
pub trait Scalar: Sized + Copy {
    /// The additive identity, as a specification-level value.
    spec fn zero_spec() -> Self;

    /// What addition of two scalars returns.
    spec fn add_spec(self, rhs: Self) -> Self;

    /// What subtraction of two scalars returns.
    spec fn sub_spec(self, rhs: Self) -> Self;

    /// What multiplication of two scalars returns.
    spec fn mul_spec(self, rhs: Self) -> Self;

    /// Addition of scalars is commutative.
    proof fn lemma_add_comm(x: Self, y: Self)
        ensures
            x.add_spec(y) == y.add_spec(x),
    ;

    /// Multiplication of scalars is commutative.
    proof fn lemma_mul_comm(x: Self, y: Self)
        ensures
            x.mul_spec(y) == y.mul_spec(x),
    ;

    /// Subtraction is anti-symmetric: `x - y` is the negation
    /// (zero minus the value) of `y - x`.
    proof fn lemma_sub_antisym(x: Self, y: Self)
        ensures
            x.sub_spec(y) == Self::zero_spec().sub_spec(y.sub_spec(x)),
    ;

    /// The additive identity.
    fn zero() -> (r: Self)
        ensures
            r == Self::zero_spec(),
    ;

    /// Addition.
    fn add(self, rhs: Self) -> (r: Self)
        ensures
            r == self.add_spec(rhs),
    ;

    /// Subtraction.
    fn sub(self, rhs: Self) -> (r: Self)
        ensures
            r == self.sub_spec(rhs),
    ;

    /// Multiplication.
    fn mul(self, rhs: Self) -> (r: Self)
        ensures
            r == self.mul_spec(rhs),
    ;

    /// Exact value equality, with no tolerance window.
    fn eq_val(self, rhs: Self) -> (r: bool)
        ensures
            r == (self == rhs),
    ;
}

/// The integer scalar instance: arithmetic wraps around on overflow, so every
/// operation is total and the ring laws hold without side conditions.
impl Scalar for i64 {
    open spec fn zero_spec() -> i64 {
        0
    }

    open spec fn add_spec(self, rhs: i64) -> i64 {
        self.wrapping_add(rhs)
    }

    open spec fn sub_spec(self, rhs: i64) -> i64 {
        self.wrapping_sub(rhs)
    }

    open spec fn mul_spec(self, rhs: i64) -> i64 {
        self.wrapping_mul(rhs)
    }

    proof fn lemma_add_comm(x: i64, y: i64) {
    }

    proof fn lemma_mul_comm(x: i64, y: i64) {
        assert(x * y == y * x) by (nonlinear_arith);
    }

    proof fn lemma_sub_antisym(x: i64, y: i64) {
    }

    fn zero() -> (r: i64) {
        0
    }

    fn add(self, rhs: i64) -> (r: i64) {
        self.wrapping_add(rhs)
    }

    fn sub(self, rhs: i64) -> (r: i64) {
        self.wrapping_sub(rhs)
    }

    fn mul(self, rhs: i64) -> (r: i64) {
        self.wrapping_mul(rhs)
    }

    fn eq_val(self, rhs: i64) -> (r: bool) {
        self == rhs
    }
}

/// The wrapped value is congruent to the unwrapped one.
proof fn lemma_signed_crop_mod(x: int)
    ensures
        (i64_specs::signed_crop(x) as int) % 0x1_0000_0000_0000_0000 == x
            % 0x1_0000_0000_0000_0000,
{
    let m = x % 0x1_0000_0000_0000_0000;
    if m > i64::MAX as int {
        lemma_mod_multiples_vanish(-1, m, 0x1_0000_0000_0000_0000);
    } else {
        lemma_mod_multiples_vanish(0, m, 0x1_0000_0000_0000_0000);
    }
}

/// Wrapping depends only on the congruence class.
proof fn lemma_signed_crop_congruent(a: int, b: int)
    requires
        a % 0x1_0000_0000_0000_0000 == b % 0x1_0000_0000_0000_0000,
    ensures
        i64_specs::signed_crop(a) == i64_specs::signed_crop(b),
{
}

/// For the integer scalar, multiplication is associative: wrapping
/// multiplication composes exactly, with no rounding between the steps.
pub proof fn lemma_i64_mul_assoc(x: i64, s: i64, t: i64)
    ensures
        x.mul_spec(s).mul_spec(t) == x.mul_spec(s.mul_spec(t)),
{
    let r: int = 0x1_0000_0000_0000_0000;
    let u: int = (x as int) * (s as int);
    let w: int = (s as int) * (t as int);
    let c: i64 = i64_specs::signed_crop(u);
    let d: i64 = i64_specs::signed_crop(w);
    lemma_signed_crop_mod(u);
    lemma_signed_crop_mod(w);
    lemma_mul_mod_noop_left(c as int, t as int, r);
    lemma_mul_mod_noop_left(u, t as int, r);
    assert(((c as int) * (t as int)) % r == (u * (t as int)) % r);
    lemma_mul_mod_noop_right(x as int, d as int, r);
    lemma_mul_mod_noop_right(x as int, w, r);
    assert(((x as int) * (d as int)) % r == ((x as int) * w) % r);
    assert(((x as int) * (s as int)) * (t as int) == (x as int) * ((s as int) * (t as int)))
        by (nonlinear_arith);
    assert(u * (t as int) == (x as int) * w);
    lemma_signed_crop_congruent((c as int) * (t as int), (x as int) * (d as int));
}

} // verus!
