//! The vector type itself: three scalar components, componentwise arithmetic,
//! scalar multiplication in both directions, the planar dot product, the full
//! 3D cross product, exact equality, and the laws relating them.

use vstd::prelude::*;

use crate::scalar::Scalar;
use crate::sqrt::Sqrt;

verus! {

/// A fixed three-component vector over a numeric scalar. A 2D vector is
/// represented with its Z component set to the scalar zero. Vectors are pure
/// values: no operation mutates one in place.
#[derive(Clone, Copy, Debug, PartialEq)]
pub struct Vector<T> {
    pub x: T,
    pub y: T,
    pub z: T,
}

impl<T: Scalar> Vector<T> {
    /// The all-zero vector, as a specification-level value.
    pub open spec fn spec_zero() -> Vector<T> {
        Vector { x: T::zero_spec(), y: T::zero_spec(), z: T::zero_spec() }
    }

    /// What vector addition returns: the componentwise sum.
    pub open spec fn spec_add(self, rhs: Vector<T>) -> Vector<T> {
        Vector {
            x: self.x.add_spec(rhs.x),
            y: self.y.add_spec(rhs.y),
            z: self.z.add_spec(rhs.z),
        }
    }

    /// What vector subtraction returns: the componentwise difference.
    pub open spec fn spec_sub(self, rhs: Vector<T>) -> Vector<T> {
        Vector {
            x: self.x.sub_spec(rhs.x),
            y: self.y.sub_spec(rhs.y),
            z: self.z.sub_spec(rhs.z),
        }
    }

    /// The negation of a vector: the all-zero vector minus it.
    pub open spec fn spec_neg(self) -> Vector<T> {
        Self::spec_zero().spec_sub(self)
    }

    /// What right scalar multiplication returns: each component times `a`.
    pub open spec fn spec_scale(self, a: T) -> Vector<T> {
        Vector { x: self.x.mul_spec(a), y: self.y.mul_spec(a), z: self.z.mul_spec(a) }
    }

    /// What left scalar multiplication returns: `a` times each component.
    pub open spec fn spec_scale_left(a: T, other: Vector<T>) -> Vector<T> {
        Vector { x: a.mul_spec(other.x), y: a.mul_spec(other.y), z: a.mul_spec(other.z) }
    }

    /// What the dot product returns. It sums only the X and Y component
    /// products, ignoring Z: the planar dot product, kept as it stands.
    pub open spec fn spec_dot(self, rhs: Vector<T>) -> T {
        self.x.mul_spec(rhs.x).add_spec(self.y.mul_spec(rhs.y))
    }

    /// What the cross product returns: the full 3D cross product.
    pub open spec fn spec_cross(self, rhs: Vector<T>) -> Vector<T> {
        Vector {
            x: self.y.mul_spec(rhs.z).sub_spec(self.z.mul_spec(rhs.y)),
            y: self.z.mul_spec(rhs.x).sub_spec(self.x.mul_spec(rhs.z)),
            z: self.x.mul_spec(rhs.y).sub_spec(self.y.mul_spec(rhs.x)),
        }
    }

    /// Builds a vector from three explicit components.
    pub fn new(v: (T, T, T)) -> (r: Self)
        ensures
            r.x == v.0,
            r.y == v.1,
            r.z == v.2,
    {
        Self { x: v.0, y: v.1, z: v.2 }
    }

    /// Builds a vector from two components, with Z implicitly the scalar zero.
    pub fn new2(v: (T, T)) -> (r: Self)
        ensures
            r.x == v.0,
            r.y == v.1,
            r.z == T::zero_spec(),
    {
        Self { x: v.0, y: v.1, z: T::zero() }
    }

    /// Builds the all-zero vector.
    pub fn zero() -> (r: Self)
        ensures
            r == Self::spec_zero(),
    {
        Self::new((T::zero(), T::zero(), T::zero()))
    }

    /// Returns the three components as an ordered tuple.
    pub fn v(&self) -> (r: (T, T, T))
        ensures
            r.0 == self.x,
            r.1 == self.y,
            r.2 == self.z,
    {
        (self.x, self.y, self.z)
    }

    /// Componentwise sum; returns a new vector.
    pub fn add(self, rhs: Vector<T>) -> (r: Vector<T>)
        ensures
            r == self.spec_add(rhs),
    {
        Self::new((self.x.add(rhs.x), self.y.add(rhs.y), self.z.add(rhs.z)))
    }

    /// Componentwise difference; returns a new vector.
    pub fn sub(self, rhs: Vector<T>) -> (r: Vector<T>)
        ensures
            r == self.spec_sub(rhs),
    {
        Self::new((self.x.sub(rhs.x), self.y.sub(rhs.y), self.z.sub(rhs.z)))
    }

    /// Right scalar multiplication: each component times `a`.
    pub fn scale(self, a: T) -> (r: Vector<T>)
        ensures
            r == self.spec_scale(a),
    {
        Self::new((self.x.mul(a), self.y.mul(a), self.z.mul(a)))
    }

    /// Left scalar multiplication: `a` times each component. Provided for
    /// symmetric notation; by commutativity of the scalar multiplication it
    /// returns the same vector as right multiplication.
    pub fn scale_left(a: T, other: Vector<T>) -> (r: Vector<T>)
        ensures
            r == Vector::spec_scale_left(a, other),
    {
        Self::new((a.mul(other.x), a.mul(other.y), a.mul(other.z)))
    }

    /// The full 3D cross product.
    pub fn cross(self, rhs: Vector<T>) -> (r: Vector<T>)
        ensures
            r == self.spec_cross(rhs),
    {
        Self::new((
            self.y.mul(rhs.z).sub(self.z.mul(rhs.y)),
            self.z.mul(rhs.x).sub(self.x.mul(rhs.z)),
            self.x.mul(rhs.y).sub(self.y.mul(rhs.x)),
        ))
    }

    /// Exact componentwise equality of all three components.
    pub fn equals(&self, other: &Vector<T>) -> (r: bool)
        ensures
            r == (self == other),
    {
        self.x.eq_val(other.x) && self.y.eq_val(other.y) && self.z.eq_val(other.z)
    }
}

impl<T: Scalar + Sqrt> Vector<T> {
    /// What the length of a vector is: the square root of its dot product
    /// with itself.
    pub open spec fn spec_len(self) -> T {
        self.spec_dot(self).sqrt_spec()
    }

    /// The planar dot product: the sum of the X and Y component products.
    /// The Z components are not part of the sum.
    pub fn dot(self, other: Self) -> (r: T)
        ensures
            r == self.spec_dot(other),
    {
        self.x.mul(other.x).add(self.y.mul(other.y))
    }

    /// The length: the square root of the vector's dot product with itself.
    pub fn len(self) -> (r: T)
        ensures
            r == self.spec_len(),
    {
        T::sqrt(self.dot(self))
    }

    /// Whether the length equals the scalar zero.
    pub fn is_zero(self) -> (r: bool)
        ensures
            r == (self.spec_len() == T::zero_spec()),
    {
        self.len().eq_val(T::zero())
    }
}

/// Addition of vectors is commutative: `A + B == B + A`, componentwise.
pub proof fn lemma_add_commutative<T: Scalar>(a: Vector<T>, b: Vector<T>)
    ensures
        a.spec_add(b) == b.spec_add(a),
{
    T::lemma_add_comm(a.x, b.x);
    T::lemma_add_comm(a.y, b.y);
    T::lemma_add_comm(a.z, b.z);
}

/// Subtraction of vectors is anti-commutative: every component of `A - B`
/// is the negation of the matching component of `B - A`.
pub proof fn lemma_sub_anticommutative<T: Scalar>(a: Vector<T>, b: Vector<T>)
    ensures
        a.spec_sub(b) == (b.spec_sub(a)).spec_neg(),
{
    T::lemma_sub_antisym(a.x, b.x);
    T::lemma_sub_antisym(a.y, b.y);
    T::lemma_sub_antisym(a.z, b.z);
}

/// Scalar multiplication commutes: `A * a == a * A`.
pub proof fn lemma_scale_commutative<T: Scalar>(a: Vector<T>, s: T)
    ensures
        a.spec_scale(s) == Vector::spec_scale_left(s, a),
{
    T::lemma_mul_comm(a.x, s);
    T::lemma_mul_comm(a.y, s);
    T::lemma_mul_comm(a.z, s);
}

/// The dot product is symmetric: `A.dot(B) == B.dot(A)`, even though it
/// covers only the X and Y components.
pub proof fn lemma_dot_symmetric<T: Scalar>(a: Vector<T>, b: Vector<T>)
    ensures
        a.spec_dot(b) == b.spec_dot(a),
{
    T::lemma_mul_comm(a.x, b.x);
    T::lemma_mul_comm(a.y, b.y);
}

/// The cross product is anti-commutative: every component of `A x B` is the
/// negation of the matching component of `B x A`. In particular the Z
/// components of the two products are negations of one another.
pub proof fn lemma_cross_anticommutative<T: Scalar>(a: Vector<T>, b: Vector<T>)
    ensures
        a.spec_cross(b) == (b.spec_cross(a)).spec_neg(),
{
    T::lemma_mul_comm(b.y, a.z);
    T::lemma_mul_comm(b.z, a.y);
    T::lemma_mul_comm(b.z, a.x);
    T::lemma_mul_comm(b.x, a.z);
    T::lemma_mul_comm(b.x, a.y);
    T::lemma_mul_comm(b.y, a.x);
    T::lemma_sub_antisym(a.y.mul_spec(b.z), a.z.mul_spec(b.y));
    T::lemma_sub_antisym(a.z.mul_spec(b.x), a.x.mul_spec(b.z));
    T::lemma_sub_antisym(a.x.mul_spec(b.y), a.y.mul_spec(b.x));
}

/// For integer vectors whose Z components are zero, the X and Y components
/// of the cross product are zero: only the Z ("signed area") component can
/// be nonzero.
pub proof fn lemma_cross_planar(a: Vector<i64>, b: Vector<i64>)
    requires
        a.z == 0i64,
        b.z == 0i64,
    ensures
        a.spec_cross(b).x == 0i64,
        a.spec_cross(b).y == 0i64,
{
}

/// For integer vectors, repeated scalar multiplication composes exactly:
/// `(A * a) * b == a * b * A`, with no rounding between the steps. For a
/// floating scalar this holds only up to rounding, so it is stated of the
/// integer instance.
pub proof fn lemma_scale_repeated(a: Vector<i64>, s: i64, t: i64)
    ensures
        a.spec_scale(s).spec_scale(t) == Vector::spec_scale_left(s.mul_spec(t), a),
{
    crate::scalar::lemma_i64_mul_assoc(a.x, s, t);
    crate::scalar::lemma_i64_mul_assoc(a.y, s, t);
    crate::scalar::lemma_i64_mul_assoc(a.z, s, t);
    <i64 as Scalar>::lemma_mul_comm(a.x, s.mul_spec(t));
    <i64 as Scalar>::lemma_mul_comm(a.y, s.mul_spec(t));
    <i64 as Scalar>::lemma_mul_comm(a.z, s.mul_spec(t));
}

/// Equality of vectors is reflexive: in the model, equality is exact
/// componentwise equality, so every vector equals itself; by the contract of
/// `equals`, the executable comparison returns `true` on equal arguments.
pub proof fn lemma_eq_reflexive<T: Scalar>(a: Vector<T>)
    ensures
        a == a,
{
}

} // verus!
