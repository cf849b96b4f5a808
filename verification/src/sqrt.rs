//! The square-root capability, kept apart from the base arithmetic so that a
//! scalar type used only for addition, subtraction and multiplication does
//! not have to supply it. Only the length and is-zero operations need it.

use vstd::prelude::*;

verus! {

/// A scalar that supplies a square-root operation.
pub trait Sqrt: Sized {
    /// What the square root of this value is.
    spec fn sqrt_spec(self) -> Self;

    /// The square root.
    fn sqrt(self) -> (r: Self)
        ensures
            r == self.sqrt_spec(),
    ;
}

/// Holds exactly when `r` is the floor of the square root of `n`.
pub open spec fn is_floor_sqrt(n: int, r: int) -> bool {
    0 <= r && r * r <= n && n < (r + 1) * (r + 1)
}

/// The floor of the square root of a nonnegative integer.
pub open spec fn floor_sqrt(n: int) -> int {
    choose|r: int| is_floor_sqrt(n, r)
}

/// At most one integer is the floor of the square root of `n`.
pub proof fn lemma_floor_sqrt_unique(n: int, a: int, b: int)
    requires
        is_floor_sqrt(n, a),
        is_floor_sqrt(n, b),
    ensures
        a == b,
{
    assert(a == b) by (nonlinear_arith)
        requires
            0 <= a,
            a * a <= n,
            n < (a + 1) * (a + 1),
            0 <= b,
            b * b <= n,
            n < (b + 1) * (b + 1),
    ;
}

/// `floor_sqrt(n)` is the integer that witnesses `is_floor_sqrt`: naming a
/// witness pins the value down.
pub proof fn lemma_floor_sqrt(n: int, r: int)
    requires
        is_floor_sqrt(n, r),
    ensures
        floor_sqrt(n) == r,
{
    lemma_floor_sqrt_unique(n, floor_sqrt(n), r);
}

/// The integer scalar instance: the floor of the mathematical square root
/// for nonnegative values; every nonpositive value maps to zero.
impl Sqrt for i64 {
    open spec fn sqrt_spec(self) -> i64 {
        if self <= 0 {
            0
        } else {
            floor_sqrt(self as int) as i64
        }
    }

    fn sqrt(self) -> (r: i64) {
        if self <= 0 {
            return 0;
        }
        let n: u64 = self as u64;
        let mut r: i64 = 0;
        while ((r as u64) + 1) * ((r as u64) + 1) <= n
            invariant
                0 < self,
                n == self as u64,
                0 <= r,
                r <= 3037000499,
                r <= self,
                r * r <= self,
                (r + 1) * (r + 1) <= 9223372037000250000,
            decreases self - r,
        {
            r = r + 1;
            proof {
                assert(r <= r * r) by (nonlinear_arith)
                    requires
                        1 <= r,
                ;
                assert(r <= 3037000499) by (nonlinear_arith)
                    requires
                        0 <= r,
                        r * r <= 0x7fff_ffff_ffff_ffff,
                ;
                assert((r + 1) * (r + 1) <= 9223372037000250000) by (nonlinear_arith)
                    requires
                        0 <= r,
                        r <= 3037000499,
                ;
            }
        }
        proof {
            assert(is_floor_sqrt(self as int, r as int));
            lemma_floor_sqrt(self as int, r as int);
        }
        r
    }
}

} // verus!
