//! Arithmetic core of a small extension module: one pure operation,
//! `add`, summing two signed 64-bit integers.
//!
//! Overflow policy: silent two's-complement wraparound, stated exactly by
//! [`add_spec`]. A sum that leaves the `i64` range is reduced back into it
//! by one full turn of the 64-bit modulus, so `add(i64::MAX, 1)` is
//! `i64::MIN`.

use vstd::prelude::*;

verus! {

/// One full turn of the signed 64-bit range: `2^64`.
pub open spec fn i64_modulus() -> int {
    0x1_0000_0000_0000_0000
}

/// Reduces a mathematical integer no further than one turn outside the
/// `i64` range back into it, as two's-complement wraparound does.
pub open spec fn wrap_to_i64(n: int) -> int {
    if n > i64::MAX {
        n - i64_modulus()
    } else if n < i64::MIN {
        n + i64_modulus()
    } else {
        n
    }
}

/// The sum of two signed 64-bit integers under the wraparound policy.
pub open spec fn add_spec(i: i64, j: i64) -> int {
    wrap_to_i64(i + j)
}

/// Returns the sum of `i` and `j`.
///
/// Whenever the mathematical sum is representable it is returned exactly;
/// otherwise the result wraps around the 64-bit boundary.
pub fn add(i: i64, j: i64) -> (r: i64)
    ensures
        r == add_spec(i, j),
        i64::MIN <= i + j <= i64::MAX ==> r == i + j,
{
    i.wrapping_add(j)
}

/// Commutativity: the sum does not depend on the order of its arguments.
pub proof fn lemma_add_commutative(i: i64, j: i64)
    ensures
        add_spec(i, j) == add_spec(j, i),
{
}

/// Identity: adding zero leaves the other argument unchanged.
pub proof fn lemma_add_identity(i: i64)
    ensures
        add_spec(i, 0) == i,
{
}

/// Overflow boundary: one step past either end of the `i64` range lands
/// on the opposite end.
pub proof fn lemma_add_overflow_boundary()
    ensures
        add_spec(i64::MAX, 1) == i64::MIN,
        add_spec(i64::MIN, -1i64) == i64::MAX,
{
}

} // verus!
