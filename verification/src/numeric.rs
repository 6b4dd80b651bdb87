//! Integer helpers whose contracts rule out overflow.

use vstd::prelude::*;

verus! {

/// Adds two 128-bit unsigned integers.
///
/// The caller shows that the sum fits; the result is then the exact sum.
pub fn sum(x: u128, y: u128) -> (total: u128)
    requires
        x + y <= u128::MAX,
    ensures
        total == x + y,
{
    x + y
}

/// Adds the value behind `b` into the value behind `a`, leaving `b` as it was.
pub fn incr(a: &mut isize, b: &isize)
    requires
        isize::MIN <= *old(a) + *b <= isize::MAX,
    ensures
        *final(a) == *old(a) + *b,
{
    *a += *b;
}

/// Counts the bytes of a slice by walking it once.
pub fn count_total_bytes(byte_slice: &[u8]) -> (cnt: usize)
    ensures
        cnt == byte_slice@.len(),
{
    let mut cnt: usize = 0;
    for _b in it: byte_slice
        invariant
            cnt == it.index(),
            it.seq().len() == byte_slice.len(),
    {
        cnt += 1;
    }
    // The walk was never needed: the slice knows its own length.
    assert(cnt == byte_slice.len());
    cnt
}

/// Divides by seven, rounding towards zero.
pub fn divide_by_7(num: i32) -> (quotient: i32)
    ensures
        quotient == seventh(num as int),
{
    if num == 0 {
        return 0;
    }
    num / 7
}

/// The quotient of `n` by seven, rounded towards zero.
pub open spec fn seventh(n: int) -> int {
    if n >= 0 {
        n / 7
    } else {
        -((-n) / 7)
    }
}

/// Rounding towards zero: seven times the quotient lies between zero and `n`,
/// less than seven away from `n`, and negating `n` negates the quotient.
pub proof fn seventh_rounds_towards_zero(n: int)
    ensures
        n >= 0 ==> 0 <= 7 * seventh(n) <= n < 7 * seventh(n) + 7,
        n <= 0 ==> 7 * seventh(n) - 7 < n <= 7 * seventh(n) <= 0,
        seventh(-n) == -seventh(n),
{
}

} // verus!
