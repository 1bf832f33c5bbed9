//! Stateless integer helpers: arithmetic that reports overflow, byte
//! reversal, and conversion to a fixed byte order.
use vstd::prelude::*;

verus! {

/// Whether `v` lies outside the range of `i64`.
pub open spec fn out_of_i64(v: int) -> bool {
    v < i64::MIN || v > i64::MAX
}

/// The wrapped sum and whether the true sum overflowed.
pub fn add_with_overflow(x: i64, y: i64) -> (r: (i64, bool))
    ensures
        r.1 == out_of_i64(x + y),
        !r.1 ==> r.0 == x + y,
        r.0 == x.wrapping_add(y),
{
    let flag = x.checked_add(y).is_none();
    (x.wrapping_add(y), flag)
}

/// The wrapped difference and whether the true difference overflowed.
pub fn sub_with_overflow(x: i64, y: i64) -> (r: (i64, bool))
    ensures
        r.1 == out_of_i64(x - y),
        !r.1 ==> r.0 == x - y,
        r.0 == x.wrapping_sub(y),
{
    let flag = x.checked_sub(y).is_none();
    (x.wrapping_sub(y), flag)
}

/// The wrapped product and whether the true product overflowed.
pub fn mul_with_overflow(x: i64, y: i64) -> (r: (i64, bool))
    ensures
        r.1 == out_of_i64(x * y),
        !r.1 ==> r.0 == x * y,
        r.0 == x.wrapping_mul(y),
{
    let flag = x.checked_mul(y).is_none();
    (x.wrapping_mul(y), flag)
}

/// Byte `i` of `x`, counting from the least significant.
pub open spec fn byte_of(x: u64, i: u64) -> u64 {
    (x >> (8 * i)) & 0xff
}

/// `r` holds the bytes of `x` in reverse order.
pub open spec fn is_byte_reversal(x: u64, r: u64) -> bool {
    forall|i: u64| i < 8 ==> #[trigger] byte_of(r, i) == byte_of(x, (7 - i) as u64)
}

/// The bytes of `x` laid out in reverse order.
pub open spec fn reversed_bytes(x: u64) -> u64 {
    ((x & 0xff) << 56u64) | (((x >> 8u64) & 0xff) << 48u64) | (((x >> 16u64) & 0xff) << 40u64)
        | (((x >> 24u64) & 0xff) << 32u64) | (((x >> 32u64) & 0xff) << 24u64) | (((x >> 40u64)
        & 0xff) << 16u64) | (((x >> 48u64) & 0xff) << 8u64) | ((x >> 56u64) & 0xff)
}

proof fn lemma_reversed_byte(x: u64, r: u64, i: u64, j: u64)
    requires
        r == reversed_bytes(x),
        i < 8,
        j == 7 - i,
    ensures
        byte_of(r, i) == byte_of(x, j),
{
    assert((r >> (8 * i)) & 0xff == (x >> (8 * j)) & 0xff) by (bit_vector)
        requires
            r == ((x & 0xff) << 56u64) | (((x >> 8u64) & 0xff) << 48u64) | (((x >> 16u64) & 0xff) << 40u64)
            | (((x >> 24u64) & 0xff) << 32u64) | (((x >> 32u64) & 0xff) << 24u64) | (((x >> 40u64)
            & 0xff) << 16u64) | (((x >> 48u64) & 0xff) << 8u64) | ((x >> 56u64) & 0xff),
            i < 8,
            j == 7 - i,
    ;
}

/// `x` with its eight bytes in reverse order.
pub fn bswap(x: u64) -> (r: u64)
    ensures
        r == reversed_bytes(x),
        is_byte_reversal(x, r),
{
    let r: u64 = ((x & 0xff) << 56u64) | (((x >> 8u64) & 0xff) << 48u64) | (((x >> 16u64) & 0xff) << 40u64)
        | (((x >> 24u64) & 0xff) << 32u64) | (((x >> 32u64) & 0xff) << 24u64) | (((x >> 40u64)
        & 0xff) << 16u64) | (((x >> 48u64) & 0xff) << 8u64) | ((x >> 56u64) & 0xff);
    proof {
        assert forall|i: u64| i < 8 implies #[trigger] byte_of(r, i) == byte_of(x, (7 - i) as u64) by {
            lemma_reversed_byte(x, r, i, (7 - i) as u64);
        }
    }
    r
}

/// Relies on u64::to_be: on a big-endian target the value is unchanged, on
/// a little-endian one its bytes are reversed.
#[verifier::external_body]
fn native_to_be(x: u64) -> (r: u64)
    ensures
        r == x || is_byte_reversal(x, r),
{
    x.to_be()
}

/// Relies on u64::to_le: on a little-endian target the value is unchanged,
/// on a big-endian one its bytes are reversed.
#[verifier::external_body]
fn native_to_le(x: u64) -> (r: u64)
    ensures
        r == x || is_byte_reversal(x, r),
{
    x.to_le()
}

/// `x` converted to big-endian byte order: unchanged on a big-endian target,
/// byte-reversed on a little-endian one.
pub fn to_be(x: u64) -> (r: u64)
    ensures
        r == x || is_byte_reversal(x, r),
{
    native_to_be(x)
}

/// `x` converted to little-endian byte order: unchanged on a little-endian
/// target, byte-reversed on a big-endian one.
pub fn to_le(x: u64) -> (r: u64)
    ensures
        r == x || is_byte_reversal(x, r),
{
    native_to_le(x)
}

} // verus!
