//! The one comparison of floating-point numbers that the renderer makes, on the bits of the number.

use vstd::prelude::*;

verus! {

/// Whether the bits of a single-precision number are those of a NaN.
pub open spec fn is_nan(bits: u32) -> bool {
    bits % 0x8000_0000 > 0x7F80_0000
}

/// The place of a single-precision number that is no NaN among all of them: a smaller number has a
/// smaller rank, and both zeros have the rank zero.
pub open spec fn rank(bits: u32) -> int {
    if bits < 0x8000_0000 {
        bits as int
    } else {
        0x8000_0000 - bits
    }
}

/// What `x <= 0.0` says of the number `x` with these bits. It is false of a NaN.
pub open spec fn at_most_zero(bits: u32) -> bool {
    !is_nan(bits) && rank(bits) <= 0
}

/// Computes `x <= 0.0` for the number `x` with the given bits.
pub fn is_at_most_zero(bits: u32) -> (result: bool)
    ensures
        result == at_most_zero(bits),
{
    bits == 0 || (0x8000_0000 <= bits && bits <= 0xFF80_0000)
}

/// A single-precision number is at most zero just where it is no NaN, that is not all bits of its
/// exponent are set beside one of its fraction, and its sign bit is set or all of its other bits are
/// zero.
pub proof fn at_most_zero_by_parts(bits: u32)
    ensures
        ({
            let negative = bits >= 0x8000_0000;
            let exponent = bits as int / 0x80_0000 % 0x100;
            let fraction = bits as int % 0x80_0000;
            at_most_zero(bits) <==> !(exponent == 0xFF && fraction != 0) && (negative || (exponent
                == 0 && fraction == 0))
        }),
{
}

} // verus!
