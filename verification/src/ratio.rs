//! Conversion ratios.
//!
//! A ratio is the output rate divided by the input rate. It travels through
//! this library as the bit pattern of a double-precision number: one sign bit,
//! eleven bits of exponent with a bias of 1023, fifty-two bits of fraction.

use vstd::arithmetic::power2::{
    lemma2_to64_rest, lemma_pow2_adds, lemma_pow2_pos, lemma_pow2_strictly_increases, pow2,
};
use vstd::prelude::*;

verus! {

/// Bit pattern of 1/256, the least ratio that the engine converts by.
pub const MIN_RATIO: u64 = 0x3F70_0000_0000_0000;

/// Bit pattern of 256, the greatest ratio that the engine converts by.
pub const MAX_RATIO: u64 = 0x4070_0000_0000_0000;

/// The sign of the number that `bits` encodes: 1 for a negative one.
pub open spec fn sign(bits: u64) -> int {
    bits as int / 0x8000_0000_0000_0000
}

/// The biased exponent of the number that `bits` encodes.
pub open spec fn exponent(bits: u64) -> int {
    (bits as int / 0x10_0000_0000_0000) % 0x800
}

/// The fraction field of the number that `bits` encodes.
pub open spec fn fraction(bits: u64) -> int {
    bits as int % 0x10_0000_0000_0000
}

/// Whether `bits` encodes a number at all, and a finite one.
pub open spec fn is_finite(bits: u64) -> bool {
    exponent(bits) < 0x7FF
}

/// How far from zero the finite number lies that `bits` encodes, counted in
/// steps of `2^-1074`, the least distance between two numbers of the format.
///
/// With an exponent field `e` above zero the number is
/// `(2^52 + fraction) * 2^(e - 1075)`; with `e` zero it is `fraction * 2^-1074`.
pub open spec fn magnitude(bits: u64) -> nat {
    if exponent(bits) == 0 {
        fraction(bits) as nat
    } else {
        ((0x10_0000_0000_0000 + fraction(bits)) * pow2((exponent(bits) - 1) as nat)) as nat
    }
}

/// Whether `bits` encodes a finite number greater than zero.
pub open spec fn is_positive(bits: u64) -> bool {
    sign(bits) == 0 && is_finite(bits) && magnitude(bits) > 0
}

/// Whether the number that `bits` encodes lies between 1/256 and 256, both
/// included: in steps of `2^-1074`, between `2^1066` and `2^1082`.
pub open spec fn supported(bits: u64) -> bool {
    &&& sign(bits) == 0
    &&& is_finite(bits)
    &&& pow2(1066) <= magnitude(bits) <= pow2(1082)
}

/// Whether the engine converts by the ratio that `bits` encodes.
pub fn is_valid_ratio(bits: u64) -> (ok: bool)
    ensures
        ok == supported(bits),
{
    proof {
        range_is_an_interval(bits);
    }
    MIN_RATIO <= bits && bits <= MAX_RATIO
}

/// A power of two does not shrink as its exponent grows.
proof fn pow2_grows(a: nat, b: nat)
    requires
        a <= b,
    ensures
        pow2(a) <= pow2(b),
{
    if a < b {
        lemma_pow2_strictly_increases(a, b);
    }
}

/// A product of two numbers that are each below a bound, or at it, is below
/// the product of the bounds, or at it.
proof fn product_bounds(m: int, p: int, m_low: int, m_high: int, p_low: int, p_high: int)
    requires
        0 < m_low <= m < m_high,
        0 < p_low <= p <= p_high,
    ensures
        m_low * p_low <= m * p < m_high * p_high,
{
    assert(m_low * p_low <= m * p) by (nonlinear_arith)
        requires
            0 < m_low <= m,
            0 < p_low <= p,
    ;
    assert(m * p < m_high * p_high) by (nonlinear_arith)
        requires
            0 < m < m_high,
            0 < p <= p_high,
    ;
}

/// The supported ratios, told by their fields: the sign is clear and the
/// exponent runs from 1015, that of 1/256, to 1030, or is 1031 with an empty
/// fraction, which is 256 itself.
pub proof fn supported_by_fields(bits: u64)
    ensures
        supported(bits) <==> {
            &&& sign(bits) == 0
            &&& 1015 <= exponent(bits)
            &&& exponent(bits) < 1031 || (exponent(bits) == 1031 && fraction(bits) == 0)
        },
{
    let e = exponent(bits);
    let f = fraction(bits);
    let m = 0x10_0000_0000_0000 + f;
    lemma2_to64_rest();
    assert(pow2(53) == 2 * pow2(52));
    lemma_pow2_adds(52, 1014);
    lemma_pow2_adds(53, 1013);
    lemma_pow2_adds(52, 1030);
    lemma_pow2_adds(53, 1029);
    lemma_pow2_adds(52, 1031);
    lemma_pow2_strictly_increases(52, 1066);
    lemma_pow2_strictly_increases(1082, 1083);
    lemma_pow2_pos(0);
    lemma_pow2_pos(1014);
    lemma_pow2_pos(1031);
    if e == 0 {
        assert(magnitude(bits) < pow2(1066));
    } else if e < 0x7FF {
        let p = pow2((e - 1) as nat) as int;
        lemma_pow2_pos((e - 1) as nat);
        assert(magnitude(bits) == m * p) by (nonlinear_arith)
            requires
                m > 0,
                p > 0,
                magnitude(bits) == (m * p) as nat,
        ;
        if e < 1015 {
            pow2_grows(0, (e - 1) as nat);
            pow2_grows((e - 1) as nat, 1013);
            product_bounds(
                m,
                p,
                pow2(52) as int,
                pow2(53) as int,
                pow2(0) as int,
                pow2(1013) as int,
            );
            assert(magnitude(bits) < pow2(1066));
        } else if e < 1031 {
            pow2_grows(1014, (e - 1) as nat);
            pow2_grows((e - 1) as nat, 1029);
            product_bounds(
                m,
                p,
                pow2(52) as int,
                pow2(53) as int,
                pow2(1014) as int,
                pow2(1029) as int,
            );
            assert(pow2(1066) <= magnitude(bits) <= pow2(1082));
        } else if e == 1031 {
            pow2_grows(1014, 1030);
            let q = pow2(1030) as int;
            lemma_pow2_pos(1030);
            assert(pow2(52) * q <= m * q) by (nonlinear_arith)
                requires
                    pow2(52) <= m,
                    q > 0,
            ;
            assert(pow2(52) * pow2(1014) <= pow2(52) * q) by (nonlinear_arith)
                requires
                    pow2(1014) <= q,
            ;
            if f == 0 {
                assert(magnitude(bits) == pow2(1082));
            } else {
                assert(pow2(52) * q < m * q) by (nonlinear_arith)
                    requires
                        pow2(52) < m,
                        q > 0,
                ;
                assert(magnitude(bits) > pow2(1082));
            }
        } else {
            pow2_grows(1031, (e - 1) as nat);
            product_bounds(m, p, pow2(52) as int, pow2(53) as int, pow2(1031) as int, p);
            assert(magnitude(bits) >= pow2(1083));
        }
    }
}

/// The supported ratios are the bit patterns from that of 1/256 to that of 256.
pub proof fn range_is_an_interval(bits: u64)
    ensures
        supported(bits) <==> MIN_RATIO <= bits <= MAX_RATIO,
{
    supported_by_fields(bits);
    assert((sign(bits) == 0 && 1015 <= exponent(bits) && (exponent(bits) < 1031 || (exponent(bits)
        == 1031 && fraction(bits) == 0))) <==> 0x3F70_0000_0000_0000 <= bits
        <= 0x4070_0000_0000_0000) by (bit_vector);
}

/// A supported ratio is a finite number greater than zero: zero, a negative
/// number, an infinity and a value that is no number are all refused.
pub proof fn supported_is_positive(bits: u64)
    ensures
        supported(bits) ==> is_positive(bits),
        !is_positive(bits) ==> !supported(bits),
        bits == 0 ==> !supported(bits),
        sign(bits) != 0 ==> !supported(bits),
        !is_finite(bits) ==> !supported(bits),
{
    lemma_pow2_pos(1066);
    supported_by_fields(bits);
}

} // verus!
