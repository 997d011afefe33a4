use vstd::prelude::*;
use vstd::arithmetic::div_mod::{lemma_fundamental_div_mod, lemma_mod_multiples_vanish};

verus! {

/// The value that the fields of a frame and its checksum add up to, modulo 256.
/// Pairs of bytes that guard a register value add up to it as well.
pub const CHECKSUM_TARGET: u8 = 0x55;

/// The sum of a sequence of bytes, as an integer.
pub open spec fn byte_sum(s: Seq<u8>) -> int
    decreases s.len(),
{
    if s.len() == 0 {
        0
    } else {
        byte_sum(s.drop_last()) + s.last() as int
    }
}

/// The checksum byte for fields whose sum is `sum`: the byte that brings the
/// total to `CHECKSUM_TARGET` modulo 256.
pub open spec fn checksum_for_sum(sum: int) -> u8 {
    ((CHECKSUM_TARGET - sum) % 256) as u8
}

pub proof fn lemma_byte_sum_push(s: Seq<u8>, b: u8)
    ensures
        byte_sum(s.push(b)) == byte_sum(s) + b,
{
    assert(s.push(b).drop_last() =~= s);
}

/// Only the low byte of the sum matters: subtracting it from the target with
/// 8-bit wraparound gives the checksum.
pub proof fn lemma_checksum_from_low_byte(sum: int)
    requires
        sum >= 0,
    ensures
        CHECKSUM_TARGET.wrapping_sub((sum % 256) as u8) == checksum_for_sum(sum),
{
    let m = sum % 256;
    let q = sum / 256;
    lemma_fundamental_div_mod(sum, 256);
    lemma_mod_multiples_vanish(-q, CHECKSUM_TARGET - m, 256);
    assert(256 * (-q) + (CHECKSUM_TARGET - m) == CHECKSUM_TARGET - sum) by (nonlinear_arith)
        requires
            sum == 256 * q + m,
    ;
}

/// Fields that sum to `sum`, together with their checksum, add up to
/// `CHECKSUM_TARGET` modulo 256.
pub proof fn lemma_checksum_completes(sum: int)
    ensures
        (sum + checksum_for_sum(sum)) % 256 == CHECKSUM_TARGET as int,
{
    let d = CHECKSUM_TARGET - sum;
    lemma_fundamental_div_mod(d, 256);
    let k = d / 256;
    assert(sum + d % 256 == 256 * (-k) + CHECKSUM_TARGET) by (nonlinear_arith)
        requires
            d == 256 * k + d % 256,
            d == CHECKSUM_TARGET - sum,
    ;
    lemma_mod_multiples_vanish(-k, CHECKSUM_TARGET as int, 256);
}

} // verus!
