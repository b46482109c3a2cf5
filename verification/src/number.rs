//! The two numbers that handling an event computes.
use vstd::arithmetic::power::pow;
use vstd::prelude::*;

verus! {

/// The number that `bytes` write in base 256, the most significant byte first.
pub open spec fn big_endian(bytes: Seq<u8>) -> nat
    decreases bytes.len(),
{
    if bytes.len() == 0 {
        0
    } else {
        big_endian(bytes.drop_last()) * 256 + bytes.last() as nat
    }
}

/// Reads sixteen bytes as a number, the most significant byte first.
pub fn u128_from_be_bytes(bytes: &[u8; 16]) -> (n: u128)
    ensures
        n == big_endian(bytes@),
{
    let mut n: u128 = 0;
    let mut i: usize = 0;
    while i < 16
        invariant
            i <= 16,
            n == big_endian(bytes@.take(i as int)),
        decreases 16 - i,
    {
        proof {
            lemma_big_endian_bound(bytes@.take(i as int), i as nat);
            assert(pow(256, 15) * 256 == 0x1_0000_0000_0000_0000_0000_0000_0000_0000int) by {
                reveal_with_fuel(pow, 16);
            }
            vstd::arithmetic::power::lemma_pow_increases(256, i as nat, 15);
            assert(bytes@.take(i + 1).drop_last() =~= bytes@.take(i as int));
        }
        n = n * 256 + bytes[i] as u128;
        i = i + 1;
    }
    assert(bytes@.take(16) =~= bytes@);
    n
}

/// A number of `len` bytes is below the power of 256 with that exponent.
proof fn lemma_big_endian_bound(bytes: Seq<u8>, len: nat)
    requires
        bytes.len() == len,
    ensures
        big_endian(bytes) < pow(256, len),
    decreases len,
{
    if len == 0 {
        reveal(pow);
    } else {
        lemma_big_endian_bound(bytes.drop_last(), (len - 1) as nat);
        reveal(pow);
    }
}

/// Two byte strings of one length that write the same number are the same.
pub proof fn law_big_endian_is_injective(a: Seq<u8>, b: Seq<u8>)
    requires
        a.len() == b.len(),
        big_endian(a) == big_endian(b),
    ensures
        a == b,
    decreases a.len(),
{
    if a.len() > 0 {
        law_big_endian_is_injective(a.drop_last(), b.drop_last());
        assert(a =~= a.drop_last().push(a.last()));
        assert(b =~= b.drop_last().push(b.last()));
    } else {
        assert(a =~= b);
    }
}

/// The whole milliseconds in `secs` seconds and `nanos` nanoseconds.
pub open spec fn whole_millis(secs: u64, nanos: u32) -> int {
    secs * 1000 + nanos as int / 1_000_000
}

/// The number between -2^31 and 2^31 that differs from `n` by a multiple of 2^32.
pub open spec fn wrapped_i32(n: int) -> int {
    let low = n % 0x1_0000_0000;
    if low < 0x8000_0000 {
        low
    } else {
        low - 0x1_0000_0000
    }
}

/// The time to wait, in milliseconds: the whole milliseconds of the duration, of which the low
/// 32 bits are kept and read as a signed number.
pub fn delay_millis(secs: u64, nanos: u32) -> (millis: i32)
    ensures
        millis == wrapped_i32(whole_millis(secs, nanos)),
        (secs * 1000 + nanos / 1_000_000 - millis) % 0x1_0000_0000 == 0,
{
    let millis: u128 = secs as u128 * 1000 + (nanos / 1_000_000) as u128;
    proof {
        let low: u128 = millis % 0x1_0000_0000;
        assert((millis as i32) as int == if low < 0x8000_0000 {
            low as int
        } else {
            low - 0x1_0000_0000
        }) by (bit_vector)
            requires
                low == millis % 0x1_0000_0000,
        ;
    }
    #[verifier::truncate]
    (millis as i32)
}

/// A delay of less than 2^31 milliseconds (some 24 days) is kept to the millisecond.
pub proof fn law_short_delay_is_exact(secs: u64, nanos: u32)
    requires
        whole_millis(secs, nanos) < 0x8000_0000,
    ensures
        wrapped_i32(whole_millis(secs, nanos)) == whole_millis(secs, nanos),
{
}

/// The first byte counts for the most: as many powers of 256 as there are bytes after it.
pub proof fn law_first_byte_counts_most(first: u8, rest: Seq<u8>)
    ensures
        big_endian(seq![first] + rest) == first * pow(256, rest.len()) + big_endian(rest),
    decreases rest.len(),
{
    let bytes = seq![first] + rest;
    reveal(pow);
    if rest.len() == 0 {
        assert(bytes =~= seq![first]);
        assert(bytes.drop_last() =~= Seq::<u8>::empty());
        assert(big_endian(bytes.drop_last()) == 0);
    } else {
        law_first_byte_counts_most(first, rest.drop_last());
        assert(bytes.drop_last() =~= seq![first] + rest.drop_last());
        assert(bytes.last() == rest.last());
        let power = pow(256, (rest.len() - 1) as nat);
        assert(pow(256, rest.len()) == 256 * power);
        assert((first * power) * 256 == first * (256 * power)) by (nonlinear_arith);
    }
}

/// No bytes write zero, and a byte more at the end shifts the others by a factor of 256.
pub proof fn law_last_byte_counts_least(bytes: Seq<u8>, last: u8)
    ensures
        big_endian(seq![]) == 0,
        big_endian(bytes.push(last)) == 256 * big_endian(bytes) + last,
{
    assert(bytes.push(last).drop_last() =~= bytes);
}

/// The whole milliseconds are those that fit into the duration, of which less than one is left.
pub proof fn law_whole_millis_fit(secs: u64, nanos: u32)
    ensures
        whole_millis(secs, nanos) * 1_000_000 <= secs * 1_000_000_000 + nanos,
        secs * 1_000_000_000 + nanos < (whole_millis(secs, nanos) + 1) * 1_000_000,
{
}

/// A delay of any length is kept up to a multiple of 2^32, within the range of 32 bits with a
/// sign.
pub proof fn law_delay_wraps_around(n: int)
    ensures
        -0x8000_0000 <= wrapped_i32(n) < 0x8000_0000,
        (n - wrapped_i32(n)) % 0x1_0000_0000 == 0,
{
}

} // verus!
