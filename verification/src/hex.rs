//! Lower-case hexadecimal text.
use vstd::prelude::*;
use vstd::string::*;

verus! {

/// The sixteen digits, in the order of their values.
pub const DIGITS: &'static str = "0123456789abcdef";

/// The digit of the value `n`, for `n` below sixteen.
pub open spec fn digit(n: int) -> char {
    DIGITS@[n]
}

/// The text of `bytes`: two digits for each byte, the high half first.
pub open spec fn hex(bytes: Seq<u8>) -> Seq<char> {
    Seq::new(
        2 * bytes.len(),
        |i: int|
            if i % 2 == 0 {
                digit(bytes[i / 2] as int / 16)
            } else {
                digit(bytes[i / 2] as int % 16)
            },
    )
}

/// Writes `bytes` as hexadecimal text.
pub fn to_hex(bytes: &[u8]) -> (text: String)
    ensures
        text@ == hex(bytes@),
{
    let mut text = String::new();
    proof {
        reveal_strlit("0123456789abcdef");
    }
    assert(text@ =~= hex(bytes@.take(0)));
    let mut i: usize = 0;
    while i < bytes.len()
        invariant
            i <= bytes@.len(),
            text@ == hex(bytes@.take(i as int)),
            DIGITS@.len() == 16,
            DIGITS.is_ascii(),
        decreases bytes@.len() - i,
    {
        let high: usize = (bytes[i] / 16) as usize;
        let low: usize = (bytes[i] % 16) as usize;
        text.append(DIGITS.substring_ascii(high, high + 1));
        text.append(DIGITS.substring_ascii(low, low + 1));
        assert(text@ =~= hex(bytes@.take(i + 1)));
        i = i + 1;
    }
    assert(bytes@.take(i as int) =~= bytes@);
    text
}

/// The value of a digit.
spec fn value(c: char) -> int {
    if c <= '9' {
        c as int - '0' as int
    } else {
        c as int - 'a' as int + 10
    }
}

/// A digit tells its value.
proof fn lemma_digit_value(n: int)
    requires
        0 <= n < 16,
    ensures
        value(digit(n)) == n,
        '0' <= digit(n) <= '9' || 'a' <= digit(n) <= 'f',
{
    reveal_strlit("0123456789abcdef");
    assert(DIGITS@[0] == '0' && DIGITS@[1] == '1' && DIGITS@[2] == '2' && DIGITS@[3] == '3');
    assert(DIGITS@[4] == '4' && DIGITS@[5] == '5' && DIGITS@[6] == '6' && DIGITS@[7] == '7');
    assert(DIGITS@[8] == '8' && DIGITS@[9] == '9' && DIGITS@[10] == 'a' && DIGITS@[11] == 'b');
    assert(DIGITS@[12] == 'c' && DIGITS@[13] == 'd' && DIGITS@[14] == 'e' && DIGITS@[15] == 'f');
}

/// Different bytes have different texts.
pub proof fn law_hex_is_injective(a: Seq<u8>, b: Seq<u8>)
    requires
        hex(a) == hex(b),
    ensures
        a == b,
{
    assert(hex(a).len() == 2 * a.len() && hex(b).len() == 2 * b.len());
    assert forall|i: int| 0 <= i < a.len() implies a[i] == b[i] by {
        assert(hex(a)[2 * i] == digit(a[i] as int / 16));
        assert(hex(b)[2 * i] == digit(b[i] as int / 16));
        assert(hex(a)[2 * i + 1] == digit(a[i] as int % 16));
        assert(hex(b)[2 * i + 1] == digit(b[i] as int % 16));
        lemma_digit_value(a[i] as int / 16);
        lemma_digit_value(b[i] as int / 16);
        lemma_digit_value(a[i] as int % 16);
        lemma_digit_value(b[i] as int % 16);
    }
    assert(a =~= b);
}

/// Each byte is written as two digits, each from `0` to `9` or from `a` to `f`: its sixteens and
/// what is left over them.
pub proof fn law_two_digits_write_a_byte(bytes: Seq<u8>, i: int)
    requires
        0 <= i < bytes.len(),
    ensures
        hex(bytes).len() == 2 * bytes.len(),
        ({
            let high = hex(bytes)[2 * i] as int;
            let low = hex(bytes)[2 * i + 1] as int;
            let sixteens = if high <= '9' as int {
                high - '0' as int
            } else {
                high - 'a' as int + 10
            };
            let ones = if low <= '9' as int {
                low - '0' as int
            } else {
                low - 'a' as int + 10
            };
            &&& '0' as int <= high <= '9' as int || 'a' as int <= high <= 'f' as int
            &&& '0' as int <= low <= '9' as int || 'a' as int <= low <= 'f' as int
            &&& bytes[i] == 16 * sixteens + ones
        }),
{
    assert(hex(bytes)[2 * i] == digit(bytes[i] as int / 16));
    assert(hex(bytes)[2 * i + 1] == digit(bytes[i] as int % 16));
    lemma_digit_value(bytes[i] as int / 16);
    lemma_digit_value(bytes[i] as int % 16);
}

/// The text of bytes after bytes is the one text after the other.
pub proof fn law_hex_of_parts(a: Seq<u8>, b: Seq<u8>)
    ensures
        hex(a + b) == hex(a) + hex(b),
{
    assert(hex(a + b) =~= hex(a) + hex(b));
}

} // verus!
