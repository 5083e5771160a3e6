//! Byte-level text building shared by the wire formats: decimal numbers,
//! zero-padded fields and copies of string bytes.

use vstd::prelude::*;
use vstd::string::StringSliceAdditionalSpecFns;

verus! {

/// An ASCII decimal digit.
pub open spec fn is_digit(b: u8) -> bool {
    48 <= b <= 57
}

/// The decimal digits of `n`, most significant first, as `{}` prints an
/// unsigned integer.
pub open spec fn decimal(n: nat) -> Seq<u8>
    decreases n,
{
    if n < 10 {
        seq![(n + 48) as u8]
    } else {
        decimal(n / 10).push(((n % 10) + 48) as u8)
    }
}

/// The number that a sequence of decimal digits denotes.
pub open spec fn digits_value(s: Seq<u8>) -> nat
    decreases s.len(),
{
    if s.len() == 0 {
        0
    } else {
        digits_value(s.drop_last()) * 10 + (s.last() - 48) as nat
    }
}

/// `n` printed with `{:02}`: at least two digits, padded with a leading zero.
pub open spec fn two_digits(n: nat) -> Seq<u8> {
    if n < 10 {
        seq![48u8] + decimal(n)
    } else {
        decimal(n)
    }
}

/// Printing a number in decimal and reading the digits back gives the
/// number: the digits are all decimal digits, there is at least one, and
/// there is no leading zero.
pub proof fn lemma_decimal_round_trip(n: nat)
    ensures
        digits_value(decimal(n)) == n,
        decimal(n).len() >= 1,
        n < 10 <==> decimal(n).len() == 1,
        forall|i: int| 0 <= i < decimal(n).len() ==> is_digit(#[trigger] decimal(n)[i]),
        decimal(n).len() > 1 ==> decimal(n)[0] != 48u8,
    decreases n,
{
    if n >= 10 {
        lemma_decimal_round_trip(n / 10);
        let d = decimal(n);
        assert(d.drop_last() =~= decimal(n / 10));
        assert forall|i: int| 0 <= i < d.len() implies is_digit(#[trigger] d[i]) by {
            if i < d.len() - 1 {
                assert(d[i] == decimal(n / 10)[i]);
            }
        }
        assert(d[0] == decimal(n / 10)[0]);
        assert(d.last() == ((n % 10) + 48) as u8);
        assert((n / 10) * 10 + n % 10 == n);
        assert(digits_value(d) == digits_value(decimal(n / 10)) * 10 + (d.last() - 48) as nat);
        assert((d.last() - 48) as nat == n % 10);
    } else {
        assert(decimal(n).drop_last() =~= Seq::<u8>::empty());
        assert(digits_value(Seq::<u8>::empty()) == 0);
    }
}

/// A number below 100 printed with `{:02}` is exactly two digits that
/// denote it.
pub proof fn lemma_two_digits(n: nat)
    requires
        n < 100,
    ensures
        two_digits(n).len() == 2,
        digits_value(two_digits(n)) == n,
        is_digit(two_digits(n)[0]),
        is_digit(two_digits(n)[1]),
{
    reveal_with_fuel(decimal, 2);
    reveal_with_fuel(digits_value, 3);
    if n < 10 {
        assert(two_digits(n) =~= seq![48u8, (n + 48) as u8]);
        assert(two_digits(n).drop_last() =~= seq![48u8]);
        assert(seq![48u8].drop_last() =~= Seq::<u8>::empty());
    } else {
        assert(decimal(n / 10) =~= seq![((n / 10) + 48) as u8]);
        assert(two_digits(n) =~= seq![((n / 10) + 48) as u8, ((n % 10) + 48) as u8]);
        assert(two_digits(n).drop_last() =~= seq![((n / 10) + 48) as u8]);
        assert(seq![((n / 10) + 48) as u8].drop_last() =~= Seq::<u8>::empty());
    }
}

/// Appends the decimal digits of `n`.
pub fn push_decimal(out: &mut Vec<u8>, n: u128)
    ensures
        final(out)@ == old(out)@ + decimal(n as nat),
    decreases n,
{
    if n >= 10 {
        push_decimal(out, n / 10);
    }
    out.push((n % 10) as u8 + 48);
}

/// Appends `n` as `{:02}` prints it.
pub fn push_two_digits(out: &mut Vec<u8>, n: u32)
    ensures
        final(out)@ == old(out)@ + two_digits(n as nat),
{
    if n < 10 {
        out.push(48u8);
    }
    push_decimal(out, n as u128);
}

/// Appends a copy of `bytes`.
pub fn push_bytes(out: &mut Vec<u8>, bytes: &[u8])
    ensures
        final(out)@ == old(out)@ + bytes@,
{
    let ghost start = out@;
    let n = bytes.len();
    for i in 0..n
        invariant
            n == bytes@.len(),
            out@ == start + bytes@.take(i as int),
    {
        assert(bytes@.take(i + 1) =~= bytes@.take(i as int).push(bytes@[i as int]));
        out.push(bytes[i]);
    }
    assert(bytes@.take(n as int) =~= bytes@);
}

/// Appends the UTF-8 bytes of `s`.
pub fn push_str(out: &mut Vec<u8>, s: &str)
    ensures
        final(out)@ == old(out)@ + s.spec_bytes(),
{
    push_bytes(out, s.as_bytes());
}

/// The characters of an ASCII byte sequence.
pub open spec fn ascii_chars(s: Seq<u8>) -> Seq<char> {
    s.map_values(|b: u8| b as char)
}

/// Appends the decimal digits of `n` to a string.
pub fn push_decimal_chars(out: &mut String, n: u64)
    ensures
        final(out)@ == old(out)@ + ascii_chars(decimal(n as nat)),
    decreases n,
{
    let ghost start = out@;
    if n >= 10 {
        push_decimal_chars(out, n / 10);
    }
    let ghost before = out@;
    let d = (n % 10) as usize;
    let digits = "0123456789";
    proof {
        reveal_strlit("0123456789");
        assert(vstd::string::is_ascii(digits));
    }
    out.append(digits.substring_ascii(d, d + 1));
    proof {
        let tail = ascii_chars(decimal(n as nat));
        assert(digits@.subrange(d as int, d + 1) =~= seq![((n % 10) + 48) as u8 as char]);
        if n >= 10 {
            assert(decimal(n as nat) == decimal((n / 10) as nat).push(((n % 10) + 48) as u8));
            assert(tail =~= ascii_chars(decimal((n / 10) as nat)) + seq![((n % 10) + 48) as u8 as char]);
        } else {
            assert(tail =~= seq![((n % 10) + 48) as u8 as char]);
        }
        assert(out@ =~= start + tail);
    }
}

/// Whether two byte sequences are equal.
pub fn bytes_equal(a: &[u8], b: &[u8]) -> (equal: bool)
    ensures
        equal == (a@ == b@),
{
    if a.len() != b.len() {
        return false;
    }
    let n = a.len();
    for i in 0..n
        invariant
            n == a@.len(),
            n == b@.len(),
            forall|j: int| 0 <= j < i ==> a@[j] == b@[j],
    {
        if a[i] != b[i] {
            return false;
        }
    }
    assert(a@ =~= b@);
    true
}

} // verus!
