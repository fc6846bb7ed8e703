//! Text building blocks: appending to a `String` and decimal numerals.

use vstd::prelude::*;

verus! {

/// `String::push` appends one character and changes nothing else.
pub assume_specification[ String::push ](s: &mut String, ch: char)
    ensures
        final(s)@ == old(s)@.push(ch),
;

/// `char::from_u32` gives the scalar value with that number, and `None` for
/// a surrogate or a number above `0x10FFFF`.
pub assume_specification[ char::from_u32 ](i: u32) -> (c: Option<char>)
    ensures
        c == scalar(i as int),
;

/// The character whose number is `n`, where there is one.
pub open spec fn scalar(n: int) -> Option<char> {
    if (0 <= n < 0xD800) || (0xE000 <= n <= 0x10FFFF) {
        Some(n as char)
    } else {
        None
    }
}

/// The digit character for `d`, which is below ten.
pub open spec fn digit(d: nat) -> char
    recommends
        d < 10,
{
    (0x30 + d) as char
}

/// The decimal numeral of `n`, without sign or leading zeros.
pub open spec fn decimal(n: nat) -> Seq<char>
    decreases n,
{
    if n < 10 {
        seq![digit(n)]
    } else {
        decimal(n / 10).push(digit(n % 10))
    }
}

/// Appends the decimal numeral of `n` to `buf`.
pub fn push_decimal(buf: &mut String, n: u16)
    ensures
        final(buf)@ == old(buf)@ + decimal(n as nat),
    decreases n,
{
    if n >= 10 {
        push_decimal(buf, n / 10);
    }
    let low: u8 = (n % 10) as u8;
    buf.push((0x30u8 + low) as char);
    proof {
        assert(((0x30u8 + low) as char) == digit((n % 10) as nat));
        assert(buf@ =~= old(buf)@ + decimal(n as nat));
    }
}

/// The bytes as characters, each with the number of its byte.
pub open spec fn latin(bytes: Seq<u8>) -> Seq<char> {
    Seq::new(bytes.len(), |i: int| bytes[i] as char)
}

/// The decimal numerals of the numbers, with `;` between them.
pub open spec fn joined(numbers: Seq<u16>) -> Seq<char>
    decreases numbers.len(),
{
    if numbers.len() == 0 {
        Seq::empty()
    } else if numbers.len() == 1 {
        decimal(numbers[0] as nat)
    } else {
        joined(numbers.drop_last()).push(';') + decimal(numbers.last() as nat)
    }
}

/// Whether one of the numbers is not zero.
pub open spec fn any_nonzero(numbers: Seq<u16>) -> bool {
    exists|i: int| 0 <= i < numbers.len() && numbers[i] != 0
}

/// Appends each byte as the character with its number.
pub fn push_latin(buf: &mut String, bytes: &[u8])
    ensures
        final(buf)@ == old(buf)@ + latin(bytes@),
{
    let mut i: usize = 0;
    while i < bytes.len()
        invariant
            0 <= i <= bytes.len(),
            buf@ == old(buf)@ + latin(bytes@.take(i as int)),
        decreases bytes.len() - i,
    {
        buf.push(bytes[i] as char);
        proof {
            assert(latin(bytes@.take(i + 1)) =~= latin(bytes@.take(i as int)).push(
                bytes[i as int] as char,
            ));
            assert(buf@ =~= old(buf)@ + latin(bytes@.take(i + 1)));
        }
        i += 1;
    }
    proof {
        assert(bytes@.take(i as int) =~= bytes@);
    }
}

/// Appends the decimal numerals of the numbers, with `;` between them.
pub fn push_joined(buf: &mut String, numbers: &[u16])
    ensures
        final(buf)@ == old(buf)@ + joined(numbers@),
{
    let mut i: usize = 0;
    while i < numbers.len()
        invariant
            0 <= i <= numbers.len(),
            buf@ == old(buf)@ + joined(numbers@.take(i as int)),
        decreases numbers.len() - i,
    {
        if i > 0 {
            buf.push(';');
        }
        push_decimal(buf, numbers[i]);
        proof {
            let now = numbers@.take(i + 1);
            assert(now.drop_last() =~= numbers@.take(i as int));
            assert(now.last() == numbers[i as int]);
            assert(buf@ =~= old(buf)@ + joined(now));
        }
        i += 1;
    }
    proof {
        assert(numbers@.take(i as int) =~= numbers@);
    }
}

/// Tells whether one of the numbers is not zero.
pub fn has_nonzero(numbers: &[u16]) -> (found: bool)
    ensures
        found == any_nonzero(numbers@),
{
    let mut i: usize = 0;
    while i < numbers.len()
        invariant
            0 <= i <= numbers.len(),
            forall|j: int| 0 <= j < i ==> numbers[j] == 0,
        decreases numbers.len() - i,
    {
        if numbers[i] != 0 {
            return true;
        }
        i += 1;
    }
    false
}

} // verus!
