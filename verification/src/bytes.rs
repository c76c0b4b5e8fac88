//! Comparing byte strings, and decimal numbers written in ASCII.

use vstd::prelude::*;

verus! {

/// Whether two byte strings are equal.
pub fn same_bytes(lhs: &[u8], rhs: &[u8]) -> (same: bool)
    ensures
        same == (lhs@ == rhs@),
{
    if lhs.len() != rhs.len() {
        return false;
    }
    let mut i: usize = 0;
    while i < lhs.len()
        invariant
            i <= lhs@.len(),
            lhs@.len() == rhs@.len(),
            forall|j: int| 0 <= j < i ==> lhs@[j] == rhs@[j],
        decreases lhs@.len() - i,
    {
        if lhs[i] != rhs[i] {
            return false;
        }
        i += 1;
    }
    proof {
        assert(lhs@ =~= rhs@);
    }
    true
}

/// An ASCII decimal digit.
pub open spec fn is_digit(b: u8) -> bool {
    0x30 <= b <= 0x39
}

pub open spec fn all_digits(s: Seq<u8>) -> bool {
    forall|i: int| 0 <= i < s.len() ==> is_digit(#[trigger] s[i])
}

/// The number that a string of decimal digits stands for.
pub open spec fn digits_value(s: Seq<u8>) -> int
    decreases s.len(),
{
    if s.len() == 0 {
        0
    } else {
        10 * digits_value(s.drop_last()) + (s.last() - 0x30)
    }
}

/// The decimal digits of a number, most significant first, without leading
/// zeros.
pub open spec fn decimal_digits(n: nat) -> Seq<u8>
    decreases n,
{
    if n < 10 {
        seq![(0x30 + n) as u8]
    } else {
        decimal_digits(n / 10).push((0x30 + n % 10) as u8)
    }
}

/// The digits that follow the optional `+`.
pub open spec fn unsigned_part(s: Seq<u8>) -> Seq<u8> {
    if s.len() > 0 && s[0] == 0x2b {
        s.skip(1)
    } else {
        s
    }
}

/// A decimal number as `u64` reads it: an optional `+`, then at least one
/// digit and nothing else, of a value that fits.
pub open spec fn decimal_u64(s: Seq<u8>) -> Option<u64> {
    let digits = unsigned_part(s);
    if digits.len() > 0 && all_digits(digits) && digits_value(digits) <= u64::MAX {
        Some(digits_value(digits) as u64)
    } else {
        None
    }
}

/// Reads a decimal `u64`.
pub fn parse_u64(text: &[u8]) -> (number: Option<u64>)
    ensures
        number == decimal_u64(text@),
{
    let start: usize = if text.len() > 0 && text[0] == 0x2b { 1 } else { 0 };
    let ghost digits = unsigned_part(text@);
    proof {
        assert(digits =~= text@.skip(start as int));
    }
    if text.len() == start {
        return None;
    }
    let mut value: u64 = 0;
    let mut i: usize = start;
    proof {
        assert(digits.take(0).len() == 0);
    }
    while i < text.len()
        invariant
            start <= i <= text@.len(),
            start <= text@.len(),
            digits == text@.skip(start as int),
            digits == unsigned_part(text@),
            all_digits(digits.take(i - start)),
            value == digits_value(digits.take(i - start)),
        decreases text@.len() - i,
    {
        let b: u8 = text[i];
        let ghost seen = digits.take(i - start);
        let ghost next = digits.take(i + 1 - start);
        proof {
            assert(next.drop_last() =~= seen);
            assert(next.last() == b);
            assert(digits[i - start] == b);
        }
        if b < 0x30 || b > 0x39 {
            proof {
                assert(!is_digit(digits[i - start]));
            }
            return None;
        }
        let d: u64 = (b - 0x30) as u64;
        proof {
            assert(digits_value(next) == 10 * value + d);
            if all_digits(digits) {
                lemma_value_grows(digits, i + 1 - start);
            }
        }
        if value > (u64::MAX - d) / 10 {
            proof {
                assert(10 * value + d > u64::MAX);
            }
            return None;
        }
        value = 10 * value + d;
        proof {
            assert forall|j: int| 0 <= j < next.len() implies is_digit(#[trigger] next[j]) by {
                if j < seen.len() {
                    assert(next[j] == seen[j]);
                }
            }
        }
        i += 1;
    }
    proof {
        assert(digits.take(text@.len() - start) =~= digits);
    }
    Some(value)
}

/// Writes a number in decimal.
pub fn format_u64(n: u64) -> (text: Vec<u8>)
    ensures
        text@ == decimal_digits(n as nat),
    decreases n,
{
    if n < 10 {
        let mut text: Vec<u8> = Vec::new();
        text.push(0x30 + n as u8);
        proof {
            assert(text@ =~= decimal_digits(n as nat));
        }
        text
    } else {
        let mut text = format_u64(n / 10);
        text.push(0x30 + (n % 10) as u8);
        text
    }
}

/// A string of digits stands for at least what any prefix of it stands for.
proof fn lemma_value_grows(s: Seq<u8>, k: int)
    requires
        all_digits(s),
        0 <= k <= s.len(),
    ensures
        0 <= digits_value(s.take(k)) <= digits_value(s),
    decreases s.len(),
{
    if s.len() == 0 {
        assert(s.take(k) =~= s);
    } else {
        let front = s.drop_last();
        assert forall|i: int| 0 <= i < front.len() implies is_digit(#[trigger] front[i]) by {
            assert(front[i] == s[i]);
        }
        assert(is_digit(s[s.len() - 1]));
        if k < s.len() {
            lemma_value_grows(front, k);
            assert(front.take(k) =~= s.take(k));
        } else {
            lemma_value_grows(front, front.len() as int);
            assert(front.take(front.len() as int) =~= front);
            assert(s.take(k) =~= s);
        }
    }
}

/// What `decimal_digits` writes is a non-empty string of digits, stands for
/// the number written, and has no leading zero unless the number is zero.
pub proof fn written_digits_stand_for_the_number(n: nat)
    ensures
        decimal_digits(n).len() > 0,
        all_digits(decimal_digits(n)),
        digits_value(decimal_digits(n)) == n,
        decimal_digits(n)[0] == 0x30 ==> n == 0,
    decreases n,
{
    let s = decimal_digits(n);
    if n < 10 {
        assert(s.drop_last().len() == 0);
        assert(digits_value(s.drop_last()) == 0);
    } else {
        written_digits_stand_for_the_number(n / 10);
        let front = decimal_digits(n / 10);
        assert(s.drop_last() =~= front);
        assert forall|i: int| 0 <= i < s.len() implies is_digit(#[trigger] s[i]) by {
            if i < front.len() {
                assert(s[i] == front[i]);
            }
        }
        assert(s[0] == front[0]);
    }
}

/// Reading back a written number gives that number.
pub proof fn reading_a_written_number_gives_it_back(n: u64)
    ensures
        decimal_u64(decimal_digits(n as nat)) == Some(n),
{
    let s = decimal_digits(n as nat);
    written_digits_stand_for_the_number(n as nat);
    assert(is_digit(s[0]));
    assert(unsigned_part(s) == s);
}

/// Of what `same_bytes` answers: two byte strings are the same where they are
/// of one length and agree at each place.
pub proof fn the_same_bytes_agree_at_each_place(lhs: &[u8], rhs: &[u8], same: bool)
    requires
        call_ensures(same_bytes, (lhs, rhs), same),
    ensures
        same <==> lhs@.len() == rhs@.len() && forall|i: int|
            0 <= i < lhs@.len() ==> #[trigger] lhs@[i] == rhs@[i],
{
    if lhs@.len() == rhs@.len() && forall|i: int|
        0 <= i < lhs@.len() ==> #[trigger] lhs@[i] == rhs@[i] {
        assert(lhs@ =~= rhs@);
    }
}

/// What one byte more does to the text of a number. At its start, or after a
/// leading `+`, a digit makes the number that the digit is. After a number, a
/// digit makes ten times that number and the digit, if that fits. Nothing else
/// makes a number, nor does no text at all.
pub proof fn one_byte_more_of_a_number(s: Seq<u8>, b: u8)
    ensures
        decimal_u64(Seq::<u8>::empty()) is None,
        s.len() == 0 || s == seq![0x2bu8] ==> decimal_u64(s.push(b)) == if 0x30 <= b <= 0x39 {
            Some((b - 0x30) as u64)
        } else {
            None::<u64>
        },
        s.len() > 0 && s != seq![0x2bu8] ==> decimal_u64(s.push(b)) == if decimal_u64(s) is Some
            && 0x30 <= b <= 0x39 && 10 * decimal_u64(s)->0 + (b - 0x30) <= u64::MAX {
            Some((10 * decimal_u64(s)->0 + (b - 0x30)) as u64)
        } else {
            None::<u64>
        },
{
    let longer = s.push(b);
    let front = unsigned_part(s);
    let whole = unsigned_part(longer);
    if s.len() == 0 {
        if b == 0x2b {
            assert(whole.len() == 0);
        } else {
            assert(whole == longer);
            assert(whole[0] == b);
            assert(whole.drop_last().len() == 0);
            assert(digits_value(whole.drop_last()) == 0);
            assert(digits_value(whole) == b - 0x30);
            assert(all_digits(whole) <==> is_digit(b));
        }
    } else {
        assert(longer[0] == s[0]);
        assert(whole =~= front.push(b));
        assert(whole.drop_last() =~= front);
        assert(whole[front.len() as int] == b);
        assert(all_digits(whole) <==> all_digits(front) && is_digit(b)) by {
            if all_digits(whole) {
                assert forall|i: int| 0 <= i < front.len() implies is_digit(#[trigger] front[i]) by {
                    assert(whole[i] == front[i]);
                }
            }
            if all_digits(front) && is_digit(b) {
                assert forall|i: int| 0 <= i < whole.len() implies is_digit(#[trigger] whole[i]) by {
                    if i < front.len() {
                        assert(whole[i] == front[i]);
                    }
                }
            }
        }
        assert(digits_value(whole) == 10 * digits_value(front) + (b - 0x30));
        if all_digits(front) {
            lemma_value_grows(front, 0);
        }
        if s == seq![0x2bu8] {
            assert(s[0] == 0x2b);
            assert(front.len() == 0);
            assert(digits_value(front) == 0);
        } else {
            if s[0] == 0x2b && s.len() == 1 {
                assert(s =~= seq![0x2bu8]);
            }
            assert(front.len() > 0);
        }
    }
}

/// Of what `parse_u64` reads, of a text and of the text with one byte more. With
/// what it reads of no text, this is what it reads of every text.
pub proof fn a_number_is_read_byte_by_byte(
    text: &[u8],
    longer: &[u8],
    number: Option<u64>,
    next: Option<u64>,
)
    requires
        call_ensures(parse_u64, (text,), number),
        call_ensures(parse_u64, (longer,), next),
        longer@.len() == text@.len() + 1,
        longer@.drop_last() == text@,
    ensures
        text@.len() == 0 ==> number is None,
        ({
            let b = longer@.last();
            let digit = b - 0x30;
            &&& next is Some ==> 0x30 <= b <= 0x39
            &&& if text@.len() == 0 || text@ == seq![0x2bu8] {
                &&& next is Some <==> 0x30 <= b <= 0x39
                &&& next is Some ==> next->0 == digit
            } else {
                &&& next is Some <==> number is Some && 0x30 <= b <= 0x39 && 10 * number->0 + digit
                    <= u64::MAX
                &&& next is Some ==> next->0 == 10 * number->0 + digit
            }
        }),
{
    one_byte_more_of_a_number(text@, longer@.last());
    assert(longer@ =~= text@.push(longer@.last()));
    if text@.len() == 0 {
        assert(text@ =~= Seq::<u8>::empty());
    }
}

/// Of what `format_u64` writes: digits alone, no zero before another digit, and
/// what `parse_u64` reads as the number that was written.
pub proof fn a_number_is_written_to_be_read(
    n: u64,
    text: Vec<u8>,
    bytes: &[u8],
    number: Option<u64>,
)
    requires
        call_ensures(format_u64, (n,), text),
        call_ensures(parse_u64, (bytes,), number),
        bytes@ == text@,
    ensures
        number == Some(n),
        forall|i: int| 0 <= i < text@.len() ==> 0x30 <= #[trigger] text@[i] <= 0x39,
        text@.len() > 1 ==> text@[0] != 0x30,
        text@.len() > 0,
{
    reading_a_written_number_gives_it_back(n);
    written_digits_stand_for_the_number(n as nat);
    assert forall|i: int| 0 <= i < text@.len() implies 0x30 <= #[trigger] text@[i] <= 0x39 by {
        assert(is_digit(decimal_digits(n as nat)[i]));
    }
}

} // verus!
