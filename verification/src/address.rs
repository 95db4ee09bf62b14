//! Validation of the address that a caller gives for a device on the bus.
//!
//! A device is named either by its primary address, a number from 0 to 255
//! in one to three characters, or by its secondary address, sixteen
//! hexadecimal digits.

use crate::text::{decimal_digits, decimal_text, digit_char};
use vstd::prelude::*;
use vstd::string::*;

verus! {

/// The message that goes with a rejected address.
pub open spec fn invalid_address_text() -> Seq<char> {
    "Not a valid primary or secondary address"@
}

/// True for `0`-`9`.
pub open spec fn is_decimal_digit(c: char) -> bool {
    '0' <= c <= '9'
}

/// True for `0`-`9`, `a`-`f` and `A`-`F`.
pub open spec fn is_hex_digit(c: char) -> bool {
    ('0' <= c <= '9') || ('a' <= c <= 'f') || ('A' <= c <= 'F')
}

/// True when every character of `s` is a decimal digit.
pub open spec fn all_decimal_digits(s: Seq<char>) -> bool {
    forall|i: int| 0 <= i < s.len() ==> is_decimal_digit(#[trigger] s[i])
}

/// True when every character of `s` is a hexadecimal digit.
pub open spec fn all_hex_digits(s: Seq<char>) -> bool {
    forall|i: int| 0 <= i < s.len() ==> is_hex_digit(#[trigger] s[i])
}

/// The number that the decimal digits `s` write; 0 for the empty text.
pub open spec fn digits_value(s: Seq<char>) -> int
    decreases s.len(),
{
    if s.len() == 0 {
        0
    } else {
        10 * digits_value(s.drop_last()) + (s.last() as int - '0' as int)
    }
}

/// The integer that `s` writes in base 10: an optional `+` or `-`, then at
/// least one decimal digit and nothing else.
pub open spec fn decimal_integer(s: Seq<char>) -> Option<int> {
    if s.len() > 0 && (s[0] == '+' || s[0] == '-') {
        let digits = s.subrange(1, s.len() as int);
        if digits.len() > 0 && all_decimal_digits(digits) {
            if s[0] == '-' {
                Some(-digits_value(digits))
            } else {
                Some(digits_value(digits))
            }
        } else {
            None
        }
    } else if s.len() > 0 && all_decimal_digits(s) {
        Some(digits_value(s))
    } else {
        None
    }
}

/// A primary address: one to three characters that write an integer from 0
/// to 255.
pub open spec fn is_primary_address(s: Seq<char>) -> bool {
    &&& 1 <= s.len() <= 3
    &&& decimal_integer(s) is Some
    &&& 0 <= decimal_integer(s)->0 <= 255
}

/// A secondary address: sixteen hexadecimal digits.
pub open spec fn is_secondary_address(s: Seq<char>) -> bool {
    s.len() == 16 && all_hex_digits(s)
}

/// An address that the gateway accepts.
pub open spec fn valid_address(s: Seq<char>) -> bool {
    is_primary_address(s) || is_secondary_address(s)
}

fn is_decimal_digit_char(c: char) -> (b: bool)
    ensures
        b == is_decimal_digit(c),
{
    '0' <= c && c <= '9'
}

fn is_hex_digit_char(c: char) -> (b: bool)
    ensures
        b == is_hex_digit(c),
{
    ('0' <= c && c <= '9') || ('a' <= c && c <= 'f') || ('A' <= c && c <= 'F')
}

/// Tells whether the `len` characters of `s` are all hexadecimal digits.
fn only_hex_digits(s: &str, len: usize) -> (b: bool)
    requires
        len == s@.len(),
    ensures
        b == all_hex_digits(s@),
{
    let mut i: usize = 0;
    while i < len
        invariant
            i <= len,
            len == s@.len(),
            forall|j: int| 0 <= j < i ==> is_hex_digit(#[trigger] s@[j]),
        decreases len - i,
    {
        if !is_hex_digit_char(s.get_char(i)) {
            return false;
        }
        i = i + 1;
    }
    true
}

/// Reads the characters of `s` from `start` on as decimal digits.
fn read_digits(s: &str, start: usize, len: usize) -> (r: Option<u32>)
    requires
        len == s@.len(),
        start <= len <= 3,
    ensures
        r is Some <==> all_decimal_digits(s@.subrange(start as int, len as int)),
        r matches Some(v) ==> v == digits_value(s@.subrange(start as int, len as int)),
        r matches Some(v) ==> len - start <= 2 ==> v <= 99,
{
    let mut value: u32 = 0;
    let mut i: usize = start;
    assert(s@.subrange(start as int, start as int) =~= Seq::<char>::empty());
    while i < len
        invariant
            start <= i <= len,
            len == s@.len(),
            len <= 3,
            all_decimal_digits(s@.subrange(start as int, i as int)),
            value == digits_value(s@.subrange(start as int, i as int)),
            value <= 999,
            i - start <= 2 ==> value <= 99,
            i - start <= 1 ==> value <= 9,
            i - start == 0 ==> value == 0,
        decreases len - i,
    {
        let c = s.get_char(i);
        let ghost read = s@.subrange(start as int, i as int);
        let ghost next = s@.subrange(start as int, i + 1);
        proof {
            assert(next.drop_last() =~= read);
            assert(next.last() == c);
        }
        if !is_decimal_digit_char(c) {
            proof {
                let whole = s@.subrange(start as int, len as int);
                assert(whole[i - start] == c);
            }
            return None;
        }
        let digit: u32 = c as u32 - '0' as u32;
        value = value * 10 + digit;
        proof {
            assert forall|j: int| 0 <= j < next.len() implies is_decimal_digit(
                #[trigger] next[j],
            ) by {
                if j < read.len() {
                    assert(next[j] == read[j]);
                }
            }
        }
        i = i + 1;
    }
    Some(value)
}

/// Checks an address before anything touches the bus: accepted is a primary
/// or a secondary address, everything else is rejected with a message.
pub fn check_address(address: &str) -> (r: Result<(), String>)
    ensures
        r is Ok <==> valid_address(address@),
        r matches Err(e) ==> e@ == invalid_address_text(),
{
    let len = address.unicode_len();
    if len == 16 {
        if only_hex_digits(address, len) {
            Ok(())
        } else {
            Err("Not a valid primary or secondary address".to_owned())
        }
    } else if len >= 1 && len <= 3 {
        let first = address.get_char(0);
        if first == '+' || first == '-' {
            match read_digits(address, 1, len) {
                Some(v) => {
                    if len > 1 && (first == '+' || v == 0) {
                        Ok(())
                    } else {
                        Err("Not a valid primary or secondary address".to_owned())
                    }
                },
                None => Err("Not a valid primary or secondary address".to_owned()),
            }
        } else {
            assert(address@.subrange(0, len as int) =~= address@);
            match read_digits(address, 0, len) {
                Some(v) => {
                    if v <= 255 {
                        Ok(())
                    } else {
                        Err("Not a valid primary or secondary address".to_owned())
                    }
                },
                None => Err("Not a valid primary or secondary address".to_owned()),
            }
        }
    } else {
        Err("Not a valid primary or secondary address".to_owned())
    }
}

/// A text of sixteen characters is accepted exactly when all of them are
/// hexadecimal digits.
pub proof fn lemma_sixteen_characters(s: Seq<char>)
    requires
        s.len() == 16,
    ensures
        valid_address(s) <==> all_hex_digits(s),
        valid_address(s) ==> is_secondary_address(s),
{
}

/// A text of one to three characters is accepted exactly when it writes an
/// integer from 0 to 255; one that writes no integer is rejected.
pub proof fn lemma_one_to_three_characters(s: Seq<char>)
    requires
        1 <= s.len() <= 3,
    ensures
        valid_address(s) <==> (decimal_integer(s) is Some && 0 <= decimal_integer(s)->0 <= 255),
        decimal_integer(s) is None ==> !valid_address(s),
        valid_address(s) ==> is_primary_address(s),
{
}

/// One to three decimal digits are accepted exactly when their number is at
/// most 255.
pub proof fn lemma_digits_address(s: Seq<char>)
    requires
        1 <= s.len() <= 3,
        all_decimal_digits(s),
    ensures
        decimal_integer(s) == Some(digits_value(s)),
        0 <= digits_value(s),
        valid_address(s) <==> digits_value(s) <= 255,
{
    lemma_digits_value_bounds(s);
    assert(is_decimal_digit(s[0]));
}

/// Decimal digits write a number that is not negative.
pub proof fn lemma_digits_value_bounds(s: Seq<char>)
    requires
        all_decimal_digits(s),
    ensures
        0 <= digits_value(s),
    decreases s.len(),
{
    if s.len() > 0 {
        let front = s.drop_last();
        assert forall|i: int| 0 <= i < front.len() implies is_decimal_digit(
            #[trigger] front[i],
        ) by {
            assert(front[i] == s[i]);
        }
        lemma_digits_value_bounds(front);
        assert(is_decimal_digit(s[s.len() - 1]));
    }
}

/// The decimal digits of a number are decimal digits, and they write that
/// number.
pub proof fn lemma_decimal_digits_value(n: nat)
    ensures
        decimal_digits(n).len() >= 1,
        all_decimal_digits(decimal_digits(n)),
        digits_value(decimal_digits(n)) == n,
        n < 10 ==> decimal_digits(n).len() == 1,
        10 <= n < 100 ==> decimal_digits(n).len() == 2,
        100 <= n < 1000 ==> decimal_digits(n).len() == 3,
    decreases n,
{
    let d = decimal_digits(n);
    if n < 10 {
        assert(d.drop_last() =~= Seq::<char>::empty());
        assert(digits_value(d.drop_last()) == 0);
        assert(digits_value(d) == 10 * 0 + (d.last() as int - '0' as int));
    } else {
        lemma_decimal_digits_value(n / 10);
        let front = decimal_digits(n / 10);
        assert(d.drop_last() =~= front);
        assert(d.last() == digit_char((n % 10) as int));
        assert forall|i: int| 0 <= i < d.len() implies is_decimal_digit(#[trigger] d[i]) by {
            if i < front.len() {
                assert(d[i] == front[i]);
            }
        }
    }
}

/// Reading the decimal text of an integer gives the integer back.
pub proof fn lemma_decimal_round_trip(n: int)
    ensures
        decimal_integer(decimal_text(n)) == Some(n),
{
    let s = decimal_text(n);
    if n < 0 {
        lemma_decimal_digits_value((-n) as nat);
        assert(s.subrange(1, s.len() as int) =~= decimal_digits((-n) as nat));
    } else {
        lemma_decimal_digits_value(n as nat);
        assert(is_decimal_digit(s[0]));
    }
}

/// Every number from 0 to 255, written in decimal, is accepted as a primary
/// address.
pub proof fn lemma_number_address(n: int)
    requires
        0 <= n <= 255,
    ensures
        is_primary_address(decimal_text(n)),
        valid_address(decimal_text(n)),
{
    lemma_decimal_round_trip(n);
    lemma_decimal_digits_value(n as nat);
}

/// An accepted address holds ASCII characters only.
pub proof fn lemma_valid_address_is_ascii(s: Seq<char>)
    requires
        valid_address(s),
    ensures
        forall|i: int| 0 <= i < s.len() ==> (#[trigger] s[i]) as u32 <= 0x7f,
{
    assert forall|i: int| 0 <= i < s.len() implies (#[trigger] s[i]) as u32 <= 0x7f by {
        if is_secondary_address(s) {
            assert(is_hex_digit(s[i]));
        } else if s[0] == '+' || s[0] == '-' {
            if i > 0 {
                let digits = s.subrange(1, s.len() as int);
                assert(is_decimal_digit(digits[i - 1]));
            }
        } else {
            assert(is_decimal_digit(s[i]));
        }
    }
}

} // verus!
