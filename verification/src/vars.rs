//! The settings of the service, from what its environment holds: the value
//! that is configured, or the one that stands in for a missing one; the
//! secret, for which nothing stands in; and the reading of a port number.

use vstd::prelude::*;
use vstd::string::*;

use crate::models::text_view;

verus! {

/// The value of a setting: the configured one, or else the default.
pub open spec fn setting(configured: Option<String>, default: Seq<char>) -> Seq<char> {
    match configured {
        Some(value) => value@,
        None => default,
    }
}

fn or_default(configured: Option<String>, default: &str) -> (r: String)
    ensures
        r@ == setting(configured, default@),
{
    match configured {
        Some(value) => value,
        None => String::from_str(default),
    }
}

/// The secret that is configured, if one is: a text of at least one
/// character.
pub open spec fn secret_configured(configured: Option<String>) -> Option<Seq<char>> {
    match configured {
        Some(value) if value@.len() > 0 => Some(value@),
        _ => None,
    }
}

/// The secret that passwords are hashed with. There is none where none is
/// configured or the configured one is empty: no secret stands in for a
/// missing one, and the service is not to start without.
pub fn secret_key(configured: Option<String>) -> (r: Option<String>)
    ensures
        text_view(r) == secret_configured(configured),
{
    match configured {
        Some(value) => {
            if value.as_str().unicode_len() > 0 {
                Some(value)
            } else {
                None
            }
        },
        None => None,
    }
}

/// The name of the host that the service listens on, `localhost` by default.
pub fn domain(configured: Option<String>) -> (r: String)
    ensures
        r@ == setting(configured, "localhost"@),
{
    or_default(configured, "localhost")
}

/// The address under which the service is reached from outside,
/// `http://localhost:3000` by default.
pub fn domain_url(configured: Option<String>) -> (r: String)
    ensures
        r@ == setting(configured, "http://localhost:3000"@),
{
    or_default(configured, "http://localhost:3000")
}

/// Whether a character is a decimal digit.
pub open spec fn is_digit(c: char) -> bool {
    '0' <= c <= '9'
}

/// The number that a sequence of decimal digits writes.
pub open spec fn digits_value(digits: Seq<char>) -> nat
    decreases digits.len(),
{
    if digits.len() == 0 {
        0
    } else {
        digits_value(digits.drop_last()) * 10 + (digits.last() as nat - '0' as nat) as nat
    }
}

/// The digits of a text that writes a number: all of it, but for a plus sign
/// in front.
pub open spec fn unsigned_part(text: Seq<char>) -> Seq<char> {
    if text.len() > 0 && text[0] == '+' {
        text.subrange(1, text.len() as int)
    } else {
        text
    }
}

/// The port that a text writes, if it writes one: decimal digits, at least
/// one, with or without a plus sign in front, and a value of at most 65535.
pub open spec fn port_read(text: Seq<char>) -> Option<u16> {
    let digits = unsigned_part(text);
    if digits.len() > 0 && (forall|i: int| 0 <= i < digits.len() ==> is_digit(#[trigger] digits[i]))
        && digits_value(digits) <= u16::MAX {
        Some(digits_value(digits) as u16)
    } else {
        None
    }
}

/// The value of a sequence of digits is at least that of each of its
/// beginnings.
pub proof fn lemma_digits_value_grows(digits: Seq<char>, upto: int)
    requires
        0 <= upto <= digits.len(),
        forall|i: int| 0 <= i < digits.len() ==> is_digit(#[trigger] digits[i]),
    ensures
        digits_value(digits.take(upto)) <= digits_value(digits),
    decreases digits.len() - upto,
{
    if upto == digits.len() {
        assert(digits.take(upto) =~= digits);
    } else {
        let next = digits.take(upto + 1);
        assert(next.drop_last() =~= digits.take(upto));
        assert(next.last() == digits[upto]);
        assert(is_digit(digits[upto]));
        lemma_digits_value_grows(digits, upto + 1);
    }
}

/// Reads a port number.
pub fn port(text: &str) -> (r: Option<u16>)
    ensures
        r == port_read(text@),
{
    let n: usize = text.unicode_len();
    if n == 0 {
        return None;
    }
    let start: usize = if text.get_char(0) == '+' {
        1
    } else {
        0
    };
    if start == n {
        return None;
    }
    let ghost digits = unsigned_part(text@);
    let mut value: u32 = 0;
    let mut i: usize = start;
    while i < n
        invariant
            n == text@.len(),
            start <= i <= n,
            start < n,
            digits == text@.subrange(start as int, n as int),
            digits == unsigned_part(text@),
            forall|k: int| 0 <= k < i - start ==> is_digit(#[trigger] digits[k]),
            value == digits_value(digits.take(i - start)),
            value <= u16::MAX,
        decreases n - i,
    {
        let c: char = text.get_char(i);
        assert(c == digits[i - start]);
        if !('0' <= c && c <= '9') {
            return None;
        }
        let digit: u32 = (c as u32) - ('0' as u32);
        let next: u32 = value * 10 + digit;
        proof {
            let upto = digits.take(i - start + 1);
            assert(upto.drop_last() =~= digits.take(i - start));
            assert(upto.last() == c);
            assert(digits_value(upto) == next);
        }
        if next > 65535 {
            proof {
                if forall|k: int| 0 <= k < digits.len() ==> is_digit(#[trigger] digits[k]) {
                    lemma_digits_value_grows(digits, i - start + 1);
                }
            }
            return None;
        }
        value = next;
        i = i + 1;
    }
    proof {
        assert(digits.take(i - start) =~= digits);
    }
    Some(value as u16)
}

/// Reads the port number of the mail server: a port number like any other.
pub fn smtp_port(text: &str) -> (r: Option<u16>)
    ensures
        r == port_read(text@),
{
    port(text)
}

} // verus!
