//! The session token: the identity of its holder, framed as bytes that a
//! check byte closes and written in hexadecimal digits. A token is accepted
//! only in whole: whoever changes one character of it gets no identity out
//! of it.
//!
//! A token takes no key and is no signature: the check byte shows a token
//! that was damaged, not one that was made by somebody else. Signing a token
//! with the service's key, or keeping it out of a caller's hands, is the work
//! of the transport that carries it.
//!
//! The frame: the identifier in 16 bytes, lowest first; the email in UTF-8;
//! one byte that holds the sum of all bytes before it, modulo 256. The token:
//! two lower-case hexadecimal digits for each byte of the frame.

use vstd::prelude::*;
use vstd::bytes::*;
use vstd::string::*;
use vstd::utf8::*;

use crate::errors::{AuthError, AuthErrorView};
use crate::models::{SessionUser, SessionUserView};

verus! {

/// The sum of the bytes of a sequence.
pub open spec fn byte_sum(bytes: Seq<u8>) -> int
    decreases bytes.len(),
{
    if bytes.len() == 0 {
        0
    } else {
        byte_sum(bytes.drop_last()) + bytes.last()
    }
}

/// The byte that closes a frame with the given bytes before it.
pub open spec fn check_byte(body: Seq<u8>) -> u8 {
    (byte_sum(body) % 256) as u8
}

/// What a frame holds before its check byte.
pub open spec fn frame_body(user: SessionUserView) -> Seq<u8> {
    spec_u128_to_le_bytes(user.id) + encode_utf8(user.email)
}

/// The frame of an identity.
pub open spec fn framed(user: SessionUserView) -> Seq<u8> {
    frame_body(user).push(check_byte(frame_body(user)))
}

/// The identity that a frame holds, if it is one: it is long enough for an
/// identifier and a check byte, its last byte is the check byte of the rest,
/// and what stands between the identifier and the check byte is UTF-8.
pub open spec fn unframed(frame: Seq<u8>) -> Option<SessionUserView> {
    if frame.len() < 17 {
        None
    } else {
        let body = frame.drop_last();
        let email = body.subrange(16, body.len() as int);
        if frame.last() == check_byte(body) && valid_utf8(email) {
            Some(
                SessionUserView {
                    id: spec_u128_from_le_bytes(body.subrange(0, 16)),
                    email: decode_utf8(email),
                },
            )
        } else {
            None
        }
    }
}

/// The hexadecimal digit for a number below 16.
pub open spec fn hex_digit(value: int) -> char {
    if value == 0 {
        '0'
    } else if value == 1 {
        '1'
    } else if value == 2 {
        '2'
    } else if value == 3 {
        '3'
    } else if value == 4 {
        '4'
    } else if value == 5 {
        '5'
    } else if value == 6 {
        '6'
    } else if value == 7 {
        '7'
    } else if value == 8 {
        '8'
    } else if value == 9 {
        '9'
    } else if value == 10 {
        'a'
    } else if value == 11 {
        'b'
    } else if value == 12 {
        'c'
    } else if value == 13 {
        'd'
    } else if value == 14 {
        'e'
    } else {
        'f'
    }
}

/// The number that a character writes as a hexadecimal digit, if it is one
/// of the sixteen that tokens are written with.
pub open spec fn hex_value(digit: char) -> Option<int> {
    if digit == '0' {
        Some(0)
    } else if digit == '1' {
        Some(1)
    } else if digit == '2' {
        Some(2)
    } else if digit == '3' {
        Some(3)
    } else if digit == '4' {
        Some(4)
    } else if digit == '5' {
        Some(5)
    } else if digit == '6' {
        Some(6)
    } else if digit == '7' {
        Some(7)
    } else if digit == '8' {
        Some(8)
    } else if digit == '9' {
        Some(9)
    } else if digit == 'a' {
        Some(10)
    } else if digit == 'b' {
        Some(11)
    } else if digit == 'c' {
        Some(12)
    } else if digit == 'd' {
        Some(13)
    } else if digit == 'e' {
        Some(14)
    } else if digit == 'f' {
        Some(15)
    } else {
        None
    }
}

/// Bytes in hexadecimal digits: two for each byte, the higher half first.
pub open spec fn hex(bytes: Seq<u8>) -> Seq<char> {
    Seq::new(
        2 * bytes.len(),
        |i: int|
            hex_digit(
                if i % 2 == 0 {
                    bytes[i / 2] as int / 16
                } else {
                    bytes[i / 2] as int % 16
                },
            ),
    )
}

/// Whether a text is bytes in hexadecimal digits.
pub open spec fn is_hex(text: Seq<char>) -> bool {
    &&& text.len() % 2 == 0
    &&& forall|i: int| 0 <= i < text.len() ==> hex_value(#[trigger] text[i]) is Some
}

/// The bytes that a text in hexadecimal digits writes.
pub open spec fn unhex(text: Seq<char>) -> Seq<u8> {
    Seq::new(
        text.len() / 2,
        |i: int| (hex_value(text[2 * i])->0 * 16 + hex_value(text[2 * i + 1])->0) as u8,
    )
}

/// The token of an identity.
pub open spec fn encoded(user: SessionUserView) -> Seq<char> {
    hex(framed(user))
}

/// The identity that a token holds, if it is one: it is written in
/// hexadecimal digits, and the bytes that they write are a frame.
pub open spec fn decoded(token: Seq<char>) -> Option<SessionUserView> {
    if is_hex(token) {
        unframed(unhex(token))
    } else {
        None
    }
}

/// What the service keeps for one caller between requests: the token of the
/// caller's identity, once signed in.
#[derive(Debug)]
pub struct Session {
    pub user: Option<String>,
}

impl Session {
    /// The token that the session keeps, if any.
    pub open spec fn token(&self) -> Option<Seq<char>> {
        match self.user {
            Some(token) => Some(token@),
            None => None,
        }
    }

    /// The identity of the session's holder, if the session keeps a token
    /// and the token is one.
    pub open spec fn holder(&self) -> Option<SessionUserView> {
        match self.token() {
            Some(token) => decoded(token),
            None => None,
        }
    }

    /// A session that keeps nothing.
    pub fn new() -> (session: Session)
        ensures
            session.token() is None,
    {
        Session { user: None }
    }

    /// A session that keeps what was stored for the caller.
    pub fn resume(stored: Option<String>) -> (session: Session)
        ensures
            session.user == stored,
    {
        Session { user: stored }
    }

    /// Forgets the holder.
    pub fn clear(&mut self)
        ensures
            final(self).token() is None,
    {
        self.user = None;
    }
}

/// The failure of every read of a session that holds no identity.
pub open spec fn no_session() -> AuthErrorView {
    AuthErrorView::AuthenticationError("Could not retrieve user from session"@)
}

/// Calls `String::from_utf8` of std. Trusted: as std documents, the bytes
/// become a string exactly where they are valid UTF-8, and the string then
/// holds the characters that they encode.
#[verifier::external_body]
fn string_from_utf8(bytes: Vec<u8>) -> (r: Option<String>)
    ensures
        match r {
            Some(text) => valid_utf8(bytes@) && text@ == decode_utf8(bytes@),
            None => !valid_utf8(bytes@),
        },
{
    String::from_utf8(bytes).ok()
}

/// The sum of the bytes of a sequence changes with one of its bytes as that
/// byte does.
pub proof fn lemma_byte_sum_update(bytes: Seq<u8>, at: int, byte: u8)
    requires
        0 <= at < bytes.len(),
    ensures
        byte_sum(bytes.update(at, byte)) == byte_sum(bytes) - bytes[at] + byte,
    decreases bytes.len(),
{
    let changed = bytes.update(at, byte);
    if at == bytes.len() - 1 {
        assert(changed.drop_last() =~= bytes.drop_last());
    } else {
        assert(changed.drop_last() =~= bytes.drop_last().update(at, byte));
        lemma_byte_sum_update(bytes.drop_last(), at, byte);
    }
}

/// A frame that was made for an identity holds that identity.
pub proof fn lemma_unframe_frame(user: SessionUserView)
    ensures
        unframed(framed(user)) == Some(user),
{
    let body = frame_body(user);
    let frame = framed(user);
    lemma_auto_spec_u128_to_from_le_bytes();
    broadcast use encode_utf8_valid_utf8, encode_utf8_decode_utf8;
    assert(frame.drop_last() =~= body);
    assert(body.subrange(0, 16) =~= spec_u128_to_le_bytes(user.id));
    assert(body.subrange(16, body.len() as int) =~= encode_utf8(user.email));
}

/// A frame with one byte changed is no frame.
pub proof fn lemma_changed_frame_refused(frame: Seq<u8>, at: int, byte: u8)
    requires
        unframed(frame) is Some,
        0 <= at < frame.len(),
        byte != frame[at],
    ensures
        unframed(frame.update(at, byte)) is None,
{
    let changed = frame.update(at, byte);
    let body = frame.drop_last();
    if at == frame.len() - 1 {
        assert(changed.drop_last() =~= body);
    } else {
        assert(changed.drop_last() =~= body.update(at, byte));
        lemma_byte_sum_update(body, at, byte);
    }
}

/// Only the frame that is made for an identity holds it.
pub proof fn lemma_frame_is_canonical(frame: Seq<u8>)
    requires
        unframed(frame) is Some,
    ensures
        framed(unframed(frame)->0) == frame,
{
    let body = frame.drop_last();
    let email = body.subrange(16, body.len() as int);
    lemma_auto_spec_u128_to_from_le_bytes();
    broadcast use decode_utf8_encode_utf8;
    assert(body =~= body.subrange(0, 16) + email);
    assert(frame =~= body.push(frame.last()));
}

/// Bytes written in hexadecimal digits are read back as they were.
pub proof fn lemma_unhex_hex(bytes: Seq<u8>)
    ensures
        is_hex(hex(bytes)),
        unhex(hex(bytes)) == bytes,
{
    let text = hex(bytes);
    assert forall|i: int| 0 <= i < text.len() implies hex_value(#[trigger] text[i]) is Some by {
        let byte = bytes[i / 2] as int;
        assert(0 <= byte / 16 < 16 && 0 <= byte % 16 < 16);
    }
    assert forall|k: int| 0 <= k < bytes.len() implies unhex(text)[k] == bytes[k] by {
        let byte = bytes[k] as int;
        assert((2 * k) / 2 == k && (2 * k) % 2 == 0);
        assert((2 * k + 1) / 2 == k && (2 * k + 1) % 2 == 1);
        assert(0 <= byte / 16 < 16 && 0 <= byte % 16 < 16);
        assert(hex_value(hex_digit(byte / 16)) == Some(byte / 16));
        assert(hex_value(hex_digit(byte % 16)) == Some(byte % 16));
        assert((byte / 16) * 16 + byte % 16 == byte);
    }
    assert(unhex(text) =~= bytes);
}

/// Only the hexadecimal digits that are written for bytes are read as them.
pub proof fn lemma_hex_is_canonical(text: Seq<char>)
    requires
        is_hex(text),
    ensures
        hex(unhex(text)) == text,
{
    let bytes = unhex(text);
    assert forall|i: int| 0 <= i < text.len() implies hex(bytes)[i] == text[i] by {
        let k = i / 2;
        let high = hex_value(text[2 * k])->0;
        let low = hex_value(text[2 * k + 1])->0;
        assert(hex_value(text[2 * k]) is Some);
        assert(hex_value(text[2 * k + 1]) is Some);
        assert(0 <= high < 16 && 0 <= low < 16);
        assert(bytes[k] as int == high * 16 + low);
        assert((high * 16 + low) / 16 == high && (high * 16 + low) % 16 == low);
        assert(hex_digit(high) == text[2 * k]);
        assert(hex_digit(low) == text[2 * k + 1]);
    }
    assert(hex(bytes) =~= text);
}

/// A token that was written for an identity is read as that identity.
pub proof fn lemma_decode_encode(user: SessionUserView)
    ensures
        decoded(encoded(user)) == Some(user),
{
    lemma_unhex_hex(framed(user));
    lemma_unframe_frame(user);
}

/// A token with one character changed is no token.
pub proof fn lemma_changed_token_refused(token: Seq<char>, at: int, digit: char)
    requires
        decoded(token) is Some,
        0 <= at < token.len(),
        digit != token[at],
    ensures
        decoded(token.update(at, digit)) is None,
{
    let changed = token.update(at, digit);
    if is_hex(changed) {
        let k = at / 2;
        let frame = unhex(token);
        let other = unhex(changed);
        assert(hex_value(changed[at]) is Some);
        assert(hex_value(token[at]) is Some);
        assert(hex_value(token[2 * k]) is Some);
        assert(hex_value(token[2 * k + 1]) is Some);
        assert(hex_value(changed[2 * k]) is Some);
        assert(hex_value(changed[2 * k + 1]) is Some);
        assert(hex_value(digit) != hex_value(token[at]));
        assert(other[k] != frame[k]);
        assert forall|j: int| 0 <= j < frame.len() && j != k implies other[j] == frame[j] by {
            assert(changed[2 * j] == token[2 * j]);
            assert(changed[2 * j + 1] == token[2 * j + 1]);
        }
        assert(other =~= frame.update(k, other[k]));
        lemma_changed_frame_refused(frame, k, other[k]);
    }
}

/// Only the token that is written for an identity is read as it.
pub proof fn lemma_token_is_canonical(token: Seq<char>)
    requires
        decoded(token) is Some,
    ensures
        encoded(decoded(token)->0) == token,
{
    lemma_frame_is_canonical(unhex(token));
    lemma_hex_is_canonical(token);
}

fn checksum(bytes: &Vec<u8>) -> (c: u8)
    ensures
        c == check_byte(bytes@),
{
    let mut sum: u8 = 0;
    let mut i: usize = 0;
    while i < bytes.len()
        invariant
            i <= bytes.len(),
            sum == check_byte(bytes@.take(i as int)),
        decreases bytes.len() - i,
    {
        let byte: u8 = bytes[i];
        let wide: u16 = (sum as u16) + (byte as u16);
        proof {
            let before = bytes@.take(i as int);
            let after = bytes@.take(i + 1);
            assert(after.drop_last() =~= before);
            assert(after.last() == byte);
        }
        sum = (wide % 256) as u8;
        i = i + 1;
    }
    proof {
        assert(bytes@.take(i as int) =~= bytes@);
    }
    sum
}

/// Makes the frame of an identity.
pub fn frame(user: &SessionUser) -> (bytes: Vec<u8>)
    ensures
        bytes@ == framed(user@),
{
    let mut bytes: Vec<u8> = u128_to_le_bytes(user.id);
    let email: &[u8] = user.email.as_str().as_bytes();
    let ghost head = bytes@;
    let mut i: usize = 0;
    while i < email.len()
        invariant
            i <= email.len(),
            bytes@ == head + email@.take(i as int),
        decreases email.len() - i,
    {
        bytes.push(email[i]);
        proof {
            assert(email@.take(i + 1) =~= email@.take(i as int).push(email@[i as int]));
            assert(bytes@ =~= head + email@.take(i + 1));
        }
        i = i + 1;
    }
    proof {
        assert(email@.take(i as int) =~= email@);
    }
    let check: u8 = checksum(&bytes);
    bytes.push(check);
    bytes
}

/// Reads a frame. The identity comes back exactly where the bytes are a
/// frame; every other sequence of bytes is refused with the same error.
pub fn unframe(bytes: &[u8]) -> (r: Result<SessionUser, AuthError>)
    ensures
        match unframed(bytes@) {
            Some(user) => r matches Ok(found) && found@ == user,
            None => r matches Err(error) && error@ == no_session(),
        },
{
    let n: usize = bytes.len();
    if n < 17 {
        return Err(
            AuthError::AuthenticationError(
                String::from_str("Could not retrieve user from session"),
            ),
        );
    }
    let mut body: Vec<u8> = Vec::new();
    let mut email: Vec<u8> = Vec::new();
    let mut i: usize = 0;
    while i < n - 1
        invariant
            n == bytes.len(),
            n >= 17,
            i <= n - 1,
            body@ == bytes@.take(i as int),
            email@ == if i <= 16 {
                Seq::<u8>::empty()
            } else {
                bytes@.subrange(16, i as int)
            },
        decreases n - i,
    {
        body.push(bytes[i]);
        if i >= 16 {
            email.push(bytes[i]);
        }
        proof {
            assert(bytes@.take(i + 1) =~= bytes@.take(i as int).push(bytes@[i as int]));
            if i >= 16 {
                assert(email@ =~= bytes@.subrange(16, i + 1));
            }
        }
        i = i + 1;
    }
    proof {
        assert(body@ =~= bytes@.drop_last());
        assert(email@ =~= bytes@.drop_last().subrange(16, n - 1));
    }
    let check: u8 = checksum(&body);
    if bytes[n - 1] != check {
        return Err(
            AuthError::AuthenticationError(
                String::from_str("Could not retrieve user from session"),
            ),
        );
    }
    let mut head: Vec<u8> = Vec::new();
    let mut k: usize = 0;
    while k < 16
        invariant
            k <= 16,
            n >= 17,
            n == bytes.len(),
            head@ == bytes@.take(k as int),
        decreases 16 - k,
    {
        head.push(bytes[k]);
        proof {
            assert(bytes@.take(k + 1) =~= bytes@.take(k as int).push(bytes@[k as int]));
        }
        k = k + 1;
    }
    proof {
        assert(head@ =~= bytes@.drop_last().subrange(0, 16));
    }
    let id: u128 = u128_from_le_bytes(head.as_slice());
    match string_from_utf8(email) {
        Some(text) => Ok(SessionUser { id, email: text }),
        None => Err(
            AuthError::AuthenticationError(
                String::from_str("Could not retrieve user from session"),
            ),
        ),
    }
}

fn digit_text(value: u8) -> (text: &'static str)
    requires
        value < 16,
    ensures
        text@ == seq![hex_digit(value as int)],
{
    proof {
        reveal_strlit("0");
        reveal_strlit("1");
        reveal_strlit("2");
        reveal_strlit("3");
        reveal_strlit("4");
        reveal_strlit("5");
        reveal_strlit("6");
        reveal_strlit("7");
        reveal_strlit("8");
        reveal_strlit("9");
        reveal_strlit("a");
        reveal_strlit("b");
        reveal_strlit("c");
        reveal_strlit("d");
        reveal_strlit("e");
        reveal_strlit("f");
    }
    let text = if value == 0 {
        "0"
    } else if value == 1 {
        "1"
    } else if value == 2 {
        "2"
    } else if value == 3 {
        "3"
    } else if value == 4 {
        "4"
    } else if value == 5 {
        "5"
    } else if value == 6 {
        "6"
    } else if value == 7 {
        "7"
    } else if value == 8 {
        "8"
    } else if value == 9 {
        "9"
    } else if value == 10 {
        "a"
    } else if value == 11 {
        "b"
    } else if value == 12 {
        "c"
    } else if value == 13 {
        "d"
    } else if value == 14 {
        "e"
    } else {
        "f"
    };
    assert(text@ =~= seq![hex_digit(value as int)]);
    text
}

fn digit_value(digit: char) -> (value: Option<u8>)
    ensures
        match value {
            Some(v) => hex_value(digit) == Some(v as int),
            None => hex_value(digit) is None,
        },
{
    if digit == '0' {
        Some(0)
    } else if digit == '1' {
        Some(1)
    } else if digit == '2' {
        Some(2)
    } else if digit == '3' {
        Some(3)
    } else if digit == '4' {
        Some(4)
    } else if digit == '5' {
        Some(5)
    } else if digit == '6' {
        Some(6)
    } else if digit == '7' {
        Some(7)
    } else if digit == '8' {
        Some(8)
    } else if digit == '9' {
        Some(9)
    } else if digit == 'a' {
        Some(10)
    } else if digit == 'b' {
        Some(11)
    } else if digit == 'c' {
        Some(12)
    } else if digit == 'd' {
        Some(13)
    } else if digit == 'e' {
        Some(14)
    } else if digit == 'f' {
        Some(15)
    } else {
        None
    }
}

/// Writes bytes in hexadecimal digits.
pub fn to_hex(bytes: &[u8]) -> (text: String)
    ensures
        text@ == hex(bytes@),
{
    let mut text = String::new();
    let mut i: usize = 0;
    while i < bytes.len()
        invariant
            i <= bytes.len(),
            text@ == hex(bytes@.take(i as int)),
        decreases bytes.len() - i,
    {
        let byte: u8 = bytes[i];
        let ghost before = text@;
        text.append(digit_text(byte / 16));
        text.append(digit_text(byte % 16));
        proof {
            let upto = bytes@.take(i + 1);
            assert(upto[i as int] == byte);
            assert forall|j: int| 0 <= j < 2 * i implies hex(upto)[j] == before[j] by {
                assert(upto[j / 2] == bytes@.take(i as int)[j / 2]);
            }
            assert((2 * i) / 2 == i && (2 * i) % 2 == 0);
            assert((2 * i + 1) / 2 == i && (2 * i + 1) % 2 == 1);
            assert(text@ =~= hex(upto));
        }
        i = i + 1;
    }
    proof {
        assert(bytes@.take(i as int) =~= bytes@);
    }
    text
}

/// Reads bytes from hexadecimal digits: there are none where the text is
/// of odd length or holds another character.
pub fn from_hex(text: &str) -> (r: Option<Vec<u8>>)
    ensures
        match r {
            Some(bytes) => is_hex(text@) && bytes@ == unhex(text@),
            None => !is_hex(text@),
        },
{
    let n: usize = text.unicode_len();
    if n % 2 != 0 {
        return None;
    }
    let mut bytes: Vec<u8> = Vec::new();
    let mut i: usize = 0;
    while i < n
        invariant
            n == text@.len(),
            n % 2 == 0,
            i % 2 == 0,
            i <= n,
            forall|j: int| 0 <= j < i ==> hex_value(#[trigger] text@[j]) is Some,
            bytes@ == unhex(text@.take(i as int)),
        decreases n - i,
    {
        let high = match digit_value(text.get_char(i)) {
            Some(high) => high,
            None => {
                return None;
            },
        };
        let low = match digit_value(text.get_char(i + 1)) {
            Some(low) => low,
            None => {
                return None;
            },
        };
        let ghost before = bytes@;
        bytes.push(high * 16 + low);
        proof {
            let upto = text@.take(i + 2);
            assert((i + 2) / 2 == i / 2 + 1);
            assert(2 * (i / 2) == i);
            assert(upto[i as int] == text@[i as int]);
            assert(upto[i + 1] == text@[i + 1]);
            assert forall|k: int| 0 <= k < i / 2 implies unhex(upto)[k] == before[k] by {
                assert(upto[2 * k] == text@.take(i as int)[2 * k]);
                assert(upto[2 * k + 1] == text@.take(i as int)[2 * k + 1]);
            }
            assert(bytes@ =~= unhex(upto));
        }
        i = i + 2;
    }
    proof {
        assert(text@.take(i as int) =~= text@);
    }
    Some(bytes)
}

/// Writes the token of an identity.
pub fn encode(user: &SessionUser) -> (token: String)
    ensures
        token@ == encoded(user@),
{
    let bytes = frame(user);
    to_hex(bytes.as_slice())
}

/// Reads a token. The identity comes back exactly where the text is a
/// token; every other text is refused with the same error.
pub fn decode(token: &str) -> (r: Result<SessionUser, AuthError>)
    ensures
        match decoded(token@) {
            Some(user) => r matches Ok(found) && found@ == user,
            None => r matches Err(error) && error@ == no_session(),
        },
{
    match from_hex(token) {
        Some(bytes) => unframe(bytes.as_slice()),
        None => Err(
            AuthError::AuthenticationError(
                String::from_str("Could not retrieve user from session"),
            ),
        ),
    }
}

} // verus!
