//! Connection tokens: a payload in base64, a dot, and the payload's
//! HMAC-SHA256 under the server's secret, in hex.

use vstd::prelude::*;
use vstd::string::*;
use vstd::utf8::encode_utf8;
use base64::Engine;
use base64::engine::general_purpose;
use hmac::{Hmac, Mac};
use sha2::Sha256;

verus! {

/// The character of the standard base64 alphabet for a number below 64.
pub open spec fn base64_char(n: int) -> char {
    if n < 26 {
        (('A' as u8) + n) as u8 as char
    } else if n < 52 {
        (('a' as u8) + (n - 26)) as u8 as char
    } else if n < 62 {
        (('0' as u8) + (n - 52)) as u8 as char
    } else if n == 62 {
        '+'
    } else {
        '/'
    }
}

/// The base64 text of the bytes, in the standard alphabet with padding: four
/// characters for every three bytes, six bits each, and `=` where the last
/// group is short.
pub open spec fn base64_text(bytes: Seq<u8>) -> Seq<char>
    decreases bytes.len(),
{
    if bytes.len() == 0 {
        Seq::empty()
    } else if bytes.len() == 1 {
        seq![base64_char(bytes[0] as int / 4), base64_char(bytes[0] as int % 4 * 16), '=', '=']
    } else if bytes.len() == 2 {
        seq![
            base64_char(bytes[0] as int / 4),
            base64_char(bytes[0] as int % 4 * 16 + bytes[1] as int / 16),
            base64_char(bytes[1] as int % 16 * 4),
            '=',
        ]
    } else {
        seq![
            base64_char(bytes[0] as int / 4),
            base64_char(bytes[0] as int % 4 * 16 + bytes[1] as int / 16),
            base64_char(bytes[1] as int % 16 * 4 + bytes[2] as int / 64),
            base64_char(bytes[2] as int % 64),
        ] + base64_text(bytes.skip(3))
    }
}

/// The HMAC-SHA256 tag of the message under the key.
pub uninterp spec fn hmac_sha256(key: Seq<u8>, message: Seq<u8>) -> Seq<u8>;

/// The lower-case hex digit for a number below 16.
pub open spec fn hex_digit(n: int) -> char {
    if n < 10 {
        (('0' as u8) + n) as u8 as char
    } else {
        (('a' as u8) + (n - 10)) as u8 as char
    }
}

/// The bytes in lower-case hex, two digits for each, the high one first.
pub open spec fn hex_text(bytes: Seq<u8>) -> Seq<char> {
    Seq::new(
        2 * bytes.len(),
        |i: int|
            if i % 2 == 0 {
                hex_digit(bytes[i / 2] as int / 16)
            } else {
                hex_digit(bytes[i / 2] as int % 16)
            },
    )
}

/// The character for a digit below 10.
pub open spec fn digit_char(d: int) -> char {
    (('0' as u8) + d) as u8 as char
}

/// The decimal text of a number, without leading zeros.
pub open spec fn decimal_text(n: nat) -> Seq<char>
    decreases n,
{
    if n < 10 {
        seq![digit_char(n as int)]
    } else {
        decimal_text(n / 10).push(digit_char((n % 10) as int))
    }
}

/// What a token signs: the card's number, expiry and verification code and
/// the time of issue, with `|` between them.
pub open spec fn payload_text(
    card_number: Seq<char>,
    good_thru: Seq<char>,
    verify_number: Seq<char>,
    now: u64,
) -> Seq<char> {
    card_number + seq!['|'] + good_thru + seq!['|'] + verify_number + seq!['|'] + decimal_text(
        now as nat,
    )
}

/// An encoded payload and a signature, with a dot between them.
pub open spec fn joined_token(encoded: Seq<char>, signature: Seq<char>) -> Seq<char> {
    encoded + seq!['.'] + signature
}

/// The token for a payload under a secret: both enter as their UTF-8 bytes.
pub open spec fn token_text(secret: Seq<char>, payload: Seq<char>) -> Seq<char> {
    joined_token(
        base64_text(encode_utf8(payload)),
        hex_text(hmac_sha256(encode_utf8(secret), encode_utf8(payload))),
    )
}

/// Calls `encode` of `base64`'s `general_purpose::STANDARD` engine, which
/// writes the bytes in the standard alphabet and pads the last group.
#[verifier::external_body]
fn base64_encode(bytes: &[u8]) -> (text: String)
    ensures
        text@ == base64_text(bytes@),
{
    general_purpose::STANDARD.encode(bytes)
}

/// Computes the HMAC-SHA256 tag of the message with `hmac` and `sha2`, which
/// take a key of any length. The tag is the one that [`hmac_sha256`] names,
/// and has the 32 bytes of a SHA-256 output.
#[verifier::external_body]
fn hmac_sha256_tag(key: &[u8], message: &[u8]) -> (tag: Vec<u8>)
    ensures
        tag@ == hmac_sha256(key@, message@),
        tag@.len() == 32,
{
    let mut mac = Hmac::<Sha256>::new_from_slice(key).expect("HMAC takes a key of any length");
    mac.update(message);
    mac.finalize().into_bytes().to_vec()
}

/// Calls `hex::encode`, which writes each byte as two lower-case hex digits.
#[verifier::external_body]
fn hex_encode(bytes: &[u8]) -> (text: String)
    ensures
        text@ == hex_text(bytes@),
{
    hex::encode(bytes)
}

/// The text of one decimal digit.
fn digit_str(d: u8) -> (s: &'static str)
    requires
        d < 10,
    ensures
        s@ == seq![digit_char(d as int)],
{
    proof {
        reveal_strlit("0");
        reveal_strlit("1");
        reveal_strlit("2");
        reveal_strlit("3");
        reveal_strlit("4");
        reveal_strlit("5");
        reveal_strlit("6");
        reveal_strlit("7");
        reveal_strlit("8");
        reveal_strlit("9");
    }
    let s = if d == 0 {
        "0"
    } else if d == 1 {
        "1"
    } else if d == 2 {
        "2"
    } else if d == 3 {
        "3"
    } else if d == 4 {
        "4"
    } else if d == 5 {
        "5"
    } else if d == 6 {
        "6"
    } else if d == 7 {
        "7"
    } else if d == 8 {
        "8"
    } else {
        "9"
    };
    assert(s@ =~= seq![digit_char(d as int)]);
    s
}

/// Appends the decimal text of `n` to `out`.
pub fn push_decimal(out: &mut String, n: u64)
    ensures
        final(out)@ == old(out)@ + decimal_text(n as nat),
    decreases n,
{
    if n >= 10 {
        push_decimal(out, n / 10);
    }
    out.append(digit_str((n % 10) as u8));
    proof {
        if n >= 10 {
            assert(old(out)@ + decimal_text((n / 10) as nat) + seq![digit_char((n % 10) as int)]
                =~= old(out)@ + decimal_text(n as nat));
        }
    }
}

/// The decimal text of `n`.
pub fn decimal_string(n: u64) -> (s: String)
    ensures
        s@ == decimal_text(n as nat),
{
    let mut s = String::new();
    push_decimal(&mut s, n);
    assert(Seq::<char>::empty() + decimal_text(n as nat) =~= decimal_text(n as nat));
    s
}

/// The payload that a token signs.
pub fn token_payload(card_number: &str, good_thru: &str, verify_number: &str, now: u64) -> (payload:
    String)
    ensures
        payload@ == payload_text(card_number@, good_thru@, verify_number@, now),
{
    proof {
        reveal_strlit("|");
    }
    let mut payload = String::new();
    payload.append(card_number);
    payload.append("|");
    payload.append(good_thru);
    payload.append("|");
    payload.append(verify_number);
    payload.append("|");
    push_decimal(&mut payload, now);
    assert(payload@ =~= payload_text(card_number@, good_thru@, verify_number@, now));
    payload
}

/// Joins an encoded payload and a signature into a token.
pub fn join_token(encoded: String, signature: &str) -> (token: String)
    ensures
        token@ == joined_token(encoded@, signature@),
{
    proof {
        reveal_strlit(".");
    }
    let mut token = encoded;
    token.append(".");
    token.append(signature);
    assert(token@ =~= joined_token(encoded@, signature@));
    token
}

/// Signs a payload: its base64 text, a dot, and its HMAC-SHA256 under the
/// secret in hex, which has 64 digits.
pub fn sign_payload(secret: &str, payload: &str) -> (token: String)
    ensures
        token@ == token_text(secret@, payload@),
        token@.len() == base64_text(encode_utf8(payload@)).len() + 65,
{
    let encoded = base64_encode(payload.as_bytes());
    let tag = hmac_sha256_tag(secret.as_bytes(), payload.as_bytes());
    let signature = hex_encode(tag.as_slice());
    join_token(encoded, signature.as_str())
}

/// The token that authorizes a platform for a card: the card's number,
/// expiry and verification code and the time `now`, signed with `secret`.
pub fn generate_token(
    secret: &str,
    card_number: &str,
    good_thru: &str,
    verify_number: &str,
    now: u64,
) -> (token: String)
    ensures
        token@ == token_text(
            secret@,
            payload_text(card_number@, good_thru@, verify_number@, now),
        ),
        token@.len() == base64_text(
            encode_utf8(payload_text(card_number@, good_thru@, verify_number@, now)),
        ).len() + 65,
{
    let payload = token_payload(card_number, good_thru, verify_number, now);
    sign_payload(secret, payload.as_str())
}

} // verus!
