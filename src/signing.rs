//! Authentication of private requests: an HMAC-SHA256 over a fixed domain tag
//! and the request's timestamp, keyed with the hex-encoded API secret and
//! encoded in standard base64.

use hmac::Mac;
use vstd::prelude::*;

verus! {

/// Length in bytes of the decoded API secret.
pub const KEY_LEN: usize = 32;

/// Length in bytes of an HMAC-SHA256 digest.
pub const DIGEST_LEN: usize = 32;

// ---------------------------------------------------------------------------
// Hexadecimal
// ---------------------------------------------------------------------------

pub open spec fn is_hex_digit(c: char) -> bool {
    ('0' as u32 <= c as u32 && c as u32 <= '9' as u32)
    || ('a' as u32 <= c as u32 && c as u32 <= 'f' as u32)
    || ('A' as u32 <= c as u32 && c as u32 <= 'F' as u32)
}

pub open spec fn hex_digit_value(c: char) -> int {
    if '0' as u32 <= c as u32 && c as u32 <= '9' as u32 {
        c as u32 - '0' as u32
    } else if 'a' as u32 <= c as u32 && c as u32 <= 'f' as u32 {
        c as u32 - 'a' as u32 + 10
    } else {
        c as u32 - 'A' as u32 + 10
    }
}

/// An even number of hexadecimal digits, either case.
pub open spec fn is_hex(s: Seq<char>) -> bool {
    &&& s.len() % 2 == 0
    &&& forall|i: int| 0 <= i < s.len() ==> is_hex_digit(#[trigger] s[i])
}

/// The bytes that a hex string stands for, two digits per byte, high digit first.
pub open spec fn hex_bytes(s: Seq<char>) -> Seq<u8> {
    Seq::new(
        (s.len() / 2) as nat,
        |i: int| (hex_digit_value(s[2 * i]) * 16 + hex_digit_value(s[2 * i + 1])) as u8,
    )
}

#[verifier::external_type_specification]
#[verifier::external_body]
pub struct ExFromHexError(hex::FromHexError);

/// Relies on hex::decode: it fails on an odd length or a byte that is not a
/// hex digit, and otherwise turns each pair of digits into one byte.
#[verifier::external_body]
fn decode_hex(s: &str) -> (r: Result<Vec<u8>, hex::FromHexError>)
    ensures
        r is Ok <==> is_hex(s@),
        r is Ok ==> r->Ok_0@ == hex_bytes(s@),
{
    hex::decode(s)
}

// ---------------------------------------------------------------------------
// HMAC-SHA256
// ---------------------------------------------------------------------------

/// The HMAC-SHA256 tag of `msg` under `key`.
pub uninterp spec fn hmac_sha256(key: Seq<u8>, msg: Seq<u8>) -> Seq<u8>;

/// Relies on hmac's `Hmac<Sha256>`: keyed with a slice of any length (keying
/// never fails for it), fed `msg`, and finalized into a 32-byte tag.
#[verifier::external_body]
fn hmac_sha256_tag(key: &[u8], msg: &[u8]) -> (r: Vec<u8>)
    ensures
        r@ == hmac_sha256(key@, msg@),
        r@.len() == DIGEST_LEN,
{
    match hmac::Hmac::<sha2::Sha256>::new_from_slice(key) {
        Ok(mut mac) => {
            mac.update(msg);
            mac.finalize().into_bytes().to_vec()
        },
        Err(_) => Vec::new(),
    }
}

// ---------------------------------------------------------------------------
// Base64
// ---------------------------------------------------------------------------

/// The standard base64 alphabet: `A-Z a-z 0-9 + /`.
pub open spec fn base64_symbol(v: int) -> char {
    if v < 26 {
        (65 + v) as char
    } else if v < 52 {
        (97 + v - 26) as char
    } else if v < 62 {
        (48 + v - 52) as char
    } else if v == 62 {
        '+'
    } else {
        '/'
    }
}

/// Standard base64 with `=` padding: each group of three bytes becomes four
/// symbols, and a final group of one or two bytes is padded to four.
pub open spec fn base64_standard(b: Seq<u8>) -> Seq<char>
    decreases b.len(),
{
    if b.len() == 0 {
        seq![]
    } else if b.len() == 1 {
        let n = b[0] as int;
        seq![base64_symbol(n / 4), base64_symbol((n % 4) * 16), '=', '=']
    } else if b.len() == 2 {
        let n = b[0] as int * 256 + b[1] as int;
        seq![base64_symbol(n / 1024), base64_symbol((n / 16) % 64), base64_symbol((n % 16) * 4), '=']
    } else {
        let n = b[0] as int * 65536 + b[1] as int * 256 + b[2] as int;
        seq![
            base64_symbol(n / 262144),
            base64_symbol((n / 4096) % 64),
            base64_symbol((n / 64) % 64),
            base64_symbol(n % 64),
        ] + base64_standard(b.subrange(3, b.len() as int))
    }
}

/// Standard base64 turns `n` bytes into `4 * ceil(n / 3)` symbols.
pub proof fn lemma_base64_length(b: Seq<u8>)
    ensures
        base64_standard(b).len() == 4 * ((b.len() + 2) / 3),
    decreases b.len(),
{
    if b.len() >= 3 {
        lemma_base64_length(b.subrange(3, b.len() as int));
    }
}

/// Relies on base64's `encode`, the standard alphabet with padding. Its output
/// length must fit in a `usize`, which the bound on the input ensures.
#[verifier::external_body]
#[allow(deprecated)]
fn encode_base64(b: &[u8]) -> (r: String)
    requires
        b@.len() <= usize::MAX / 2,
    ensures
        r@ == base64_standard(b@),
{
    base64::encode(b)
}

// ---------------------------------------------------------------------------
// Signature
// ---------------------------------------------------------------------------

/// The ASCII bytes of the domain tag `cube.xyz`.
pub open spec fn domain_tag() -> Seq<u8> {
    seq![0x63u8, 0x75u8, 0x62u8, 0x65u8, 0x2eu8, 0x78u8, 0x79u8, 0x7au8]
}

/// The eight bytes of `t`, least significant first.
pub open spec fn le_bytes(t: u64) -> Seq<u8> {
    Seq::new(8, |i: int| ((t >> ((8 * i) as u64)) & 0xff) as u8)
}

/// The signed payload: the domain tag followed by the timestamp's bytes.
pub open spec fn signing_payload(timestamp: u64) -> Seq<u8> {
    domain_tag() + le_bytes(timestamp)
}

/// A secret that decodes to a key of the expected length.
pub open spec fn valid_secret(secret: Seq<char>) -> bool {
    is_hex(secret) && hex_bytes(secret).len() == KEY_LEN
}

/// The signature of `timestamp` under a valid `secret`.
pub open spec fn signature_of(secret: Seq<char>, timestamp: u64) -> Seq<char> {
    base64_standard(hmac_sha256(hex_bytes(secret), signing_payload(timestamp)))
}

/// The secret is not a hex string of the expected length.
#[derive(Clone, Copy, Debug, PartialEq, Eq)]
pub enum SignError {
    InvalidKeyEncoding,
}

/// Builds the signed payload for `timestamp`.
pub fn signing_payload_bytes(timestamp: u64) -> (r: Vec<u8>)
    ensures
        r@ == signing_payload(timestamp),
{
    let mut r: Vec<u8> = vec![0x63u8, 0x75u8, 0x62u8, 0x65u8, 0x2eu8, 0x78u8, 0x79u8, 0x7au8];
    assert(r@ == domain_tag());
    let mut i: u64 = 0;
    while i < 8
        invariant
            0 <= i <= 8,
            r@ == domain_tag() + le_bytes(timestamp).subrange(0, i as int),
        decreases 8 - i,
    {
        let byte = ((timestamp >> (8 * i)) & 0xff) as u8;
        r.push(byte);
        assert(le_bytes(timestamp).subrange(0, i as int + 1) == le_bytes(timestamp).subrange(
            0,
            i as int,
        ).push(byte));
        i = i + 1;
    }
    assert(le_bytes(timestamp).subrange(0, 8) == le_bytes(timestamp));
    r
}

/// Encodes a digest as the signature header's value.
pub fn signature_from_digest(digest: &[u8]) -> (r: String)
    requires
        digest@.len() == DIGEST_LEN,
    ensures
        r@ == base64_standard(digest@),
        r@.len() == 44,
{
    proof {
        lemma_base64_length(digest@);
    }
    encode_base64(digest)
}

/// Signs `timestamp` with the hex-encoded secret `api_secret`.
pub fn generate_api_signature(api_secret: &str, timestamp: u64) -> (r: Result<String, SignError>)
    ensures
        r is Ok <==> valid_secret(api_secret@),
        r is Ok ==> r->Ok_0@ == signature_of(api_secret@, timestamp),
        r is Ok ==> r->Ok_0@.len() == 44,
        r is Err ==> r == Err::<String, SignError>(SignError::InvalidKeyEncoding),
{
    let payload = signing_payload_bytes(timestamp);
    match decode_hex(api_secret) {
        Ok(key) => {
            if key.len() != KEY_LEN {
                Err(SignError::InvalidKeyEncoding)
            } else {
                let tag = hmac_sha256_tag(key.as_slice(), payload.as_slice());
                proof {
                    lemma_base64_length(tag@);
                }
                Ok(signature_from_digest(tag.as_slice()))
            }
        },
        Err(_) => Err(SignError::InvalidKeyEncoding),
    }
}

/// Signing yields one signature per secret and timestamp: two signatures made
/// from the same secret and the same timestamp are the same string.
pub proof fn lemma_signature_deterministic(
    secret: Seq<char>,
    timestamp: u64,
    first: Seq<char>,
    second: Seq<char>,
)
    requires
        valid_secret(secret),
        first == signature_of(secret, timestamp),
        second == signature_of(secret, timestamp),
    ensures
        first == second,
{
}

} // verus!
