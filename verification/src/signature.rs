//! Authentication of inbound webhook payloads: a keyed digest of the raw body,
//! rendered as a lowercase hex string and compared against the signature header.

use vstd::prelude::*;
use vstd::string::*;

verus! {

/// The character for one hex nibble, lowercase.
pub open spec fn hex_digit(d: nat) -> char {
    if d == 0 {
        '0'
    } else if d == 1 {
        '1'
    } else if d == 2 {
        '2'
    } else if d == 3 {
        '3'
    } else if d == 4 {
        '4'
    } else if d == 5 {
        '5'
    } else if d == 6 {
        '6'
    } else if d == 7 {
        '7'
    } else if d == 8 {
        '8'
    } else if d == 9 {
        '9'
    } else if d == 10 {
        'a'
    } else if d == 11 {
        'b'
    } else if d == 12 {
        'c'
    } else if d == 13 {
        'd'
    } else if d == 14 {
        'e'
    } else {
        'f'
    }
}

/// Lowercase hex encoding: two digits per byte, high nibble first.
pub open spec fn hex_of(bytes: Seq<u8>) -> Seq<char> {
    Seq::new(
        bytes.len() * 2,
        |i: int|
            if i % 2 == 0 {
                hex_digit((bytes[i / 2] >> 4u8) as nat)
            } else {
                hex_digit((bytes[i / 2] & 0xfu8) as nat)
            },
    )
}

/// The HMAC-SHA256 tag of a message under a key. What it is on given bytes is
/// the business of the digest routine alone; the library only relies on the
/// tag being a function of key and message.
pub uninterp spec fn hmac_sha256(key: Seq<u8>, msg: Seq<u8>) -> Seq<u8>;

/// Relies on ring's `hmac::sign` with `HMAC_SHA256`: the tag depends on key and
/// message alone, and an HMAC-SHA256 tag is 32 bytes long.
#[verifier::external_body]
fn hmac_sha256_tag(key: &[u8], msg: &[u8]) -> (r: Vec<u8>)
    ensures
        r@ == hmac_sha256(key@, msg@),
        r@.len() == 32,
{
    let k = ring::hmac::Key::new(ring::hmac::HMAC_SHA256, key);
    ring::hmac::sign(&k, msg).as_ref().to_vec()
}

/// Relies on `hex::encode`: lowercase hex, two digits per byte, high nibble first.
#[verifier::external_body]
fn hex_encode(bytes: &[u8]) -> (r: String)
    ensures
        r@ == hex_of(bytes@),
{
    hex::encode(bytes)
}

/// The signature header value a sender with this secret puts on this body:
/// `"sha256="` followed by the lowercase hex HMAC-SHA256 tag over the
/// UTF-8 bytes of the body, keyed by the UTF-8 bytes of the secret.
pub open spec fn expected_signature(secret: Seq<char>, body: Seq<char>) -> Seq<char> {
    "sha256="@ + hex_of(hmac_sha256(vstd::utf8::encode_utf8(secret), vstd::utf8::encode_utf8(body)))
}

/// Computes the signature header value for a body under a secret.
pub fn signature_for(secret: &str, body: &str) -> (r: String)
    ensures
        r@ == expected_signature(secret@, body@),
{
    let tag = hmac_sha256_tag(secret.as_bytes(), body.as_bytes());
    let hex = hex_encode(tag.as_slice());
    let mut s = String::from_str("sha256=");
    s.append(hex.as_str());
    s
}

fn bytes_equal_fixed_scan(a: &[u8], b: &[u8]) -> (r: bool)
    ensures
        r == (a@ == b@),
{
    if a.len() != b.len() {
        return false;
    }
    let mut diff: u8 = 0;
    let mut i: usize = 0;
    while i < a.len()
        invariant
            i <= a@.len(),
            a@.len() == b@.len(),
            (diff == 0) <==> (forall|j: int| 0 <= j < i ==> a@[j] == b@[j]),
        decreases a@.len() - i,
    {
        let x = a[i];
        let y = b[i];
        proof {
            assert(((diff | (x ^ y)) == 0) == ((diff == 0) && (x == y))) by (bit_vector);
        }
        diff = diff | (x ^ y);
        i = i + 1;
    }
    if diff == 0 {
        proof {
            assert(a@ =~= b@);
        }
        true
    } else {
        false
    }
}

/// Whether a presented signature equals an expected one, compared in one
/// fixed scan over all the bytes: the work done does not depend on where
/// the two first differ, only on their lengths.
pub fn signatures_match(presented: &str, expected: &str) -> (r: bool)
    ensures
        r == (presented@ == expected@),
{
    let r = bytes_equal_fixed_scan(presented.as_bytes(), expected.as_bytes());
    proof {
        vstd::utf8::encode_utf8_decode_utf8(presented@);
        vstd::utf8::encode_utf8_decode_utf8(expected@);
    }
    r
}

/// The value of the first header with this name, if any.
pub open spec fn header_lookup_from(hs: Seq<(String, String)>, name: Seq<char>, i: int) -> Option<
    String,
>
    decreases hs.len() - i,
{
    if i < 0 || i >= hs.len() {
        None
    } else if hs[i].0@ == name {
        Some(hs[i].1)
    } else {
        header_lookup_from(hs, name, i + 1)
    }
}

/// The value of the first header with this name, if any.
pub open spec fn header_lookup(hs: Seq<(String, String)>, name: Seq<char>) -> Option<String> {
    header_lookup_from(hs, name, 0)
}

/// Finds the first header with the given name.
pub fn find_header(headers: &Vec<(String, String)>, name: &str) -> (r: Option<String>)
    ensures
        r == header_lookup(headers@, name@),
{
    let name_string = String::from_str(name);
    let mut i: usize = 0;
    while i < headers.len()
        invariant
            0 <= i <= headers@.len(),
            name_string@ == name@,
            header_lookup(headers@, name@) == header_lookup_from(headers@, name@, i as int),
        decreases headers@.len() - i,
    {
        if headers[i].0 == name_string {
            return Some(headers[i].1.clone());
        }
        i = i + 1;
    }
    None
}

} // verus!
